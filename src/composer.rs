use vstd::prelude::*;

use std::sync::mpsc::Sender;

use crate::frame_source::{drain_spec, FrameItem, FramePull, FrameSource};
use crate::resolution::Size;

verus! {

/// The timestamp of the first sample, in 100-nanosecond ticks: a little more
/// than zero, which some encoders read as "no timestamp".
pub const FIRST_SAMPLE_TICKS: i64 = 100;

/// The timestamp given to a frame captured at `frame_time`, with `baseline`
/// the capture time of the first frame if one has been seen.
pub open spec fn stamp_spec(baseline: Option<i64>, frame_time: i64) -> int {
    match baseline {
        None => FIRST_SAMPLE_TICKS as int,
        Some(b) => frame_time - b,
    }
}

/// The sample timestamps of frames captured at `times`, in order.
pub open spec fn stamps_of(times: Seq<i64>) -> Seq<int> {
    Seq::new(
        times.len(),
        |i: int|
            if i == 0 {
                stamp_spec(None, times[0])
            } else {
                stamp_spec(Some(times[0]), times[i])
            },
    )
}

/// Capture times that never go back.
pub open spec fn non_decreasing(times: Seq<i64>) -> bool {
    forall|i: int, j: int| 0 <= i <= j < times.len() ==> times[i] <= times[j]
}

/// The first sample's timestamp is the fixed positive offset.
pub proof fn lemma_first_stamp_positive(frame_time: i64)
    ensures
        stamp_spec(None, frame_time) == FIRST_SAMPLE_TICKS,
        stamp_spec(None, frame_time) > 0,
{
}

/// Frames whose capture times never go back get timestamps that never go
/// back, provided the second frame comes at least the first sample's offset
/// after the first; frames dropped in between change nothing.
pub proof fn lemma_stamps_non_decreasing(times: Seq<i64>)
    requires
        non_decreasing(times),
        times.len() > 1 ==> times[1] - times[0] >= FIRST_SAMPLE_TICKS,
    ensures
        forall|i: int, j: int|
            0 <= i <= j < times.len() ==> #[trigger] stamps_of(times)[i] <= #[trigger] stamps_of(
                times,
            )[j],
{
    assert forall|i: int, j: int| 0 <= i <= j < times.len() implies #[trigger] stamps_of(
        times,
    )[i] <= #[trigger] stamps_of(times)[j] by {
        if i == 0 && j > 0 {
            assert(times[1] <= times[j]);
        }
    }
}

/// Stamps each sample relative to the first frame seen.
pub struct SampleClock {
    seen_first: bool,
    first: i64,
}

impl SampleClock {
    /// The capture time of the first frame, once one has been stamped.
    pub closed spec fn baseline(&self) -> Option<i64> {
        if self.seen_first {
            Some(self.first)
        } else {
            None
        }
    }

    pub fn new() -> (r: Self)
        ensures
            r.baseline() is None,
    {
        SampleClock { seen_first: false, first: 0 }
    }

    /// Whether a frame captured at `frame_time` can be stamped: its distance
    /// from the baseline fits a timestamp.
    pub fn can_stamp(&self, frame_time: i64) -> (r: bool)
        ensures
            r == (self.baseline() is Some ==> i64::MIN <= frame_time - self.baseline()->0
                <= i64::MAX),
    {
        if !self.seen_first {
            true
        } else {
            frame_time.checked_sub(self.first).is_some()
        }
    }

    /// The timestamp of a frame captured at `frame_time`: the fixed offset
    /// for the first frame, which becomes the baseline, and the time since
    /// the baseline for every later one.
    pub fn stamp(&mut self, frame_time: i64) -> (t: i64)
        requires
            old(self).baseline() is Some ==> i64::MIN <= frame_time - old(
                self,
            ).baseline()->0 <= i64::MAX,
        ensures
            t == stamp_spec(old(self).baseline(), frame_time),
            old(self).baseline() is None ==> final(self).baseline() == Some(frame_time),
            old(self).baseline() is Some ==> final(self).baseline() == old(self).baseline(),
    {
        if !self.seen_first {
            self.first = frame_time;
            self.seen_first = true;
            FIRST_SAMPLE_TICKS
        } else {
            frame_time - self.first
        }
    }
}

/// The part of a frame copied onto the output surface, from its origin.
#[derive(Copy, Clone, Debug, PartialEq, Eq, Structural)]
pub struct Region {
    pub width: u32,
    pub height: u32,
}

/// How one frame is composed: the surface is cleared to the background
/// color, then `copy` is copied from the frame's origin to the surface's.
#[derive(Copy, Clone, Debug, PartialEq, Eq, Structural)]
pub struct ComposePlan {
    pub surface: Size,
    pub copy: Region,
}

/// `v` clamped to `[0, bound]`.
pub open spec fn clamp_spec(v: int, bound: int) -> int {
    if v < 0 {
        0
    } else if v > bound {
        bound
    } else {
        v
    }
}

/// The smaller of the frame texture's extent and the surface's along one axis.
pub open spec fn copy_bound(source: u32, surface: i32) -> int {
    if (source as int) < (surface as int) {
        source as int
    } else {
        surface as int
    }
}

fn clamp_dimension(v: i32, source: u32, surface: i32) -> (r: u32)
    requires
        surface >= 0,
    ensures
        r == clamp_spec(v as int, copy_bound(source, surface)),
{
    let bound: u32 = if (source as i64) < (surface as i64) {
        source
    } else {
        surface as u32
    };
    if v < 0 {
        0
    } else if v as u32 > bound {
        bound
    } else {
        v as u32
    }
}

/// Plans the composition of a frame whose content has size `content`, held
/// in a texture of size `source`, onto the fixed output surface: a smaller
/// frame leaves background around it, a larger one is cropped to what both
/// the texture and the surface hold, and the surface keeps its size either
/// way.
pub fn plan_composition(content: Size, source: Region, surface: Size) -> (r: ComposePlan)
    requires
        surface.width >= 0,
        surface.height >= 0,
    ensures
        r.surface == surface,
        r.copy.width == clamp_spec(content.width as int, copy_bound(source.width, surface.width)),
        r.copy.height == clamp_spec(
            content.height as int,
            copy_bound(source.height, surface.height),
        ),
        r.copy.width <= surface.width,
        r.copy.height <= surface.height,
        r.copy.width <= source.width,
        r.copy.height <= source.height,
{
    ComposePlan {
        surface,
        copy: Region {
            width: clamp_dimension(content.width, source.width, surface.width),
            height: clamp_dimension(content.height, source.height, surface.height),
        },
    }
}

/// Pulls frames from the frame source and prepares each for composition
/// onto a surface of fixed size, with its timestamp.
#[verifier::reject_recursive_types(F)]
pub struct SampleComposer<F> {
    source: FrameSource<F>,
    clock: SampleClock,
    surface: Size,
}

impl<F> SampleComposer<F> {
    /// Whether the end of the stream has been met.
    pub closed spec fn has_ended(&self) -> bool {
        self.source.has_ended()
    }

    /// The capture time of the first frame prepared, if any.
    pub closed spec fn baseline(&self) -> Option<i64> {
        self.clock.baseline()
    }

    /// The size of the output surface.
    pub closed spec fn surface_size(&self) -> Size {
        self.surface
    }

    /// The output surface has no negative dimension.
    pub closed spec fn wf(&self) -> bool {
        self.surface.width >= 0 && self.surface.height >= 0
    }

    pub fn new(surface: Size) -> (r: Self)
        requires
            surface.width >= 0,
            surface.height >= 0,
        ensures
            r.wf(),
            !r.has_ended(),
            r.baseline() is None,
            r.surface_size() == surface,
    {
        SampleComposer { source: FrameSource::new(), clock: SampleClock::new(), surface }
    }

    /// A handle for producers to push frames and the end-of-stream marker.
    pub fn sender(&self) -> Sender<FrameItem<F>> {
        self.source.sender()
    }

    pub fn surface(&self) -> (r: Size)
        ensures
            r == self.surface_size(),
    {
        self.surface
    }

    pub fn is_ended(&self) -> (r: bool)
        ensures
            r == self.has_ended(),
    {
        self.source.is_ended()
    }

    /// The newest available frame, with the older ones to release. After
    /// the end of the stream it yields nothing, every time.
    pub fn pull_frame(&mut self) -> (r: FramePull<F>)
        ensures
            final(self).wf() == old(self).wf(),
            old(self).has_ended() ==> r@ == (None::<F>, Seq::<F>::empty(), true),
            final(self).has_ended() == (old(self).has_ended() || r.ended),
            exists|items: Seq<FrameItem<F>>| r@ == drain_spec(items),
            final(self).baseline() == old(self).baseline(),
            final(self).surface_size() == old(self).surface_size(),
    {
        self.source.try_get_next_frame()
    }

    /// Whether a frame captured at `frame_time` can be prepared: its
    /// distance from the first frame's capture time fits a timestamp.
    pub fn can_prepare(&self, frame_time: i64) -> (r: bool)
        ensures
            r == (self.baseline() is Some ==> i64::MIN <= frame_time - self.baseline()->0
                <= i64::MAX),
    {
        self.clock.can_stamp(frame_time)
    }

    /// The timestamp and the composition plan of a frame captured at
    /// `frame_time` whose content has size `content`, in a texture of size
    /// `source`.
    pub fn prepare(&mut self, frame_time: i64, content: Size, source: Region) -> (r: (
        i64,
        ComposePlan,
    ))
        requires
            old(self).wf(),
            old(self).baseline() is Some ==> i64::MIN <= frame_time - old(
                self,
            ).baseline()->0 <= i64::MAX,
        ensures
            final(self).wf(),
            r.0 == stamp_spec(old(self).baseline(), frame_time),
            r.1.surface == old(self).surface_size(),
            r.1.copy.width == clamp_spec(
                content.width as int,
                copy_bound(source.width, old(self).surface_size().width),
            ),
            r.1.copy.height == clamp_spec(
                content.height as int,
                copy_bound(source.height, old(self).surface_size().height),
            ),
            old(self).baseline() is None ==> final(self).baseline() == Some(frame_time),
            old(self).baseline() is Some ==> final(self).baseline() == old(self).baseline(),
            final(self).has_ended() == old(self).has_ended(),
            final(self).surface_size() == old(self).surface_size(),
    {
        let t = self.clock.stamp(frame_time);
        let plan = plan_composition(content, source, self.surface);
        (t, plan)
    }
}

} // verus!
