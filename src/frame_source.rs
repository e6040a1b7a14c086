use std::sync::mpsc::{Receiver, Sender};

use vstd::prelude::*;

verus! {

/// One item of the frame channel: a captured frame, or the marker that no
/// frame follows.
pub enum FrameItem<F> {
    Frame(F),
    EndOfStream,
}

/// What one pull of the frame source yields: the newest frame read, the
/// older frames it superseded (oldest first, for the caller to release), and
/// whether the end-of-stream marker was read.
pub struct FramePull<F> {
    pub latest: Option<F>,
    pub released: Vec<F>,
    pub ended: bool,
}

impl<F> View for FramePull<F> {
    type V = (Option<F>, Seq<F>, bool);

    open spec fn view(&self) -> (Option<F>, Seq<F>, bool) {
        (self.latest, self.released@, self.ended)
    }
}

/// The frames held by an `Option`, as a sequence of zero or one.
pub open spec fn opt_seq<F>(o: Option<F>) -> Seq<F> {
    match o {
        Some(f) => seq![f],
        None => Seq::empty(),
    }
}

/// The effect of reading one more item: a frame supersedes the one held,
/// the marker ends the pull, and nothing is read once it has ended.
pub open spec fn accept_spec<F>(d: (Option<F>, Seq<F>, bool), item: FrameItem<F>) -> (
    Option<F>,
    Seq<F>,
    bool,
) {
    if d.2 {
        d
    } else {
        match item {
            FrameItem::Frame(f) => (Some(f), d.1 + opt_seq(d.0), false),
            FrameItem::EndOfStream => (None, d.1 + opt_seq(d.0), true),
        }
    }
}

/// The outcome of a pull that read `items` in order.
pub open spec fn drain_spec<F>(items: Seq<FrameItem<F>>) -> (Option<F>, Seq<F>, bool)
    decreases items.len(),
{
    if items.len() == 0 {
        (None, Seq::empty(), false)
    } else {
        accept_spec(drain_spec(items.drop_last()), items.last())
    }
}

/// Every item is a frame.
pub open spec fn all_frames<F>(items: Seq<FrameItem<F>>) -> bool {
    forall|i: int| 0 <= i < items.len() ==> (#[trigger] items[i]) is Frame
}

/// The frames carried by `items`.
pub open spec fn frames_of<F>(items: Seq<FrameItem<F>>) -> Seq<F> {
    items.map_values(|it: FrameItem<F>| it->Frame_0)
}

proof fn lemma_drain_step<F>(items: Seq<FrameItem<F>>, i: int)
    requires
        0 <= i < items.len(),
    ensures
        drain_spec(items.take(i + 1)) == accept_spec(drain_spec(items.take(i)), items[i]),
{
    assert(items.take(i + 1).drop_last() =~= items.take(i));
}

/// A pull over a burst of frames yields the newest one, and hands every
/// older one back once, oldest first, for release.
pub proof fn lemma_pull_keeps_newest<F>(items: Seq<FrameItem<F>>)
    requires
        items.len() > 0,
        all_frames(items),
    ensures
        drain_spec(items) == (Some(items.last()->Frame_0), frames_of(items.drop_last()), false),
    decreases items.len(),
{
    let rest = items.drop_last();
    assert(rest.len() == items.len() - 1);
    assert(drain_spec(items) == accept_spec(drain_spec(rest), items.last()));
    assert(items[items.len() - 1] is Frame);
    if rest.len() == 0 {
        assert(frames_of(rest) =~= Seq::<F>::empty());
        assert(Seq::<F>::empty() + opt_seq(None::<F>) =~= Seq::<F>::empty());
    } else {
        assert(all_frames(rest)) by {
            assert forall|i: int| 0 <= i < rest.len() implies (#[trigger] rest[i]) is Frame by {
                assert(rest[i] == items[i]);
            }
        }
        lemma_pull_keeps_newest(rest);
        assert(frames_of(rest.drop_last()) + opt_seq(Some(rest.last()->Frame_0)) =~= frames_of(
            rest,
        ));
    }
}

/// A pull that meets the end-of-stream marker yields no frame and hands
/// back every frame read before it.
pub proof fn lemma_pull_stops_at_end<F>(items: Seq<FrameItem<F>>)
    requires
        items.len() > 0,
        items.last() is EndOfStream,
        all_frames(items.drop_last()),
    ensures
        drain_spec(items) == (None::<F>, frames_of(items.drop_last()), true),
{
    let rest = items.drop_last();
    assert(drain_spec(items) == accept_spec(drain_spec(rest), items.last()));
    if rest.len() > 0 {
        lemma_pull_keeps_newest(rest);
        assert(frames_of(rest.drop_last()) + opt_seq(Some(rest.last()->Frame_0)) =~= frames_of(
            rest,
        ));
    } else {
        assert(frames_of(rest) =~= Seq::<F>::empty());
        assert(Seq::<F>::empty() + opt_seq(None::<F>) =~= Seq::<F>::empty());
    }
}

/// Once a pull has met the end-of-stream marker, no further item changes
/// its outcome: the end of the stream is final.
pub proof fn lemma_end_is_final<F>(items: Seq<FrameItem<F>>, more: Seq<FrameItem<F>>)
    requires
        drain_spec(items).2,
    ensures
        drain_spec(items + more) == drain_spec(items),
    decreases more.len(),
{
    if more.len() == 0 {
        assert(items + more =~= items);
    } else {
        let shorter = more.drop_last();
        lemma_end_is_final(items, shorter);
        assert((items + more).drop_last() =~= items + shorter);
    }
}

impl<F> FramePull<F> {
    /// A pull that has read nothing yet.
    pub fn empty() -> (r: Self)
        ensures
            r@ == drain_spec(Seq::<FrameItem<F>>::empty()),
    {
        FramePull { latest: None, released: Vec::new(), ended: false }
    }

    /// Reads one more item into the pull.
    pub fn accept(&mut self, item: FrameItem<F>)
        ensures
            final(self)@ == accept_spec(old(self)@, item),
    {
        if self.ended {
            return ;
        }
        if let Some(prev) = self.latest.take() {
            self.released.push(prev);
        }
        proof {
            assert(self.released@ =~= old(self).released@ + opt_seq(old(self).latest));
        }
        match item {
            FrameItem::Frame(f) => {
                self.latest = Some(f);
            },
            FrameItem::EndOfStream => {
                self.ended = true;
            },
        }
    }
}

/// Reads a burst of buffered items in order, keeping only the newest frame
/// and stopping at the end-of-stream marker.
pub fn drain_to_latest<F>(items: Vec<FrameItem<F>>) -> (r: FramePull<F>)
    ensures
        r@ == drain_spec(items@),
{
    let ghost all = items@;
    let n: usize = items.len();
    let mut items = items;
    let mut pull = FramePull::empty();
    let mut i: usize = 0;
    while items.len() > 0
        invariant
            i + items@.len() == all.len(),
            all.len() == n,
            items@ == all.skip(i as int),
            pull@ == drain_spec(all.take(i as int)),
        decreases items@.len(),
    {
        let item = items.remove(0);
        proof {
            assert(item == all[i as int]);
            lemma_drain_step(all, i as int);
        }
        pull.accept(item);
        i = i + 1;
        proof {
            assert(items@ =~= all.skip(i as int));
        }
    }
    proof {
        assert(all.take(i as int) =~= all);
    }
    pull
}

/// The sending end of a std channel, used as an opaque handle.
#[verifier::external_type_specification]
#[verifier::external_body]
#[verifier::reject_recursive_types(T)]
pub struct ExSender<T>(Sender<T>);

/// The receiving end of a std channel, used as an opaque handle.
#[verifier::external_type_specification]
#[verifier::external_body]
#[verifier::reject_recursive_types(T)]
pub struct ExReceiver<T>(Receiver<T>);

/// Takes what a receive returned into the pull, and says whether to read
/// on: nothing received (a timeout, or an empty channel) leaves the pull as
/// it is and stops reading without ending the stream; an item is read in,
/// and reading goes on unless it was the end-of-stream marker.
pub fn take_received<F>(pull: &mut FramePull<F>, next: Option<FrameItem<F>>) -> (more: bool)
    ensures
        next is None ==> final(pull)@ == old(pull)@ && !more,
        next is Some ==> final(pull)@ == accept_spec(old(pull)@, next->0),
        next is Some ==> more == !final(pull).ended,
{
    match next {
        Some(item) => {
            pull.accept(item);
            !pull.ended
        },
        None => false,
    }
}

/// How long a pull waits for the first item, in milliseconds.
pub const FRAME_WAIT_MILLIS: u64 = 1000;

/// Relies on std::sync::mpsc::channel: a new channel of unbounded capacity.
#[verifier::external_body]
fn open_channel<T>() -> (Sender<T>, Receiver<T>) {
    std::sync::mpsc::channel()
}

/// Relies on Receiver::recv_timeout: an item if one arrives within `millis`
/// milliseconds. What arrives depends on other threads.
#[verifier::external_body]
fn receive_within<T>(receiver: &Receiver<T>, millis: u64) -> Option<T> {
    receiver.recv_timeout(std::time::Duration::from_millis(millis)).ok()
}

/// Relies on Receiver::try_recv: an item if one is buffered, without
/// waiting. What is buffered depends on other threads.
#[verifier::external_body]
fn receive_buffered<T>(receiver: &Receiver<T>) -> Option<T> {
    receiver.try_recv().ok()
}

/// Relies on Sender::send: whether the item was handed to a receiver that
/// is still there.
#[verifier::external_body]
fn send_item<T>(sender: &Sender<T>, item: T) -> bool {
    sender.send(item).is_ok()
}

/// Relies on Sender's Clone: another handle on the same channel.
#[verifier::external_body]
fn clone_sender<T>(sender: &Sender<T>) -> Sender<T> {
    sender.clone()
}

/// Hands a captured frame to the frame source; `false` when the consuming
/// side is gone and the producer should stop.
pub fn push_frame<F>(sender: &Sender<FrameItem<F>>, frame: F) -> bool {
    send_item(sender, FrameItem::Frame(frame))
}

/// Sends the end-of-stream marker; `false` when the consuming side is
/// already gone.
pub fn push_end_of_stream<F>(sender: &Sender<FrameItem<F>>) -> bool {
    send_item(sender, FrameItem::EndOfStream)
}

/// The consuming end of the frame channel, which remembers whether the end
/// of the stream has been seen.
#[verifier::reject_recursive_types(F)]
pub struct FrameSource<F> {
    sender: Sender<FrameItem<F>>,
    receiver: Receiver<FrameItem<F>>,
    ended: bool,
}

impl<F> FrameSource<F> {
    /// Whether a pull has met the end-of-stream marker.
    pub closed spec fn has_ended(&self) -> bool {
        self.ended
    }

    pub fn new() -> (r: Self)
        ensures
            !r.has_ended(),
    {
        let (sender, receiver) = open_channel();
        FrameSource { sender, receiver, ended: false }
    }

    /// A handle for producers to push frames and the marker with.
    pub fn sender(&self) -> Sender<FrameItem<F>> {
        clone_sender(&self.sender)
    }

    pub fn is_ended(&self) -> (r: bool)
        ensures
            r == self.has_ended(),
    {
        self.ended
    }

    /// Waits up to a second for an item, then reads what is buffered behind
    /// it, up to and including an end-of-stream marker, taking each receive's
    /// result in with `take_received`. A wait that times out yields no frame
    /// and leaves the stream open. Once the marker has been met, every later
    /// pull yields nothing.
    pub fn try_get_next_frame(&mut self) -> (r: FramePull<F>)
        ensures
            old(self).has_ended() ==> r@ == (None::<F>, Seq::<F>::empty(), true),
            final(self).has_ended() == (old(self).has_ended() || r.ended),
            exists|items: Seq<FrameItem<F>>| r@ == drain_spec(items),
    {
        if self.ended {
            let mut done = FramePull::empty();
            done.accept(FrameItem::EndOfStream);
            proof {
                let one = seq![FrameItem::<F>::EndOfStream];
                assert(one.drop_last() =~= Seq::<FrameItem<F>>::empty());
                assert(done@.1 =~= Seq::<F>::empty());
                assert(done@ == drain_spec(one));
            }
            return done;
        }
        let mut pull = FramePull::empty();
        let ghost mut read: Seq<FrameItem<F>> = Seq::empty();
        let first = receive_within(&self.receiver, FRAME_WAIT_MILLIS);
        proof {
            if first is Some {
                assert(read.push(first->0).drop_last() =~= read);
                read = read.push(first->0);
            }
        }
        let mut more = take_received(&mut pull, first);
        let mut count: u64 = 0;
        while more && count < u64::MAX
            invariant
                pull@ == drain_spec(read),
            decreases u64::MAX - count,
        {
            let next = receive_buffered(&self.receiver);
            proof {
                if next is Some {
                    assert(read.push(next->0).drop_last() =~= read);
                    read = read.push(next->0);
                }
            }
            more = take_received(&mut pull, next);
            count = count + 1;
        }
        self.ended = pull.ended;
        pull
    }
}

} // verus!
