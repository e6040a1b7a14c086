use screen_recorder::composer::{plan_composition, Region, SampleClock, SampleComposer};
use screen_recorder::frame_source::{
    drain_to_latest, push_end_of_stream, push_frame, take_received, FrameItem, FramePull,
    FrameSource,
};
use screen_recorder::resolution::Size;

#[test]
fn pull_keeps_newest_of_a_burst() {
    let mut source: FrameSource<u32> = FrameSource::new();
    let tx = source.sender();
    assert!(push_frame(&tx, 1));
    assert!(push_frame(&tx, 2));
    assert!(push_frame(&tx, 3));
    let pull = source.try_get_next_frame();
    assert_eq!(pull.latest, Some(3));
    assert_eq!(pull.released, vec![1, 2]);
    assert!(!pull.ended);
    assert!(!source.is_ended());
}

#[test]
fn single_frame_releases_nothing() {
    let mut source: FrameSource<u32> = FrameSource::new();
    let tx = source.sender();
    assert!(push_frame(&tx, 7));
    let pull = source.try_get_next_frame();
    assert_eq!(pull.latest, Some(7));
    assert!(pull.released.is_empty());
}

#[test]
fn empty_channel_times_out_without_ending() {
    let mut source: FrameSource<u32> = FrameSource::new();
    let pull = source.try_get_next_frame();
    assert_eq!(pull.latest, None);
    assert!(pull.released.is_empty());
    assert!(!pull.ended);
    assert!(!source.is_ended());
}

#[test]
fn end_of_stream_is_final() {
    let mut source: FrameSource<u32> = FrameSource::new();
    let tx = source.sender();
    assert!(push_frame(&tx, 1));
    assert!(push_frame(&tx, 2));
    assert!(push_end_of_stream(&tx));
    assert!(push_frame(&tx, 3));
    let pull = source.try_get_next_frame();
    assert_eq!(pull.latest, None);
    assert_eq!(pull.released, vec![1, 2]);
    assert!(pull.ended);
    assert!(source.is_ended());
    assert!(push_frame(&tx, 4));
    let again = source.try_get_next_frame();
    assert_eq!(again.latest, None);
    assert!(again.released.is_empty());
    assert!(again.ended);
}

#[test]
fn producer_learns_consumer_is_gone() {
    let source: FrameSource<u32> = FrameSource::new();
    let tx = source.sender();
    drop(source);
    assert!(!push_frame(&tx, 1));
    assert!(!push_end_of_stream(&tx));
}

#[test]
fn drain_burst_in_order() {
    let pull = drain_to_latest(vec![
        FrameItem::Frame(10u32),
        FrameItem::Frame(11),
        FrameItem::Frame(12),
        FrameItem::Frame(13),
    ]);
    assert_eq!(pull.latest, Some(13));
    assert_eq!(pull.released, vec![10, 11, 12]);
    assert!(!pull.ended);
}

#[test]
fn drain_stops_at_marker() {
    let pull = drain_to_latest(vec![
        FrameItem::Frame(1u32),
        FrameItem::EndOfStream,
        FrameItem::Frame(2),
    ]);
    assert_eq!(pull.latest, None);
    assert_eq!(pull.released, vec![1]);
    assert!(pull.ended);
    let empty = drain_to_latest(Vec::<FrameItem<u32>>::new());
    assert_eq!(empty.latest, None);
    assert!(!empty.ended);
}

#[test]
fn first_stamp_is_small_positive() {
    let mut clock = SampleClock::new();
    assert_eq!(clock.stamp(5_000_000), 100);
    assert_eq!(clock.stamp(5_000_000 + 333_333), 333_333);
    assert_eq!(clock.stamp(5_000_000 + 666_666), 666_666);
}

#[test]
fn stamps_never_go_back_with_drops() {
    let mut clock = SampleClock::new();
    let times = [1_000i64, 1_500, 4_000, 4_000, 90_000];
    let mut last = i64::MIN;
    for t in times {
        let s = clock.stamp(t);
        assert!(s >= last);
        assert!(s > 0);
        last = s;
    }
    assert_eq!(last, 89_000);
}

const BIG: Region = Region { width: 8000, height: 8000 };

#[test]
fn smaller_frame_is_padded() {
    let plan = plan_composition(
        Size { width: 800, height: 600 },
        BIG,
        Size { width: 1920, height: 1080 },
    );
    assert_eq!(plan.surface, Size { width: 1920, height: 1080 });
    assert_eq!(plan.copy, Region { width: 800, height: 600 });
}

#[test]
fn larger_frame_is_cropped() {
    let plan = plan_composition(
        Size { width: 2560, height: 900 },
        BIG,
        Size { width: 1920, height: 1080 },
    );
    assert_eq!(plan.surface, Size { width: 1920, height: 1080 });
    assert_eq!(plan.copy, Region { width: 1920, height: 900 });
    let odd = plan_composition(
        Size { width: -5, height: 5000 },
        BIG,
        Size { width: 1280, height: 720 },
    );
    assert_eq!(odd.surface, Size { width: 1280, height: 720 });
    assert_eq!(odd.copy, Region { width: 0, height: 720 });
}

#[test]
fn composer_pulls_and_prepares() {
    let mut composer: SampleComposer<u32> = SampleComposer::new(Size { width: 1280, height: 720 });
    let tx = composer.sender();
    assert!(push_frame(&tx, 1));
    assert!(push_frame(&tx, 2));
    let pull = composer.pull_frame();
    assert_eq!(pull.latest, Some(2));
    assert_eq!(pull.released, vec![1]);
    let (t0, plan0) = composer.prepare(7_000, Size { width: 1300, height: 700 }, BIG);
    assert_eq!(t0, 100);
    assert_eq!(plan0.copy, Region { width: 1280, height: 700 });
    let (t1, plan1) = composer.prepare(7_500, Size { width: 640, height: 480 }, BIG);
    assert_eq!(t1, 500);
    assert_eq!(plan1.surface, Size { width: 1280, height: 720 });
    assert_eq!(composer.surface(), Size { width: 1280, height: 720 });
    assert!(push_end_of_stream(&tx));
    assert!(composer.pull_frame().ended);
    assert!(composer.is_ended());
    assert!(push_frame(&tx, 3));
    assert_eq!(composer.pull_frame().latest, None);
}

#[test]
fn copy_stays_inside_the_frame_texture() {
    let plan = plan_composition(
        Size { width: 1500, height: 900 },
        Region { width: 1200, height: 1000 },
        Size { width: 1280, height: 720 },
    );
    assert_eq!(plan.surface, Size { width: 1280, height: 720 });
    assert_eq!(plan.copy, Region { width: 1200, height: 720 });
}

#[test]
fn nothing_received_leaves_the_stream_open() {
    let mut pull: FramePull<u32> = FramePull::empty();
    assert!(take_received(&mut pull, Some(FrameItem::Frame(1))));
    assert!(!take_received(&mut pull, None));
    assert_eq!(pull.latest, Some(1));
    assert!(pull.released.is_empty());
    assert!(!pull.ended);
    assert!(take_received(&mut pull, Some(FrameItem::Frame(2))));
    assert_eq!(pull.released, vec![1]);
    assert!(!take_received(&mut pull, Some(FrameItem::EndOfStream)));
    assert_eq!(pull.latest, None);
    assert_eq!(pull.released, vec![1, 2]);
    assert!(pull.ended);
}
