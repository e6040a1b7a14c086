use screen_recorder::output_name::{file_name_for, file_name_now, output_file_name, LocalTime};
use screen_recorder::session::{Action, Event, Phase, Session, SessionError, StopFailure};

fn finished(a: Action) -> Result<(), SessionError> {
    match a {
        Action::Finish(r) => r,
        other => panic!("expected a finish, got {:?}", other),
    }
}

#[test]
fn untimed_start_reaches_recording() {
    let mut s = Session::new();
    assert_eq!(s.phase(), Phase::Idle);
    assert!(matches!(s.step(Event::Start { timed: false }), Action::Launch));
    assert!(finished(s.step(Event::Launched)).is_ok());
    assert_eq!(s.phase(), Phase::Recording);
    assert!(s.is_recording());
}

#[test]
fn second_start_fails_without_change() {
    let mut s = Session::new();
    s.step(Event::Start { timed: false });
    s.step(Event::Launched);
    let err = finished(s.step(Event::Start { timed: false })).unwrap_err();
    assert!(matches!(err, SessionError::AlreadyRecording));
    assert_eq!(err.message(), "Recorder is already running!");
    assert_eq!(s.phase(), Phase::Recording);
}

#[test]
fn stop_without_start_fails() {
    let mut s = Session::new();
    let err = finished(s.step(Event::Stop)).unwrap_err();
    assert!(matches!(err, SessionError::NotRecording));
    assert_eq!(err.message(), "Recorder is not recording!");
    assert_eq!(s.phase(), Phase::Idle);
}

#[test]
fn clean_stop_sequence() {
    let mut s = Session::new();
    s.step(Event::Start { timed: false });
    s.step(Event::Launched);
    assert!(matches!(s.step(Event::Stop), Action::SendMarker));
    assert!(matches!(s.step(Event::MarkerSent(true)), Action::CloseCapture));
    assert!(matches!(s.step(Event::CaptureClosed), Action::StopEncoder));
    assert!(finished(s.step(Event::EncoderStopped(true))).is_ok());
    assert_eq!(s.phase(), Phase::Stopped);
    let err = finished(s.step(Event::Stop)).unwrap_err();
    assert!(matches!(err, SessionError::NotRecording));
}

#[test]
fn timed_start_stops_by_itself() {
    let mut s = Session::new();
    assert!(matches!(s.step(Event::Start { timed: true }), Action::Launch));
    assert!(matches!(s.step(Event::Launched), Action::WaitForClose));
    assert_eq!(s.phase(), Phase::Waiting);
    assert!(matches!(s.step(Event::WaitOver), Action::SendMarker));
    assert!(matches!(s.step(Event::MarkerSent(true)), Action::CloseCapture));
    assert!(matches!(s.step(Event::CaptureClosed), Action::StopEncoder));
    assert!(finished(s.step(Event::EncoderStopped(true))).is_ok());
    assert_eq!(s.phase(), Phase::Stopped);
}

#[test]
fn lost_channel_forces_stop() {
    let mut s = Session::new();
    s.step(Event::Start { timed: false });
    s.step(Event::Launched);
    s.step(Event::Stop);
    assert!(matches!(s.step(Event::MarkerSent(false)), Action::CloseCapture));
    assert!(matches!(s.step(Event::CaptureClosed), Action::ForceStopEncoder));
    let err = finished(s.step(Event::EncoderForced)).unwrap_err();
    assert!(matches!(err, SessionError::StoppedForcefully(StopFailure::MarkerNotSent)));
    assert_eq!(
        err.message(),
        "Stop message could not be sent => Recorder was stopped forcefully!"
    );
    assert_eq!(s.phase(), Phase::Stopped);
}

#[test]
fn failed_graceful_stop_falls_back() {
    let mut s = Session::new();
    s.step(Event::Start { timed: true });
    s.step(Event::Launched);
    s.step(Event::WaitOver);
    s.step(Event::MarkerSent(true));
    s.step(Event::CaptureClosed);
    assert!(matches!(s.step(Event::EncoderStopped(false)), Action::ForceStopEncoder));
    let err = finished(s.step(Event::EncoderForced)).unwrap_err();
    assert!(err.message().ends_with("Recorder was stopped forcefully!"));
    assert!(matches!(err, SessionError::StoppedForcefully(StopFailure::EncoderNotFinalized)));
    assert_eq!(s.phase(), Phase::Stopped);
}

#[test]
fn failed_launch_returns_to_idle() {
    let mut s = Session::new();
    s.step(Event::Start { timed: false });
    let err = finished(s.step(Event::LaunchFailed(String::from("no encoder")))).unwrap_err();
    assert_eq!(err.message(), "no encoder");
    assert_eq!(s.phase(), Phase::Idle);
    assert!(matches!(s.step(Event::Start { timed: false }), Action::Launch));
}

#[test]
fn stray_events_are_ignored() {
    let mut s = Session::new();
    assert!(matches!(s.step(Event::CaptureClosed), Action::Ignore));
    assert!(matches!(s.step(Event::WaitOver), Action::Ignore));
    assert_eq!(s.phase(), Phase::Idle);
}

#[test]
fn file_name_from_time() {
    let t = LocalTime { year: 2024, month: 3, day: 7, hour: 9, minute: 5, second: 1 };
    assert_eq!(output_file_name(&t), "2024-03-07_09-05-01.mp4");
    let t = LocalTime { year: 987, month: 12, day: 31, hour: 23, minute: 59, second: 59 };
    assert_eq!(output_file_name(&t), "0987-12-31_23-59-59.mp4");
}

#[test]
fn file_name_now_has_the_shape() {
    let name = file_name_now().unwrap();
    let b = name.as_bytes();
    assert_eq!(b.len(), 23);
    assert!(name.ends_with(".mp4"));
    assert_eq!(b[4], b'-');
    assert_eq!(b[7], b'-');
    assert_eq!(b[10], b'_');
    assert_eq!(b[13], b'-');
    assert_eq!(b[16], b'-');
    assert!(b[..4].iter().all(|c| c.is_ascii_digit()));
    assert_ne!(&name[..4], "0000");
}

#[test]
fn file_name_only_for_four_digit_years() {
    let t = LocalTime { year: 2026, month: 10, day: 17, hour: 0, minute: 0, second: 9 };
    assert_eq!(file_name_for(&t), Some(String::from("2026-10-17_00-00-09.mp4")));
    let far = LocalTime { year: 10000, month: 1, day: 1, hour: 0, minute: 0, second: 0 };
    assert_eq!(file_name_for(&far), None);
    let before = LocalTime { year: -1, month: 1, day: 1, hour: 0, minute: 0, second: 0 };
    assert_eq!(file_name_for(&before), None);
}
