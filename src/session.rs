use vstd::prelude::*;
use vstd::string::*;

verus! {

/// Why a stop could not finish cleanly and fell back to a forced stop.
#[derive(Copy, Clone, Debug, PartialEq, Eq, Structural)]
pub enum StopFailure {
    /// The end-of-stream marker could not be sent: the frame channel is gone.
    MarkerNotSent,
    /// The encoder did not finish its output gracefully.
    EncoderNotFinalized,
}

/// What a `start` or `stop` of a recording session reports on failure.
#[derive(Clone, Debug)]
pub enum SessionError {
    /// `start` while a recording runs.
    AlreadyRecording,
    /// `stop` while no recording runs.
    NotRecording,
    /// The capture session or the encoder could not be started.
    LaunchFailed(String),
    /// The stop sequence had to cancel the encoder; the output may be cut short.
    StoppedForcefully(StopFailure),
}

/// The text of a failure, as `start` and `stop` report it.
pub open spec fn message_spec(e: SessionError) -> Seq<char> {
    match e {
        SessionError::AlreadyRecording => "Recorder is already running!"@,
        SessionError::NotRecording => "Recorder is not recording!"@,
        SessionError::LaunchFailed(m) => m@,
        SessionError::StoppedForcefully(StopFailure::MarkerNotSent) => "Stop message could not be sent => "@
            + "Recorder was stopped forcefully!"@,
        SessionError::StoppedForcefully(StopFailure::EncoderNotFinalized) =>
            "Encoder could not finish the output => "@ + "Recorder was stopped forcefully!"@,
    }
}

impl SessionError {
    /// A human-readable description of the failure.
    pub fn message(&self) -> (r: String)
        ensures
            r@ == message_spec(*self),
    {
        match self {
            SessionError::AlreadyRecording => String::from_str("Recorder is already running!"),
            SessionError::NotRecording => String::from_str("Recorder is not recording!"),
            SessionError::LaunchFailed(m) => m.clone(),
            SessionError::StoppedForcefully(f) => {
                let reason = match f {
                    StopFailure::MarkerNotSent => String::from_str(
                        "Stop message could not be sent => ",
                    ),
                    StopFailure::EncoderNotFinalized => String::from_str(
                        "Encoder could not finish the output => ",
                    ),
                };
                reason.concat("Recorder was stopped forcefully!")
            },
        }
    }
}

/// Where a recording session stands.
#[derive(Copy, Clone, Debug, PartialEq, Eq, Structural)]
pub enum Phase {
    /// Not yet started, or a start failed.
    Idle,
    /// Starting the capture session and the encoder.
    Launching { timed: bool },
    /// Recording until `stop` is called.
    Recording,
    /// Recording until the output closes or the duration elapses.
    Waiting,
    /// Sending the end-of-stream marker to the frame source.
    SendingMarker,
    /// Closing the capture session; `forced` is set when the stop is forced.
    ClosingCapture { forced: Option<StopFailure> },
    /// Waiting for the encoder to finish the output.
    StoppingEncoder,
    /// Cancelling the encoder.
    ForcingEncoder { failure: StopFailure },
    /// Shut down, cleanly or not.
    Stopped,
}

/// What happens to a session: a call of its user, or the outcome of an
/// action it asked for.
#[derive(Clone, Debug)]
pub enum Event {
    Start { timed: bool },
    Stop,
    Launched,
    LaunchFailed(String),
    WaitOver,
    MarkerSent(bool),
    CaptureClosed,
    EncoderStopped(bool),
    EncoderForced,
}

/// What a session asks its driver to do next.
#[derive(Debug)]
pub enum Action {
    /// Start the capture session, then the encoder.
    Launch,
    /// Block until the output closes or the duration elapses.
    WaitForClose,
    /// Send the end-of-stream marker into the frame channel.
    SendMarker,
    /// Close the capture session.
    CloseCapture,
    /// Wait for the encoder to finish, then flush and close the output.
    StopEncoder,
    /// Cancel the encoder and close the output.
    ForceStopEncoder,
    /// Return this to the caller of `start` or `stop`.
    Finish(Result<(), SessionError>),
    /// The event does not apply in this phase; nothing to do.
    Ignore,
}

/// The transition table of a session.
pub open spec fn step_spec(p: Phase, e: Event) -> (Phase, Action) {
    match (p, e) {
        (Phase::Idle, Event::Start { timed }) => (Phase::Launching { timed }, Action::Launch),
        (Phase::Stopped, Event::Start { timed }) => (Phase::Launching { timed }, Action::Launch),
        (_, Event::Start { .. }) => (p, Action::Finish(Err(SessionError::AlreadyRecording))),
        (Phase::Recording, Event::Stop) => (Phase::SendingMarker, Action::SendMarker),
        (_, Event::Stop) => (p, Action::Finish(Err(SessionError::NotRecording))),
        (Phase::Launching { timed }, Event::Launched) => if timed {
            (Phase::Waiting, Action::WaitForClose)
        } else {
            (Phase::Recording, Action::Finish(Ok(())))
        },
        (Phase::Launching { .. }, Event::LaunchFailed(m)) => (
            Phase::Idle,
            Action::Finish(Err(SessionError::LaunchFailed(m))),
        ),
        (Phase::Waiting, Event::WaitOver) => (Phase::SendingMarker, Action::SendMarker),
        (Phase::SendingMarker, Event::MarkerSent(ok)) => (
            Phase::ClosingCapture {
                forced: if ok {
                    None
                } else {
                    Some(StopFailure::MarkerNotSent)
                },
            },
            Action::CloseCapture,
        ),
        (Phase::ClosingCapture { forced }, Event::CaptureClosed) => match forced {
            None => (Phase::StoppingEncoder, Action::StopEncoder),
            Some(f) => (Phase::ForcingEncoder { failure: f }, Action::ForceStopEncoder),
        },
        (Phase::StoppingEncoder, Event::EncoderStopped(ok)) => if ok {
            (Phase::Stopped, Action::Finish(Ok(())))
        } else {
            (
                Phase::ForcingEncoder { failure: StopFailure::EncoderNotFinalized },
                Action::ForceStopEncoder,
            )
        },
        (Phase::ForcingEncoder { failure }, Event::EncoderForced) => (
            Phase::Stopped,
            Action::Finish(Err(SessionError::StoppedForcefully(failure))),
        ),
        _ => (p, Action::Ignore),
    }
}

/// The phase and last action after the events `es`, from phase `p`.
pub open spec fn run_spec(p: Phase, es: Seq<Event>) -> (Phase, Action)
    decreases es.len(),
{
    if es.len() == 0 {
        (p, Action::Ignore)
    } else if es.len() == 1 {
        step_spec(p, es[0])
    } else {
        run_spec(step_spec(p, es[0]).0, es.drop_first())
    }
}

/// The events of a stop sequence as its driver reports them: the marker was
/// sent or not, the capture closed, then the encoder stopped gracefully or
/// was forced.
pub open spec fn stop_events(marker_sent: bool, encoder_finished: bool) -> Seq<Event> {
    if !marker_sent {
        seq![Event::MarkerSent(false), Event::CaptureClosed, Event::EncoderForced]
    } else if encoder_finished {
        seq![Event::MarkerSent(true), Event::CaptureClosed, Event::EncoderStopped(true)]
    } else {
        seq![
            Event::MarkerSent(true),
            Event::CaptureClosed,
            Event::EncoderStopped(false),
            Event::EncoderForced,
        ]
    }
}

/// The result of a stop sequence.
pub open spec fn stop_result(marker_sent: bool, encoder_finished: bool) -> Result<(), SessionError> {
    if !marker_sent {
        Err(SessionError::StoppedForcefully(StopFailure::MarkerNotSent))
    } else if encoder_finished {
        Ok(())
    } else {
        Err(SessionError::StoppedForcefully(StopFailure::EncoderNotFinalized))
    }
}

proof fn lemma_run_stop_sequence(marker_sent: bool, encoder_finished: bool)
    ensures
        run_spec(Phase::SendingMarker, stop_events(marker_sent, encoder_finished)) == (
            Phase::Stopped,
            Action::Finish(stop_result(marker_sent, encoder_finished)),
        ),
{
    reveal_with_fuel(run_spec, 5);
    let es = stop_events(marker_sent, encoder_finished);
    assert(es.drop_first().drop_first() =~= es.subrange(2, es.len() as int));
    assert(es.drop_first().drop_first().drop_first() =~= es.subrange(3, es.len() as int));
}

/// `start` while recording, and `stop` while not recording, fail at once
/// and leave the session as it was.
pub proof fn lemma_invalid_calls_change_nothing(p: Phase, timed: bool)
    ensures
        p == Phase::Recording ==> step_spec(p, Event::Start { timed }) == (
            p,
            Action::Finish(Err(SessionError::AlreadyRecording)),
        ),
        p == Phase::Idle || p == Phase::Stopped ==> step_spec(p, Event::Stop) == (
            p,
            Action::Finish(Err(SessionError::NotRecording)),
        ),
{
}

/// A second `start` after a successful untimed one fails, and the session
/// keeps recording.
pub proof fn lemma_second_start_fails(p: Phase, timed: bool)
    requires
        p == Phase::Idle || p == Phase::Stopped,
    ensures
        run_spec(p, seq![Event::Start { timed: false }, Event::Launched, Event::Start { timed }])
            == (Phase::Recording, Action::Finish(Err(SessionError::AlreadyRecording))),
{
    reveal_with_fuel(run_spec, 4);
    let es = seq![Event::Start { timed: false }, Event::Launched, Event::Start { timed }];
    assert(es.drop_first() =~= seq![Event::Launched, Event::Start { timed }]);
    assert(es.drop_first().drop_first() =~= seq![Event::Start { timed }]);
}

/// A timed `start` that launched runs the stop sequence by itself once the
/// wait is over, and every stop sequence ends with the session stopped:
/// cleanly when the marker was sent and the encoder finished, and reported
/// as forced otherwise.
pub proof fn lemma_stop_sequence_ends_stopped(
    timed_start: bool,
    marker_sent: bool,
    encoder_finished: bool,
)
    ensures
        ({
            let lead = if timed_start {
                seq![Event::Start { timed: true }, Event::Launched, Event::WaitOver]
            } else {
                seq![Event::Start { timed: false }, Event::Launched, Event::Stop]
            };
            run_spec(Phase::Idle, lead + stop_events(marker_sent, encoder_finished)) == (
                Phase::Stopped,
                Action::Finish(stop_result(marker_sent, encoder_finished)),
            )
        }),
{
    let lead = if timed_start {
        seq![Event::Start { timed: true }, Event::Launched, Event::WaitOver]
    } else {
        seq![Event::Start { timed: false }, Event::Launched, Event::Stop]
    };
    let tail = stop_events(marker_sent, encoder_finished);
    let all = lead + tail;
    reveal_with_fuel(run_spec, 4);
    assert(all.drop_first() =~= lead.drop_first() + tail);
    assert(all.drop_first().drop_first() =~= lead.drop_first().drop_first() + tail);
    assert(all.drop_first().drop_first().drop_first() =~= tail);
    lemma_run_stop_sequence(marker_sent, encoder_finished);
}

/// The state machine of one recording session. Its driver performs each
/// action it returns and reports the outcome as the next event.
pub struct Session {
    phase: Phase,
}

impl View for Session {
    type V = Phase;

    closed spec fn view(&self) -> Phase {
        self.phase
    }
}

impl Session {
    pub fn new() -> (r: Self)
        ensures
            r@ == Phase::Idle,
    {
        Session { phase: Phase::Idle }
    }

    pub fn phase(&self) -> (r: Phase)
        ensures
            r == self@,
    {
        self.phase
    }

    pub fn is_recording(&self) -> (r: bool)
        ensures
            r == (self@ == Phase::Recording),
    {
        self.phase == Phase::Recording
    }

    /// Moves the session on by `event` and says what to do next.
    pub fn step(&mut self, event: Event) -> (a: Action)
        ensures
            (final(self)@, a) == step_spec(old(self)@, event),
    {
        let (next, action) = match (self.phase, event) {
            (Phase::Idle, Event::Start { timed }) => (Phase::Launching { timed }, Action::Launch),
            (Phase::Stopped, Event::Start { timed }) => (
                Phase::Launching { timed },
                Action::Launch,
            ),
            (p, Event::Start { .. }) => (p, Action::Finish(Err(SessionError::AlreadyRecording))),
            (Phase::Recording, Event::Stop) => (Phase::SendingMarker, Action::SendMarker),
            (p, Event::Stop) => (p, Action::Finish(Err(SessionError::NotRecording))),
            (Phase::Launching { timed }, Event::Launched) => if timed {
                (Phase::Waiting, Action::WaitForClose)
            } else {
                (Phase::Recording, Action::Finish(Ok(())))
            },
            (Phase::Launching { .. }, Event::LaunchFailed(m)) => (
                Phase::Idle,
                Action::Finish(Err(SessionError::LaunchFailed(m))),
            ),
            (Phase::Waiting, Event::WaitOver) => (Phase::SendingMarker, Action::SendMarker),
            (Phase::SendingMarker, Event::MarkerSent(ok)) => (
                Phase::ClosingCapture {
                    forced: if ok {
                        None
                    } else {
                        Some(StopFailure::MarkerNotSent)
                    },
                },
                Action::CloseCapture,
            ),
            (Phase::ClosingCapture { forced }, Event::CaptureClosed) => match forced {
                None => (Phase::StoppingEncoder, Action::StopEncoder),
                Some(f) => (Phase::ForcingEncoder { failure: f }, Action::ForceStopEncoder),
            },
            (Phase::StoppingEncoder, Event::EncoderStopped(ok)) => if ok {
                (Phase::Stopped, Action::Finish(Ok(())))
            } else {
                (
                    Phase::ForcingEncoder { failure: StopFailure::EncoderNotFinalized },
                    Action::ForceStopEncoder,
                )
            },
            (Phase::ForcingEncoder { failure }, Event::EncoderForced) => (
                Phase::Stopped,
                Action::Finish(Err(SessionError::StoppedForcefully(failure))),
            ),
            (p, _) => (p, Action::Ignore),
        };
        self.phase = next;
        action
    }
}

} // verus!
