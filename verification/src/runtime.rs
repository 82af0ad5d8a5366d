//! The capture lifecycle runtime: a state machine driven by serialized
//! Start and Stop commands, sole owner of the one capture session that may
//! be open at a time.
//!
//! The decisions live here and are verified; the surrounding shell performs
//! the hardware actions each step asks for (opening a device, starting or
//! dropping a stream) and reports the outcome back. Start while already
//! capturing is a success and changes nothing; stop while idle is a no-op;
//! any failure while starting reverts the runtime to idle, where it keeps
//! accepting commands.

use vstd::prelude::*;

use crate::errors::CaptureError;
use crate::selector::{
    select, spec_select, names_of, CapturePlan, DeviceDescriptor,
};

verus! {

/// The lifecycle states of the runtime.
#[derive(Clone, Copy, Debug, PartialEq, Eq, Structural)]
pub enum CaptureState {
    /// No session is open.
    Idle,
    /// A session is being opened: a device selection has been made and the
    /// shell is opening the stream.
    Starting,
    /// Exactly one session is live.
    Capturing,
    /// A session is being torn down: the shell is releasing the stream.
    Stopping,
}

/// What a start command asks the shell to do.
#[derive(Clone, Copy, Debug, PartialEq, Eq, Structural)]
pub enum StartAction {
    /// A session is already live; nothing to do (the idempotent case).
    AlreadyActive,
    /// Open the planned device and start its stream.
    Open(CapturePlan),
}

/// How opening the planned stream went, reported back by the shell.
#[derive(Clone, Copy, Debug, PartialEq, Eq, Structural)]
pub enum StreamOutcome {
    /// The stream is running.
    Started,
    /// The device was busy or permission was denied.
    Busy,
    /// The stream was built but refused to start.
    Failed,
}

/// What a stop command asks the shell to do.
#[derive(Clone, Copy, Debug, PartialEq, Eq, Structural)]
pub enum StopAction {
    /// No session is open; nothing to do (the idempotent case).
    AlreadyIdle,
    /// Release the session's stream handles; the callbacks go idle at once.
    Teardown,
}

/// The start transition: while capturing it changes nothing and succeeds;
/// while another transition is in progress it refuses; from idle it adopts
/// the device selection, moving to `Starting` on a plan and staying idle on
/// a selection error.
pub open spec fn step_start(
    state: CaptureState,
    session: Option<CapturePlan>,
    sel: Result<CapturePlan, CaptureError>,
) -> (CaptureState, Option<CapturePlan>, Result<StartAction, CaptureError>) {
    match state {
        CaptureState::Capturing => (state, session, Ok(StartAction::AlreadyActive)),
        CaptureState::Idle => match sel {
            Ok(p) => (CaptureState::Starting, Some(p), Ok(StartAction::Open(p))),
            Err(e) => (CaptureState::Idle, None, Err(e)),
        },
        _ => (state, session, Err(CaptureError::AlreadyCapturing)),
    }
}

/// Completion of a start: a running stream makes the session live; a busy
/// device or a failed stream reverts to idle with the matching error.
pub open spec fn step_finish_start(
    session: Option<CapturePlan>,
    outcome: StreamOutcome,
) -> (CaptureState, Option<CapturePlan>, Result<(), CaptureError>) {
    match outcome {
        StreamOutcome::Started => (CaptureState::Capturing, session, Ok(())),
        StreamOutcome::Busy => (
            CaptureState::Idle,
            None,
            Err(CaptureError::DeviceUnavailable),
        ),
        StreamOutcome::Failed => (
            CaptureState::Idle,
            None,
            Err(CaptureError::StreamStartFailed),
        ),
    }
}

/// The stop transition: a no-op while idle, and the start of teardown from
/// any other state.
pub open spec fn step_stop(state: CaptureState, session: Option<CapturePlan>) -> (
    CaptureState,
    Option<CapturePlan>,
    StopAction,
) {
    match state {
        CaptureState::Idle => (CaptureState::Idle, session, StopAction::AlreadyIdle),
        _ => (CaptureState::Stopping, session, StopAction::Teardown),
    }
}

/// Start is idempotent: from a capturing runtime a start command changes
/// neither the state nor the one active session, and reports success,
/// whatever the device selection would have said.
pub proof fn lemma_start_idempotent(
    session: Option<CapturePlan>,
    sel: Result<CapturePlan, CaptureError>,
)
    ensures
        step_start(CaptureState::Capturing, session, sel) == (
            CaptureState::Capturing,
            session,
            Ok::<StartAction, CaptureError>(StartAction::AlreadyActive),
        ),
{
}

/// Stop is idempotent: from an idle runtime a stop command is a no-op, and
/// stays a no-op on every repetition.
pub proof fn lemma_stop_idempotent(session: Option<CapturePlan>)
    ensures
        step_stop(CaptureState::Idle, session) == (
            CaptureState::Idle,
            session,
            StopAction::AlreadyIdle,
        ),
        step_stop(
            step_stop(CaptureState::Idle, session).0,
            step_stop(CaptureState::Idle, session).1,
        ) == step_stop(CaptureState::Idle, session),
{
}

/// With no input devices enumerated, a start from idle fails with
/// `NoInputDevice` and the runtime stays idle — so it is not capturing.
pub proof fn lemma_start_with_no_inputs(
    default_input: Option<int>,
    output_name: Option<Seq<u8>>,
    force_microphone: bool,
)
    ensures
        spec_select(Seq::empty(), default_input, output_name, force_microphone) == Err::<
            CapturePlan,
            CaptureError,
        >(CaptureError::NoInputDevice),
        step_start(
            CaptureState::Idle,
            None,
            spec_select(Seq::empty(), default_input, output_name, force_microphone),
        ) == (
            CaptureState::Idle,
            Option::<CapturePlan>::None,
            Err::<StartAction, CaptureError>(CaptureError::NoInputDevice),
        ),
{
}

/// Which aggregation stage a session wires its queues into.
#[derive(Clone, Copy, Debug, PartialEq, Eq, Structural)]
pub enum AggregationPath {
    /// Both sources opened: the mixer combines them.
    Mixed,
    /// The single-source path: one queue feeds the frame aggregator.
    Single,
}

/// The aggregation path for a session: mixing runs only when both the voice
/// stream and the system stream opened; if either failed, the mixer is not
/// started at all and capture falls back to the single-source path.
pub open spec fn spec_aggregation_path(voice_open: bool, system_open: bool) -> AggregationPath {
    if voice_open && system_open {
        AggregationPath::Mixed
    } else {
        AggregationPath::Single
    }
}

/// Decides the aggregation path once the session's streams have been
/// opened.
pub fn aggregation_path(voice_open: bool, system_open: bool) -> (r: AggregationPath)
    ensures
        r == spec_aggregation_path(voice_open, system_open),
{
    if voice_open && system_open {
        AggregationPath::Mixed
    } else {
        AggregationPath::Single
    }
}

/// The capture lifecycle runtime: sole owner of the lifecycle state and of
/// the plan of the one session that may be open.
pub struct AudioRuntime {
    state: CaptureState,
    session: Option<CapturePlan>,
}

impl AudioRuntime {
    /// The current lifecycle state.
    pub closed spec fn current_state(self) -> CaptureState {
        self.state
    }

    /// The plan of the open session, if one is open.
    pub closed spec fn current_session(self) -> Option<CapturePlan> {
        self.session
    }

    /// Well-formed: a session plan is held exactly while a session is open
    /// or in transition.
    pub closed spec fn wf(self) -> bool {
        self.session is Some <==> !(self.state is Idle)
    }

    /// Creates an idle runtime with no session.
    pub fn new() -> (rt: AudioRuntime)
        ensures
            rt.wf(),
            rt.current_state() is Idle,
            rt.current_session() is None,
    {
        AudioRuntime { state: CaptureState::Idle, session: None }
    }

    /// Whether a session is live.
    pub fn is_capturing(&self) -> (r: bool)
        ensures
            r == (self.current_state() is Capturing),
    {
        match self.state {
            CaptureState::Capturing => true,
            _ => false,
        }
    }

    /// The current lifecycle state.
    pub fn state(&self) -> (r: CaptureState)
        ensures
            r == self.current_state(),
    {
        self.state
    }

    /// The plan of the open session, if one is open.
    pub fn session(&self) -> (r: Option<CapturePlan>)
        ensures
            r == self.current_session(),
    {
        self.session
    }

    /// Processes a start command: runs the selector over the enumerated
    /// devices and takes the start transition. On `Ok(Open(plan))` the shell
    /// must open the planned device and report back through
    /// `finish_start`; on `Ok(AlreadyActive)` nothing changed and nothing
    /// is to be done.
    pub fn start(
        &mut self,
        inputs: &Vec<DeviceDescriptor>,
        default_input: Option<usize>,
        output_name: Option<&Vec<u8>>,
        force_microphone: bool,
    ) -> (r: Result<StartAction, CaptureError>)
        requires
            old(self).wf(),
            default_input matches Some(d) ==> (d as int) < inputs@.len(),
        ensures
            final(self).wf(),
            (final(self).current_state(), final(self).current_session(), r) == step_start(
                old(self).current_state(),
                old(self).current_session(),
                spec_select(
                    names_of(inputs@),
                    match default_input {
                        Some(d) => Some(d as int),
                        None => None,
                    },
                    match output_name {
                        Some(n) => Some(n@),
                        None => None,
                    },
                    force_microphone,
                ),
            ),
    {
        match self.state {
            CaptureState::Capturing => Ok(StartAction::AlreadyActive),
            CaptureState::Idle => {
                match select(inputs, default_input, output_name, force_microphone) {
                    Ok(plan) => {
                        self.state = CaptureState::Starting;
                        self.session = Some(plan);
                        Ok(StartAction::Open(plan))
                    },
                    Err(e) => Err(e),
                }
            },
            _ => Err(CaptureError::AlreadyCapturing),
        }
    }

    /// Completes a start once the shell has tried to open the planned
    /// stream: a running stream makes the session live; any failure reverts
    /// the runtime to idle and surfaces the specific error, and the runtime
    /// keeps accepting future start commands.
    pub fn finish_start(&mut self, outcome: StreamOutcome) -> (r: Result<(), CaptureError>)
        requires
            old(self).wf(),
            old(self).current_state() is Starting,
        ensures
            final(self).wf(),
            (final(self).current_state(), final(self).current_session(), r) == step_finish_start(
                old(self).current_session(),
                outcome,
            ),
    {
        match outcome {
            StreamOutcome::Started => {
                self.state = CaptureState::Capturing;
                Ok(())
            },
            StreamOutcome::Busy => {
                self.state = CaptureState::Idle;
                self.session = None;
                Err(CaptureError::DeviceUnavailable)
            },
            StreamOutcome::Failed => {
                self.state = CaptureState::Idle;
                self.session = None;
                Err(CaptureError::StreamStartFailed)
            },
        }
    }

    /// Processes a stop command: a no-op while idle, otherwise the start of
    /// teardown — the shell releases the stream handles, which signals the
    /// callbacks to go idle, and then reports back through `finish_stop`.
    pub fn stop(&mut self) -> (r: StopAction)
        requires
            old(self).wf(),
        ensures
            final(self).wf(),
            (final(self).current_state(), final(self).current_session(), r) == step_stop(
                old(self).current_state(),
                old(self).current_session(),
            ),
    {
        match self.state {
            CaptureState::Idle => StopAction::AlreadyIdle,
            _ => {
                self.state = CaptureState::Stopping;
                StopAction::Teardown
            },
        }
    }

    /// Completes teardown once the shell has released the session's
    /// resources: the runtime is idle again.
    pub fn finish_stop(&mut self)
        requires
            old(self).wf(),
            old(self).current_state() is Stopping,
        ensures
            final(self).wf(),
            final(self).current_state() is Idle,
            final(self).current_session() is None,
    {
        self.state = CaptureState::Idle;
        self.session = None;
    }
}

} // verus!
