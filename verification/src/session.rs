//! The run lifecycle: a running run ends once, in `Completed`, `Failed` or
//! `Aborted`. The host stores runs and checkpoints;
//! this module decides which state changes are allowed.

use vstd::prelude::*;

use crate::error::EngineError;
use crate::text::str_eq;
use crate::types::{run_id_text, uuid_text, RunId};

verus! {

/// The state of a run.
#[derive(Debug, Clone, Copy, PartialEq, Eq, Structural)]
pub enum RunState {
    Initialising,
    Running,
    Completed,
    Failed,
    Aborted,
}

/// The name of a state, as it is stored and as `{:?}` writes it.
pub open spec fn state_name(s: RunState) -> Seq<char> {
    match s {
        RunState::Initialising => "Initialising"@,
        RunState::Running => "Running"@,
        RunState::Completed => "Completed"@,
        RunState::Failed => "Failed"@,
        RunState::Aborted => "Aborted"@,
    }
}

/// The state with this stored name.
pub open spec fn state_named(name: Seq<char>) -> Option<RunState> {
    if name == "Initialising"@ {
        Some(RunState::Initialising)
    } else if name == "Running"@ {
        Some(RunState::Running)
    } else if name == "Completed"@ {
        Some(RunState::Completed)
    } else if name == "Failed"@ {
        Some(RunState::Failed)
    } else if name == "Aborted"@ {
        Some(RunState::Aborted)
    } else {
        None
    }
}

impl RunState {
    /// The stored name of the state.
    pub fn as_str(&self) -> (r: &'static str)
        ensures
            r@ == state_name(*self),
    {
        match self {
            RunState::Initialising => "Initialising",
            RunState::Running => "Running",
            RunState::Completed => "Completed",
            RunState::Failed => "Failed",
            RunState::Aborted => "Aborted",
        }
    }

    /// Whether the run has ended.
    pub open spec fn is_terminal(self) -> bool {
        self == RunState::Completed || self == RunState::Failed || self == RunState::Aborted
    }
}

/// The text of an unknown stored state.
pub open spec fn unknown_state_message(name: Seq<char>) -> Seq<char> {
    "unknown enum value '"@ + name
        + "': unknown variant `"@ + name
        + "`, expected one of `Initialising`, `Running`, `Completed`, `Failed`, `Aborted`"@
}

/// Reads a stored state name; any other text is `InvalidState`.
pub fn parse_run_state(name: &str) -> (r: Result<RunState, EngineError>)
    ensures
        match state_named(name@) {
            Some(s) => r == Ok::<RunState, EngineError>(s),
            None => (r matches Err(EngineError::InvalidState(m)) && m@ == unknown_state_message(name@)),
        },
{
    if str_eq(name, "Initialising") {
        Ok(RunState::Initialising)
    } else if str_eq(name, "Running") {
        Ok(RunState::Running)
    } else if str_eq(name, "Completed") {
        Ok(RunState::Completed)
    } else if str_eq(name, "Failed") {
        Ok(RunState::Failed)
    } else if str_eq(name, "Aborted") {
        Ok(RunState::Aborted)
    } else {
        let m = String::from_str("unknown enum value '").concat(name).concat("': unknown variant `").concat(
            name,
        ).concat("`, expected one of `Initialising`, `Running`, `Completed`, `Failed`, `Aborted`");
        Err(EngineError::InvalidState(m))
    }
}

/// The allowed state changes: a running run may complete, fail or be
/// aborted; nothing else.
pub open spec fn valid_transition(from: RunState, to: RunState) -> bool {
    from == RunState::Running && to.is_terminal()
}

/// Whether a run may go from `from` to `to`.
pub fn is_valid_transition(from: RunState, to: RunState) -> (r: bool)
    ensures
        r == valid_transition(from, to),
{
    match (from, to) {
        (RunState::Running, RunState::Completed) => true,
        (RunState::Running, RunState::Failed) => true,
        (RunState::Running, RunState::Aborted) => true,
        _ => false,
    }
}

/// The message of a refused state change.
pub open spec fn invalid_transition_message(from: RunState, to: RunState) -> Seq<char> {
    "invalid transition: "@ + state_name(from) + " -> "@ + state_name(to)
}

/// Checks a state change: `InvalidState` where it is not allowed.
pub fn check_transition(from: RunState, to: RunState) -> (r: Result<(), EngineError>)
    ensures
        valid_transition(from, to) <==> r is Ok,
        !valid_transition(from, to) ==> (r matches Err(EngineError::InvalidState(m)) && m@
            == invalid_transition_message(from, to)),
{
    if is_valid_transition(from, to) {
        Ok(())
    } else {
        let m = String::from_str("invalid transition: ").concat(from.as_str()).concat(" -> ").concat(
            to.as_str(),
        );
        Err(EngineError::InvalidState(m))
    }
}

/// The decision on a request to move run `run_id` to `new_state`, given the
/// state name stored for it (none where the run does not exist):
/// `NotFound` for a missing run, `InvalidState` for an unreadable stored
/// state or a change that is not allowed; otherwise the host may store the
/// new state.
pub fn decide_transition(run_id: RunId, stored: Option<&str>, new_state: RunState) -> (r: Result<(), EngineError>)
    ensures
        stored is None ==> (r matches Err(EngineError::NotFound(m)) && m@ == "run "@ + uuid_text(run_id.0)),
        stored matches Some(name) ==> match state_named(name@) {
            None => (r matches Err(EngineError::InvalidState(m)) && m@ == unknown_state_message(name@)),
            Some(current) => (valid_transition(current, new_state) <==> r is Ok) && (!valid_transition(
                current,
                new_state,
            ) ==> (r matches Err(EngineError::InvalidState(m)) && m@ == invalid_transition_message(
                current,
                new_state,
            ))),
        },
{
    match stored {
        None => {
            let m = String::from_str("run ").concat(run_id_text(&run_id).as_str());
            Err(EngineError::NotFound(m))
        },
        Some(name) => {
            let current = match parse_run_state(name) {
                Ok(s) => s,
                Err(e) => return Err(e),
            };
            check_transition(current, new_state)
        },
    }
}

/// A run that has ended never changes state again, and a run only ever
/// leaves `Running`: every allowed change starts there and ends in a
/// terminal state.
pub proof fn lemma_terminal_states_are_final(from: RunState, to: RunState)
    ensures
        from.is_terminal() ==> !valid_transition(from, to),
        valid_transition(from, to) ==> from == RunState::Running && to.is_terminal(),
        !valid_transition(to, to),
{
}

/// Stored names read back as the states they name.
pub proof fn lemma_state_name_roundtrip(s: RunState)
    ensures
        state_named(state_name(s)) == Some(s),
{
    reveal_strlit("Running");
    reveal_strlit("Completed");
    reveal_strlit("Failed");
    reveal_strlit("Aborted");
    reveal_strlit("Initialising");
    assert("Running"@[0] == 'R' && "Completed"@[0] == 'C' && "Failed"@[0] == 'F' && "Aborted"@[0] == 'A'
        && "Initialising"@[0] == 'I');
}

} // verus!
