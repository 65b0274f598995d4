//! What a session decides: the order in which it is brought up, and how
//! the raw outcome of a foreign call becomes the facade's result. The
//! caller makes each foreign call and hands its outcome in.

use vstd::prelude::*;
use crate::error::{Error, Operation};
use crate::marshal::decode_bool;
use crate::status::{HostStatus, TextEditMode};
use crate::text::{decode_string, text_of_utf16};

verus! {

/// The index of the host name that a session binds to: always the first
/// of the names that the control object lists.
pub const HOST_NAME_INDEX: i32 = 0;

/// A foreign call that bringing a session up consists of.
#[derive(Debug, Clone, Copy, PartialEq, Eq, Structural)]
pub enum Step {
    /// Initialise the foreign runtime for the calling thread.
    InitializeRuntime,
    /// Create the control object.
    ActivateControl,
    /// Ask the control object for the host names it can reach.
    ListHostNames,
    /// Read the name at `HOST_NAME_INDEX` from that list.
    ReadHostName,
    /// Initialise the control object with that name.
    InitializeControl,
}

/// How far bringing a session up has come.
#[derive(Debug)]
pub enum Startup {
    /// The step is to be made next.
    Pending(Step),
    /// Every step succeeded: the session can be used.
    Ready,
    /// A step failed: there is no session.
    Failed(Error),
}

impl Step {
    /// The place of the step in the order, from 0.
    pub open spec fn position(self) -> nat {
        match self {
            Step::InitializeRuntime => 0,
            Step::ActivateControl => 1,
            Step::ListHostNames => 2,
            Step::ReadHostName => 3,
            Step::InitializeControl => 4,
        }
    }

    /// The step at a place in the order.
    pub open spec fn at(position: nat) -> Option<Step> {
        if position == 0 {
            Some(Step::InitializeRuntime)
        } else if position == 1 {
            Some(Step::ActivateControl)
        } else if position == 2 {
            Some(Step::ListHostNames)
        } else if position == 3 {
            Some(Step::ReadHostName)
        } else if position == 4 {
            Some(Step::InitializeControl)
        } else {
            None
        }
    }

    /// The operation that an error names when the step fails.
    pub open spec fn operation_of(self) -> Operation {
        match self {
            Step::InitializeRuntime => Operation::InitializeRuntime,
            Step::ActivateControl => Operation::ActivateControl,
            Step::ListHostNames => Operation::GetAvailableHostNames,
            Step::ReadHostName => Operation::GetArrayElement,
            Step::InitializeControl => Operation::Initialize,
        }
    }

    /// The operation that an error names when the step fails.
    pub fn operation(self) -> (operation: Operation)
        ensures
            operation == self.operation_of(),
    {
        match self {
            Step::InitializeRuntime => Operation::InitializeRuntime,
            Step::ActivateControl => Operation::ActivateControl,
            Step::ListHostNames => Operation::GetAvailableHostNames,
            Step::ReadHostName => Operation::GetArrayElement,
            Step::InitializeControl => Operation::Initialize,
        }
    }
}

/// The number of steps.
pub open spec fn step_count() -> nat {
    5
}

impl Startup {
    /// The state before anything was done.
    pub open spec fn initial() -> Startup {
        Startup::Pending(Step::InitializeRuntime)
    }

    /// The state after the pending step ended with `succeeded`. A
    /// failure ends the startup with the interop error of that step; a
    /// success leads to the following step, and after the last one to
    /// `Ready`. A state with nothing pending stays as it is.
    pub open spec fn after(self, succeeded: bool) -> Startup {
        match self {
            Startup::Pending(step) => if !succeeded {
                Startup::Failed(Error::Interop { operation: step.operation_of() })
            } else {
                match Step::at(step.position() + 1) {
                    Some(following) => Startup::Pending(following),
                    None => Startup::Ready,
                }
            },
            other => other,
        }
    }

    /// The state after the outcomes of the steps made so far, in order.
    pub open spec fn after_all(outcomes: Seq<bool>) -> Startup
        decreases outcomes.len(),
    {
        if outcomes.len() == 0 {
            Startup::initial()
        } else {
            Startup::after_all(outcomes.drop_last()).after(outcomes.last())
        }
    }

    /// The state before anything was done: the runtime is to be
    /// initialised first.
    pub fn begin() -> (startup: Startup)
        ensures
            startup == Startup::initial(),
    {
        Startup::Pending(Step::InitializeRuntime)
    }

    /// The step to make next, if the startup has not ended.
    pub fn pending(&self) -> (step: Option<Step>)
        ensures
            step == match *self {
                Startup::Pending(step) => Some(step),
                _ => None::<Step>,
            },
    {
        match self {
            Startup::Pending(step) => Some(*step),
            _ => None,
        }
    }

    /// Records how the pending step ended and gives the state that follows.
    pub fn record(self, succeeded: bool) -> (next: Startup)
        ensures
            next == self.after(succeeded),
    {
        match self {
            Startup::Pending(step) => if !succeeded {
                Startup::Failed(Error::Interop { operation: step.operation() })
            } else {
                match step {
                    Step::InitializeRuntime => Startup::Pending(Step::ActivateControl),
                    Step::ActivateControl => Startup::Pending(Step::ListHostNames),
                    Step::ListHostNames => Startup::Pending(Step::ReadHostName),
                    Step::ReadHostName => Startup::Pending(Step::InitializeControl),
                    Step::InitializeControl => Startup::Ready,
                }
            },
            other => other,
        }
    }

    /// Whether the session can be used.
    pub fn is_ready(&self) -> (ready: bool)
        ensures
            ready == (*self is Ready),
    {
        match self {
            Startup::Ready => true,
            _ => false,
        }
    }
}

/// Whether the first `count` outcomes are all successes.
pub open spec fn all_succeeded(outcomes: Seq<bool>, count: int) -> bool {
    forall|i: int| 0 <= i < count ==> outcomes[i]
}

/// Where a run of outcomes leaves the startup. While every step so far
/// succeeded and steps are left, the next one in the order is pending.
/// The session is ready exactly when the first five outcomes are all
/// successes. It has failed exactly when one of the first five is a
/// failure, and the error names the step of the first such failure.
pub proof fn lemma_startup_run(outcomes: Seq<bool>)
    ensures
        match Startup::after_all(outcomes) {
            Startup::Pending(step) => {
                &&& outcomes.len() == step.position()
                &&& outcomes.len() < step_count()
                &&& all_succeeded(outcomes, outcomes.len() as int)
            },
            Startup::Ready => {
                &&& outcomes.len() >= step_count()
                &&& all_succeeded(outcomes, step_count() as int)
            },
            Startup::Failed(error) => exists|failed: int|
                {
                    &&& 0 <= failed < outcomes.len()
                    &&& failed < step_count()
                    &&& !#[trigger] outcomes[failed]
                    &&& all_succeeded(outcomes, failed)
                    &&& Step::at(failed as nat) matches Some(step)
                    &&& error == Error::Interop { operation: step.operation_of() }
                },
        },
    decreases outcomes.len(),
{
    if outcomes.len() > 0 {
        let earlier = outcomes.drop_last();
        lemma_startup_run(earlier);
        assert(forall|i: int| 0 <= i < earlier.len() ==> earlier[i] == outcomes[i]);
        match Startup::after_all(earlier) {
            Startup::Pending(step) => {
                let made = outcomes.len() - 1;
                assert(all_succeeded(outcomes, made));
                if outcomes.last() {
                    assert(outcomes[made]);
                    assert(all_succeeded(outcomes, outcomes.len() as int));
                } else {
                    assert(!outcomes[made]);
                    assert(Step::at(made as nat) == Some(step));
                }
            },
            Startup::Ready => {
                assert(all_succeeded(outcomes, step_count() as int));
            },
            Startup::Failed(error) => {
                let failed = choose|failed: int|
                    {
                        &&& 0 <= failed < earlier.len()
                        &&& failed < step_count()
                        &&& !#[trigger] earlier[failed]
                        &&& all_succeeded(earlier, failed)
                        &&& Step::at(failed as nat) matches Some(step)
                        &&& error == Error::Interop { operation: step.operation_of() }
                    };
                assert(!outcomes[failed]);
                assert(all_succeeded(outcomes, failed));
            },
        }
    }
}

/// The facade's reading of a status query: a failed call is the interop
/// error of the query, and a raw code is read as `HostStatus::from_code`
/// reads it.
pub fn status<F>(outcome: Result<i32, F>) -> (result: Result<HostStatus, Error>)
    ensures
        result == match outcome {
            Ok(code) => match HostStatus::of_code(code) {
                Some(status) => Ok::<HostStatus, Error>(status),
                None => Err::<HostStatus, Error>(Error::ProtocolMismatch { code }),
            },
            Err(_) => Err::<HostStatus, Error>(Error::Interop { operation: Operation::Status }),
        },
{
    match outcome {
        Ok(code) => HostStatus::from_code(code),
        Err(_) => Err(Error::Interop { operation: Operation::Status }),
    }
}

/// The facade's reading of an edit mode query: a failed call is the
/// interop error of the query, and a raw code is read as
/// `TextEditMode::from_code` reads it.
pub fn text_edit_mode<F>(outcome: Result<i32, F>) -> (result: Result<TextEditMode, Error>)
    ensures
        result == match outcome {
            Ok(code) => match TextEditMode::of_code(code) {
                Some(mode) => Ok::<TextEditMode, Error>(mode),
                None => Err::<TextEditMode, Error>(Error::ProtocolMismatch { code }),
            },
            Err(_) => Err::<TextEditMode, Error>(
                Error::Interop { operation: Operation::TextEditMode },
            ),
        },
{
    match outcome {
        Ok(code) => TextEditMode::from_code(code),
        Err(_) => Err(Error::Interop { operation: Operation::TextEditMode }),
    }
}

/// The facade's reading of the query whether the control object is
/// initialised: a failed call is the interop error of the query, and a
/// Boolean variant is true unless it is zero.
pub fn is_initialized<F>(outcome: Result<i16, F>) -> (result: Result<bool, Error>)
    ensures
        result == match outcome {
            Ok(raw) => Ok::<bool, Error>(raw != 0),
            Err(_) => Err::<bool, Error>(Error::Interop { operation: Operation::IsInitialized }),
        },
{
    match outcome {
        Ok(raw) => Ok(decode_bool(raw)),
        Err(_) => Err(Error::Interop { operation: Operation::IsInitialized }),
    }
}

/// The facade's reading of a call that returns a foreign string: a
/// failed call is the interop error that names `operation`, and the code
/// units are read over their whole length.
pub fn text<F>(operation: Operation, outcome: Result<&[u16], F>) -> (result: Result<String, Error>)
    ensures
        match outcome {
            Ok(units) => result matches Ok(read) && read@ == text_of_utf16(units@),
            Err(_) => result matches Err(error) && error == Error::Interop { operation },
        },
{
    match outcome {
        Ok(units) => Ok(decode_string(units)),
        Err(_) => Err(Error::Interop { operation }),
    }
}

} // verus!
