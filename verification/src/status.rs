//! The states and modes that the host reports as integer codes.

use vstd::prelude::*;
use crate::error::Error;

verus! {

/// The state of the host program, as the host reports it.
#[derive(Debug, Clone, Copy, PartialEq, Eq, Structural)]
pub enum HostStatus {
    /// The host program is not running.
    NotRunning,
    /// The host program runs, and no session is attached.
    NotConnected,
    /// A session is attached and the host is at rest.
    Idle,
    /// The host is synthesising or playing.
    Busy,
}

/// Which of the two input forms the host plays and exports.
#[derive(Debug, Clone, Copy, PartialEq, Eq, Structural)]
pub enum TextEditMode {
    /// The free text buffer.
    Text,
    /// The list of utterance rows.
    List,
}

impl HostStatus {
    /// The status that a raw code stands for, if any.
    pub open spec fn of_code(code: i32) -> Option<HostStatus> {
        if code == 0 {
            Some(HostStatus::NotRunning)
        } else if code == 1 {
            Some(HostStatus::NotConnected)
        } else if code == 2 {
            Some(HostStatus::Idle)
        } else if code == 3 {
            Some(HostStatus::Busy)
        } else {
            None
        }
    }

    /// The raw code of a status.
    pub open spec fn code_of(self) -> i32 {
        match self {
            HostStatus::NotRunning => 0,
            HostStatus::NotConnected => 1,
            HostStatus::Idle => 2,
            HostStatus::Busy => 3,
        }
    }

    /// Reads a raw status code. The codes 0 to 3 give the four states;
    /// every other code is a protocol mismatch that holds the code.
    pub fn from_code(code: i32) -> (result: Result<HostStatus, Error>)
        ensures
            result == match Self::of_code(code) {
                Some(status) => Ok::<HostStatus, Error>(status),
                None => Err::<HostStatus, Error>(Error::ProtocolMismatch { code }),
            },
            result is Ok <==> 0 <= code <= 3,
    {
        match code {
            0 => Ok(HostStatus::NotRunning),
            1 => Ok(HostStatus::NotConnected),
            2 => Ok(HostStatus::Idle),
            3 => Ok(HostStatus::Busy),
            _ => Err(Error::ProtocolMismatch { code }),
        }
    }
}

impl TextEditMode {
    /// The mode that a raw code stands for, if any.
    pub open spec fn of_code(code: i32) -> Option<TextEditMode> {
        if code == 0 {
            Some(TextEditMode::Text)
        } else if code == 1 {
            Some(TextEditMode::List)
        } else {
            None
        }
    }

    /// The raw code of a mode.
    pub open spec fn code_of(self) -> i32 {
        match self {
            TextEditMode::Text => 0,
            TextEditMode::List => 1,
        }
    }

    /// Reads a raw mode code: 0 is text, 1 is list, and every other code
    /// is a protocol mismatch that holds the code.
    pub fn from_code(code: i32) -> (result: Result<TextEditMode, Error>)
        ensures
            result == match Self::of_code(code) {
                Some(mode) => Ok::<TextEditMode, Error>(mode),
                None => Err::<TextEditMode, Error>(Error::ProtocolMismatch { code }),
            },
            result is Ok <==> 0 <= code <= 1,
    {
        match code {
            0 => Ok(TextEditMode::Text),
            1 => Ok(TextEditMode::List),
            _ => Err(Error::ProtocolMismatch { code }),
        }
    }

    /// The raw code of this mode, as the host takes it.
    pub fn code(self) -> (code: i32)
        ensures
            code == self.code_of(),
            Self::of_code(code) == Some(self),
    {
        match self {
            TextEditMode::Text => 0,
            TextEditMode::List => 1,
        }
    }
}

/// A raw code stands for a host status exactly when it is one of 0, 1, 2
/// and 3, and the four codes stand for four different states.
pub proof fn lemma_host_status_codes(code: i32)
    ensures
        HostStatus::of_code(code) is Some <==> 0 <= code <= 3,
        HostStatus::of_code(code) matches Some(status) ==> status.code_of() == code,
{
}

/// Reading the code of a host status gives the status back.
pub proof fn lemma_host_status_round_trip(status: HostStatus)
    ensures
        HostStatus::of_code(status.code_of()) == Some(status),
        0 <= status.code_of() <= 3,
{
}

/// A raw code stands for an edit mode exactly when it is 0 or 1, and
/// reading the code of a mode gives the mode back.
pub proof fn lemma_text_edit_mode_round_trip(mode: TextEditMode, code: i32)
    ensures
        TextEditMode::of_code(mode.code_of()) == Some(mode),
        TextEditMode::of_code(code) is Some <==> 0 <= code <= 1,
        TextEditMode::of_code(code) matches Some(read) ==> read.code_of() == code,
{
}

} // verus!
