//! The errors of the facade and the names of the foreign operations.

use vstd::prelude::*;

verus! {

/// A call that crosses the foreign boundary. An interop error names the
/// one that failed.
#[derive(Debug, Clone, Copy, PartialEq, Eq, Structural)]
pub enum Operation {
    InitializeRuntime,
    ActivateControl,
    GetAvailableHostNames,
    Initialize,
    IsInitialized,
    StartHost,
    TerminateHost,
    Connect,
    Disconnect,
    Version,
    Status,
    MasterControl,
    SetMasterControl,
    Text,
    SetText,
    TextSelectionStart,
    SetTextSelectionStart,
    TextSelectionLength,
    SetTextSelectionLength,
    TextEditMode,
    SetTextEditMode,
    Play,
    Stop,
    SaveAudioToFile,
    GetPlayTime,
    GetListCount,
    GetListSelectionIndices,
    GetListSelectionCount,
    SetListSelectionIndex,
    SetListSelectionIndices,
    SetListSelectionRange,
    AddListItem,
    InsertListItem,
    RemoveListItem,
    ClearListItems,
    GetListVoicePreset,
    SetListVoicePreset,
    GetListSentence,
    VoiceNames,
    VoicePresetNames,
    CurrentVoicePresetName,
    SetCurrentVoicePresetName,
    GetVoicePreset,
    SetVoicePreset,
    AddVoicePreset,
    ReloadVoicePresets,
    ReloadPhraseDictionary,
    ReloadWordDictionary,
    ReloadSymbolDictionary,
    CreateArray,
    GetArrayBounds,
    GetArrayElement,
    PutArrayElement,
}

/// What can go wrong between the caller and the host.
#[derive(Debug)]
pub enum Error {
    /// A foreign call or allocation failed.
    Interop { operation: Operation },
    /// A settings payload was malformed or lacked a field; holds the payload.
    Parse { payload: String },
    /// The host reported an enumeration code that no variant stands for.
    ProtocolMismatch { code: i32 },
}

impl Error {
    /// The parse error for `payload`.
    pub fn parse(payload: &str) -> (error: Error)
        ensures
            error matches Error::Parse { payload: held } && held@ == payload@,
    {
        Error::Parse { payload: payload.to_owned() }
    }
}

/// Turns the outcome of the foreign call `operation` into the facade's
/// result: a value passes through, a failure of any kind becomes the
/// interop error that names the operation.
pub fn interop<T, F>(operation: Operation, outcome: Result<T, F>) -> (result: Result<T, Error>)
    ensures
        match outcome {
            Ok(value) => result == Ok::<T, Error>(value),
            Err(_) => result == Err::<T, Error>(Error::Interop { operation }),
        },
{
    match outcome {
        Ok(value) => Ok(value),
        Err(_) => Err(Error::Interop { operation }),
    }
}

} // verus!
