//! A typed facade over the control surface of a speech host that is
//! reached through a COM automation object.
//!
//! The crate holds the part that decides and converts: the status and
//! mode codes the host reports, the clamping of playback settings, the
//! wire document of the settings, the marshaling of text and of bounded
//! arrays, and the order in which a session is brought up. The foreign
//! calls themselves are made by the caller, who hands their outcomes in.

pub mod codec;
pub mod document;
pub mod error;
pub mod marshal;
pub mod number;
pub mod session;
pub mod settings;
pub mod status;
pub mod text;

pub use error::{Error, Operation};
pub use number::{Double, Single};
pub use settings::{
    clamp_master_control, MasterControl, MergedVoice, MergedVoiceContainer, Style, VoicePreset,
};
pub use status::{HostStatus, TextEditMode};
