//! The host-API type identifiers of the engine and the mapping from its
//! integer codes.
//!
//! Enumerating and querying the host APIs themselves is the work of an
//! external collaborator; only the closed identifier set and its integer
//! mapping are the crate's own logic.

use vstd::prelude::*;

verus! {

/// Index number of a host API.
pub type HostApiIndex = u32;

/// Possible host API types, mirroring the engine's identifier codes.  The
/// engine reserves one code gap in the sequence; any code outside the known
/// set maps to `Unknown`.
#[derive(Clone, Copy, Debug, PartialEq, Eq, Structural)]
pub enum HostApiType {
    InDevelopment,
    DirectSound,
    MME,
    ASIO,
    SoundManager,
    CoreAudio,
    OSS,
    ALSA,
    AL,
    BeOS,
    WDMKS,
    JACK,
    WASAPI,
    AudioScienceHPI,
    /// Stands for any identifier code the known set does not cover.
    Unknown,
}

/// The host API type that each engine identifier code denotes.  The codes
/// run from 0 upward with 6 unassigned; every other code is `Unknown`.
pub open spec fn host_api_from_code(num: int) -> HostApiType {
    if num == 0 {
        HostApiType::InDevelopment
    } else if num == 1 {
        HostApiType::DirectSound
    } else if num == 2 {
        HostApiType::MME
    } else if num == 3 {
        HostApiType::ASIO
    } else if num == 4 {
        HostApiType::SoundManager
    } else if num == 5 {
        HostApiType::CoreAudio
    } else if num == 7 {
        HostApiType::OSS
    } else if num == 8 {
        HostApiType::ALSA
    } else if num == 9 {
        HostApiType::AL
    } else if num == 10 {
        HostApiType::BeOS
    } else if num == 11 {
        HostApiType::WDMKS
    } else if num == 12 {
        HostApiType::JACK
    } else if num == 13 {
        HostApiType::WASAPI
    } else if num == 14 {
        HostApiType::AudioScienceHPI
    } else {
        HostApiType::Unknown
    }
}

impl HostApiType {
    /// Get the enum value corresponding to the u32
    pub fn from_u32(num: u32) -> (r: HostApiType)
        ensures
            r == host_api_from_code(num as int),
    {
        match num {
            0 => HostApiType::InDevelopment,
            1 => HostApiType::DirectSound,
            2 => HostApiType::MME,
            3 => HostApiType::ASIO,
            4 => HostApiType::SoundManager,
            5 => HostApiType::CoreAudio,
            7 => HostApiType::OSS,
            8 => HostApiType::ALSA,
            9 => HostApiType::AL,
            10 => HostApiType::BeOS,
            11 => HostApiType::WDMKS,
            12 => HostApiType::JACK,
            13 => HostApiType::WASAPI,
            14 => HostApiType::AudioScienceHPI,
            _ => HostApiType::Unknown,
        }
    }
}

} // verus!
