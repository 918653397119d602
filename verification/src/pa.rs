//! The closed error enumeration of the native audio engine and the mapping
//! from its integer status codes.

use vstd::prelude::*;

verus! {

/// Errors reported by the audio engine, mirroring its status codes one to one.
///
/// The engine's success code is not present: fallible operations return
/// [`PaResult`], whose `Ok` arm stands for it.  Any status code outside the
/// known set maps to `UnknownError`.
#[derive(Clone, Copy, Debug, PartialEq, Eq, Structural)]
pub enum PaError {
    NotInitialized,
    UnanticipatedHostError,
    InvalidChannelCount,
    InvalidSampleRate,
    InvalidDevice,
    InvalidFlag,
    SampleFormatNotSupported,
    BadIODeviceCombination,
    InsufficientMemory,
    BufferTooBig,
    BufferTooSmall,
    NullCallback,
    BadStreamPtr,
    TimedOut,
    InternalError,
    DeviceUnavailable,
    IncompatibleHostApiSpecificStreamInfo,
    StreamIsStopped,
    StreamIsNotStopped,
    InputOverflowed,
    OutputUnderflowed,
    HostApiNotFound,
    InvalidHostApi,
    CanNotReadFromACallbackStream,
    CanNotWriteToACallbackStream,
    CanNotReadFromAnOutputOnlyStream,
    CanNotWriteToAnInputOnlyStream,
    IncompatibleStreamHostApi,
    BadBufferPtr,
    /// Stands for any status code the known set does not cover.
    UnknownError,
}

/// A result whose error arm is a [`PaError`]; the engine's success code maps
/// to `Ok(())`.
pub type PaResult = Result<(), PaError>;

/// The error that each engine status code denotes.  The engine numbers its
/// errors downward from -10000; every code outside the known set, including
/// every non-negative one, is `UnknownError`.
pub open spec fn error_from_code(num: int) -> PaError {
    if num == -10000 {
        PaError::NotInitialized
    } else if num == -9999 {
        PaError::UnanticipatedHostError
    } else if num == -9998 {
        PaError::InvalidChannelCount
    } else if num == -9997 {
        PaError::InvalidSampleRate
    } else if num == -9996 {
        PaError::InvalidDevice
    } else if num == -9995 {
        PaError::InvalidFlag
    } else if num == -9994 {
        PaError::SampleFormatNotSupported
    } else if num == -9993 {
        PaError::BadIODeviceCombination
    } else if num == -9992 {
        PaError::InsufficientMemory
    } else if num == -9991 {
        PaError::BufferTooBig
    } else if num == -9990 {
        PaError::BufferTooSmall
    } else if num == -9989 {
        PaError::NullCallback
    } else if num == -9988 {
        PaError::BadStreamPtr
    } else if num == -9987 {
        PaError::TimedOut
    } else if num == -9986 {
        PaError::InternalError
    } else if num == -9985 {
        PaError::DeviceUnavailable
    } else if num == -9984 {
        PaError::IncompatibleHostApiSpecificStreamInfo
    } else if num == -9983 {
        PaError::StreamIsStopped
    } else if num == -9982 {
        PaError::StreamIsNotStopped
    } else if num == -9981 {
        PaError::InputOverflowed
    } else if num == -9980 {
        PaError::OutputUnderflowed
    } else if num == -9979 {
        PaError::HostApiNotFound
    } else if num == -9978 {
        PaError::InvalidHostApi
    } else if num == -9977 {
        PaError::CanNotReadFromACallbackStream
    } else if num == -9976 {
        PaError::CanNotWriteToACallbackStream
    } else if num == -9975 {
        PaError::CanNotReadFromAnOutputOnlyStream
    } else if num == -9974 {
        PaError::CanNotWriteToAnInputOnlyStream
    } else if num == -9973 {
        PaError::IncompatibleStreamHostApi
    } else if num == -9972 {
        PaError::BadBufferPtr
    } else {
        PaError::UnknownError
    }
}

impl PaError {
    /// Get the enum value corresponding to the given i32
    pub fn from_i32(num: i32) -> (r: PaError)
        ensures
            r == error_from_code(num as int),
    {
        match num {
            -10000 => PaError::NotInitialized,
            -9999 => PaError::UnanticipatedHostError,
            -9998 => PaError::InvalidChannelCount,
            -9997 => PaError::InvalidSampleRate,
            -9996 => PaError::InvalidDevice,
            -9995 => PaError::InvalidFlag,
            -9994 => PaError::SampleFormatNotSupported,
            -9993 => PaError::BadIODeviceCombination,
            -9992 => PaError::InsufficientMemory,
            -9991 => PaError::BufferTooBig,
            -9990 => PaError::BufferTooSmall,
            -9989 => PaError::NullCallback,
            -9988 => PaError::BadStreamPtr,
            -9987 => PaError::TimedOut,
            -9986 => PaError::InternalError,
            -9985 => PaError::DeviceUnavailable,
            -9984 => PaError::IncompatibleHostApiSpecificStreamInfo,
            -9983 => PaError::StreamIsStopped,
            -9982 => PaError::StreamIsNotStopped,
            -9981 => PaError::InputOverflowed,
            -9980 => PaError::OutputUnderflowed,
            -9979 => PaError::HostApiNotFound,
            -9978 => PaError::InvalidHostApi,
            -9977 => PaError::CanNotReadFromACallbackStream,
            -9976 => PaError::CanNotWriteToACallbackStream,
            -9975 => PaError::CanNotReadFromAnOutputOnlyStream,
            -9974 => PaError::CanNotWriteToAnInputOnlyStream,
            -9973 => PaError::IncompatibleStreamHostApi,
            -9972 => PaError::BadBufferPtr,
            _ => PaError::UnknownError,
        }
    }
}

} // verus!
