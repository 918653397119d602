//! The boundary-crossing callback state and the trampoline logic that bridges
//! the engine's fixed calling convention into typed values.
//!
//! The engine invokes a fixed-signature trampoline with raw buffers, a frame
//! count, a possibly-null timing record, a status bitmask and an opaque token
//! for the callback state.  Everything the trampoline decides — the slice
//! lengths handed to the user callback, the truncating decode of the status
//! bits, the zero substitute for a null timing record, and the abort answer
//! when no callback is registered — is plain logic on plain values, and is
//! verified here.  Running the user's own code, which the trampoline merely
//! forwards to, stays with the unverified caller that drives an invocation.

use vstd::prelude::*;

use crate::flags::{StreamCallbackFlags, CALLBACK_FLAGS_MASK};
use crate::util::Duration;

verus! {

/// Allowable return values for an audio callback: the continuation directive
/// handed back to the engine.
#[derive(Clone, Copy, Debug, PartialEq, Eq, Structural)]
pub enum StreamCallbackResult {
    /// Continue invoking the callback.
    Continue,
    /// Stop invoking the callback and finish once everything has played.
    Complete,
    /// Stop invoking the callback and finish as soon as possible.
    Abort,
}

impl StreamCallbackResult {
    /// The native continuation code of this directive.
    pub open spec fn spec_code(self) -> i32 {
        match self {
            StreamCallbackResult::Continue => 0,
            StreamCallbackResult::Complete => 1,
            StreamCallbackResult::Abort => 2,
        }
    }

    /// The native continuation code of this directive.
    pub fn to_code(self) -> (r: i32)
        ensures
            r == self.spec_code(),
    {
        match self {
            StreamCallbackResult::Continue => 0,
            StreamCallbackResult::Complete => 1,
            StreamCallbackResult::Abort => 2,
        }
    }
}

/// Timing of one callback invocation as the engine delivers it, with each
/// timestamp already a whole count of nanoseconds since the engine's epoch.
#[derive(Clone, Copy, Debug, PartialEq, Eq, Structural)]
pub struct NativeTimeInfo {
    /// Capture time of the first input frame.
    pub input_adc_nanos: u64,
    /// Time the callback was invoked.
    pub current_nanos: u64,
    /// Playback time of the first output frame.
    pub output_dac_nanos: u64,
}

/// Time information for various stream related values.
#[derive(Clone, Copy, Debug, PartialEq, Eq, Structural)]
pub struct StreamTimeInfo {
    /// Timestamp for the ADC capture time of the first frame.
    pub input_adc_time: Duration,
    /// Timestamp that the callback was invoked.
    pub current_time: Duration,
    /// Timestamp for the DAC output time of the first frame.
    pub output_dac_time: Duration,
}

impl StreamTimeInfo {
    /// What decoding a native timing record yields: each timestamp split into
    /// whole seconds and a sub-second remainder.
    pub open spec fn spec_from_native(data: NativeTimeInfo) -> StreamTimeInfo {
        StreamTimeInfo {
            input_adc_time: Duration::spec_from_nanos(data.input_adc_nanos as int),
            current_time: Duration::spec_from_nanos(data.current_nanos as int),
            output_dac_time: Duration::spec_from_nanos(data.output_dac_nanos as int),
        }
    }

    /// The all-zero timing record: what a null timing pointer from the engine
    /// is substituted with.
    pub open spec fn spec_zero() -> StreamTimeInfo {
        StreamTimeInfo {
            input_adc_time: Duration { seconds: 0, nanoseconds: 0 },
            current_time: Duration { seconds: 0, nanoseconds: 0 },
            output_dac_time: Duration { seconds: 0, nanoseconds: 0 },
        }
    }

    /// Decodes a native timing record into structured durations.
    pub fn from_native(data: &NativeTimeInfo) -> (r: StreamTimeInfo)
        ensures
            r == StreamTimeInfo::spec_from_native(*data),
            r.input_adc_time.wf() && r.current_time.wf() && r.output_dac_time.wf(),
    {
        StreamTimeInfo {
            input_adc_time: Duration::from_nanos(data.input_adc_nanos),
            current_time: Duration::from_nanos(data.current_nanos),
            output_dac_time: Duration::from_nanos(data.output_dac_nanos),
        }
    }

    /// The all-zero timing record.
    pub fn zero() -> (r: StreamTimeInfo)
        ensures
            r == StreamTimeInfo::spec_zero(),
    {
        StreamTimeInfo {
            input_adc_time: Duration::zero(),
            current_time: Duration::zero(),
            output_dac_time: Duration::zero(),
        }
    }
}

/// The heap-owned record that crosses the foreign boundary as the engine's
/// opaque user-data token: the channel counts fixed at open time and the two
/// optional user callbacks.
///
/// The user callbacks themselves are arbitrary unverified code, run by
/// whoever drives a trampoline invocation; the verified core tracks their
/// presence, which is all the trampoline's decisions depend on.  The record
/// is owned by its stream for the stream's whole lifetime and released
/// exactly once at close; the stream's own bookkeeping enforces that.
#[derive(Clone, Copy, Debug, PartialEq, Eq, Structural)]
pub struct CallbackState {
    /// Channels in each input frame.
    pub num_input: u32,
    /// Channels in each output frame.
    pub num_output: u32,
    /// Whether an audio callback is registered.
    pub has_callback: bool,
    /// Whether a stream-finished callback is registered.
    pub has_finished_callback: bool,
}

/// Everything the audio callback is to receive on one invocation, as the
/// trampoline reconstructs it from the engine's raw arguments.
#[derive(Clone, Copy, Debug, PartialEq, Eq, Structural)]
pub struct CallbackCall {
    /// Samples in the read-only input slice: the frame count times the input
    /// channel count.
    pub input_len: usize,
    /// Samples in the writable output slice: the frame count times the output
    /// channel count.
    pub output_len: usize,
    /// The decoded timing record, all zero when the engine delivered none.
    pub time: StreamTimeInfo,
    /// The decoded status flags, unknown bits discarded.
    pub flags: StreamCallbackFlags,
}

/// The decision the trampoline takes on one invocation.
#[derive(Clone, Copy, Debug, PartialEq, Eq, Structural)]
pub enum CallbackDispatch {
    /// An audio callback is registered: invoke it with these arguments and
    /// hand its directive back to the engine.
    Run(CallbackCall),
    /// No audio callback is registered: the stream has no work to do, so the
    /// engine is answered with [`StreamCallbackResult::Abort`] and no user
    /// code runs.
    NoCallback,
}

impl CallbackDispatch {
    /// The continuation code the trampoline answers the engine with at the
    /// end of one invocation: the user callback's own directive where one
    /// ran and answered, and the abort code otherwise — both where no
    /// callback is registered, since the stream then has no work to do and
    /// should stop rather than loop indefinitely, and where the user
    /// callback yielded no directive, the conservative fallback at the
    /// boundary.
    pub fn continuation_code(self, user_result: Option<StreamCallbackResult>) -> (code: i32)
        ensures
            self is NoCallback ==> code == StreamCallbackResult::Abort.spec_code(),
            user_result is None ==> code == StreamCallbackResult::Abort.spec_code(),
            self is Run ==> (user_result matches Some(res) ==> code == res.spec_code()),
    {
        match self {
            CallbackDispatch::NoCallback => StreamCallbackResult::Abort.to_code(),
            CallbackDispatch::Run(_) => match user_result {
                Some(res) => res.to_code(),
                None => StreamCallbackResult::Abort.to_code(),
            },
        }
    }
}

/// One invocation of the audio trampoline, minus the user code it forwards
/// to: reconstructs the typed view of the engine's raw arguments and decides
/// whether a callback is to run.
///
/// The slice lengths are exactly the frame count times the channel counts
/// fixed at open time; the status bitmask is decoded by truncation; a null
/// timing record — `None` here — yields the all-zero timing record rather
/// than a fault.
pub fn stream_callback(
    state: &CallbackState,
    frame_count: u32,
    time_info: Option<&NativeTimeInfo>,
    status_flags: u64,
) -> (r: CallbackDispatch)
    requires
        frame_count * state.num_input <= usize::MAX,
        frame_count * state.num_output <= usize::MAX,
    ensures
        state.has_callback ==> (r matches CallbackDispatch::Run(call) && {
            &&& call.input_len == frame_count * state.num_input
            &&& call.output_len == frame_count * state.num_output
            &&& call.flags.bits == status_flags & CALLBACK_FLAGS_MASK
            &&& (time_info matches Some(t) ==> call.time == StreamTimeInfo::spec_from_native(*t))
            &&& (time_info is None ==> call.time == StreamTimeInfo::spec_zero())
        }),
        !state.has_callback ==> r is NoCallback,
{
    if !state.has_callback {
        return CallbackDispatch::NoCallback;
    }
    let input_len: usize = frame_count as usize * state.num_input as usize;
    let output_len: usize = frame_count as usize * state.num_output as usize;
    let flags = StreamCallbackFlags::from_bits_truncate(status_flags);
    let time = match time_info {
        Some(data) => StreamTimeInfo::from_native(data),
        None => StreamTimeInfo::zero(),
    };
    CallbackDispatch::Run(CallbackCall { input_len, output_len, time, flags })
}

/// One invocation of the finished-callback trampoline, minus the user code:
/// the engine fires it when the stream becomes inactive, and the user's
/// finished callback is to run exactly when one is registered.
pub fn stream_finished_callback(state: &CallbackState) -> (invoke: bool)
    ensures
        invoke == state.has_finished_callback,
{
    state.has_finished_callback
}

} // verus!
