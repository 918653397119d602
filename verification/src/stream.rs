//! The stream lifecycle object and its state machine: open, start, stop,
//! abort, close, blocking read and write, status queries, and callback
//! attach/detach.
//!
//! The hardware engine is an external collaborator; its documented behaviour
//! — which configurations an open accepts, which lifecycle transition each
//! call makes, which error each misuse earns, and when the finished callback
//! fires — is played here by an in-memory engine held inside [`Stream`].
//! That stand-in transports no audio: reads deliver silence and writes are
//! accepted at once.  It tracks every read and write primitive invocation,
//! every run of the finished callback, and every release of the
//! boundary-crossing [`CallbackState`], so the protocol rules — an error
//! before the engine is reached leaves it untouched, the finished callback
//! runs exactly once per stop, the callback state is released exactly once —
//! are stated in the contracts and checked by the proofs.

use vstd::prelude::*;

use core::marker::PhantomData;

use crate::callback::{
    stream_callback, stream_finished_callback, CallbackDispatch, CallbackState, NativeTimeInfo,
    StreamCallbackResult, StreamTimeInfo,
};
use crate::flags::{StreamCallbackFlags, StreamFlags, CALLBACK_FLAGS_MASK};
use crate::pa::{PaError, PaResult};
use crate::sample::SampleType;
use crate::util::{Duration, NANOS_PER_SECOND};

verus! {

/// Index of a device, as the engine numbers them.  The in-memory engine
/// accepts any index: device enumeration belongs to an external collaborator.
pub type DeviceIndex = u32;

/// Argument to [`Stream::open`] or [`Stream::open_default`] to let the engine
/// itself determine the optimal number of frames per buffer.  That number may
/// differ from one callback invocation to the next.
pub const FRAMES_PER_BUFFER_UNSPECIFIED: u64 = 0;

/// Stream parameters for one side of a stream, to be used with
/// [`Stream::open`].  Immutable once constructed; read only at open time.
#[derive(Clone, Copy)]
pub struct StreamParameters<T> {
    /// Index of the device to use.
    pub device: DeviceIndex,
    /// Requested number of channels.
    pub channel_count: u32,
    /// Desired latency of the stream.
    pub suggested_latency: Duration,
    /// Sample data to be used in the stream.
    pub data: T,
}

/// The lifecycle states of a stream.
#[derive(Clone, Copy, Debug, PartialEq, Eq, Structural)]
pub enum StreamState {
    /// Opened and inactive: the state right after a successful open, and
    /// again after every stop or abort.
    Stopped,
    /// Running: the engine transports audio and, in callback mode, invokes
    /// the trampoline.
    Started,
    /// The audio callback asked to finish: inactive, but not stopped until
    /// stop or abort is called.
    Finished,
    /// Closed: the native handle is gone and the callback state released; no
    /// operation but a query error is possible.
    Closed,
}

/// Information about the actual latency and sample rate values a stream uses.
#[derive(Clone, Copy, Debug, PartialEq, Eq, Structural)]
pub struct StreamInfo {
    /// Input latency.
    pub input_latency: Duration,
    /// Output latency.
    pub output_latency: Duration,
    /// Sample rate, in frames per second.
    pub sample_rate: u32,
}

/// Everything one audio-trampoline invocation hands the user callback: the
/// typed view of the engine's raw buffer pointers, timing record and status
/// bitmask.
pub struct CallbackPass<I> {
    /// The read-only input samples, one slice element per sample: exactly the
    /// frame count times the input channel count.  The in-memory engine
    /// captures nothing, so every sample is silence.
    pub input: Vec<I>,
    /// How many samples the writable output slice holds: exactly the frame
    /// count times the output channel count.
    pub output_len: usize,
    /// The decoded timing record, all zero when the engine delivered none.
    pub time: StreamTimeInfo,
    /// The decoded status flags, unknown bits discarded.
    pub flags: StreamCallbackFlags,
}

/// The channel count a side of an open request asks for: `None` for an
/// absent side.
pub open spec fn spec_side_channels<T>(side: Option<StreamParameters<T>>) -> Option<u32> {
    match side {
        Some(p) => Some(p.channel_count),
        None => None,
    }
}

/// The channel count a stream keeps for one side of an open request: the
/// requested count, or zero for an absent side.
pub open spec fn spec_side_count<T>(side: Option<StreamParameters<T>>) -> u32 {
    match side {
        Some(p) => p.channel_count,
        None => 0,
    }
}

/// The suggested latency of a side of an open request; an absent side
/// suggests none.
pub open spec fn spec_side_latency<T>(side: Option<StreamParameters<T>>) -> Duration {
    match side {
        Some(p) => p.suggested_latency,
        None => Duration { seconds: 0, nanoseconds: 0 },
    }
}

/// How the engine judges an open request or a format query, latency ignored:
/// a request with neither side present names no device at all; a present
/// side must ask for at least one channel; the sample rate must be positive.
/// `None` means the configuration is accepted.
pub open spec fn spec_open_validation(
    input_channels: Option<u32>,
    output_channels: Option<u32>,
    sample_rate: u32,
) -> Option<PaError> {
    if input_channels is None && output_channels is None {
        Some(PaError::InvalidDevice)
    } else if (input_channels matches Some(c) && c == 0) || (output_channels matches Some(c)
        && c == 0) {
        Some(PaError::InvalidChannelCount)
    } else if sample_rate == 0 {
        Some(PaError::InvalidSampleRate)
    } else {
        None
    }
}

/// How the engine judges a default-device open request: the channel counts
/// themselves say which sides exist, so only a request for no channels at
/// all, or a zero sample rate, is rejected.
pub open spec fn spec_open_default_validation(
    num_input_channels: u32,
    num_output_channels: u32,
    sample_rate: u32,
) -> Option<PaError> {
    if num_input_channels == 0 && num_output_channels == 0 {
        Some(PaError::InvalidChannelCount)
    } else if sample_rate == 0 {
        Some(PaError::InvalidSampleRate)
    } else {
        None
    }
}

/// One more on an event counter that saturates at its limit rather than wrap.
pub open spec fn spec_count_one_more(c: u64) -> u64 {
    if c == u64::MAX {
        c
    } else {
        (c + 1) as u64
    }
}

/// Below the saturation cap, one more on an event counter is exactly one
/// more: wherever the counter has room, the exactly-once accounting of the
/// finished callback and of the engine primitives is strict.
pub proof fn lemma_count_one_more_strict(c: u64)
    requires
        c < u64::MAX,
    ensures
        spec_count_one_more(c) == c + 1,
{
}

/// Where the stream clock stands after transporting `frames` frames at
/// `sample_rate` frames per second: advanced by the whole nanoseconds those
/// frames take, saturating at the clock's limit.
pub open spec fn spec_clock_advance(clock: u64, frames: int, sample_rate: u32) -> u64
    recommends
        sample_rate >= 1,
{
    let delta = (frames * NANOS_PER_SECOND) / (sample_rate as int);
    if clock + delta <= u64::MAX {
        (clock + delta) as u64
    } else {
        u64::MAX
    }
}

/// Queries whether the engine can satisfy the given configuration, ignoring
/// the latency fields.  Nothing is allocated or opened.
pub fn is_format_supported<I: SampleType, O: SampleType>(
    input: Option<StreamParameters<I>>,
    output: Option<StreamParameters<O>>,
    sample_rate: u32,
) -> (r: PaResult)
    ensures
        spec_open_validation(
            spec_side_channels(input),
            spec_side_channels(output),
            sample_rate,
        ) matches Some(e) ==> r == PaResult::Err(e),
        spec_open_validation(spec_side_channels(input), spec_side_channels(output), sample_rate)
            is None ==> r == PaResult::Ok(()),
{
    let input_present = input.is_some();
    let output_present = output.is_some();
    if !input_present && !output_present {
        return Err(PaError::InvalidDevice);
    }
    if let Some(p) = &input {
        if p.channel_count == 0 {
            return Err(PaError::InvalidChannelCount);
        }
    }
    if let Some(p) = &output {
        if p.channel_count == 0 {
            return Err(PaError::InvalidChannelCount);
        }
    }
    if sample_rate == 0 {
        return Err(PaError::InvalidSampleRate);
    }
    Ok(())
}

/// A buffer of `len` silence samples: what the in-memory engine delivers in
/// place of captured audio.
fn silence_buffer<S: SampleType>(len: usize) -> (v: Vec<S>)
    ensures
        v@.len() == len,
        forall|i: int| 0 <= i < v@.len() ==> v@[i] == S::spec_silence(),
{
    let mut v: Vec<S> = Vec::new();
    let mut k: usize = 0;
    while k < len
        invariant
            k <= len,
            v@.len() == k,
            forall|i: int| 0 <= i < k ==> v@[i] == S::spec_silence(),
        decreases len - k,
    {
        v.push(S::silence());
        k = k + 1;
    }
    v
}

/// One more on a saturating event counter.
fn count_one_more(c: u64) -> (r: u64)
    ensures
        r == spec_count_one_more(c),
{
    if c == u64::MAX {
        c
    } else {
        c + 1
    }
}

/// Advances a nanosecond clock by `frames` frames at `sample_rate` frames per
/// second, saturating at the clock's limit.
fn advance_clock(clock: u64, frames: u64, sample_rate: u32) -> (r: u64)
    requires
        sample_rate >= 1,
    ensures
        r == spec_clock_advance(clock, frames as int, sample_rate),
{
    let wide: u128 = frames as u128;
    proof {
        assert(wide * (NANOS_PER_SECOND as u128) <= 0xFFFF_FFFF_FFFF_FFFFu128
            * 1_000_000_000u128) by (nonlinear_arith)
            requires
                wide <= 0xFFFF_FFFF_FFFF_FFFFu128,
        ;
    }
    let product: u128 = wide * (NANOS_PER_SECOND as u128);
    let delta: u128 = product / (sample_rate as u128);
    proof {
        assert(delta <= product) by (nonlinear_arith)
            requires
                sample_rate >= 1,
                0 <= product,
                delta == product / (sample_rate as u128),
        ;
    }
    let sum: u128 = (clock as u128) + delta;
    if sum <= u64::MAX as u128 {
        sum as u64
    } else {
        u64::MAX
    }
}

/// An audio stream: the opaque native handle's stand-in, the channel counts
/// fixed at open time, and the exclusively owned [`CallbackState`] whose raw
/// token the engine holds for the stream's whole open lifetime.
///
/// `I` and `O` are the input and output sample types fixed at open time.
/// Every field of the in-memory engine is visible so that the contracts can
/// speak of it; the well-formedness [`Stream::wf`] is established by the open
/// operations and preserved by every method.
pub struct Stream<I: SampleType, O: SampleType> {
    /// Channels in each input frame; zero for an output-only stream.
    pub inputs: u32,
    /// Channels in each output frame; zero for an input-only stream.
    pub outputs: u32,
    /// The boundary-crossing record the engine aliases as its opaque
    /// user-data token, owned by this stream alone.
    pub user_data: CallbackState,
    /// Where the stream stands in its lifecycle.
    pub state: StreamState,
    /// How many times the callback state has been released.  The release
    /// happens at close and must happen exactly once; this is the
    /// allocation-tracking count the contracts pin down.
    pub released: u32,
    /// How many times the engine's write primitive has been invoked.
    pub write_calls: u64,
    /// How many times the engine's read primitive has been invoked.
    pub read_calls: u64,
    /// How many times the finished callback has been run.
    pub finished_invocations: u64,
    /// The stream clock, in nanoseconds since open: advanced by the frames
    /// the blocking primitives transport.
    pub clock_nanos: u64,
    /// Frames per second, fixed at open time; at least one.
    pub sample_rate: u32,
    /// The input latency the stream reports; the in-memory engine echoes the
    /// suggested latency of the open request.
    pub input_latency: Duration,
    /// The output latency the stream reports.
    pub output_latency: Duration,
    /// Marker tying the input sample type to the stream.
    pub phantom_input: PhantomData<I>,
    /// Marker tying the output sample type to the stream.
    pub phantom_output: PhantomData<O>,
}

impl<I: SampleType, O: SampleType> Stream<I, O> {
    /// Well-formedness: the callback state carries the stream's own channel
    /// counts; the callback state is released exactly when the stream is
    /// closed, and never more than once; a finished run only happens in
    /// callback mode; the sample rate is positive and the latencies well
    /// formed.
    pub open spec fn wf(self) -> bool {
        &&& self.user_data.num_input == self.inputs
        &&& self.user_data.num_output == self.outputs
        &&& self.released == (if self.state is Closed {
            1int
        } else {
            0int
        })
        &&& (self.state is Finished ==> self.user_data.has_callback)
        &&& self.sample_rate >= 1
        &&& self.input_latency.wf()
        &&& self.output_latency.wf()
    }

    /// The parts fixed at open time: channel counts, sample rate, latencies.
    pub open spec fn spec_same_config(pre: Self, post: Self) -> bool {
        &&& post.inputs == pre.inputs
        &&& post.outputs == pre.outputs
        &&& post.sample_rate == pre.sample_rate
        &&& post.input_latency == pre.input_latency
        &&& post.output_latency == pre.output_latency
    }

    /// Everything except the lifecycle state: what a pure transition such as
    /// start leaves untouched.
    pub open spec fn spec_only_state_changed(pre: Self, post: Self) -> bool {
        &&& Self::spec_same_config(pre, post)
        &&& post.user_data == pre.user_data
        &&& post.released == pre.released
        &&& post.write_calls == pre.write_calls
        &&& post.read_calls == pre.read_calls
        &&& post.finished_invocations == pre.finished_invocations
        &&& post.clock_nanos == pre.clock_nanos
    }

    /// Constructs a stream with the desired input and output specifications.
    ///
    /// At least one side must be present: a request with neither names no
    /// device and is rejected as such rather than guessed at.  A present side
    /// must ask for at least one channel, and the sample rate must be
    /// positive; the error states exactly which check failed.  On success the
    /// stream is inactive, its callback state freshly built and handed to the
    /// engine, and nothing released or counted yet.
    ///
    /// `frames_per_buffer` — [`FRAMES_PER_BUFFER_UNSPECIFIED`] to let the
    /// engine choose — and `flags` tune the engine's buffering; the in-memory
    /// engine reports its frame count per invocation instead, so neither
    /// shows up in the stream's visible state.  `with_callback` says whether
    /// the audio-callback trampoline is registered: a callback stream is
    /// driven through [`Stream::run_callback`], a blocking stream through
    /// [`Stream::read`] and [`Stream::write`].
    pub fn open(
        input: Option<StreamParameters<I>>,
        output: Option<StreamParameters<O>>,
        sample_rate: u32,
        frames_per_buffer: u64,
        flags: StreamFlags,
        with_callback: bool,
    ) -> (r: Result<Stream<I, O>, PaError>)
        requires
            (input matches Some(p) ==> p.suggested_latency.wf()),
            (output matches Some(p) ==> p.suggested_latency.wf()),
        ensures
            spec_open_validation(
                spec_side_channels(input),
                spec_side_channels(output),
                sample_rate,
            ) matches Some(e) ==> (r matches Err(err) && err == e),
            spec_open_validation(spec_side_channels(input), spec_side_channels(output), sample_rate)
                is None ==> (r matches Ok(s) && {
                &&& s.wf()
                &&& s.inputs == spec_side_count(input)
                &&& s.outputs == spec_side_count(output)
                &&& s.user_data.has_callback == with_callback
                &&& !s.user_data.has_finished_callback
                &&& s.state is Stopped
                &&& s.released == 0
                &&& s.write_calls == 0
                &&& s.read_calls == 0
                &&& s.finished_invocations == 0
                &&& s.clock_nanos == 0
                &&& s.sample_rate == sample_rate
                &&& s.input_latency == spec_side_latency(input)
                &&& s.output_latency == spec_side_latency(output)
            }),
    {
        if input.is_none() && output.is_none() {
            return Err(PaError::InvalidDevice);
        }
        let (input_count, input_latency) = match &input {
            Some(p) => (p.channel_count, p.suggested_latency),
            None => (0u32, Duration::zero()),
        };
        let (output_count, output_latency) = match &output {
            Some(p) => (p.channel_count, p.suggested_latency),
            None => (0u32, Duration::zero()),
        };
        if input.is_some() && input_count == 0 {
            return Err(PaError::InvalidChannelCount);
        }
        if output.is_some() && output_count == 0 {
            return Err(PaError::InvalidChannelCount);
        }
        if sample_rate == 0 {
            return Err(PaError::InvalidSampleRate);
        }
        Ok(
            Stream {
                inputs: input_count,
                outputs: output_count,
                user_data: CallbackState {
                    num_input: input_count,
                    num_output: output_count,
                    has_callback: with_callback,
                    has_finished_callback: false,
                },
                state: StreamState::Stopped,
                released: 0,
                write_calls: 0,
                read_calls: 0,
                finished_invocations: 0,
                clock_nanos: 0,
                sample_rate,
                input_latency,
                output_latency,
                phantom_input: PhantomData,
                phantom_output: PhantomData,
            },
        )
    }

    /// Starts the stream.
    ///
    /// Only an inactive stream can start; a running or finished stream earns
    /// the engine's not-stopped error, and a closed one its bad-handle error,
    /// with nothing changed.
    pub fn start(&mut self) -> (r: PaResult)
        requires
            old(self).wf(),
        ensures
            final(self).wf(),
            old(self).state is Stopped ==> {
                &&& r == PaResult::Ok(())
                &&& final(self).state is Started
                &&& Self::spec_only_state_changed(*old(self), *final(self))
            },
            (old(self).state is Started || old(self).state is Finished) ==> r == PaResult::Err(
                PaError::StreamIsNotStopped,
            ) && *final(self) == *old(self),
            old(self).state is Closed ==> r == PaResult::Err(PaError::BadStreamPtr) && *final(self)
                == *old(self),
    {
        match self.state {
            StreamState::Stopped => {
                self.state = StreamState::Started;
                Ok(())
            },
            StreamState::Started | StreamState::Finished => Err(PaError::StreamIsNotStopped),
            StreamState::Closed => Err(PaError::BadStreamPtr),
        }
    }

    /// Stops the stream, blocking until all buffered output has finished
    /// playing.
    ///
    /// Stopping a running stream succeeds and runs the finished callback
    /// exactly once if one is registered, and not at all otherwise.  A
    /// finished stream stops without running it again — it already ran when
    /// the stream became inactive.  An already stopped stream earns the
    /// engine's stopped error, and a closed one its bad-handle error, with
    /// nothing changed.
    pub fn stop(&mut self) -> (r: PaResult)
        requires
            old(self).wf(),
        ensures
            final(self).wf(),
            old(self).state is Started ==> {
                &&& r == PaResult::Ok(())
                &&& final(self).state is Stopped
                &&& final(self).finished_invocations == (if old(self).user_data.has_finished_callback {
                    spec_count_one_more(old(self).finished_invocations)
                } else {
                    old(self).finished_invocations
                })
                &&& Self::spec_same_config(*old(self), *final(self))
                &&& final(self).user_data == old(self).user_data
                &&& final(self).released == old(self).released
                &&& final(self).write_calls == old(self).write_calls
                &&& final(self).read_calls == old(self).read_calls
                &&& final(self).clock_nanos == old(self).clock_nanos
            },
            old(self).state is Finished ==> {
                &&& r == PaResult::Ok(())
                &&& final(self).state is Stopped
                &&& Self::spec_only_state_changed(*old(self), *final(self))
            },
            old(self).state is Stopped ==> r == PaResult::Err(PaError::StreamIsStopped) && *final(self) == *old(self),
            old(self).state is Closed ==> r == PaResult::Err(PaError::BadStreamPtr) && *final(self)
                == *old(self),
    {
        match self.state {
            StreamState::Started => {
                self.state = StreamState::Stopped;
                if stream_finished_callback(&self.user_data) {
                    self.finished_invocations = count_one_more(self.finished_invocations);
                }
                Ok(())
            },
            StreamState::Finished => {
                self.state = StreamState::Stopped;
                Ok(())
            },
            StreamState::Stopped => Err(PaError::StreamIsStopped),
            StreamState::Closed => Err(PaError::BadStreamPtr),
        }
    }

    /// Stops the stream immediately, discarding pending buffered audio
    /// instead of waiting for it.
    ///
    /// The lifecycle effect is the same as [`Stream::stop`]; the in-memory
    /// engine buffers nothing, so nothing is there to discard.
    pub fn abort(&mut self) -> (r: PaResult)
        requires
            old(self).wf(),
        ensures
            final(self).wf(),
            old(self).state is Started ==> {
                &&& r == PaResult::Ok(())
                &&& final(self).state is Stopped
                &&& final(self).finished_invocations == (if old(self).user_data.has_finished_callback {
                    spec_count_one_more(old(self).finished_invocations)
                } else {
                    old(self).finished_invocations
                })
                &&& Self::spec_same_config(*old(self), *final(self))
                &&& final(self).user_data == old(self).user_data
                &&& final(self).released == old(self).released
                &&& final(self).write_calls == old(self).write_calls
                &&& final(self).read_calls == old(self).read_calls
                &&& final(self).clock_nanos == old(self).clock_nanos
            },
            old(self).state is Finished ==> {
                &&& r == PaResult::Ok(())
                &&& final(self).state is Stopped
                &&& Self::spec_only_state_changed(*old(self), *final(self))
            },
            old(self).state is Stopped ==> r == PaResult::Err(PaError::StreamIsStopped) && *final(self) == *old(self),
            old(self).state is Closed ==> r == PaResult::Err(PaError::BadStreamPtr) && *final(self)
                == *old(self),
    {
        match self.state {
            StreamState::Started => {
                self.state = StreamState::Stopped;
                if stream_finished_callback(&self.user_data) {
                    self.finished_invocations = count_one_more(self.finished_invocations);
                }
                Ok(())
            },
            StreamState::Finished => {
                self.state = StreamState::Stopped;
                Ok(())
            },
            StreamState::Stopped => Err(PaError::StreamIsStopped),
            StreamState::Closed => Err(PaError::BadStreamPtr),
        }
    }

    /// Closes the stream: the native handle is closed first, so the engine
    /// can issue no further trampoline invocation, and only then is the
    /// callback state released.
    ///
    /// Closing any open stream succeeds from any state and releases the
    /// callback state exactly once.  Closing again earns the engine's
    /// bad-handle error and releases nothing more: after a close, however
    /// often repeated, the release count stands at one.
    pub fn close(&mut self) -> (r: PaResult)
        requires
            old(self).wf(),
        ensures
            final(self).wf(),
            final(self).released == 1,
            old(self).state !is Closed ==> {
                &&& r == PaResult::Ok(())
                &&& final(self).state is Closed
                &&& final(self).released == old(self).released + 1
                &&& Self::spec_same_config(*old(self), *final(self))
                &&& final(self).user_data == old(self).user_data
                &&& final(self).write_calls == old(self).write_calls
                &&& final(self).read_calls == old(self).read_calls
                &&& final(self).finished_invocations == old(self).finished_invocations
                &&& final(self).clock_nanos == old(self).clock_nanos
            },
            old(self).state is Closed ==> r == PaResult::Err(PaError::BadStreamPtr) && *final(self)
                == *old(self),
    {
        match self.state {
            StreamState::Closed => Err(PaError::BadStreamPtr),
            _ => {
                self.state = StreamState::Closed;
                self.released = self.released + 1;
                Ok(())
            },
        }
    }

    /// Returns whether the stream is stopped: true exactly in the stopped
    /// state — a running or finished stream is not stopped — and the
    /// engine's bad-handle error once the stream is closed.
    pub fn is_stopped(&self) -> (r: Result<bool, PaError>)
        requires
            self.wf(),
        ensures
            self.state is Closed ==> r == Result::<bool, PaError>::Err(PaError::BadStreamPtr),
            self.state !is Closed ==> r == Result::<bool, PaError>::Ok(self.state is Stopped),
    {
        match self.state {
            StreamState::Closed => Err(PaError::BadStreamPtr),
            StreamState::Stopped => Ok(true),
            _ => Ok(false),
        }
    }

    /// Returns whether the stream is active: true exactly while started — a
    /// finished stream is inactive but not stopped — and the engine's
    /// bad-handle error once the stream is closed.
    pub fn is_active(&self) -> (r: Result<bool, PaError>)
        requires
            self.wf(),
        ensures
            self.state is Closed ==> r == Result::<bool, PaError>::Err(PaError::BadStreamPtr),
            self.state !is Closed ==> r == Result::<bool, PaError>::Ok(self.state is Started),
    {
        match self.state {
            StreamState::Closed => Err(PaError::BadStreamPtr),
            StreamState::Started => Ok(true),
            _ => Ok(false),
        }
    }

    /// The number of frames that can be read without waiting.  The in-memory
    /// engine captures no audio, so nothing ever waits to be read.
    pub fn num_read_available(&self) -> (r: Result<u32, PaError>)
        requires
            self.wf(),
        ensures
            self.state is Closed ==> r == Result::<u32, PaError>::Err(PaError::BadStreamPtr),
            self.state !is Closed ==> r == Result::<u32, PaError>::Ok(0u32),
    {
        match self.state {
            StreamState::Closed => Err(PaError::BadStreamPtr),
            _ => Ok(0),
        }
    }

    /// The number of frames that can be written without waiting.  The
    /// in-memory engine accepts every write at once, so no bound applies.
    pub fn num_write_available(&self) -> (r: Result<u32, PaError>)
        requires
            self.wf(),
        ensures
            self.state is Closed ==> r == Result::<u32, PaError>::Err(PaError::BadStreamPtr),
            self.state !is Closed ==> r == Result::<u32, PaError>::Ok(u32::MAX),
    {
        match self.state {
            StreamState::Closed => Err(PaError::BadStreamPtr),
            _ => Ok(u32::MAX),
        }
    }

    /// Writes the given buffer to the stream, blocking until the engine has
    /// accepted all frames; there are no partial writes.
    ///
    /// An input-only stream cannot be written to, and a buffer whose length
    /// is not a whole number of output frames is a bad buffer; both are
    /// rejected before the engine's write primitive is invoked, which the
    /// unchanged invocation count records.  Past those checks the engine is
    /// reached exactly once: a closed stream earns the bad-handle error, a
    /// callback stream cannot be written to, an inactive stream is stopped,
    /// and on a running stream the write succeeds and advances the stream
    /// clock by the frames written.
    pub fn write(&mut self, buffer: &[O]) -> (r: PaResult)
        requires
            old(self).wf(),
        ensures
            final(self).wf(),
            old(self).outputs == 0 ==> r == PaResult::Err(PaError::CanNotWriteToAnInputOnlyStream)
                && *final(self) == *old(self),
            old(self).outputs != 0 && (buffer@.len() as int) % (old(self).outputs as int) != 0 ==> r
                == PaResult::Err(PaError::BadBufferPtr) && *final(self) == *old(self),
            old(self).outputs != 0 && (buffer@.len() as int) % (old(self).outputs as int) == 0 ==> {
                &&& final(self).write_calls == spec_count_one_more(old(self).write_calls)
                &&& Self::spec_same_config(*old(self), *final(self))
                &&& final(self).user_data == old(self).user_data
                &&& final(self).state == old(self).state
                &&& final(self).released == old(self).released
                &&& final(self).read_calls == old(self).read_calls
                &&& final(self).finished_invocations == old(self).finished_invocations
                &&& (old(self).state is Closed ==> r == PaResult::Err(PaError::BadStreamPtr)
                    && final(self).clock_nanos == old(self).clock_nanos)
                &&& (old(self).state !is Closed && old(self).user_data.has_callback ==> r
                    == PaResult::Err(PaError::CanNotWriteToACallbackStream) && final(self).clock_nanos == old(self).clock_nanos)
                &&& (old(self).state !is Closed && !old(self).user_data.has_callback && old(self).state !is Started ==> r == PaResult::Err(PaError::StreamIsStopped) && final(self).clock_nanos == old(self).clock_nanos)
                &&& (old(self).state is Started && !old(self).user_data.has_callback ==> r
                    == PaResult::Ok(()) && final(self).clock_nanos == spec_clock_advance(
                    old(self).clock_nanos,
                    (buffer@.len() as int) / (old(self).outputs as int),
                    old(self).sample_rate,
                ))
            },
    {
        if self.outputs == 0 {
            return Err(PaError::CanNotWriteToAnInputOnlyStream);
        }
        if buffer.len() % (self.outputs as usize) != 0 {
            return Err(PaError::BadBufferPtr);
        }
        self.write_calls = count_one_more(self.write_calls);
        match self.state {
            StreamState::Closed => Err(PaError::BadStreamPtr),
            _ => {
                if self.user_data.has_callback {
                    return Err(PaError::CanNotWriteToACallbackStream);
                }
                match self.state {
                    StreamState::Started => {
                        let frames = buffer.len() / (self.outputs as usize);
                        self.clock_nanos = advance_clock(
                            self.clock_nanos,
                            frames as u64,
                            self.sample_rate,
                        );
                        Ok(())
                    },
                    _ => Err(PaError::StreamIsStopped),
                }
            },
        }
    }

    /// Reads the requested number of frames from the stream, blocking until
    /// the whole buffer has been filled.
    ///
    /// An output-only stream cannot be read from; that is rejected before the
    /// engine's read primitive is invoked, which the unchanged invocation
    /// count records.  Past that check the engine is reached exactly once: a
    /// closed stream earns the bad-handle error, a callback stream cannot be
    /// read from, an inactive stream is stopped, and on a running stream the
    /// read delivers one sample per channel per frame — all silence, as the
    /// in-memory engine captures nothing — and advances the stream clock by
    /// the frames read.
    pub fn read(&mut self, frames: u32) -> (r: Result<Vec<I>, PaError>)
        requires
            old(self).wf(),
            frames * old(self).inputs <= usize::MAX,
        ensures
            final(self).wf(),
            old(self).inputs == 0 ==> (r matches Err(e) && e
                == PaError::CanNotReadFromAnOutputOnlyStream && *final(self) == *old(self)),
            old(self).inputs != 0 ==> {
                &&& final(self).read_calls == spec_count_one_more(old(self).read_calls)
                &&& Self::spec_same_config(*old(self), *final(self))
                &&& final(self).user_data == old(self).user_data
                &&& final(self).state == old(self).state
                &&& final(self).released == old(self).released
                &&& final(self).write_calls == old(self).write_calls
                &&& final(self).finished_invocations == old(self).finished_invocations
                &&& (old(self).state is Closed ==> (r matches Err(e) && e
                    == PaError::BadStreamPtr && final(self).clock_nanos == old(self).clock_nanos))
                &&& (old(self).state !is Closed && old(self).user_data.has_callback ==> (r
                    matches Err(e) && e == PaError::CanNotReadFromACallbackStream && final(self).clock_nanos == old(self).clock_nanos))
                &&& (old(self).state !is Closed && !old(self).user_data.has_callback && old(self).state !is Started ==> (r matches Err(e) && e == PaError::StreamIsStopped && final(self).clock_nanos == old(self).clock_nanos))
                &&& (old(self).state is Started && !old(self).user_data.has_callback ==> (r
                    matches Ok(v) && v@.len() == frames * old(self).inputs && (forall|i: int|
                    0 <= i < v@.len() ==> v@[i] == I::spec_silence()) && final(self).clock_nanos
                    == spec_clock_advance(old(self).clock_nanos, frames as int, old(self).sample_rate)))
            },
    {
        if self.inputs == 0 {
            return Err(PaError::CanNotReadFromAnOutputOnlyStream);
        }
        self.read_calls = count_one_more(self.read_calls);
        match self.state {
            StreamState::Closed => Err(PaError::BadStreamPtr),
            _ => {
                if self.user_data.has_callback {
                    return Err(PaError::CanNotReadFromACallbackStream);
                }
                match self.state {
                    StreamState::Started => {
                        let len: usize = (frames as usize) * (self.inputs as usize);
                        let buffer = silence_buffer::<I>(len);
                        self.clock_nanos = advance_clock(
                            self.clock_nanos,
                            frames as u64,
                            self.sample_rate,
                        );
                        Ok(buffer)
                    },
                    _ => Err(PaError::StreamIsStopped),
                }
            },
        }
    }

    /// The current timestamp of the stream: where its clock stands, or the
    /// zero duration once the stream is closed.
    pub fn time(&self) -> (r: Duration)
        requires
            self.wf(),
        ensures
            r.wf(),
            self.state is Closed ==> r.spec_total_nanos() == 0,
            self.state !is Closed ==> r == Duration::spec_from_nanos(self.clock_nanos as int),
    {
        match self.state {
            StreamState::Closed => Duration::zero(),
            _ => Duration::from_nanos(self.clock_nanos),
        }
    }

    /// The actual latencies and sample rate of the stream, or `None` once
    /// the stream is closed.
    pub fn info(&self) -> (r: Option<StreamInfo>)
        requires
            self.wf(),
        ensures
            self.state is Closed ==> r is None,
            self.state !is Closed ==> r == Some(
                StreamInfo {
                    input_latency: self.input_latency,
                    output_latency: self.output_latency,
                    sample_rate: self.sample_rate,
                },
            ),
    {
        match self.state {
            StreamState::Closed => None,
            _ => Some(
                StreamInfo {
                    input_latency: self.input_latency,
                    output_latency: self.output_latency,
                    sample_rate: self.sample_rate,
                },
            ),
        }
    }

    /// Registers the finished callback, to be run once at each following stop
    /// of the stream.  The callback-state slot is written first, as the
    /// engine's registration call is reached only through a live handle: on a
    /// closed stream the registration itself fails with the bad-handle error.
    pub fn set_finished_callback(&mut self) -> (r: PaResult)
        requires
            old(self).wf(),
        ensures
            final(self).wf(),
            final(self).user_data == (CallbackState {
                has_finished_callback: true,
                ..old(self).user_data
            }),
            Self::spec_same_config(*old(self), *final(self)),
            final(self).state == old(self).state,
            final(self).released == old(self).released,
            final(self).write_calls == old(self).write_calls,
            final(self).read_calls == old(self).read_calls,
            final(self).finished_invocations == old(self).finished_invocations,
            final(self).clock_nanos == old(self).clock_nanos,
            old(self).state is Closed ==> r == PaResult::Err(PaError::BadStreamPtr),
            old(self).state !is Closed ==> r == PaResult::Ok(()),
    {
        self.user_data.has_finished_callback = true;
        match self.state {
            StreamState::Closed => Err(PaError::BadStreamPtr),
            _ => Ok(()),
        }
    }

    /// Removes any previously registered finished callback: following stops
    /// run nothing.
    pub fn unset_finished_callback(&mut self) -> (r: PaResult)
        requires
            old(self).wf(),
        ensures
            final(self).wf(),
            final(self).user_data == (CallbackState {
                has_finished_callback: false,
                ..old(self).user_data
            }),
            Self::spec_same_config(*old(self), *final(self)),
            final(self).state == old(self).state,
            final(self).released == old(self).released,
            final(self).write_calls == old(self).write_calls,
            final(self).read_calls == old(self).read_calls,
            final(self).finished_invocations == old(self).finished_invocations,
            final(self).clock_nanos == old(self).clock_nanos,
            old(self).state is Closed ==> r == PaResult::Err(PaError::BadStreamPtr),
            old(self).state !is Closed ==> r == PaResult::Ok(()),
    {
        self.user_data.has_finished_callback = false;
        match self.state {
            StreamState::Closed => Err(PaError::BadStreamPtr),
            _ => Ok(()),
        }
    }

    /// One engine invocation of the audio trampoline on this stream, with the
    /// raw arguments the engine reports: its chosen frame count, its timing
    /// record — `None` standing for a null pointer — and its status bitmask.
    ///
    /// The engine invokes the trampoline only on a running callback stream,
    /// from one thread at a time; that contract is what the preconditions
    /// state.  What comes back is everything the user callback receives:
    /// slices of exactly the frame count times each channel count, the
    /// decoded timing record — all zero for a null pointer — and the status
    /// flags with unknown bits discarded.  The caller runs the user callback
    /// on it and hands the directive to [`Stream::apply_callback_result`].
    pub fn run_callback(
        &self,
        frame_count: u32,
        time_info: Option<&NativeTimeInfo>,
        status_flags: u64,
    ) -> (r: CallbackPass<I>)
        requires
            self.wf(),
            self.state is Started,
            self.user_data.has_callback,
            frame_count * self.inputs <= usize::MAX,
            frame_count * self.outputs <= usize::MAX,
        ensures
            r.input@.len() == frame_count * self.inputs,
            forall|i: int| 0 <= i < r.input@.len() ==> r.input@[i] == I::spec_silence(),
            r.output_len == frame_count * self.outputs,
            r.flags.bits == status_flags & CALLBACK_FLAGS_MASK,
            time_info matches Some(t) ==> r.time == StreamTimeInfo::spec_from_native(*t),
            time_info is None ==> r.time == StreamTimeInfo::spec_zero(),
    {
        let dispatch = stream_callback(&self.user_data, frame_count, time_info, status_flags);
        match dispatch {
            CallbackDispatch::Run(call) => {
                let input = silence_buffer::<I>(call.input_len);
                CallbackPass {
                    input,
                    output_len: call.output_len,
                    time: call.time,
                    flags: call.flags,
                }
            },
            CallbackDispatch::NoCallback => {
                proof {
                    assert(false);  // the trampoline is registered only with a callback present
                }
                CallbackPass {
                    input: Vec::new(),
                    output_len: 0,
                    time: StreamTimeInfo::zero(),
                    flags: StreamCallbackFlags::empty(),
                }
            },
        }
    }

    /// Hands the user callback's continuation directive back to the engine
    /// and returns the native continuation code the trampoline answers with.
    ///
    /// On `Continue` the stream keeps running, untouched.  On `Complete` or
    /// `Abort` the stream becomes finished — inactive but not stopped — and,
    /// the moment it becomes inactive, the finished callback runs exactly
    /// once if one is registered.
    pub fn apply_callback_result(&mut self, result: StreamCallbackResult) -> (code: i32)
        requires
            old(self).wf(),
            old(self).state is Started,
            old(self).user_data.has_callback,
        ensures
            final(self).wf(),
            code == result.spec_code(),
            result is Continue ==> *final(self) == *old(self),
            (result is Complete || result is Abort) ==> {
                &&& final(self).state is Finished
                &&& final(self).finished_invocations == (if old(self).user_data.has_finished_callback {
                    spec_count_one_more(old(self).finished_invocations)
                } else {
                    old(self).finished_invocations
                })
                &&& Self::spec_same_config(*old(self), *final(self))
                &&& final(self).user_data == old(self).user_data
                &&& final(self).released == old(self).released
                &&& final(self).write_calls == old(self).write_calls
                &&& final(self).read_calls == old(self).read_calls
                &&& final(self).clock_nanos == old(self).clock_nanos
            },
    {
        match result {
            StreamCallbackResult::Continue => {},
            _ => {
                self.state = StreamState::Finished;
                if stream_finished_callback(&self.user_data) {
                    self.finished_invocations = count_one_more(self.finished_invocations);
                }
            },
        }
        result.to_code()
    }
}

impl<T: SampleType> Stream<T, T> {
    /// Constructs a stream using the default input and output devices.
    ///
    /// The channel counts themselves say which sides exist — zero means the
    /// side is absent — so only a request for no channels at all, or a zero
    /// sample rate, is rejected.  On success the stream is inactive with no
    /// suggested latencies, its callback state freshly built, and nothing
    /// released or counted yet.
    pub fn open_default(
        num_input_channels: u32,
        num_output_channels: u32,
        sample_rate: u32,
        frames_per_buffer: u64,
        with_callback: bool,
    ) -> (r: Result<Stream<T, T>, PaError>)
        ensures
            spec_open_default_validation(
                num_input_channels,
                num_output_channels,
                sample_rate,
            ) matches Some(e) ==> (r matches Err(err) && err == e),
            spec_open_default_validation(num_input_channels, num_output_channels, sample_rate)
                is None ==> (r matches Ok(s) && {
                &&& s.wf()
                &&& s.inputs == num_input_channels
                &&& s.outputs == num_output_channels
                &&& s.user_data.has_callback == with_callback
                &&& !s.user_data.has_finished_callback
                &&& s.state is Stopped
                &&& s.released == 0
                &&& s.write_calls == 0
                &&& s.read_calls == 0
                &&& s.finished_invocations == 0
                &&& s.clock_nanos == 0
                &&& s.sample_rate == sample_rate
                &&& s.input_latency.spec_total_nanos() == 0
                &&& s.output_latency.spec_total_nanos() == 0
            }),
    {
        if num_input_channels == 0 && num_output_channels == 0 {
            return Err(PaError::InvalidChannelCount);
        }
        if sample_rate == 0 {
            return Err(PaError::InvalidSampleRate);
        }
        Ok(
            Stream {
                inputs: num_input_channels,
                outputs: num_output_channels,
                user_data: CallbackState {
                    num_input: num_input_channels,
                    num_output: num_output_channels,
                    has_callback: with_callback,
                    has_finished_callback: false,
                },
                state: StreamState::Stopped,
                released: 0,
                write_calls: 0,
                read_calls: 0,
                finished_invocations: 0,
                clock_nanos: 0,
                sample_rate,
                input_latency: Duration::zero(),
                output_latency: Duration::zero(),
                phantom_input: PhantomData,
                phantom_output: PhantomData,
            },
        )
    }
}

} // verus!
