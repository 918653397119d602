//! An end-to-end exercise of the stream lifecycle: one pass in callback mode
//! and one in blocking mode, against the in-memory engine.

use vstd::prelude::*;

use crate::callback::{NativeTimeInfo, StreamCallbackResult};
use crate::stream::{Stream, StreamState, FRAMES_PER_BUFFER_UNSPECIFIED};

verus! {

/// Samples per second used by both demonstration passes.
pub const DEMO_SAMPLE_RATE: u32 = 44100;

/// An interleaved two-channel ramp: the left channel climbs in large steps
/// and the right in small ones, each falling back once it nears the top of
/// the sample range.  Only whole stereo frames are produced, so a request
/// for an odd number of samples yields one sample fewer.
pub fn get_buffer(len: usize) -> (r: Vec<i16>)
    ensures
        r@.len() == 2 * (len / 2),
{
    let frames: usize = len / 2;
    let mut result: Vec<i16> = Vec::new();
    let mut left: i16 = 0;
    let mut right: i16 = 0;
    let mut f: usize = 0;
    while f < frames
        invariant
            result@.len() == 2 * f,
            f <= frames,
            frames <= len / 2,
            -30000 <= left <= 30000,
            -30000 <= right <= 30000,
        decreases frames - f,
    {
        result.push(left);
        result.push(right);
        left = if left > 29000 {
            -30000
        } else {
            left + 983
        };
        right = if right > 29000 {
            -30000
        } else {
            right + 327
        };
        f = f + 1;
    }
    result
}

/// Opens an output-only callback stream, registers and later removes the
/// finished callback, and drives the trampoline through a few engine
/// invocations across two start/stop rounds.
fn callback_demo() {
    let mut stream = match Stream::<i16, i16>::open_default(
        0,
        2,
        DEMO_SAMPLE_RATE,
        FRAMES_PER_BUFFER_UNSPECIFIED,
        true,
    ) {
        Ok(s) => s,
        Err(_) => {
            return;
        },
    };
    let _ = stream.set_finished_callback();
    let _ = stream.start();
    let time = NativeTimeInfo { input_adc_nanos: 0, current_nanos: 1000, output_dac_nanos: 2000 };
    let pass = stream.run_callback(256, Some(&time), 0);
    assert(pass.output_len == 512);
    let _ = stream.apply_callback_result(StreamCallbackResult::Continue);
    let _ = stream.stop();
    assert(stream.finished_invocations == 1);

    let _ = stream.unset_finished_callback();
    let _ = stream.start();
    let pass = stream.run_callback(128, None, 0);
    assert(pass.output_len == 256);
    let _ = stream.apply_callback_result(StreamCallbackResult::Complete);
    let _ = stream.stop();
    assert(stream.finished_invocations == 1);
    let _ = stream.close();
    assert(stream.released == 1);
}

/// Opens an output-only blocking stream, writes one buffer and stops.
fn write_demo() {
    let mut stream = match Stream::<i16, i16>::open_default(
        0,
        2,
        DEMO_SAMPLE_RATE,
        FRAMES_PER_BUFFER_UNSPECIFIED,
        false,
    ) {
        Ok(s) => s,
        Err(_) => {
            return;
        },
    };
    let _ = stream.start();
    let buffer = get_buffer(44100);
    let w = stream.write(buffer.as_slice());
    assert(w == Ok::<(), crate::pa::PaError>(()));
    let _ = stream.stop();
    assert(stream.state is Stopped);
    let _ = stream.close();
    assert(stream.released == 1);
}

/// Runs both demonstration passes.
pub fn doit() {
    callback_demo();
    write_demo();
}

} // verus!
