use portaudio_rs::callback::{NativeTimeInfo, StreamCallbackResult};
use portaudio_rs::pa::PaError;
use portaudio_rs::stream::{is_format_supported, Stream, StreamParameters, StreamState};
use portaudio_rs::util::Duration;

fn output_params(channels: u32) -> StreamParameters<i16> {
    StreamParameters {
        device: 0,
        channel_count: channels,
        suggested_latency: Duration { seconds: 0, nanoseconds: 5_000_000 },
        data: 0i16,
    }
}

#[test]
fn write_to_input_only_stream_fails_without_reaching_engine() {
    let mut stream = Stream::<i16, i16>::open_default(2, 0, 44100, 0, false).unwrap();
    stream.start().unwrap();
    let buffer = vec![0i16; 16];
    assert_eq!(
        stream.write(buffer.as_slice()),
        Err(PaError::CanNotWriteToAnInputOnlyStream)
    );
    assert_eq!(stream.write_calls, 0);
}

#[test]
fn read_from_output_only_stream_fails_without_reaching_engine() {
    let mut stream = Stream::<i16, i16>::open_default(0, 2, 44100, 0, false).unwrap();
    stream.start().unwrap();
    assert_eq!(
        stream.read(8),
        Err(PaError::CanNotReadFromAnOutputOnlyStream)
    );
    assert_eq!(stream.read_calls, 0);
}

#[test]
fn write_with_partial_frame_is_a_bad_buffer() {
    let mut stream = Stream::<i16, i16>::open_default(0, 2, 44100, 0, false).unwrap();
    stream.start().unwrap();
    let buffer = vec![0i16; 7];
    assert_eq!(stream.write(buffer.as_slice()), Err(PaError::BadBufferPtr));
    assert_eq!(stream.write_calls, 0);
}

#[test]
fn write_on_running_stream_reaches_engine_once() {
    let mut stream = Stream::<i16, i16>::open_default(0, 2, 44100, 0, false).unwrap();
    stream.start().unwrap();
    let buffer = vec![0i16; 8];
    assert_eq!(stream.write(buffer.as_slice()), Ok(()));
    assert_eq!(stream.write_calls, 1);
}

#[test]
fn write_on_stopped_stream_is_a_stopped_error() {
    let mut stream = Stream::<i16, i16>::open_default(0, 2, 44100, 0, false).unwrap();
    let buffer = vec![0i16; 4];
    assert_eq!(stream.write(buffer.as_slice()), Err(PaError::StreamIsStopped));
    assert_eq!(stream.write_calls, 1);
}

#[test]
fn callback_stream_rejects_blocking_io() {
    let mut stream = Stream::<i16, i16>::open_default(2, 2, 44100, 0, true).unwrap();
    stream.start().unwrap();
    let buffer = vec![0i16; 4];
    assert_eq!(
        stream.write(buffer.as_slice()),
        Err(PaError::CanNotWriteToACallbackStream)
    );
    assert_eq!(stream.read(2), Err(PaError::CanNotReadFromACallbackStream));
    assert_eq!(stream.write_calls, 1);
    assert_eq!(stream.read_calls, 1);
}

#[test]
fn read_delivers_silence_per_channel() {
    let mut stream = Stream::<i16, i16>::open_default(2, 0, 44100, 0, false).unwrap();
    stream.start().unwrap();
    let frames = stream.read(5).unwrap();
    assert_eq!(frames.len(), 10);
    assert!(frames.iter().all(|&s| s == 0));

    let mut stream = Stream::<u8, u8>::open_default(3, 0, 44100, 0, false).unwrap();
    stream.start().unwrap();
    let frames = stream.read(4).unwrap();
    assert_eq!(frames.len(), 12);
    assert!(frames.iter().all(|&s| s == 128));
}

#[test]
fn trampoline_slice_lengths_match_frame_count() {
    let stream = Stream::<i16, i16>::open_default(1, 2, 44100, 0, true)
        .and_then(|mut s| s.start().map(|_| s))
        .unwrap();
    let time = NativeTimeInfo {
        input_adc_nanos: 1_000_000_000,
        current_nanos: 1_500_000_000,
        output_dac_nanos: 2_000_000_000,
    };
    let pass = stream.run_callback(77, Some(&time), 0xEA);
    assert_eq!(pass.input.len(), 77);
    assert_eq!(pass.output_len, 154);
    assert_eq!(pass.flags.bits, 0x0a);
    assert_eq!(pass.time.input_adc_time, Duration { seconds: 1, nanoseconds: 0 });
    assert_eq!(pass.time.current_time, Duration { seconds: 1, nanoseconds: 500_000_000 });
    assert_eq!(pass.time.output_dac_time, Duration { seconds: 2, nanoseconds: 0 });

    let pass = stream.run_callback(0, Some(&time), 0);
    assert_eq!(pass.input.len(), 0);
    assert_eq!(pass.output_len, 0);
}

#[test]
fn null_time_info_yields_all_zero_durations() {
    let mut stream = Stream::<i16, i16>::open_default(0, 2, 44100, 0, true).unwrap();
    stream.start().unwrap();
    let pass = stream.run_callback(8, None, 0);
    assert_eq!(pass.time.input_adc_time, Duration { seconds: 0, nanoseconds: 0 });
    assert_eq!(pass.time.current_time, Duration { seconds: 0, nanoseconds: 0 });
    assert_eq!(pass.time.output_dac_time, Duration { seconds: 0, nanoseconds: 0 });
}

#[test]
fn finished_callback_fires_exactly_once_per_stop() {
    let mut stream = Stream::<i16, i16>::open_default(0, 2, 44100, 0, false).unwrap();
    stream.set_finished_callback().unwrap();
    stream.start().unwrap();
    stream.stop().unwrap();
    assert_eq!(stream.finished_invocations, 1);

    stream.unset_finished_callback().unwrap();
    stream.start().unwrap();
    stream.stop().unwrap();
    assert_eq!(stream.finished_invocations, 1);
}

#[test]
fn finished_callback_fires_when_callback_completes() {
    let mut stream = Stream::<i16, i16>::open_default(0, 2, 44100, 0, true).unwrap();
    stream.set_finished_callback().unwrap();
    stream.start().unwrap();
    let code = stream.apply_callback_result(StreamCallbackResult::Complete);
    assert_eq!(code, 1);
    assert_eq!(stream.finished_invocations, 1);
    assert_eq!(stream.is_active(), Ok(false));
    assert_eq!(stream.is_stopped(), Ok(false));
    // Stopping a finished stream does not run the callback a second time.
    stream.stop().unwrap();
    assert_eq!(stream.finished_invocations, 1);
    assert_eq!(stream.is_stopped(), Ok(true));
}

#[test]
fn close_twice_releases_callback_state_once() {
    let mut stream = Stream::<i16, i16>::open_default(0, 2, 44100, 0, false).unwrap();
    assert_eq!(stream.released, 0);
    assert_eq!(stream.close(), Ok(()));
    assert_eq!(stream.released, 1);
    assert_eq!(stream.close(), Err(PaError::BadStreamPtr));
    assert_eq!(stream.released, 1);
    assert_eq!(stream.close(), Err(PaError::BadStreamPtr));
    assert_eq!(stream.released, 1);
}

#[test]
fn lifecycle_transition_errors() {
    let mut stream = Stream::<i16, i16>::open_default(0, 2, 44100, 0, false).unwrap();
    assert_eq!(stream.stop(), Err(PaError::StreamIsStopped));
    stream.start().unwrap();
    assert_eq!(stream.start(), Err(PaError::StreamIsNotStopped));
    assert_eq!(stream.is_active(), Ok(true));
    assert_eq!(stream.is_stopped(), Ok(false));
    stream.abort().unwrap();
    assert_eq!(stream.is_stopped(), Ok(true));
    stream.close().unwrap();
    assert_eq!(stream.start(), Err(PaError::BadStreamPtr));
    assert_eq!(stream.stop(), Err(PaError::BadStreamPtr));
    assert_eq!(stream.is_active(), Err(PaError::BadStreamPtr));
    assert_eq!(stream.is_stopped(), Err(PaError::BadStreamPtr));
}

#[test]
fn open_rejects_bad_configurations() {
    assert_eq!(
        Stream::<i16, i16>::open_default(0, 0, 44100, 0, false).err(),
        Some(PaError::InvalidChannelCount)
    );
    assert_eq!(
        Stream::<i16, i16>::open_default(0, 2, 0, 0, false).err(),
        Some(PaError::InvalidSampleRate)
    );
    assert_eq!(
        Stream::<i16, i16>::open(None, None, 44100, 0, portaudio_rs::flags::StreamFlags::empty(), false).err(),
        Some(PaError::InvalidDevice)
    );
    assert_eq!(
        Stream::<i16, i16>::open(
            None,
            Some(output_params(0)),
            44100,
            0,
            portaudio_rs::flags::StreamFlags::empty(),
            false
        )
        .err(),
        Some(PaError::InvalidChannelCount)
    );
}

#[test]
fn open_echoes_configuration_in_info() {
    let mut stream = Stream::<i16, i16>::open(
        None,
        Some(output_params(2)),
        48000,
        0,
        portaudio_rs::flags::StreamFlags::empty(),
        false,
    )
    .unwrap();
    assert_eq!(stream.inputs, 0);
    assert_eq!(stream.outputs, 2);
    let info = stream.info().unwrap();
    assert_eq!(info.sample_rate, 48000);
    assert_eq!(info.output_latency, Duration { seconds: 0, nanoseconds: 5_000_000 });
    assert_eq!(info.input_latency, Duration { seconds: 0, nanoseconds: 0 });
    stream.close().unwrap();
    assert!(stream.info().is_none());
}

#[test]
fn format_support_query() {
    assert_eq!(
        is_format_supported::<i16, i16>(None, None, 44100),
        Err(PaError::InvalidDevice)
    );
    assert_eq!(
        is_format_supported::<i16, i16>(None, Some(output_params(0)), 44100),
        Err(PaError::InvalidChannelCount)
    );
    assert_eq!(
        is_format_supported::<i16, i16>(None, Some(output_params(2)), 0),
        Err(PaError::InvalidSampleRate)
    );
    assert_eq!(
        is_format_supported::<i16, i16>(None, Some(output_params(2)), 44100),
        Ok(())
    );
}

#[test]
fn stream_clock_advances_with_written_frames() {
    let mut stream = Stream::<i16, i16>::open_default(0, 1, 1000, 0, false).unwrap();
    assert_eq!(stream.time(), Duration { seconds: 0, nanoseconds: 0 });
    stream.start().unwrap();
    let buffer = vec![0i16; 100];
    stream.write(buffer.as_slice()).unwrap();
    // 100 frames at 1000 frames per second: a tenth of a second.
    assert_eq!(stream.time(), Duration { seconds: 0, nanoseconds: 100_000_000 });
    let buffer = vec![0i16; 2000];
    stream.write(buffer.as_slice()).unwrap();
    assert_eq!(stream.time(), Duration { seconds: 2, nanoseconds: 100_000_000 });
}

#[test]
fn availability_queries() {
    let mut stream = Stream::<i16, i16>::open_default(1, 1, 44100, 0, false).unwrap();
    assert_eq!(stream.num_read_available(), Ok(0));
    assert_eq!(stream.num_write_available(), Ok(u32::MAX));
    stream.close().unwrap();
    assert_eq!(stream.num_read_available(), Err(PaError::BadStreamPtr));
    assert_eq!(stream.num_write_available(), Err(PaError::BadStreamPtr));
}

#[test]
fn demo_passes_run() {
    portaudio_rs::demo::doit();
    // The demo buffer holds whole stereo frames only: an odd request yields
    // one sample fewer.
    let buffer = portaudio_rs::demo::get_buffer(101);
    assert_eq!(buffer.len(), 100);
    let buffer = portaudio_rs::demo::get_buffer(100);
    assert_eq!(buffer.len(), 100);
}

#[test]
fn state_is_visible() {
    let mut stream = Stream::<i16, i16>::open_default(0, 1, 44100, 0, false).unwrap();
    assert_eq!(stream.state, StreamState::Stopped);
    stream.start().unwrap();
    assert_eq!(stream.state, StreamState::Started);
    stream.close().unwrap();
    assert_eq!(stream.state, StreamState::Closed);
}
