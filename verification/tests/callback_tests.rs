use portaudio_rs::callback::{
    stream_callback, stream_finished_callback, CallbackDispatch, CallbackState, NativeTimeInfo,
    StreamCallbackResult, StreamTimeInfo,
};
use portaudio_rs::util::Duration;

fn state(has_callback: bool, has_finished_callback: bool) -> CallbackState {
    CallbackState {
        num_input: 2,
        num_output: 3,
        has_callback,
        has_finished_callback,
    }
}

#[test]
fn continuation_codes() {
    assert_eq!(StreamCallbackResult::Continue.to_code(), 0);
    assert_eq!(StreamCallbackResult::Complete.to_code(), 1);
    assert_eq!(StreamCallbackResult::Abort.to_code(), 2);
}

#[test]
fn trampoline_reconstructs_typed_arguments() {
    let time = NativeTimeInfo {
        input_adc_nanos: 2_512_389_131,
        current_nanos: 2_600_000_000,
        output_dac_nanos: 2_700_000_001,
    };
    match stream_callback(&state(true, false), 10, Some(&time), 0x3f) {
        CallbackDispatch::Run(call) => {
            assert_eq!(call.input_len, 20);
            assert_eq!(call.output_len, 30);
            assert_eq!(call.flags.bits, 0x1f);
            assert_eq!(
                call.time.input_adc_time,
                Duration { seconds: 2, nanoseconds: 512_389_131 }
            );
            assert_eq!(
                call.time.current_time,
                Duration { seconds: 2, nanoseconds: 600_000_000 }
            );
            assert_eq!(
                call.time.output_dac_time,
                Duration { seconds: 2, nanoseconds: 700_000_001 }
            );
        }
        CallbackDispatch::NoCallback => panic!("a registered callback must be dispatched"),
    }
}

#[test]
fn trampoline_substitutes_zero_time_for_null_pointer() {
    match stream_callback(&state(true, false), 4, None, 0) {
        CallbackDispatch::Run(call) => {
            assert_eq!(call.time, StreamTimeInfo::zero());
        }
        CallbackDispatch::NoCallback => panic!("a registered callback must be dispatched"),
    }
}

#[test]
fn trampoline_aborts_without_a_callback() {
    // With no audio callback registered the trampoline runs no user code and
    // answers the engine with the abort code.
    let dispatch = stream_callback(&state(false, true), 4, None, 0);
    assert!(matches!(dispatch, CallbackDispatch::NoCallback));
    assert_eq!(dispatch.continuation_code(None), 2);
}

#[test]
fn trampoline_answers_with_the_user_directive() {
    let dispatch = stream_callback(&state(true, false), 4, None, 0);
    assert!(matches!(dispatch, CallbackDispatch::Run(_)));
    assert_eq!(
        dispatch.continuation_code(Some(StreamCallbackResult::Continue)),
        0
    );
    assert_eq!(
        dispatch.continuation_code(Some(StreamCallbackResult::Complete)),
        1
    );
    assert_eq!(
        dispatch.continuation_code(Some(StreamCallbackResult::Abort)),
        2
    );
    // A callback that yielded no directive is answered conservatively.
    assert_eq!(dispatch.continuation_code(None), 2);
}

#[test]
fn finished_trampoline_runs_only_registered_callbacks() {
    assert!(stream_finished_callback(&state(false, true)));
    assert!(!stream_finished_callback(&state(true, false)));
}
