use portaudio_rs::pa::PaError;
use portaudio_rs::util::to_pa_result;

#[test]
fn error_codes_map_to_variants() {
    assert_eq!(PaError::from_i32(-10000), PaError::NotInitialized);
    assert_eq!(PaError::from_i32(-9998), PaError::InvalidChannelCount);
    assert_eq!(PaError::from_i32(-9997), PaError::InvalidSampleRate);
    assert_eq!(PaError::from_i32(-9988), PaError::BadStreamPtr);
    assert_eq!(PaError::from_i32(-9983), PaError::StreamIsStopped);
    assert_eq!(PaError::from_i32(-9982), PaError::StreamIsNotStopped);
    assert_eq!(
        PaError::from_i32(-9977),
        PaError::CanNotReadFromACallbackStream
    );
    assert_eq!(
        PaError::from_i32(-9976),
        PaError::CanNotWriteToACallbackStream
    );
    assert_eq!(
        PaError::from_i32(-9975),
        PaError::CanNotReadFromAnOutputOnlyStream
    );
    assert_eq!(
        PaError::from_i32(-9974),
        PaError::CanNotWriteToAnInputOnlyStream
    );
    assert_eq!(PaError::from_i32(-9972), PaError::BadBufferPtr);
}

#[test]
fn unknown_codes_map_to_unknown_error() {
    assert_eq!(PaError::from_i32(-9971), PaError::UnknownError);
    assert_eq!(PaError::from_i32(-1), PaError::UnknownError);
    assert_eq!(PaError::from_i32(1), PaError::UnknownError);
    assert_eq!(PaError::from_i32(123456), PaError::UnknownError);
}

#[test]
fn result_conversion() {
    assert_eq!(to_pa_result(0), Ok(()));
    assert_eq!(to_pa_result(-10000), Err(PaError::NotInitialized));
    assert_eq!(to_pa_result(-9972), Err(PaError::BadBufferPtr));
    assert_eq!(to_pa_result(7), Err(PaError::UnknownError));
}
