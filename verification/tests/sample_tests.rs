use portaudio_rs::sample::{SampleFormat, SampleType};

fn test_sample_size<T: SampleType>() {
    let pa_size = <T as SampleType>::format().sample_size() as usize;
    let rs_size = std::mem::size_of::<T>();
    assert_eq!(rs_size, pa_size);
}

// This test asserts that the sizes used by the engine are the same as
// those used by Rust.
#[test]
fn sample_sizes() {
    assert_eq!(
        SampleFormat::Float32.sample_size() as usize,
        std::mem::size_of::<f32>()
    );
    test_sample_size::<i32>();
    test_sample_size::<i16>();
    test_sample_size::<i8>();
    test_sample_size::<u8>();
}

#[test]
fn sample_format_flags() {
    assert_eq!(<i32 as SampleType>::sample_format(), 0x2);
    assert_eq!(<i16 as SampleType>::sample_format(), 0x8);
    assert_eq!(<i8 as SampleType>::sample_format(), 0x10);
    assert_eq!(<u8 as SampleType>::sample_format(), 0x20);
    assert_eq!(SampleFormat::Float32.flag(), 0x1);
}

#[test]
fn sample_format_from_flag() {
    assert_eq!(SampleFormat::from_flag(0x1), Some(SampleFormat::Float32));
    assert_eq!(SampleFormat::from_flag(0x2), Some(SampleFormat::Int32));
    assert_eq!(SampleFormat::from_flag(0x8), Some(SampleFormat::Int16));
    assert_eq!(SampleFormat::from_flag(0x10), Some(SampleFormat::Int8));
    assert_eq!(SampleFormat::from_flag(0x20), Some(SampleFormat::UInt8));
    assert_eq!(SampleFormat::from_flag(0x4), None);
    assert_eq!(SampleFormat::from_flag(0), None);
}

#[test]
fn silence_levels() {
    assert_eq!(<i32 as SampleType>::silence(), 0);
    assert_eq!(<i16 as SampleType>::silence(), 0);
    assert_eq!(<i8 as SampleType>::silence(), 0);
    assert_eq!(<u8 as SampleType>::silence(), 128);
}
