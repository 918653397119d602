use portaudio_rs::flags::{StreamCallbackFlags, StreamFlags};

#[test]
fn callback_flags_truncating_decode() {
    let f = StreamCallbackFlags::from_bits_truncate(0xFFFF_FFFF_FFFF_FFFF);
    assert_eq!(f.bits, 0x1f);
    assert!(f.input_underflow());
    assert!(f.input_overflow());
    assert!(f.output_underflow());
    assert!(f.output_overflow());
    assert!(f.priming_output());

    let f = StreamCallbackFlags::from_bits_truncate(0xEA);
    assert_eq!(f.bits, 0x0a);
    assert!(!f.input_underflow());
    assert!(f.input_overflow());
    assert!(!f.output_underflow());
    assert!(f.output_overflow());
    assert!(!f.priming_output());

    assert_eq!(StreamCallbackFlags::empty().bits, 0);
}

#[test]
fn stream_flags_truncate_and_union() {
    let f = StreamFlags::from_bits_truncate(0xFFFF_FFFF_FFFF_FFFF);
    assert_eq!(f.bits, 0xFFFF_000F);

    let clip_off = StreamFlags::from_bits_truncate(0x1);
    let dither_off = StreamFlags::from_bits_truncate(0x2);
    assert_eq!(clip_off.union(dither_off).bits, 0x3);
    assert_eq!(StreamFlags::empty().bits, 0);
}
