use portaudio_rs::util::Duration;

#[test]
fn nanos_split_exact() {
    let d = Duration::from_nanos(2_512_389_131);
    assert_eq!(d.seconds, 2);
    assert_eq!(d.nanoseconds, 512_389_131);
    assert_eq!(d.total_nanos(), 2_512_389_131);
}

#[test]
fn nanos_round_trip_edge_values() {
    for n in [0u64, 1, 999_999_999, 1_000_000_000, 1_000_000_001, u64::MAX] {
        let d = Duration::from_nanos(n);
        assert!(d.nanoseconds < 1_000_000_000);
        assert_eq!(d.total_nanos(), n);
    }
}

#[test]
fn duration_round_trip_exact() {
    let d = Duration { seconds: 17, nanoseconds: 3 };
    assert_eq!(Duration::from_nanos(d.total_nanos()), d);
}

// The engine reports time as floating-point seconds; the whole-nanosecond
// representation round-trips such a value well within 1e-8 relative error.
#[test]
fn test_conversion() {
    let seconds: f64 = 2.512389131321938123681627;
    let nanos = (seconds * 1e9) as u64;
    let duration = Duration::from_nanos(nanos);
    let seconds2 = duration.seconds as f64 + duration.nanoseconds as f64 * 1e-9;

    assert!((seconds - seconds2).abs() <= 1e-8);
}
