use filestamp::error::Error;
use filestamp::filetime::datetime_to_filetime;
use filestamp::filetime::filetime_to_epoch;
use filestamp::instant::parse_epoch;
use filestamp::instant::CanonicalInstant;
use filestamp::instant::MAX_EPOCH_SECONDS;
use filestamp::instant::MIN_EPOCH_SECONDS;

#[test]
fn epoch_zero_native_words() {
    // intervals = 11_644_473_600 * 10_000_000 = 116_444_736_000_000_000
    let n = datetime_to_filetime(CanonicalInstant { secs: 0 });
    assert_eq!(n.low, (116_444_736_000_000_000u64 & 0xFFFF_FFFF) as u32);
    assert_eq!(n.high, (116_444_736_000_000_000u64 >> 32) as u32);
    assert_eq!(n.low, 3_577_643_008);
    assert_eq!(n.high, 27_111_902);
}

#[test]
fn native_epoch_is_all_zero() {
    let n = datetime_to_filetime(CanonicalInstant {
        secs: -11_644_473_600,
    });
    assert_eq!(n.low, 0);
    assert_eq!(n.high, 0);
}

#[test]
fn second_before_unix_epoch() {
    let n = datetime_to_filetime(CanonicalInstant { secs: -1 });
    assert_eq!(n.low, 3_567_643_008);
    assert_eq!(n.high, 27_111_902);
}

#[test]
fn new_year_2024_native_words() {
    let n = datetime_to_filetime(CanonicalInstant { secs: 1_704_067_200 });
    assert_eq!(n.low, 1_988_739_072);
    assert_eq!(n.high, 31_079_493);
}

#[test]
fn round_trip_sample_instants() {
    for t in [
        MIN_EPOCH_SECONDS,
        -1,
        0,
        1,
        946_684_800,
        1_704_067_200,
        1_704_112_245,
        MAX_EPOCH_SECONDS,
    ] {
        let ci = parse_epoch(t).unwrap();
        let n = datetime_to_filetime(ci);
        assert_eq!(filetime_to_epoch(n), t);
    }
}

#[test]
fn epoch_range_is_enforced() {
    assert!(parse_epoch(MIN_EPOCH_SECONDS).is_ok());
    assert!(parse_epoch(MAX_EPOCH_SECONDS).is_ok());
    assert!(matches!(
        parse_epoch(MIN_EPOCH_SECONDS - 1),
        Err(Error::InvalidTimestamp)
    ));
    assert!(matches!(
        parse_epoch(MAX_EPOCH_SECONDS + 1),
        Err(Error::InvalidTimestamp)
    ));
    assert!(matches!(
        parse_epoch(i64::MIN),
        Err(Error::InvalidTimestamp)
    ));
    assert!(matches!(
        parse_epoch(i64::MAX),
        Err(Error::InvalidTimestamp)
    ));
}
