use nft_ledger::{Approval, BlockInfo, Expiration, Timestamp};

fn block(height: u64, nanos: u64) -> BlockInfo {
    BlockInfo { height, time: Timestamp::from_nanos(nanos) }
}

#[test]
fn height_expires_when_reached() {
    let expires = Expiration::AtHeight(100);
    assert!(!expires.is_expired(&block(0, 0)));
    assert!(!expires.is_expired(&block(99, u64::MAX)));
    assert!(expires.is_expired(&block(100, 0)));
    assert!(expires.is_expired(&block(101, 0)));
    assert!(expires.is_expired(&block(u64::MAX, 0)));
}

#[test]
fn time_expires_when_reached() {
    let expires = Expiration::AtTime(Timestamp::from_nanos(1_571_797_419_879_305_533));
    assert!(!expires.is_expired(&block(u64::MAX, 0)));
    assert!(!expires.is_expired(&block(5, 1_571_797_419_879_305_532)));
    assert!(expires.is_expired(&block(5, 1_571_797_419_879_305_533)));
    assert!(expires.is_expired(&block(0, 1_571_797_419_879_305_534)));
    assert!(expires.is_expired(&block(0, u64::MAX)));
}

#[test]
fn height_zero_and_time_zero_are_expired_from_the_start() {
    assert!(Expiration::AtHeight(0).is_expired(&block(0, 0)));
    assert!(Expiration::AtTime(Timestamp::from_nanos(0)).is_expired(&block(0, 0)));
}

#[test]
fn never_does_not_expire() {
    assert!(!Expiration::Never.is_expired(&block(0, 0)));
    assert!(!Expiration::Never.is_expired(&block(u64::MAX, u64::MAX)));
}

#[test]
fn default_expiration_is_never() {
    assert_eq!(Expiration::default(), Expiration::Never);
}

#[test]
fn height_and_time_are_not_mixed_up() {
    // A block whose height is past the threshold but whose time is not, and
    // the other way round.
    assert!(Expiration::AtHeight(10).is_expired(&block(10, 3)));
    assert!(!Expiration::AtTime(Timestamp::from_nanos(10)).is_expired(&block(10, 3)));
    assert!(!Expiration::AtHeight(10).is_expired(&block(3, 10)));
    assert!(Expiration::AtTime(Timestamp::from_nanos(10)).is_expired(&block(3, 10)));
}

#[test]
fn what_has_expired_stays_expired() {
    let expirations = [
        Expiration::AtHeight(7),
        Expiration::AtTime(Timestamp::from_nanos(7)),
        Expiration::Never,
    ];
    for expires in expirations {
        for height in 0..12u64 {
            for nanos in 0..12u64 {
                if expires.is_expired(&block(height, nanos)) {
                    assert!(expires.is_expired(&block(height + 1, nanos)));
                    assert!(expires.is_expired(&block(height, nanos + 1)));
                }
            }
        }
    }
}

#[test]
fn approval_expires_with_its_expiration() {
    let approval = Approval { spender: "bob".to_string(), expires: Expiration::AtHeight(20) };
    assert!(!approval.is_expired(&block(19, 0)));
    assert!(approval.is_expired(&block(20, 0)));
}

#[test]
fn timestamp_keeps_its_nanoseconds() {
    assert_eq!(Timestamp::from_nanos(1_000_000_202).nanos(), 1_000_000_202);
    assert_eq!(Timestamp::from_nanos(0), Timestamp(0));
}
