use lst_pool::u64_fee_floor::{AmtsAfterFee, U64FeeFloor};
use lst_pool::u64_ratio_floor::U64RatioFloor;
use lst_pool::PoolError;

#[test]
fn u64_fee_invariants() {
    let cases: Vec<(u64, u64, u64)> = vec![
        (0, 0, 1),
        (1, 1, 2),
        (999, 3, 7),
        (u64::MAX, 1, 3),
        (u64::MAX, u64::MAX - 1, u64::MAX),
        (123_456_789, 10_000, 10_000),
    ];
    for (amt, fee_num, fee_denom) in cases {
        let fee = U64FeeFloor { fee_num, fee_denom };
        let AmtsAfterFee {
            amt_after_fee,
            fees_charged,
        } = fee.apply(amt).unwrap();
        assert!(amt_after_fee <= amt);
        assert_eq!(amt, amt_after_fee + fees_charged);
    }
}

#[test]
fn u64_fee_round_trip() {
    let cases: Vec<(u64, u64, u64)> = vec![
        (0, 1, 2),
        (1_000_000_000, 100, 10_000),
        (999, 3, 7),
        (123_456_789_123, 1, 1_000_000),
        (55, 9, 10),
    ];
    for (amt, fee_num, fee_denom) in cases {
        let fee = U64FeeFloor { fee_num, fee_denom };
        let AmtsAfterFee { amt_after_fee, .. } = fee.apply(amt).unwrap();

        let reversed = fee.pseudo_reverse(amt_after_fee).unwrap();
        let apply_on_reversed = fee.apply(reversed).unwrap();

        assert_eq!(amt_after_fee, apply_on_reversed.amt_after_fee);
    }
}

#[test]
fn u64_zero_denom() {
    for amt in [0u64, 1, 999, u64::MAX] {
        let fee = U64FeeFloor {
            fee_num: 42,
            fee_denom: 0,
        };
        let amts_after_fee = fee.apply(amt).unwrap();

        assert_eq!(amts_after_fee.amt_after_fee, amt);
        assert_eq!(amts_after_fee.fees_charged, 0);

        let reversed = fee.pseudo_reverse(amt).unwrap();
        assert_eq!(reversed, amt);
    }
}

#[test]
fn u64_zero_num() {
    for amt in [0u64, 1, 999, u64::MAX] {
        let fee = U64FeeFloor {
            fee_num: 0,
            fee_denom: 7777,
        };
        let amts_after_fee = fee.apply(amt).unwrap();

        assert_eq!(amts_after_fee.amt_after_fee, amt);
        assert_eq!(amts_after_fee.fees_charged, 0);

        let reversed = fee.pseudo_reverse(amt).unwrap();
        assert_eq!(reversed, amt);
    }
}

#[test]
fn valid_invalid() {
    let valid = U64FeeFloor {
        fee_num: 5,
        fee_denom: 10,
    };
    assert!(valid.is_valid());
    let boundary = U64FeeFloor {
        fee_num: 10,
        fee_denom: 10,
    };
    assert!(boundary.is_valid());
    let invalid = U64FeeFloor {
        fee_num: 10,
        fee_denom: 5,
    };
    assert!(!invalid.is_valid());
}

#[test]
fn out_of_bound_fee_rejected() {
    let fee = U64FeeFloor {
        fee_num: 10_001,
        fee_denom: 10_000,
    };
    assert_eq!(fee.apply(1_000_000), Err(PoolError::OutOfBoundFee));
    assert_eq!(fee.pseudo_reverse(1_000_000), Err(PoolError::OutOfBoundFee));
}

#[test]
fn one_percent_fee_example() {
    let fee = U64FeeFloor {
        fee_num: 100,
        fee_denom: 10_000,
    };
    let amts = fee.apply(1_000_000_000).unwrap();
    assert_eq!(amts.fees_charged, 10_000_000);
    assert_eq!(amts.amt_after_fee, 990_000_000);
}

#[test]
fn full_fee_cannot_be_reversed() {
    let fee = U64FeeFloor {
        fee_num: 10,
        fee_denom: 10,
    };
    let amts = fee.apply(500).unwrap();
    assert_eq!(amts.amt_after_fee, 0);
    assert_eq!(amts.fees_charged, 500);
    assert_eq!(fee.pseudo_reverse(0), Err(PoolError::MathError));
}

#[test]
fn pseudo_reverse_overflow_is_math_error() {
    let fee = U64FeeFloor {
        fee_num: 1,
        fee_denom: 2,
    };
    assert_eq!(fee.pseudo_reverse(u64::MAX), Err(PoolError::MathError));
}

#[test]
fn ratio_floor_apply_basics() {
    let ratio = U64RatioFloor { num: 3, denom: 7 };
    assert_eq!(ratio.apply(10), Ok(4));
    assert_eq!(ratio.apply(0), Ok(0));

    let zero_denom = U64RatioFloor { num: 3, denom: 0 };
    assert_eq!(zero_denom.apply(10), Err(PoolError::MathError));

    let overflowing = U64RatioFloor {
        num: u64::MAX,
        denom: 1,
    };
    assert_eq!(overflowing.apply(2), Err(PoolError::MathError));
}

#[test]
fn ratio_floor_pseudo_reverse_basics() {
    let ratio = U64RatioFloor { num: 3, denom: 7 };
    assert_eq!(ratio.pseudo_reverse(4), Ok(9));

    let zero_num = U64RatioFloor { num: 0, denom: 7 };
    assert_eq!(zero_num.pseudo_reverse(4), Err(PoolError::MathError));
}
