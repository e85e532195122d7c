use token_bridge_relayer::amount::{
    checked_mul_pow10, denormalize_amount, normalize_amount, truncate_amount,
};
use token_bridge_relayer::message::{TokenBridgeRelayerMessage, MESSAGE_LEN};
use token_bridge_relayer::state::{RegisteredToken, RelayerFee};

#[test]
fn normalize_drops_digits_beyond_eight_decimals() {
    assert_eq!(normalize_amount(123_456_789_012, 10), 1_234_567_890);
    assert_eq!(normalize_amount(123_456_789_012, 8), 123_456_789_012);
    assert_eq!(normalize_amount(123_456_789_012, 6), 123_456_789_012);
    assert_eq!(normalize_amount(5, 9), 0);
    assert_eq!(normalize_amount(u64::MAX, 255), 0);
}

#[test]
fn denormalize_scales_back_and_detects_overflow() {
    assert_eq!(denormalize_amount(1_234_567_890, 10), Some(123_456_789_000));
    assert_eq!(denormalize_amount(42, 6), Some(42));
    assert_eq!(denormalize_amount(u64::MAX, 9), None);
    assert_eq!(denormalize_amount(0, 200), Some(0));
    assert_eq!(denormalize_amount(1, 27), Some(10_000_000_000_000_000_000));
    assert_eq!(denormalize_amount(2, 27), None);
}

#[test]
fn truncate_keeps_eight_decimals() {
    assert_eq!(truncate_amount(123_456_789_012, 10), 123_456_789_000);
    assert_eq!(truncate_amount(1_999_999_999, 9), 1_999_999_990);
    assert_eq!(truncate_amount(9, 9), 0);
    assert_eq!(truncate_amount(77, 8), 77);
}

#[test]
fn checked_mul_pow10_bounds() {
    assert_eq!(checked_mul_pow10(3, 0), Some(3));
    assert_eq!(checked_mul_pow10(3, 4), Some(30_000));
    assert_eq!(checked_mul_pow10(1, 38), Some(10u128.pow(38)));
    assert_eq!(checked_mul_pow10(1, 39), None);
    assert_eq!(checked_mul_pow10(0, 255), Some(0));
}

#[test]
fn token_fee_example_and_doubled_rate() {
    let fee = RelayerFee { chain: 2, fee: 5_000_000 };
    let base = fee.checked_token_fee(8, 15_000_000, 100_000_000, 100_000_000);
    assert_eq!(base, Some(33_333_333));
    let doubled = fee.checked_token_fee(8, 30_000_000, 100_000_000, 100_000_000);
    assert_eq!(doubled, Some(16_666_666));
    let (b, d) = (base.unwrap(), doubled.unwrap());
    assert!(2 * d <= b && b <= 2 * d + 1);
    assert_eq!(fee.checked_token_fee(6, 15_000_000, 100_000_000, 100_000_000), Some(333_333));
}

#[test]
fn token_fee_is_monotone() {
    let low = RelayerFee { chain: 2, fee: 1_000_000 };
    let high = RelayerFee { chain: 2, fee: 9_000_000 };
    let a = low.checked_token_fee(9, 20_000_000, 100_000_000, 100_000_000).unwrap();
    let b = high.checked_token_fee(9, 20_000_000, 100_000_000, 100_000_000).unwrap();
    assert_eq!(a, 50_000_000);
    assert_eq!(b, 450_000_000);
    let c = high.checked_token_fee(9, 40_000_000, 100_000_000, 100_000_000).unwrap();
    assert_eq!(c, 225_000_000);
}

#[test]
fn token_fee_failures() {
    let fee = RelayerFee { chain: 2, fee: 5_000_000 };
    assert_eq!(fee.checked_token_fee(8, 0, 100_000_000, 100_000_000), None);
    assert_eq!(fee.checked_token_fee(8, 15_000_000, 100_000_000, 0), None);
    let huge = RelayerFee { chain: 2, fee: u64::MAX };
    assert_eq!(huge.checked_token_fee(30, 1, 100_000_000, 1), None);
    assert_eq!(huge.checked_token_fee(8, 1, 100_000_000, 1), None);
    let zero = RelayerFee { chain: 2, fee: 0 };
    assert_eq!(zero.checked_token_fee(200, 1, 100_000_000, 1), Some(0));
}

fn token(max: u64) -> RegisteredToken {
    RegisteredToken { swap_rate: 100_000_000, max_native_swap_amount: max, is_registered: true }
}

#[test]
fn native_swap_is_clamped_to_the_maximum() {
    let split = token(1_000_000_000).calculate_native_swap_amounts(
        6,
        10_000_000_000,
        100_000_000,
        150_000_000,
    );
    assert_eq!(split, Some((100_000_000, 1_000_000_000)));
}

#[test]
fn native_swap_below_the_maximum_consumes_the_request() {
    let split = token(1_000_000_000).calculate_native_swap_amounts(
        6,
        10_000_000_000,
        100_000_000,
        50_000_000,
    );
    assert_eq!(split, Some((50_000_000, 500_000_000)));
}

#[test]
fn native_swap_edge_cases() {
    assert_eq!(token(5).calculate_native_swap_amounts(6, 1, 100_000_000, 0), Some((0, 0)));
    let unpriced = RegisteredToken { swap_rate: 0, max_native_swap_amount: 0, is_registered: false };
    assert_eq!(unpriced.calculate_native_swap_amounts(6, 1, 100_000_000, 10), None);
    assert_eq!(token(5).calculate_native_swap_amounts(6, 0, 100_000_000, 10), None);
    assert_eq!(token(0).calculate_native_swap_amounts(6, 10_000_000_000, 100_000_000, 10), Some((0, 0)));
    assert_eq!(
        token(0).calculate_native_swap_amounts(6, 10_000_000_000, 100_000_000, 1_000_000),
        Some((0, 0))
    );
    assert_eq!(token(1).calculate_native_swap_amounts(60, 10_000_000_000, 100_000_000, 1), None);
}

#[test]
fn message_layout() {
    let m = TokenBridgeRelayerMessage::TransferWithRelay {
        target_relayer_fee: 0x0102_0304_0506_0708,
        to_native_token_amount: 0xff,
        recipient: [0xab; 32],
    };
    let bytes = m.encode();
    assert_eq!(bytes.len(), MESSAGE_LEN);
    assert_eq!(bytes[0], 1);
    assert!(bytes[1..25].iter().all(|b| *b == 0));
    assert_eq!(&bytes[25..33], &[1, 2, 3, 4, 5, 6, 7, 8]);
    assert!(bytes[33..64].iter().all(|b| *b == 0));
    assert_eq!(bytes[64], 0xff);
    assert!(bytes[65..97].iter().all(|b| *b == 0xab));
}

#[test]
fn message_round_trip() {
    let m = TokenBridgeRelayerMessage::TransferWithRelay {
        target_relayer_fee: u64::MAX,
        to_native_token_amount: 12_345,
        recipient: [7; 32],
    };
    assert_eq!(TokenBridgeRelayerMessage::decode(&m.encode()), Some(m));
}

#[test]
fn message_rejects_malformed_bytes() {
    let m = TokenBridgeRelayerMessage::TransferWithRelay {
        target_relayer_fee: 1,
        to_native_token_amount: 2,
        recipient: [3; 32],
    };
    let good = m.encode();
    let mut tag = good.clone();
    tag[0] = 2;
    assert_eq!(TokenBridgeRelayerMessage::decode(&tag), None);
    assert_eq!(TokenBridgeRelayerMessage::decode(&good[..96]), None);
    let mut longer = good.clone();
    longer.push(0);
    assert_eq!(TokenBridgeRelayerMessage::decode(&longer), None);
    let mut wide_fee = good.clone();
    wide_fee[1] = 1;
    assert_eq!(TokenBridgeRelayerMessage::decode(&wide_fee), None);
    let mut wide_swap = good.clone();
    wide_swap[56] = 1;
    assert_eq!(TokenBridgeRelayerMessage::decode(&wide_swap), None);
    assert_eq!(TokenBridgeRelayerMessage::decode(&[]), None);
}
