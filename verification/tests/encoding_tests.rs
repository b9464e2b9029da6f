use vote_session::conviction::Conviction;
use vote_session::encoder::{encode_call, CallAction, CallSchema, CallShape, VoteIntent};
use vote_session::errors::EncodingError;
use vote_session::scale::{u128_le_bytes, u32_be_bytes, u64_be_bytes};
use vote_session::text::parse_u128;

fn vote_schema() -> CallSchema {
    CallSchema { pallet_index: 20, call_index: 0, shape: CallShape::ConvictionVoteStandard }
}

fn remark_schema() -> CallSchema {
    CallSchema { pallet_index: 0, call_index: 0, shape: CallShape::SystemRemark }
}

fn vote_intent(balance: u128, conviction: Conviction) -> VoteIntent {
    VoteIntent { referendum_id: 275, aye: true, balance, conviction }
}

#[test]
fn vote_call_exact_bytes() {
    let schema = vote_schema();
    let action = CallAction::Vote(vote_intent(1_000_000_000_000, Conviction::Lock1X));
    let bytes = encode_call(&schema, &action).unwrap();
    assert_eq!(hex::encode(&bytes), "14004d0400810010a5d4e80000000000000000000000");
}

#[test]
fn vote_call_deterministic() {
    let schema = vote_schema();
    let a1 = CallAction::Vote(vote_intent(7_000_000_000_000, Conviction::Lock3X));
    let a2 = CallAction::Vote(vote_intent(7_000_000_000_000, Conviction::Lock3X));
    let b1 = encode_call(&schema, &a1).unwrap();
    let b2 = encode_call(&schema, &a2).unwrap();
    assert_eq!(b1, b2);
}

#[test]
fn vote_call_depends_on_conviction() {
    let schema = vote_schema();
    let b1 = encode_call(&schema, &CallAction::Vote(vote_intent(5, Conviction::Lock1X))).unwrap();
    let b2 = encode_call(&schema, &CallAction::Vote(vote_intent(5, Conviction::Lock6X))).unwrap();
    assert_ne!(b1, b2);
    assert_eq!(b1[5], 129);
    assert_eq!(b2[5], 134);
}

#[test]
fn vote_call_shape_mismatch_refused() {
    let schema = remark_schema();
    let action = CallAction::Vote(vote_intent(1, Conviction::Lock1X));
    let r = encode_call(&schema, &action);
    assert!(matches!(r, Err(EncodingError::ShapeMismatch)));
}

#[test]
fn remark_call_exact_bytes() {
    let schema = remark_schema();
    let action = CallAction::Remark(b"hi".to_vec());
    let bytes = encode_call(&schema, &action).unwrap();
    assert_eq!(bytes, vec![0u8, 0, 8, 104, 105]);
}

#[test]
fn remark_call_shape_mismatch_refused() {
    let schema = vote_schema();
    let action = CallAction::Remark(b"hi".to_vec());
    assert!(matches!(encode_call(&schema, &action), Err(EncodingError::ShapeMismatch)));
}

#[test]
fn conviction_wire_values() {
    assert_eq!(Conviction::Lock1X.to_value(), 129);
    assert_eq!(Conviction::Lock2X.to_value(), 130);
    assert_eq!(Conviction::Lock3X.to_value(), 131);
    assert_eq!(Conviction::Lock4X.to_value(), 132);
    assert_eq!(Conviction::Lock5X.to_value(), 133);
    assert_eq!(Conviction::Lock6X.to_value(), 134);
}

#[test]
fn conviction_labels_and_order() {
    let all = Conviction::all();
    assert_eq!(all.len(), 6);
    assert_eq!(all[0], Conviction::Lock1X);
    assert_eq!(all[5], Conviction::Lock6X);
    assert_eq!(Conviction::Lock1X.label(), "1x");
    assert_eq!(Conviction::Lock6X.label(), "6x");
}

#[test]
fn integer_renderings() {
    assert_eq!(u32_be_bytes(0xDEADBEEF), vec![0xDE, 0xAD, 0xBE, 0xEF]);
    assert_eq!(u64_be_bytes(5), vec![0, 0, 0, 0, 0, 0, 0, 5]);
    let le = u128_le_bytes(1_000_000_000_000);
    assert_eq!(hex::encode(&le), "0010a5d4e80000000000000000000000");
}

#[test]
fn parse_u128_accepts_digit_runs() {
    assert_eq!(parse_u128(b"0"), Some(0));
    assert_eq!(parse_u128(b"123"), Some(123));
    assert_eq!(parse_u128(b"007"), Some(7));
    assert_eq!(
        parse_u128(b"340282366920938463463374607431768211455"),
        Some(u128::MAX)
    );
}

#[test]
fn parse_u128_accepts_one_leading_plus() {
    // the standard unsigned parse takes an optional leading plus sign
    assert_eq!(parse_u128(b"+5"), Some(5));
    assert_eq!(parse_u128(b"+007"), Some(7));
    assert_eq!(parse_u128(b"+"), None);
    assert_eq!(parse_u128(b"++5"), None);
    assert_eq!(parse_u128(b"+-5"), None);
    assert_eq!(parse_u128(b"5+"), None);
}

#[test]
fn parse_u128_rejects_other_text() {
    assert_eq!(parse_u128(b""), None);
    assert_eq!(parse_u128(b"12a"), None);
    assert_eq!(parse_u128(b"-5"), None);
    assert_eq!(parse_u128(b" 5"), None);
    // one past the largest value that fits
    assert_eq!(parse_u128(b"340282366920938463463374607431768211456"), None);
}
