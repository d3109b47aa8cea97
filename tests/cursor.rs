use cardvault::cursor::{
    cursor_from_bytes, cursor_to_bytes, MAX_RATING_BITS, MAX_TIMESTAMP_MICROS, MIN_RATING_BITS,
    MIN_TIMESTAMP_MICROS,
};
use cardvault::{CardCursor, Error};

#[test]
fn cursor_round_trips_through_text() {
    let cases = vec![
        CardCursor::OwnedAt(0),
        CardCursor::OwnedAt(-1),
        CardCursor::OwnedAt(1_600_000_000_123_456),
        CardCursor::OwnedAt(MIN_TIMESTAMP_MICROS),
        CardCursor::OwnedAt(MAX_TIMESTAMP_MICROS),
        CardCursor::Rating(4.5f64.to_bits()),
        CardCursor::Rating((-2.25f64).to_bits()),
        CardCursor::Rating(MIN_RATING_BITS),
        CardCursor::Rating(MAX_RATING_BITS),
    ];
    for c in cases {
        let text = c.encode_cursor();
        assert_eq!(CardCursor::decode_cursor(&text), Ok(c));
    }
}

#[test]
fn cursor_bytes_layout() {
    let b = cursor_to_bytes(&CardCursor::Rating(1.0f64.to_bits()));
    let mut expected = vec![1u8, 0, 0, 0];
    expected.extend_from_slice(&1.0f64.to_le_bytes());
    assert_eq!(b, expected);
    let b = cursor_to_bytes(&CardCursor::OwnedAt(-2));
    let mut expected = vec![0u8, 0, 0, 0];
    expected.extend_from_slice(&(-2i64).to_le_bytes());
    assert_eq!(b, expected);
    assert_eq!(cursor_from_bytes(&b), Some(CardCursor::OwnedAt(-2)));
}

#[test]
fn cursor_text_is_base64_of_bytes() {
    let c = CardCursor::OwnedAt(1);
    let text = c.encode_cursor();
    assert_eq!(text, base64::encode(cursor_to_bytes(&c)));
    assert_eq!(text, "AAAAAAEAAAAAAAAA");
}

#[test]
fn cursor_decode_rejects_bad_base64() {
    assert_eq!(CardCursor::decode_cursor("not base64!"), Err(Error::Base64Error));
}

#[test]
fn cursor_decode_rejects_bad_frame() {
    // valid base64, but three bytes
    assert_eq!(CardCursor::decode_cursor("AAAA"), Err(Error::DecodeError));
    // right length, unknown tag
    let mut b = vec![2u8, 0, 0, 0];
    b.extend_from_slice(&[0u8; 8]);
    assert_eq!(CardCursor::decode_cursor(&base64::encode(&b)), Err(Error::DecodeError));
    assert_eq!(cursor_from_bytes(&b), None);
}

#[test]
fn timestamp_bounds_match_chrono() {
    let min = chrono::DateTime::<chrono::Utc>::MIN_UTC.timestamp_micros();
    let max = chrono::DateTime::<chrono::Utc>::MAX_UTC.timestamp_micros();
    assert_eq!(MIN_TIMESTAMP_MICROS, min);
    assert_eq!(MAX_TIMESTAMP_MICROS, max);
}

#[test]
fn rating_bounds_match_f64() {
    assert_eq!(MIN_RATING_BITS, f64::MIN.to_bits());
    assert_eq!(MAX_RATING_BITS, f64::MAX.to_bits());
}

#[test]
fn cursor_decode_rejects_unrepresentable_time() {
    for t in [i64::MIN, i64::MAX, MIN_TIMESTAMP_MICROS - 1, MAX_TIMESTAMP_MICROS + 1] {
        let mut b = vec![0u8, 0, 0, 0];
        b.extend_from_slice(&t.to_le_bytes());
        assert_eq!(cursor_from_bytes(&b), None);
        let text = base64::encode(&b);
        assert_eq!(CardCursor::decode_cursor(&text), Err(Error::DecodeError));
        // what the encoder gives for such a value is refused too
        assert_eq!(text, CardCursor::OwnedAt(t).encode_cursor());
    }
}
