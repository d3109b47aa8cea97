use crate::bytes::{from_le8, lemma_from_le8_of_le8, le8, push_le8, read_le8};
use crate::encoding::{base64_decode, base64_decoded, base64_encode, base64_of};
use crate::error::Error;
use vstd::prelude::*;

verus! {

/// Earliest instant a timestamp can name, in microseconds since the Unix epoch
/// (the earliest that chrono's `DateTime<Utc>` holds).
pub const MIN_TIMESTAMP_MICROS: i64 = -8334601228800000000;

/// Latest instant a timestamp can name, in microseconds since the Unix epoch
/// (the latest that chrono's `DateTime<Utc>` holds, to the microsecond).
pub const MAX_TIMESTAMP_MICROS: i64 = 8210266876799999999;

/// IEEE-754 bits of the most negative finite `f64`.
pub const MIN_RATING_BITS: u64 = 0xffef_ffff_ffff_ffff;

/// IEEE-754 bits of the largest finite `f64`.
pub const MAX_RATING_BITS: u64 = 0x7fef_ffff_ffff_ffff;

/// A position in a list of cards, by one of two sort keys.
#[derive(Clone, Copy, Debug, PartialEq, Eq, Structural)]
pub enum CardCursor {
    /// Acquisition time, in microseconds since the Unix epoch.
    OwnedAt(i64),
    /// Rating, as the IEEE-754 bits of an `f64`.
    Rating(u64),
}

/// Whether `c` names a representable position: a time cursor's instant lies within
/// `[MIN_TIMESTAMP_MICROS, MAX_TIMESTAMP_MICROS]`; every rating is one.
pub open spec fn valid_cursor(c: CardCursor) -> bool {
    match c {
        CardCursor::OwnedAt(t) => MIN_TIMESTAMP_MICROS <= t <= MAX_TIMESTAMP_MICROS,
        CardCursor::Rating(_) => true,
    }
}

/// The two's complement bits of `v`.
pub open spec fn bits_of_i64(v: i64) -> u64 {
    if v >= 0 {
        v as u64
    } else {
        (v + 0x1_0000_0000_0000_0000) as u64
    }
}

/// The `i64` whose two's complement bits are `u`.
pub open spec fn i64_of_bits(u: u64) -> i64 {
    if u < 0x8000_0000_0000_0000 {
        u as i64
    } else {
        (u - 0x1_0000_0000_0000_0000) as i64
    }
}

/// The four-byte little-endian tag of a cursor's variant, then its key in eight bytes.
pub open spec fn cursor_bytes(c: CardCursor) -> Seq<u8> {
    match c {
        CardCursor::OwnedAt(t) => seq![0u8, 0u8, 0u8, 0u8] + le8(bits_of_i64(t)),
        CardCursor::Rating(r) => seq![1u8, 0u8, 0u8, 0u8] + le8(r),
    }
}

/// The valid cursor that `b` frames, if it frames one.
pub open spec fn parse_cursor_bytes(b: Seq<u8>) -> Option<CardCursor> {
    if b.len() != 12 || b[1] != 0 || b[2] != 0 || b[3] != 0 {
        None
    } else if b[0] == 0 {
        let t = i64_of_bits(from_le8(b.subrange(4, 12)));
        if MIN_TIMESTAMP_MICROS <= t <= MAX_TIMESTAMP_MICROS {
            Some(CardCursor::OwnedAt(t))
        } else {
            None
        }
    } else if b[0] == 1 {
        Some(CardCursor::Rating(from_le8(b.subrange(4, 12))))
    } else {
        None
    }
}

/// The opaque text that stands for a cursor.
pub open spec fn cursor_text(c: CardCursor) -> Seq<char> {
    base64_of(cursor_bytes(c))
}

/// What reading `s` as a cursor gives.
pub open spec fn cursor_from_text(s: Seq<char>) -> Result<CardCursor, Error> {
    match base64_decoded(s) {
        None => Err(Error::Base64Error),
        Some(b) => match parse_cursor_bytes(b) {
            Some(c) => Ok(c),
            None => Err(Error::DecodeError),
        },
    }
}

/// Framing a valid cursor as bytes and reading them back gives the same cursor.
pub proof fn lemma_cursor_bytes_round_trip(c: CardCursor)
    requires
        valid_cursor(c),
    ensures
        parse_cursor_bytes(cursor_bytes(c)) == Some(c),
{
    let b = cursor_bytes(c);
    match c {
        CardCursor::OwnedAt(t) => {
            lemma_from_le8_of_le8(bits_of_i64(t));
            assert(b.subrange(4, 12) =~= le8(bits_of_i64(t)));
        },
        CardCursor::Rating(r) => {
            lemma_from_le8_of_le8(r);
            assert(b.subrange(4, 12) =~= le8(r));
        },
    }
}

/// Two different valid cursors never frame as the same bytes.
pub proof fn lemma_cursor_bytes_injective(a: CardCursor, b: CardCursor)
    requires
        valid_cursor(a),
        valid_cursor(b),
    ensures
        cursor_bytes(a) == cursor_bytes(b) ==> a == b,
{
    lemma_cursor_bytes_round_trip(a);
    lemma_cursor_bytes_round_trip(b);
}

fn i64_to_bits(v: i64) -> (r: u64)
    ensures
        r == bits_of_i64(v),
{
    if v >= 0 {
        v as u64
    } else {
        ((v + i64::MAX) + 1) as u64 + 0x8000_0000_0000_0000u64
    }
}

fn bits_to_i64(u: u64) -> (r: i64)
    ensures
        r == i64_of_bits(u),
{
    if u < 0x8000_0000_0000_0000u64 {
        u as i64
    } else {
        ((u - 0x8000_0000_0000_0000u64) as i64) - i64::MAX - 1
    }
}

/// Frames a cursor as bytes.
pub fn cursor_to_bytes(c: &CardCursor) -> (r: Vec<u8>)
    ensures
        r@ == cursor_bytes(*c),
{
    let mut out: Vec<u8> = Vec::new();
    match *c {
        CardCursor::OwnedAt(t) => {
            out.push(0);
            out.push(0);
            out.push(0);
            out.push(0);
            push_le8(&mut out, i64_to_bits(t));
        },
        CardCursor::Rating(r) => {
            out.push(1);
            out.push(0);
            out.push(0);
            out.push(0);
            push_le8(&mut out, r);
        },
    }
    assert(out@ =~= cursor_bytes(*c));
    out
}

/// Reads the valid cursor that `b` frames, if it frames one.
pub fn cursor_from_bytes(b: &[u8]) -> (r: Option<CardCursor>)
    ensures
        r == parse_cursor_bytes(b@),
        r is Some ==> valid_cursor(r->0),
{
    if b.len() != 12 || b[1] != 0 || b[2] != 0 || b[3] != 0 {
        None
    } else if b[0] == 0 {
        let t = bits_to_i64(read_le8(b, 4));
        if MIN_TIMESTAMP_MICROS <= t && t <= MAX_TIMESTAMP_MICROS {
            Some(CardCursor::OwnedAt(t))
        } else {
            None
        }
    } else if b[0] == 1 {
        Some(CardCursor::Rating(read_le8(b, 4)))
    } else {
        None
    }
}

impl CardCursor {
    /// Reads a cursor from its opaque text. Text that is not base64 gives `Base64Error`;
    /// bytes that frame no valid cursor (a time outside the representable range among them)
    /// give `DecodeError`.
    pub fn decode_cursor(s: &str) -> (r: Result<CardCursor, Error>)
        ensures
            r == cursor_from_text(s@),
            r is Ok ==> valid_cursor(r->Ok_0),
            forall|c: CardCursor|
                valid_cursor(c) && #[trigger] cursor_text(c) == s@ ==> r == Ok::<
                    CardCursor,
                    Error,
                >(c),
    {
        proof {
            assert forall|c: CardCursor|
                valid_cursor(c) && #[trigger] cursor_text(c) == s@ implies parse_cursor_bytes(
                cursor_bytes(c),
            ) == Some(c) by {
                lemma_cursor_bytes_round_trip(c);
            }
        }
        match base64_decode(s) {
            None => Err(Error::Base64Error),
            Some(b) => match cursor_from_bytes(b.as_slice()) {
                Some(c) => Ok(c),
                None => Err(Error::DecodeError),
            },
        }
    }

    /// The opaque text that stands for this cursor.
    pub fn encode_cursor(&self) -> (r: String)
        ensures
            r@ == cursor_text(*self),
    {
        let b = cursor_to_bytes(self);
        base64_encode(b.as_slice())
    }
}

} // verus!
