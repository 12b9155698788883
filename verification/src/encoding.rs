//! Base64 encoding of cover images as inline JPEG data URIs.
//!
//! The encoding itself is done by the `base64` crate; this module pins its
//! behaviour down with a full specification of RFC 4648 standard base64 with
//! padding, states the inverse (decoding) as a specification as well, and
//! proves the round trip: stripping the data-URI prefix and decoding the
//! returned string yields exactly the bytes that were encoded.

use vstd::prelude::*;
use vstd::string::StringExecFns;
use base64::Engine;

verus! {

/// The RFC 4648 standard alphabet, by six-bit value.
pub open spec fn b64_char(v: int) -> char
    recommends
        0 <= v < 64,
{
    if v < 26 {
        (('A' as int) + v) as char
    } else if v < 52 {
        (('a' as int) + v - 26) as char
    } else if v < 62 {
        (('0' as int) + v - 52) as char
    } else if v == 62 {
        '+'
    } else {
        '/'
    }
}

/// Six-bit value of one alphabet character; -1 for a character outside the
/// alphabet (including the padding character `=`).
pub open spec fn b64_value(c: char) -> int {
    let u = c as int;
    if ('A' as int) <= u && u <= ('Z' as int) {
        u - ('A' as int)
    } else if ('a' as int) <= u && u <= ('z' as int) {
        26 + u - ('a' as int)
    } else if ('0' as int) <= u && u <= ('9' as int) {
        52 + u - ('0' as int)
    } else if c == '+' {
        62
    } else if c == '/' {
        63
    } else {
        -1
    }
}

/// The alphabet and its value table are inverse to each other.
pub proof fn lemma_b64_value_inverse(v: int)
    requires
        0 <= v < 64,
    ensures
        b64_value(b64_char(v)) == v,
{
}

/// No six-bit value encodes to the padding character.
pub proof fn lemma_b64_char_not_pad(v: int)
    requires
        0 <= v < 64,
    ensures
        b64_char(v) != '=',
{
    lemma_b64_value_inverse(v);
    assert(b64_value('=') == -1);
}

/// Standard padded base64: each group of three input bytes becomes four
/// output characters; a final group of one or two bytes is padded with `=`.
pub open spec fn b64_encode_seq(s: Seq<u8>) -> Seq<char>
    decreases s.len(),
{
    if s.len() == 0 {
        Seq::empty()
    } else if s.len() == 1 {
        let b0 = s[0] as int;
        seq![b64_char(b0 / 4), b64_char((b0 % 4) * 16), '=', '=']
    } else if s.len() == 2 {
        let b0 = s[0] as int;
        let b1 = s[1] as int;
        seq![
            b64_char(b0 / 4),
            b64_char((b0 % 4) * 16 + b1 / 16),
            b64_char((b1 % 16) * 4),
            '=',
        ]
    } else {
        let b0 = s[0] as int;
        let b1 = s[1] as int;
        let b2 = s[2] as int;
        seq![
            b64_char(b0 / 4),
            b64_char((b0 % 4) * 16 + b1 / 16),
            b64_char((b1 % 16) * 4 + b2 / 64),
            b64_char(b2 % 64),
        ] + b64_encode_seq(s.skip(3))
    }
}

/// Number of characters that standard padded base64 produces for `n` bytes.
pub open spec fn b64_encoded_len(n: nat) -> nat {
    4 * ((n + 2) / 3)
}

/// The encoding's length is four characters for every started three bytes.
pub proof fn lemma_b64_encode_len(s: Seq<u8>)
    ensures
        b64_encode_seq(s).len() == b64_encoded_len(s.len()),
    decreases s.len(),
{
    if s.len() >= 3 {
        lemma_b64_encode_len(s.skip(3));
    }
}

/// Decodes one final group of four characters, honouring `=` padding and
/// rejecting non-zero trailing bits, as a strict decoder does.
pub open spec fn b64_decode_group(s: Seq<char>) -> Option<Seq<u8>>
    recommends
        s.len() == 4,
{
    let v0 = b64_value(s[0]);
    let v1 = b64_value(s[1]);
    if v0 < 0 || v1 < 0 {
        None
    } else if s[2] == '=' && s[3] == '=' {
        if v1 % 16 == 0 {
            Some(seq![(v0 * 4 + v1 / 16) as u8])
        } else {
            None
        }
    } else if s[3] == '=' {
        let v2 = b64_value(s[2]);
        if v2 < 0 {
            None
        } else if v2 % 4 == 0 {
            Some(seq![(v0 * 4 + v1 / 16) as u8, ((v1 % 16) * 16 + v2 / 4) as u8])
        } else {
            None
        }
    } else {
        let v2 = b64_value(s[2]);
        let v3 = b64_value(s[3]);
        if v2 < 0 || v3 < 0 {
            None
        } else {
            Some(
                seq![
                    (v0 * 4 + v1 / 16) as u8,
                    ((v1 % 16) * 16 + v2 / 4) as u8,
                    ((v2 % 4) * 64 + v3) as u8,
                ],
            )
        }
    }
}

/// Decodes standard padded base64: four characters at a time, with `=`
/// padding admitted only in the final group.
pub open spec fn b64_decode_seq(s: Seq<char>) -> Option<Seq<u8>>
    decreases s.len(),
{
    if s.len() == 0 {
        Some(Seq::empty())
    } else if s.len() < 4 {
        None
    } else if s.len() == 4 {
        b64_decode_group(s)
    } else if s[2] == '=' || s[3] == '=' {
        None
    } else {
        let first = b64_decode_group(s.subrange(0, 4));
        let rest = b64_decode_seq(s.skip(4));
        if first is None || rest is None {
            None
        } else {
            Some(first.unwrap() + rest.unwrap())
        }
    }
}

/// Arithmetic of one encode/decode group: the six-bit values are in range,
/// and reassembling them recovers the bytes that were split.
proof fn lemma_group_arith(b0: int, b1: int, b2: int)
    requires
        0 <= b0 < 256,
        0 <= b1 < 256,
        0 <= b2 < 256,
    ensures
        0 <= b0 / 4 < 64,
        0 <= (b0 % 4) * 16 + b1 / 16 < 64,
        0 <= (b1 % 16) * 4 + b2 / 64 < 64,
        0 <= b2 % 64 < 64,
        (b0 / 4) * 4 + ((b0 % 4) * 16 + b1 / 16) / 16 == b0,
        (((b0 % 4) * 16 + b1 / 16) % 16) * 16 + ((b1 % 16) * 4 + b2 / 64) / 4 == b1,
        (((b1 % 16) * 4 + b2 / 64) % 4) * 64 + b2 % 64 == b2,
        b1 == 0 ==> ((b0 % 4) * 16 + b1 / 16) % 16 == 0,
        b2 == 0 ==> ((b1 % 16) * 4 + b2 / 64) % 4 == 0,
{
    assert(0 <= (b0 % 4) * 16 + b1 / 16 < 64) by (nonlinear_arith)
        requires
            0 <= b0 < 256,
            0 <= b1 < 256,
    ;
    assert(0 <= (b1 % 16) * 4 + b2 / 64 < 64) by (nonlinear_arith)
        requires
            0 <= b1 < 256,
            0 <= b2 < 256,
    ;
    assert((b0 / 4) * 4 + ((b0 % 4) * 16 + b1 / 16) / 16 == b0) by (nonlinear_arith)
        requires
            0 <= b0 < 256,
            0 <= b1 < 256,
    ;
    assert((((b0 % 4) * 16 + b1 / 16) % 16) * 16 + ((b1 % 16) * 4 + b2 / 64) / 4 == b1)
        by (nonlinear_arith)
        requires
            0 <= b0 < 256,
            0 <= b1 < 256,
            0 <= b2 < 256,
    ;
    assert((((b1 % 16) * 4 + b2 / 64) % 4) * 64 + b2 % 64 == b2) by (nonlinear_arith)
        requires
            0 <= b1 < 256,
            0 <= b2 < 256,
    ;
    assert(((b0 % 4) * 16) % 16 == 0) by (nonlinear_arith)
        requires
            0 <= b0 < 256,
    ;
    assert(((b1 % 16) * 4) % 4 == 0) by (nonlinear_arith)
        requires
            0 <= b1 < 256,
    ;
}

/// Law: decoding the standard-base64 encoding of any byte sequence yields
/// exactly that sequence.
pub proof fn lemma_b64_round_trip(b: Seq<u8>)
    ensures
        b64_decode_seq(b64_encode_seq(b)) == Some(b),
    decreases b.len(),
{
    if b.len() == 0 {
        assert(b64_encode_seq(b) =~= Seq::<char>::empty());
        assert(b =~= Seq::<u8>::empty());
    } else if b.len() == 1 {
        let b0 = b[0] as int;
        lemma_group_arith(b0, 0, 0);
        lemma_b64_value_inverse(b0 / 4);
        lemma_b64_value_inverse((b0 % 4) * 16);
        assert(seq![(b0) as u8] =~= b);
    } else if b.len() == 2 {
        let b0 = b[0] as int;
        let b1 = b[1] as int;
        let v0 = b0 / 4;
        let v1 = (b0 % 4) * 16 + b1 / 16;
        let v2 = (b1 % 16) * 4;
        lemma_group_arith(b0, b1, 0);
        lemma_b64_value_inverse(v0);
        lemma_b64_value_inverse(v1);
        lemma_b64_value_inverse(v2);
        lemma_b64_char_not_pad(v2);
        assert(seq![(b0) as u8, (b1) as u8] =~= b);
    } else {
        let b0 = b[0] as int;
        let b1 = b[1] as int;
        let b2 = b[2] as int;
        let v0 = b0 / 4;
        let v1 = (b0 % 4) * 16 + b1 / 16;
        let v2 = (b1 % 16) * 4 + b2 / 64;
        let v3 = b2 % 64;
        lemma_group_arith(b0, b1, b2);
        lemma_b64_value_inverse(v0);
        lemma_b64_value_inverse(v1);
        lemma_b64_value_inverse(v2);
        lemma_b64_value_inverse(v3);
        lemma_b64_char_not_pad(v2);
        lemma_b64_char_not_pad(v3);
        lemma_b64_round_trip(b.skip(3));
        let s = b64_encode_seq(b);
        let g = seq![b64_char(v0), b64_char(v1), b64_char(v2), b64_char(v3)];
        assert(s == g + b64_encode_seq(b.skip(3)));
        lemma_b64_encode_len(b.skip(3));
        assert(s.subrange(0, 4) =~= g);
        assert(s.skip(4) =~= b64_encode_seq(b.skip(3)));
        assert(b64_decode_group(g) == Some(seq![(b0) as u8, (b1) as u8, (b2) as u8]));
        assert(seq![(b0) as u8, (b1) as u8, (b2) as u8] + b.skip(3) =~= b);
    }
}

/// The scheme marker put in front of the encoded cover bytes.
pub open spec fn data_uri_prefix() -> Seq<char> {
    "data:image/jpeg;base64,"@
}

/// The inline form of a cover image: the JPEG data-URI marker followed by the
/// standard-base64 encoding of the raw bytes.
pub open spec fn data_uri_spec(b: Seq<u8>) -> Seq<char> {
    data_uri_prefix() + b64_encode_seq(b)
}

/// Relies on base64's `STANDARD` engine (`Engine::encode`): RFC 4648 standard
/// alphabet with `=` padding. `encode` panics when the output length
/// overflows `usize`, so that is excluded here.
#[verifier::external_body]
fn b64_encode(bytes: &Vec<u8>) -> (r: String)
    requires
        b64_encoded_len(bytes@.len()) <= usize::MAX,
    ensures
        r@ == b64_encode_seq(bytes@),
{
    base64::engine::general_purpose::STANDARD.encode(bytes)
}

/// Encodes raw cover bytes for inline display:
/// `data:image/jpeg;base64,<payload>`.
pub fn cover_data_uri(bytes: &Vec<u8>) -> (r: String)
    requires
        b64_encoded_len(bytes@.len()) <= usize::MAX,
    ensures
        r@ == data_uri_spec(bytes@),
{
    let mut r = String::from_str("data:image/jpeg;base64,");
    let payload = b64_encode(bytes);
    r.append(payload.as_str());
    r
}

/// Law: stripping the data-URI marker from an encoded cover and decoding the
/// remainder yields exactly the bytes that were encoded.
pub proof fn lemma_data_uri_round_trip(b: Seq<u8>)
    ensures
        b64_decode_seq(data_uri_spec(b).skip(data_uri_prefix().len() as int)) == Some(b),
{
    assert(data_uri_spec(b).skip(data_uri_prefix().len() as int) =~= b64_encode_seq(b));
    lemma_b64_round_trip(b);
}

} // verus!
