//! Text encodings and digests of bytes.
//!
//! The encoders are those of the `base64`, `hex` and `sha2` crates; this module states what they
//! return and proves what the generated commands rely on.

use vstd::prelude::*;

use base64::engine::general_purpose::STANDARD;
use base64::Engine;
use sha2::{Digest, Sha256};

verus! {

/// The most bytes that can be hashed and encoded: the text of their encoding must fit in memory,
/// and their number of bits in 64 bits.
pub open spec fn max_bytes() -> int {
    isize::MAX as int / 4
}

/// The SHA-256 digest of a sequence of bytes.
pub uninterp spec fn sha256(data: Seq<u8>) -> Seq<u8>;

/// Calls `sha2::Sha256::digest`, which hashes the whole slice in one go. The digest depends on
/// the bytes alone and has 32 bytes.
#[verifier::external_body]
pub(crate) fn sha256_digest(data: &[u8]) -> (digest: Vec<u8>)
    requires
        data@.len() <= max_bytes(),
    ensures
        digest@ == sha256(data@),
        digest@.len() == 32,
{
    Sha256::digest(data).to_vec()
}

/// The lower-case hexadecimal digit of a value below 16.
pub open spec fn hex_digit(value: int) -> char {
    if value < 10 {
        ('0' as int + value) as char
    } else {
        ('a' as int + value - 10) as char
    }
}

/// Two lower-case hexadecimal digits per byte, the high one first.
pub open spec fn hex_text(data: Seq<u8>) -> Seq<char> {
    Seq::new(
        2 * data.len(),
        |i: int|
            if i % 2 == 0 {
                hex_digit(data[i / 2] as int / 16)
            } else {
                hex_digit(data[i / 2] as int % 16)
            },
    )
}

/// Calls `hex::encode`, which writes each byte as two lower-case hexadecimal digits.
#[verifier::external_body]
pub(crate) fn hex_encode(data: &[u8]) -> (text: String)
    requires
        data@.len() <= max_bytes(),
    ensures
        text@ == hex_text(data@),
{
    hex::encode(data)
}

/// The character of the standard base64 alphabet for a value below 64.
pub open spec fn base64_char(value: int) -> char {
    if value < 26 {
        ('A' as int + value) as char
    } else if value < 52 {
        ('a' as int + value - 26) as char
    } else if value < 62 {
        ('0' as int + value - 52) as char
    } else if value == 62 {
        '+'
    } else {
        '/'
    }
}

/// Standard base64 with padding: four characters for every three bytes, each standing for six
/// bits; `=` fills up the last four.
pub open spec fn base64_text(data: Seq<u8>) -> Seq<char>
    decreases data.len(),
{
    let a = data[0] as int;
    let b = data[1] as int;
    let c = data[2] as int;
    if data.len() == 0 {
        seq![]
    } else if data.len() == 1 {
        seq![base64_char(a / 4), base64_char(a % 4 * 16), '=', '=']
    } else if data.len() == 2 {
        seq![base64_char(a / 4), base64_char(a % 4 * 16 + b / 16), base64_char(b % 16 * 4), '=']
    } else {
        seq![
            base64_char(a / 4),
            base64_char(a % 4 * 16 + b / 16),
            base64_char(b % 16 * 4 + c / 64),
            base64_char(c % 64),
        ] + base64_text(data.skip(3))
    }
}

/// Calls `encode` of the engine `base64::engine::general_purpose::STANDARD`, which uses the
/// standard alphabet and pads.
#[verifier::external_body]
pub(crate) fn base64_encode(data: &[u8]) -> (text: String)
    requires
        data@.len() <= max_bytes(),
    ensures
        text@ == base64_text(data@),
{
    STANDARD.encode(data)
}

/// The six bits that a character of the standard base64 alphabet stands for.
pub open spec fn base64_value(c: char) -> int {
    let code = c as int;
    if 'A' as int <= code <= 'Z' as int {
        code - 'A' as int
    } else if 'a' as int <= code <= 'z' as int {
        code - 'a' as int + 26
    } else if '0' as int <= code <= '9' as int {
        code - '0' as int + 52
    } else if c == '+' {
        62
    } else {
        63
    }
}

/// The bytes that a padded base64 text decodes to.
pub open spec fn base64_decoded(text: Seq<char>) -> Seq<u8>
    decreases text.len(),
{
    if text.len() < 4 {
        seq![]
    } else {
        let a = base64_value(text[0]);
        let b = base64_value(text[1]);
        let c = base64_value(text[2]);
        let d = base64_value(text[3]);
        let first = (a * 4 + b / 16) as u8;
        let second = (b % 16 * 16 + c / 4) as u8;
        let third = (c % 4 * 64 + d) as u8;
        if text[2] == '=' {
            seq![first]
        } else if text[3] == '=' {
            seq![first, second]
        } else {
            seq![first, second, third] + base64_decoded(text.skip(4))
        }
    }
}

proof fn base64_value_of_char(value: int)
    requires
        0 <= value < 64,
    ensures
        base64_value(base64_char(value)) == value,
        base64_char(value) != '=',
{
}

/// Decoding the encoded text gives back the bytes.
pub proof fn law_base64_round_trip(data: Seq<u8>)
    ensures
        base64_decoded(base64_text(data)) == data,
    decreases data.len(),
{
    let a = data[0] as int;
    let b = data[1] as int;
    let c = data[2] as int;
    if data.len() > 0 {
        base64_value_of_char(a / 4);
        base64_value_of_char(a % 4 * 16);
    }
    if data.len() > 1 {
        base64_value_of_char(a % 4 * 16 + b / 16);
        base64_value_of_char(b % 16 * 4);
    }
    if data.len() > 2 {
        base64_value_of_char(b % 16 * 4 + c / 64);
        base64_value_of_char(c % 64);
        law_base64_round_trip(data.skip(3));
        assert(base64_text(data).skip(4) =~= base64_text(data.skip(3)));
    }
    assert(base64_decoded(base64_text(data)) =~= data);
}

/// The characters that stand for themselves between single quotes and on one line of a script.
pub open spec fn is_base64_char(c: char) -> bool {
    ||| 'A' as int <= c as int <= 'Z' as int
    ||| 'a' as int <= c as int <= 'z' as int
    ||| '0' as int <= c as int <= '9' as int
    ||| c == '+'
    ||| c == '/'
    ||| c == '='
}

/// An encoded text holds neither quotes nor white space, so it can stand between single quotes on
/// one line of a script.
pub proof fn law_base64_is_quotable(data: Seq<u8>)
    ensures
        forall|i: int|
            0 <= i < base64_text(data).len() ==> is_base64_char(#[trigger] base64_text(data)[i]),
        !base64_text(data).contains('\''),
        !base64_text(data).contains('\n'),
    decreases data.len(),
{
    if data.len() > 2 {
        law_base64_is_quotable(data.skip(3));
        assert forall|i: int| 0 <= i < base64_text(data).len() implies is_base64_char(
            #[trigger] base64_text(data)[i],
        ) by {
            if i >= 4 {
                assert(base64_text(data)[i] == base64_text(data.skip(3))[i - 4]);
            }
        }
    }
}

/// The lower-case hexadecimal digits.
pub open spec fn is_hex_char(c: char) -> bool {
    ||| '0' as int <= c as int <= '9' as int
    ||| 'a' as int <= c as int <= 'f' as int
}

/// Whether a text has the form of a SHA-256 digest: 64 lower-case hexadecimal digits.
pub open spec fn is_hash_text(text: Seq<char>) -> bool {
    &&& text.len() == 64
    &&& forall|i: int| 0 <= i < text.len() ==> is_hex_char(#[trigger] text[i])
}

/// The hexadecimal text of bytes has two characters for each of them, all of them digits or the
/// letters `a` to `f`.
pub proof fn law_hex_is_plain(data: Seq<u8>)
    ensures
        hex_text(data).len() == 2 * data.len(),
        forall|i: int| 0 <= i < hex_text(data).len() ==> is_hex_char(#[trigger] hex_text(data)[i]),
{
}

proof fn hex_digit_is_injective(left: int, right: int)
    requires
        0 <= left < 16,
        0 <= right < 16,
        hex_digit(left) == hex_digit(right),
    ensures
        left == right,
{
}

proof fn hex_text_of_byte(data: Seq<u8>, i: int)
    requires
        0 <= i < data.len(),
    ensures
        hex_text(data)[2 * i] == hex_digit(data[i] as int / 16),
        hex_text(data)[2 * i + 1] == hex_digit(data[i] as int % 16),
{
    assert((2 * i) / 2 == i && (2 * i) % 2 == 0);
    assert((2 * i + 1) / 2 == i && (2 * i + 1) % 2 == 1);
}

/// Different bytes have different hexadecimal texts.
pub proof fn law_hex_is_injective(left: Seq<u8>, right: Seq<u8>)
    requires
        hex_text(left) == hex_text(right),
    ensures
        left == right,
{
    assert(hex_text(left).len() == 2 * left.len());
    assert(hex_text(right).len() == 2 * right.len());
    assert forall|i: int| 0 <= i < left.len() implies left[i] == right[i] by {
        hex_text_of_byte(left, i);
        hex_text_of_byte(right, i);
        hex_digit_is_injective(left[i] as int / 16, right[i] as int / 16);
        hex_digit_is_injective(left[i] as int % 16, right[i] as int % 16);
    }
    assert(left =~= right);
}

} // verus!
