//! Base64 encode/decode pass-through, and the verified reporting around a
//! successful decode: an ASCII preview shown only when every byte is an
//! ASCII alphanumeric, and the raw bytes as space-separated two-digit hex.

use vstd::prelude::*;

use crate::error::RadixError;
use crate::render::{digit_char, digit_char_exec};
use crate::text::chars_to_string;

verus! {

/// The base64 text of `bytes` under the standard alphabet with padding.
/// Uninterpreted: the trusted wrappers below relate it to the codec crate.
pub uninterp spec fn b64_of(bytes: Seq<u8>) -> Seq<char>;

/// Declares `base64::DecodeError`, the codec crate's failure type, so the
/// trusted decode call below can return it; verified code only maps it to
/// this library's own error.
#[verifier::external_type_specification]
#[verifier::external_body]
pub struct ExDecodeError(base64::DecodeError);

/// Relies on `base64::encode` (standard alphabet, padded): the result is a
/// pure function of the input bytes. The length bound keeps the crate's
/// internal output-size arithmetic away from `usize` overflow.
#[verifier::external_body]
fn encode_raw(input: &Vec<u8>) -> (r: String)
    requires
        input@.len() <= usize::MAX as nat / 4,
    ensures
        r@ == b64_of(input@),
{
    base64::encode(input.as_slice())
}

/// Decoding inverts encoding: whenever the input is the encoding of some
/// byte sequence, the result is `Ok` holding exactly that sequence.
pub open spec fn decode_inverts(input: Seq<char>, r: Result<Vec<u8>, base64::DecodeError>) -> bool {
    forall|x: Seq<u8>| input == #[trigger] b64_of(x) ==> (r matches Ok(v) && v@ == x)
}

/// Relies on `base64::decode` (standard alphabet): decoding inverts
/// encoding, so on the encoding of any byte sequence it returns exactly
/// that sequence.
#[verifier::external_body]
fn decode_raw(input: &str) -> (r: Result<Vec<u8>, base64::DecodeError>)
    ensures
        decode_inverts(input@, r),
{
    base64::decode(input)
}

/// Is `b` the ASCII code of an alphanumeric character?
pub open spec fn is_alnum_byte(b: u8) -> bool {
    (48 <= b && b <= 57) || (65 <= b && b <= 90) || (97 <= b && b <= 122)
}

pub open spec fn all_alnum(bytes: Seq<u8>) -> bool {
    forall|i: int| 0 <= i < bytes.len() ==> is_alnum_byte(bytes[i])
}

/// The bytes read directly as characters (meaningful when all are ASCII).
pub open spec fn ascii_chars(bytes: Seq<u8>) -> Seq<char> {
    bytes.map(|i: int, b: u8| b as char)
}

/// One byte of the hex report: `0x`, two lower-case digits, one space.
pub open spec fn hex_pair(b: u8) -> Seq<char> {
    seq!['0', 'x', digit_char(b as int / 16), digit_char(b as int % 16), ' ']
}

/// The whole hex report line, one `hex_pair` per byte.
pub open spec fn hex_line_spec(bytes: Seq<u8>) -> Seq<char>
    decreases bytes.len(),
{
    if bytes.len() == 0 {
        Seq::empty()
    } else {
        hex_line_spec(bytes.drop_last()) + hex_pair(bytes.last())
    }
}

/// What is reported of a successful decode: an ASCII preview when every
/// byte is alphanumeric, and always the bytes in hex.
pub struct DecodeReport {
    pub preview: Option<String>,
    pub hex_line: String,
}

pub struct Base64;

impl Base64 {
    /// Encodes arbitrary bytes as base64 text; always succeeds.
    pub fn encode(input: &Vec<u8>) -> (r: String)
        requires
            input@.len() <= usize::MAX as nat / 4,
        ensures
            r@ == b64_of(input@),
    {
        encode_raw(input)
    }

    /// Decodes base64 text. On the encoding of any byte sequence it
    /// returns exactly that sequence; every failure is `DecodeFailure`.
    pub fn decode(input: &str) -> (r: Result<Vec<u8>, RadixError>)
        ensures
            forall|x: Seq<u8>| input@ == #[trigger] b64_of(x) ==> (r matches Ok(v) && v@ == x),
            r matches Err(e) ==> e is DecodeFailure,
    {
        match decode_raw(input) {
            Ok(v) => Ok(v),
            Err(_) => Err(RadixError::DecodeFailure),
        }
    }
}

/// Builds the report of a successful decode from the decoded bytes.
pub fn decode_report(bytes: &Vec<u8>) -> (r: DecodeReport)
    ensures
        all_alnum(bytes@) ==> (r.preview matches Some(s) && s@ == ascii_chars(bytes@)),
        !all_alnum(bytes@) ==> r.preview is None,
        r.hex_line@ == hex_line_spec(bytes@),
{
    let mut ok = true;
    let mut chars: Vec<char> = Vec::new();
    let mut hexl: Vec<char> = Vec::new();
    let mut i: usize = 0;
    while i < bytes.len()
        invariant
            i <= bytes@.len(),
            ok == all_alnum(bytes@.take(i as int)),
            chars@ == ascii_chars(bytes@.take(i as int)),
            hexl@ == hex_line_spec(bytes@.take(i as int)),
        decreases bytes@.len() - i,
    {
        let b = bytes[i];
        let alnum = (b >= 48 && b <= 57) || (b >= 65 && b <= 90) || (b >= 97 && b <= 122);
        proof {
            assert(bytes@.take(i + 1).drop_last() =~= bytes@.take(i as int));
            assert(bytes@.take(i + 1).last() == bytes@[i as int]);
            if !all_alnum(bytes@.take(i as int)) {
                let j = choose|j: int|
                    0 <= j < i && !is_alnum_byte(bytes@.take(i as int)[j]);
                assert(bytes@.take(i + 1)[j] == bytes@.take(i as int)[j]);
                assert(!all_alnum(bytes@.take(i + 1)));
            }
        }
        ok = ok && alnum;
        chars.push(b as char);
        hexl.push('0');
        hexl.push('x');
        hexl.push(digit_char_exec((b / 16) as u64));
        hexl.push(digit_char_exec((b % 16) as u64));
        hexl.push(' ');
        proof {
            assert(chars@ =~= ascii_chars(bytes@.take(i + 1)));
            assert(hexl@ =~= hex_line_spec(bytes@.take(i + 1)));
        }
        i = i + 1;
    }
    proof {
        assert(bytes@.take(i as int) =~= bytes@);
    }
    let preview = if ok {
        Some(chars_to_string(&chars))
    } else {
        None
    };
    DecodeReport { preview, hex_line: chars_to_string(&hexl) }
}

/// Law: decoding the encoding of any byte sequence recovers exactly that
/// sequence — witnessed by running the two trusted calls in succession.
pub fn encode_decode_round_trip(x: &Vec<u8>) -> (r: Vec<u8>)
    requires
        x@.len() <= usize::MAX as nat / 4,
    ensures
        r@ == x@,
{
    let encoded = Base64::encode(x);
    match Base64::decode(encoded.as_str()) {
        Ok(v) => v,
        Err(_) => {
            proof {
                assert(encoded@ == b64_of(x@));
                assert(false);
            }
            Vec::new()
        },
    }
}

} // verus!
