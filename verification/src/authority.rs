//! The authority that names a coordinate reference system, and the code
//! that it gives to it.

use crate::cint::same_bits;
use crate::decimal::{
    decimal_digits, decimal_text, i32_value, is_digit, lemma_decimal_digits,
    lemma_i32_reads_back, parse_i32,
};
use crate::errors::{outcome, ErrorModel, GdalError};
use crate::reply::{bytes_of, read_text, text_outcome};
use vstd::prelude::*;
use vstd::string::StringExecFns;
use vstd::utf8::{
    decode_utf8, decode_utf8_encode_utf8, is_leading_byte_width_1, partial_valid_utf8,
    partial_valid_utf8_extend_ascii_block, valid_utf8,
};

verus! {

/// What the engine's answer on the authority code means: a null reference is
/// a missing authority, bytes that are no text are an encoding error, and a
/// text that writes no `i32` is a parse error that carries the text.
pub open spec fn auth_code_outcome(reply: Option<Seq<u8>>) -> Result<i32, ErrorModel> {
    match reply {
        None => Err(ErrorModel::NullPointer { method_name: "OSRGetAuthorityCode"@ }),
        Some(bytes) => if !valid_utf8(bytes) {
            Err(ErrorModel::StrUtf8Error)
        } else {
            match i32_value(bytes) {
                Some(code) => Ok(code),
                None => Err(
                    ErrorModel::ParseError {
                        text: decode_utf8(bytes),
                        method_name: "OSRGetAuthorityCode"@,
                    },
                ),
            }
        },
    }
}

/// What the engine's answers on the authority name and code mean together:
/// the name, a colon and the code, once both are there and are texts. The
/// name is read first.
pub open spec fn authority_outcome(name: Option<Seq<u8>>, code: Option<Seq<u8>>) -> Result<
    Seq<char>,
    ErrorModel,
> {
    match text_outcome(name, "OSRGetAuthorityName"@) {
        Err(e) => Err(e),
        Ok(name) => match text_outcome(code, "OSRGetAuthorityCode"@) {
            Err(e) => Err(e),
            Ok(code) => Ok(name + seq![':'] + code),
        },
    }
}

/// The usual way to write a number is a text.
proof fn lemma_decimal_text_is_utf8(value: int)
    ensures
        valid_utf8(decimal_text(value)),
{
    let text = decimal_text(value);
    let digits = decimal_digits((if value < 0 { -value } else { value }) as nat);
    lemma_decimal_digits((if value < 0 { -value } else { value }) as nat);
    assert forall|i: int| 0 <= i < text.len() implies #[trigger] is_leading_byte_width_1(
        text[i],
    ) by {
        if value < 0 {
            if i > 0 {
                assert(text[i] == digits[i - 1]);
                assert(is_digit(digits[i - 1]));
            }
        } else {
            assert(is_digit(digits[i]));
        }
    }
    assert(text.subrange(0, 0) == Seq::<u8>::empty());
    assert(partial_valid_utf8(text, 0));
    partial_valid_utf8_extend_ascii_block(text, 0, text.len() as int);
    assert(text.subrange(0, text.len() as int) == text);
}

/// Where the engine writes the code of an authority in the usual way, the
/// code is read back as the number that was written.
pub proof fn lemma_auth_code_reads_decimal(code: i32)
    ensures
        auth_code_outcome(Some(decimal_text(code as int))) == Ok::<i32, ErrorModel>(code),
{
    lemma_decimal_text_is_utf8(code as int);
    lemma_i32_reads_back(code);
}

/// A code of the registry that fits the engine's `int` reaches the engine as
/// the number that it is; and where the engine then writes that number in
/// the usual way as the code of the authority, it is read back as the code
/// that was sent.
pub proof fn lemma_epsg_code_there_and_back(epsg_code: u32)
    requires
        epsg_code <= i32::MAX,
    ensures
        same_bits(epsg_code) == epsg_code,
        auth_code_outcome(Some(decimal_text(same_bits(epsg_code)))) == Ok::<i32, ErrorModel>(
            epsg_code as i32,
        ),
{
    lemma_auth_code_reads_decimal(epsg_code as i32);
}

/// A system without an authority has no authority name, no authority code,
/// and no joined form of the two: where the engine answers either question
/// with a null reference, each operation that needs the answer fails.
pub proof fn lemma_missing_authority_fails(name: Option<Seq<u8>>, code: Option<Seq<u8>>)
    ensures
        text_outcome(None, "OSRGetAuthorityName"@) is Err,
        auth_code_outcome(None) is Err,
        name is None || code is None ==> authority_outcome(name, code) is Err,
{
}

/// Reads the engine's answer on the code of the authority, as a number.
pub fn read_auth_code(reply: Option<Vec<u8>>) -> (r: Result<i32, GdalError>)
    ensures
        outcome(r) == auth_code_outcome(bytes_of(reply)),
{
    let ghost bytes = bytes_of(reply);
    match read_text(reply, "OSRGetAuthorityCode") {
        Err(e) => Err(e),
        Ok(text) => {
            proof {
                decode_utf8_encode_utf8(bytes.unwrap());
            }
            match parse_i32(text.as_str().as_bytes()) {
                Some(code) => Ok(code),
                None => Err(GdalError::ParseError { text, method_name: "OSRGetAuthorityCode" }),
            }
        },
    }
}

/// Reads the engine's answers on the name and the code of the authority, and
/// joins them with a colon: `EPSG:4326`. The code is taken as the text that
/// it is.
pub fn read_authority(name: Option<Vec<u8>>, code: Option<Vec<u8>>) -> (r: Result<String, GdalError>)
    ensures
        outcome(r) == authority_outcome(bytes_of(name), bytes_of(code)),
{
    match read_text(name, "OSRGetAuthorityName") {
        Err(e) => Err(e),
        Ok(mut text) => match read_text(code, "OSRGetAuthorityCode") {
            Err(e) => Err(e),
            Ok(code) => {
                proof {
                    reveal_strlit(":");
                    assert(":"@ == seq![':']);
                }
                text.append(":");
                text.append(code.as_str());
                Ok(text)
            },
        },
    }
}

} // verus!
