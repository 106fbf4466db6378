//! What comes back from the engine, and what it means.
//!
//! The engine answers with a result code, with a reference to a text that may
//! be null, with an integer that stands for a truth value, or with several of
//! these at once. The functions here read one such answer each.

use crate::errors::{carried, outcome, ErrorModel, GdalError, OGRERR_NONE};
use vstd::prelude::*;
use vstd::utf8::{decode_utf8, valid_utf8};

verus! {

/// What a result code means for an operation that yields nothing else.
pub open spec fn code_outcome(code: u32, method_name: Seq<char>) -> Result<(), ErrorModel> {
    if code == OGRERR_NONE {
        Ok(())
    } else {
        Err(ErrorModel::OgrError { err: code, method_name })
    }
}

/// The text that `bytes` encode, where they are UTF-8.
pub open spec fn decode_outcome(bytes: Seq<u8>) -> Result<Seq<char>, ErrorModel> {
    if valid_utf8(bytes) {
        Ok(decode_utf8(bytes))
    } else {
        Err(ErrorModel::StrUtf8Error)
    }
}

/// What a text handed back by reference means: a null reference fails under
/// the name of the operation, anything else is decoded.
pub open spec fn text_outcome(reply: Option<Seq<u8>>, method_name: Seq<char>) -> Result<
    Seq<char>,
    ErrorModel,
> {
    match reply {
        None => Err(ErrorModel::NullPointer { method_name }),
        Some(bytes) => decode_outcome(bytes),
    }
}

/// What an export means: the result code is read first, and only a success
/// lets the buffer count.
pub open spec fn export_outcome(code: u32, buffer: Option<Seq<u8>>, method_name: Seq<char>) -> Result<
    Seq<char>,
    ErrorModel,
> {
    if code != OGRERR_NONE {
        Err(ErrorModel::OgrError { err: code, method_name })
    } else {
        text_outcome(buffer, method_name)
    }
}

/// What a number that comes with a result code means: the number counts only
/// where the code reports success.
pub open spec fn coded_outcome<D>(value: D, code: u32, method_name: Seq<char>) -> Result<
    D,
    ErrorModel,
> {
    if code == OGRERR_NONE {
        Ok(value)
    } else {
        Err(ErrorModel::OgrError { err: code, method_name })
    }
}

/// The bytes of a text reply, if the reference was not null.
pub open spec fn bytes_of(reply: Option<Vec<u8>>) -> Option<Seq<u8>> {
    match reply {
        None => None,
        Some(bytes) => Some(bytes@),
    }
}

/// `String::from_utf8` of std, with the error dropped. Trusted: the result is
/// `Some` exactly for bytes that are UTF-8, and then holds the characters that
/// they encode.
#[verifier::external_body]
fn string_from_utf8(bytes: Vec<u8>) -> (r: Option<String>)
    ensures
        r is Some <==> valid_utf8(bytes@),
        r matches Some(text) ==> text@ == decode_utf8(bytes@),
{
    match String::from_utf8(bytes) {
        Ok(text) => Some(text),
        Err(_) => None,
    }
}

/// Turns a result code of the engine into a result.
pub fn check_code(code: u32, method_name: &'static str) -> (r: Result<(), GdalError>)
    ensures
        outcome(r) == code_outcome(code, method_name@),
{
    if code != OGRERR_NONE {
        Err(GdalError::OgrError { err: code, method_name })
    } else {
        Ok(())
    }
}

/// Decodes bytes that the engine handed back. Bytes that are not UTF-8 are an
/// error; nothing is replaced or skipped.
pub fn decode(bytes: Vec<u8>) -> (r: Result<String, GdalError>)
    ensures
        outcome(r) == decode_outcome(bytes@),
{
    match string_from_utf8(bytes) {
        Some(text) => Ok(text),
        None => Err(GdalError::StrUtf8Error),
    }
}

/// Reads a text that the engine handed back by reference.
pub fn read_text(reply: Option<Vec<u8>>, method_name: &'static str) -> (r: Result<String, GdalError>)
    ensures
        outcome(r) == text_outcome(bytes_of(reply), method_name@),
{
    match reply {
        None => Err(GdalError::NullPointer { method_name }),
        Some(bytes) => decode(bytes),
    }
}

/// Reads the answer to an export: a result code, and a buffer that counts only
/// where the code reports success.
pub fn read_export(code: u32, buffer: Option<Vec<u8>>, method_name: &'static str) -> (r: Result<
    String,
    GdalError,
>)
    ensures
        outcome(r) == export_outcome(code, bytes_of(buffer), method_name@),
{
    if code != OGRERR_NONE {
        Err(GdalError::OgrError { err: code, method_name })
    } else {
        read_text(buffer, method_name)
    }
}

/// Reads a number that comes with a result code. The code decides, whatever
/// the number is.
pub fn read_coded<D>(value: D, code: u32, method_name: &'static str) -> (r: Result<D, GdalError>)
    ensures
        carried(r) == coded_outcome(value, code, method_name@),
{
    if code != OGRERR_NONE {
        Err(GdalError::OgrError { err: code, method_name })
    } else {
        Ok(value)
    }
}

/// Reads an integer with which the engine answers a yes-or-no question: one
/// is yes, anything else is no.
pub fn is_true(reply: i32) -> (yes: bool)
    ensures
        yes == (reply == 1),
{
    reply == 1
}

} // verus!
