//! The ways in which an operation on a spatial reference can fail.
//!
//! The engine reports failure in several ways: by a result code, by a null
//! reference, or by both. Every public operation of this crate folds them into
//! one [`GdalError`].

use vstd::prelude::*;

verus! {

/// The result code with which the engine reports success.
pub const OGRERR_NONE: u32 = 0;

/// The one error type of this crate.
#[derive(Debug, Clone, PartialEq, Eq)]
pub enum GdalError {
    /// The engine handed back a null reference and no result code.
    NullPointer { method_name: &'static str },
    /// The engine handed back a result code other than [`OGRERR_NONE`].
    OgrError { err: u32, method_name: &'static str },
    /// The engine knows no axis under the node `key`.
    AxisNotFoundError { key: String, method_name: &'static str },
    /// A text meant for the engine holds a zero byte, at index `position` of
    /// its UTF-8 encoding; a NUL-terminated buffer cannot carry it.
    FfiNulError { position: usize },
    /// Bytes that the engine handed back are not UTF-8.
    StrUtf8Error,
    /// The engine handed back `text` where a decimal number was expected.
    ParseError { text: String, method_name: &'static str },
}

/// What a [`GdalError`] says, with each text as a sequence of characters.
pub enum ErrorModel {
    NullPointer { method_name: Seq<char> },
    OgrError { err: u32, method_name: Seq<char> },
    AxisNotFoundError { key: Seq<char>, method_name: Seq<char> },
    FfiNulError { position: nat },
    StrUtf8Error,
    ParseError { text: Seq<char>, method_name: Seq<char> },
}

impl View for GdalError {
    type V = ErrorModel;

    open spec fn view(&self) -> ErrorModel {
        match *self {
            GdalError::NullPointer { method_name } => ErrorModel::NullPointer {
                method_name: method_name@,
            },
            GdalError::OgrError { err, method_name } => ErrorModel::OgrError {
                err,
                method_name: method_name@,
            },
            GdalError::AxisNotFoundError { key, method_name } => ErrorModel::AxisNotFoundError {
                key: key@,
                method_name: method_name@,
            },
            GdalError::FfiNulError { position } => ErrorModel::FfiNulError {
                position: position as nat,
            },
            GdalError::StrUtf8Error => ErrorModel::StrUtf8Error,
            GdalError::ParseError { text, method_name } => ErrorModel::ParseError {
                text: text@,
                method_name: method_name@,
            },
        }
    }
}

/// The model of a result: the view of the value, or the model of the error.
pub open spec fn outcome<T: View>(r: Result<T, GdalError>) -> Result<T::V, ErrorModel> {
    match r {
        Ok(value) => Ok(value@),
        Err(e) => Err(e@),
    }
}

/// The model of a result whose value is carried as it is.
pub open spec fn carried<T>(r: Result<T, GdalError>) -> Result<T, ErrorModel> {
    match r {
        Ok(value) => Ok(value),
        Err(e) => Err(e@),
    }
}

} // verus!
