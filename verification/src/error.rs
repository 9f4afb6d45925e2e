//! The error value that the native driver's bring-up hands back.
//!
//! The value is returned by copy: it is small and owns nothing. Its strings
//! are borrowed from the native side's static data and are validated once,
//! when the value crosses the boundary.

use crate::text::{raw_bytes, text_of, validate_and_borrow};
use vstd::prelude::*;

verus! {

/// What the native side reports, before anything has been checked.
#[derive(Clone, Copy)]
pub struct RawError<'a> {
    /// The driver's own code for the outcome; zero stands for success.
    pub cause: i32,
    /// The name of the outcome, as a raw string.
    pub name: Option<&'a [u8]>,
    /// The source file that reported it, as a raw string.
    pub file: Option<&'a [u8]>,
    /// The line in that file.
    pub line: i32,
}

/// The outcome of bring-up, with its strings validated.
#[derive(Clone, Copy)]
pub struct Error<'a> {
    cause: i32,
    name: &'a str,
    file: &'a str,
    line: i32,
}

/// The mathematical content of an `Error`.
pub ghost struct ErrorView {
    pub cause: int,
    pub name: Seq<char>,
    pub file: Seq<char>,
    pub line: int,
}

impl<'a> View for Error<'a> {
    type V = ErrorView;

    closed spec fn view(&self) -> ErrorView {
        ErrorView {
            cause: self.cause as int,
            name: self.name@,
            file: self.file@,
            line: self.line as int,
        }
    }
}

/// The error value that a raw report stands for: none where its name or its
/// file is not valid text, else the report's own values, unmodified.
pub open spec fn error_of(raw: RawError) -> Option<ErrorView> {
    match (text_of(raw_bytes(raw.name)), text_of(raw_bytes(raw.file))) {
        (Some(name), Some(file)) => Some(
            ErrorView { cause: raw.cause as int, name, file, line: raw.line as int },
        ),
        _ => None,
    }
}

/// `res` is the validated form of `raw`.
pub open spec fn is_error_of(raw: RawError, res: Option<Error>) -> bool {
    match res {
        Some(e) => error_of(raw) == Some(e@),
        None => error_of(raw).is_none(),
    }
}

#[allow(non_snake_case)]
impl<'a> Error<'a> {
    /// Validates what the native side reported.
    pub fn from_raw(raw: RawError<'a>) -> (res: Option<Error<'a>>)
        ensures
            is_error_of(raw, res),
    {
        let name = match validate_and_borrow(raw.name) {
            Some(name) => name,
            None => { return None; },
        };
        let file = match validate_and_borrow(raw.file) {
            Some(file) => file,
            None => { return None; },
        };
        Some(Error { cause: raw.cause, name, file, line: raw.line })
    }

    /// The driver's code for the outcome.
    pub fn Cause(&self) -> (res: i32)
        ensures
            res == self@.cause,
    {
        self.cause
    }

    /// The name of the outcome.
    pub fn Name(&self) -> (res: &'a str)
        ensures
            res@ == self@.name,
    {
        self.name
    }

    /// The source file that reported the outcome.
    pub fn File(&self) -> (res: &'a str)
        ensures
            res@ == self@.file,
    {
        self.file
    }

    /// The line in that file.
    pub fn Line(&self) -> (res: i32)
        ensures
            res == self@.line,
    {
        self.line
    }
}

} // verus!
