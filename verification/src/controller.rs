//! The handle of a native host controller and its one capability, bring-up.
//!
//! The handle is opaque: this layer holds it and hands it to the native
//! routine, and never looks inside. The routine itself is a parameter, so
//! that what it promises, and nothing else, decides what is known of the
//! outcome.

use crate::error::{is_error_of, Error, ErrorView, RawError};
use crate::text::{raw_bytes, text_of};
use vstd::prelude::*;

verus! {

/// A borrowed native controller.
pub struct Controller<H> {
    handle: H,
}

impl<H> View for Controller<H> {
    type V = H;

    closed spec fn view(&self) -> H {
        self.handle
    }
}

/// `res` is what bring-up of `handle` by `native` comes to: the validated
/// form of a report that `native` can return for that handle.
pub open spec fn is_outcome_of<H, F: FnOnce(H) -> RawError<'static>>(
    native: F,
    handle: H,
    res: Option<Error<'static>>,
) -> bool {
    exists|raw: RawError<'static>| #[trigger]
        call_ensures(native, (handle,), raw) && is_error_of(raw, res)
}

impl<H> Controller<H> {
    /// Wraps a handle for the duration of a call.
    pub fn new(handle: H) -> (res: Self)
        ensures
            res@ == handle,
    {
        Controller { handle }
    }

    /// Brings the controller up: runs `native` on the handle, once, and
    /// surfaces what it reports, with no retry and no reading of the cause.
    ///
    /// The result is `None` only where the report's name or file is not a
    /// valid string, which a well-behaved driver never returns.
    pub fn initialize<F: FnOnce(H) -> RawError<'static>>(self, native: F) -> (res: Option<
        Error<'static>,
    >)
        requires
            call_requires(native, (self@,)),
        ensures
            is_outcome_of(native, self@, res),
    {
        let raw = native(self.handle);
        Error::from_raw(raw)
    }
}

/// Bring-up forwards what the native routine promises. Where every report
/// of `native` for `handle` carries valid strings, the outcome is an error
/// value; its cause, name, file and line are those of one such report.
pub proof fn lemma_outcome_forwards<H, F: FnOnce(H) -> RawError<'static>>(
    native: F,
    handle: H,
    res: Option<Error<'static>>,
)
    requires
        is_outcome_of(native, handle, res),
        forall|raw: RawError<'static>| #[trigger]
            call_ensures(native, (handle,), raw) ==> text_of(raw_bytes(raw.name)).is_some()
                && text_of(raw_bytes(raw.file)).is_some(),
    ensures
        res.is_some(),
        exists|raw: RawError<'static>| #[trigger]
            call_ensures(native, (handle,), raw) && res.unwrap()@ == (ErrorView {
                cause: raw.cause as int,
                name: text_of(raw_bytes(raw.name)).unwrap(),
                file: text_of(raw_bytes(raw.file)).unwrap(),
                line: raw.line as int,
            }),
{
    let raw = choose|raw: RawError<'static>| #[trigger]
        call_ensures(native, (handle,), raw) && is_error_of(raw, res);
    assert(call_ensures(native, (handle,), raw));
}

} // verus!
