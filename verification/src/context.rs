//! Error contexts: the slot through which the engine reports failure.

use crate::engine::{Call, Handle, Release};
use crate::operation::{make, unwind, Op, Output, OutputView, Step};
use crate::utils::{string_from_c, Error, ErrorView};
use vstd::prelude::*;
use vstd::utf8::*;

verus! {

/// The status of a call that succeeded.
pub const NIX_OK: i32 = 0;

/// The status of a failure of no known kind.
pub const NIX_ERR_UNKNOWN: i32 = -1;

/// The status of an overflow.
pub const NIX_ERR_OVERFLOW: i32 = -2;

/// The status of a key that was not found.
pub const NIX_ERR_KEY: i32 = -3;

/// The status of a failure inside the engine.
pub const NIX_ERR_NIX_ERROR: i32 = -4;

/// An error context of the engine, owned.
#[derive(Debug, PartialEq, Eq)]
pub struct Context {
    pub handle: Handle,
}

impl Context {
    /// Asks the engine for a fresh context.
    pub fn new() -> (step: Step)
        ensures
            step.sound(),
            step.makes(Call::ContextCreate, Op::NewContext),
    {
        make(Call::ContextCreate, Op::NewContext)
    }

    /// Gives the context back.
    pub fn release(self) -> (step: Step)
        ensures
            step.sound(),
            step.winds_down(seq![Release::Context(self.handle)], Ok(OutputView::Nothing)),
    {
        let mut owed: Vec<Release> = Vec::new();
        owed.push(Release::Context(self.handle));
        assert(owed@ =~= seq![Release::Context(self.handle)]);
        unwind(owed, Ok(Output::Nothing))
    }

    /// The error that the status `code` and the bytes of the context's
    /// message stand for. A message that is not text hides the status.
    pub open spec fn failure(code: i32, message: Seq<u8>) -> ErrorView {
        if !valid_utf8(message) {
            ErrorView::UnknownError
        } else if code == NIX_ERR_UNKNOWN {
            ErrorView::NixErrorUnknown(decode_utf8(message))
        } else if code == NIX_ERR_OVERFLOW {
            ErrorView::NixErrorOverflow(decode_utf8(message))
        } else if code == NIX_ERR_KEY {
            ErrorView::NixErrorKey(decode_utf8(message))
        } else if code == NIX_ERR_NIX_ERROR {
            ErrorView::NixErrorNixError(decode_utf8(message))
        } else {
            ErrorView::UnknownError
        }
    }

    /// Turns a status other than success, and the message that goes with it, into an error.
    pub fn error(code: i32, message: Vec<u8>) -> (error: Error)
        ensures
            error@ == Context::failure(code, message@),
    {
        let text = match string_from_c(message) {
            Ok(text) => text,
            Err(e) => {
                return e;
            },
        };
        match code {
            NIX_ERR_UNKNOWN => Error::NixErrorUnknown(text),
            NIX_ERR_OVERFLOW => Error::NixErrorOverflow(text),
            NIX_ERR_KEY => Error::NixErrorKey(text),
            NIX_ERR_NIX_ERROR => Error::NixErrorNixError(text),
            _ => Error::UnknownError,
        }
    }

    /// Judges a call by the status that its context holds afterwards: success
    /// passes, and any other status is the error that it and the context's
    /// message stand for.
    pub fn check(code: i32, message: Vec<u8>) -> (r: Result<(), Error>)
        ensures
            match r {
                Ok(()) => code == NIX_OK,
                Err(e) => code != NIX_OK && e@ == Context::failure(code, message@),
            },
    {
        if code == NIX_OK {
            Ok(())
        } else {
            Err(Context::error(code, message))
        }
    }
}

} // verus!
