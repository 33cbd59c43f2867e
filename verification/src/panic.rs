//! Turning an unwinding panic into an ordinary failure.
//!
//! A panic must never unwind across the boundary. Whoever runs a fallible
//! operation on behalf of a foreign caller catches the unwinding at the
//! entry point and hands what came out to [`catch_panic`], which gives back
//! a failure, and stages it in the error register, on every path but
//! success.

use crate::error_handling::{update_last_error, LastError};
use crate::failure::{Failure, FailureView};
use vstd::prelude::*;
use vstd::string::StringExecFns;

verus! {

/// The message of a panic whose payload carried no text.
pub const DEFAULT_PANIC_MSG: &'static str = "The program panicked";

/// A caught panic message.
#[derive(Debug, Clone, PartialEq, Eq)]
pub struct Panic {
    /// The panic message.
    pub message: String,
}

impl Panic {
    /// Wraps a recovered panic message.
    pub fn new(msg: String) -> (p: Panic)
        ensures
            p.message == msg,
    {
        Panic { message: msg }
    }
}

/// What a panic carried, as far as its shape is recognised.
#[derive(Debug)]
pub enum PanicPayload {
    /// Owned text, as a formatted panic message is.
    Owned(String),
    /// A reference to static text, as a literal panic message is.
    Static(&'static str),
    /// Anything else.
    Other,
}

/// What an operation run under a guard came to: it returned, with success
/// or an ordinary failure, or it panicked.
pub type Guarded<T> = Result<Result<T, Failure>, PanicPayload>;

/// The text that a payload carries, if its shape is recognised.
pub open spec fn payload_text(e: PanicPayload) -> Option<Seq<char>> {
    match e {
        PanicPayload::Owned(msg) => Some(msg@),
        PanicPayload::Static(msg) => Some(msg@),
        PanicPayload::Other => None,
    }
}

/// The message under which a panic with this payload is reported.
pub open spec fn panic_text(e: PanicPayload) -> Seq<char> {
    match payload_text(e) {
        Some(msg) => msg,
        None => DEFAULT_PANIC_MSG@,
    }
}

/// The failure that an outcome amounts to; none where the operation
/// succeeded.
pub open spec fn failure_of<T>(outcome: Guarded<T>) -> Option<FailureView> {
    match outcome {
        Ok(Ok(_)) => None,
        Ok(Err(e)) => Some(e@),
        Err(payload) => Some(FailureView::Panic(panic_text(payload))),
    }
}

/// Try to recover the error message from a panic.
pub fn recover_panic_message(e: PanicPayload) -> (msg: Option<String>)
    ensures
        match msg {
            Some(m) => payload_text(e) == Some(m@),
            None => payload_text(e) is None,
        },
{
    match e {
        PanicPayload::Owned(msg) => Some(msg),
        PanicPayload::Static(msg) => Some(String::from_str(msg)),
        PanicPayload::Other => None,
    }
}

/// Guard the boundary against what an operation came to: success passes
/// through; an ordinary failure is handed back as it is; a panic is
/// handed back as a [`Panic`] failure under the recovered message. On each
/// failure the register is left holding the same failure.
pub fn catch_panic<T>(reg: &mut LastError, outcome: Guarded<T>) -> (result: Result<T, Failure>)
    ensures
        outcome matches Ok(Ok(v)) ==> result == Ok::<T, Failure>(v) && final(reg)@ == old(reg)@,
        outcome matches Ok(Err(e)) ==> result == Err::<T, Failure>(e),
        failure_of(outcome) is Some ==> result is Err && result->Err_0@ == failure_of(
            outcome,
        ).unwrap() && final(reg)@ is Some && final(reg)@.unwrap()@ == failure_of(outcome).unwrap(),
{
    let result: Result<T, Failure> = match outcome {
        Ok(returned) => returned,
        Err(payload) => {
            let panic_msg = match recover_panic_message(payload) {
                Some(msg) => msg,
                None => String::from_str(DEFAULT_PANIC_MSG),
            };
            Err(Failure::from(Panic::new(panic_msg)))
        },
    };
    match result {
        Ok(v) => Ok(v),
        Err(e) => {
            update_last_error(reg, e.clone());
            Err(e)
        },
    }
}

} // verus!
