//! The one failure representation that every error path is normalised to.

use crate::nullable::NullPointer;
use crate::panic::Panic;
use crate::task::Cancelled;
use vstd::prelude::*;
use vstd::string::StringExecFns;

verus! {

/// Display text of a [`Failure::Cancelled`].
pub const CANCELLED_MSG: &'static str = "The task was cancelled";

/// Display text of a [`Failure::NullPointer`].
pub const NULL_POINTER_MSG: &'static str = "A null pointer was passed in where it wasn't expected";

/// Display text of a [`Failure::Disconnected`].
pub const DISCONNECTED_MSG: &'static str = "receiving on a closed channel";

/// What a [`Failure`] is, as a mathematical value: its kind and, where the
/// kind carries one, its message.
pub enum FailureView {
    Message(Seq<char>),
    Panic(Seq<char>),
    Cancelled,
    NullPointer,
    Disconnected,
}

impl FailureView {
    /// The display text: what a caller reading the error register sees.
    pub open spec fn text(self) -> Seq<char> {
        match self {
            FailureView::Message(m) => m,
            FailureView::Panic(m) => m,
            FailureView::Cancelled => CANCELLED_MSG@,
            FailureView::NullPointer => NULL_POINTER_MSG@,
            FailureView::Disconnected => DISCONNECTED_MSG@,
        }
    }
}

/// A failure of any origin, in the single form in which it is staged in the
/// error register or delivered by a task.
#[derive(Debug, PartialEq, Eq)]
pub enum Failure {
    /// An ordinary failure raised by an operation, carrying its display text.
    Message(String),
    /// A panic that was intercepted and turned into a value.
    Panic(Panic),
    /// The task stopped early because it was asked to.
    Cancelled,
    /// A null pointer was passed to an entry point.
    NullPointer,
    /// The worker hung up without delivering a result.
    Disconnected,
}

impl View for Failure {
    type V = FailureView;

    open spec fn view(&self) -> FailureView {
        match self {
            Failure::Message(m) => FailureView::Message(m@),
            Failure::Panic(p) => FailureView::Panic(p.message@),
            Failure::Cancelled => FailureView::Cancelled,
            Failure::NullPointer => FailureView::NullPointer,
            Failure::Disconnected => FailureView::Disconnected,
        }
    }
}

impl Failure {
    /// An ordinary failure with the given display text.
    pub fn msg(text: &str) -> (f: Failure)
        ensures
            f@ == FailureView::Message(text@),
    {
        Failure::Message(String::from_str(text))
    }

    /// The display text of this failure.
    pub fn message(&self) -> (text: String)
        ensures
            text@ == self@.text(),
    {
        match self {
            Failure::Message(m) => m.clone(),
            Failure::Panic(p) => p.message.clone(),
            Failure::Cancelled => String::from_str(CANCELLED_MSG),
            Failure::NullPointer => String::from_str(NULL_POINTER_MSG),
            Failure::Disconnected => String::from_str(DISCONNECTED_MSG),
        }
    }

    /// Whether this failure is a recovered panic.
    pub fn is_panic(&self) -> (b: bool)
        ensures
            b == (self@ is Panic),
    {
        match self {
            Failure::Panic(_) => true,
            _ => false,
        }
    }
}

impl Clone for Failure {
    /// A failure of the same kind with the same message.
    fn clone(&self) -> (f: Failure)
        ensures
            f@ == self@,
    {
        match self {
            Failure::Message(m) => Failure::Message(m.clone()),
            Failure::Panic(p) => Failure::Panic(Panic::new(p.message.clone())),
            Failure::Cancelled => Failure::Cancelled,
            Failure::NullPointer => Failure::NullPointer,
            Failure::Disconnected => Failure::Disconnected,
        }
    }
}

impl From<Panic> for Failure {
    fn from(p: Panic) -> (f: Failure) {
        Failure::Panic(p)
    }
}

impl vstd::std_specs::convert::FromSpecImpl<Panic> for Failure {
    open spec fn obeys_from_spec() -> bool {
        true
    }

    open spec fn from_spec(p: Panic) -> Failure {
        Failure::Panic(p)
    }
}

impl From<Cancelled> for Failure {
    fn from(c: Cancelled) -> (f: Failure) {
        Failure::Cancelled
    }
}

impl vstd::std_specs::convert::FromSpecImpl<Cancelled> for Failure {
    open spec fn obeys_from_spec() -> bool {
        true
    }

    open spec fn from_spec(c: Cancelled) -> Failure {
        Failure::Cancelled
    }
}

impl From<NullPointer> for Failure {
    fn from(n: NullPointer) -> (f: Failure) {
        Failure::NullPointer
    }
}

impl vstd::std_specs::convert::FromSpecImpl<NullPointer> for Failure {
    open spec fn obeys_from_spec() -> bool {
        true
    }

    open spec fn from_spec(n: NullPointer) -> Failure {
        Failure::NullPointer
    }
}

} // verus!
