//! Sentinel values: the "obviously invalid" value that a boundary function
//! returns when it fails.

use vstd::prelude::*;

verus! {

/// An object which has an "obviously invalid" value.
///
/// Implemented for all integer types, with `0` as the sentinel, for
/// `Option`, with `None`, and for `()`, whose only value is the sentinel.
pub trait Nullable: Sized {
    /// The sentinel of this type.
    const NULL: Self;

    /// Whether this value is the sentinel of its type.
    spec fn is_null_value(&self) -> bool;

    /// The sentinel is recognised as such.
    proof fn null_is_null()
        ensures
            Self::NULL.is_null_value(),
    ;

    /// Tests whether this value is the sentinel of its type.
    fn is_null(&self) -> (b: bool)
        ensures
            b == self.is_null_value(),
    ;
}

impl Nullable for u8 {
    const NULL: Self = 0;

    open spec fn is_null_value(&self) -> bool {
        *self == 0
    }

    proof fn null_is_null() {
    }

    #[inline]
    fn is_null(&self) -> (b: bool) {
        *self == 0
    }
}

impl Nullable for i8 {
    const NULL: Self = 0;

    open spec fn is_null_value(&self) -> bool {
        *self == 0
    }

    proof fn null_is_null() {
    }

    #[inline]
    fn is_null(&self) -> (b: bool) {
        *self == 0
    }
}

impl Nullable for u16 {
    const NULL: Self = 0;

    open spec fn is_null_value(&self) -> bool {
        *self == 0
    }

    proof fn null_is_null() {
    }

    #[inline]
    fn is_null(&self) -> (b: bool) {
        *self == 0
    }
}

impl Nullable for i16 {
    const NULL: Self = 0;

    open spec fn is_null_value(&self) -> bool {
        *self == 0
    }

    proof fn null_is_null() {
    }

    #[inline]
    fn is_null(&self) -> (b: bool) {
        *self == 0
    }
}

impl Nullable for u32 {
    const NULL: Self = 0;

    open spec fn is_null_value(&self) -> bool {
        *self == 0
    }

    proof fn null_is_null() {
    }

    #[inline]
    fn is_null(&self) -> (b: bool) {
        *self == 0
    }
}

impl Nullable for i32 {
    const NULL: Self = 0;

    open spec fn is_null_value(&self) -> bool {
        *self == 0
    }

    proof fn null_is_null() {
    }

    #[inline]
    fn is_null(&self) -> (b: bool) {
        *self == 0
    }
}

impl Nullable for u64 {
    const NULL: Self = 0;

    open spec fn is_null_value(&self) -> bool {
        *self == 0
    }

    proof fn null_is_null() {
    }

    #[inline]
    fn is_null(&self) -> (b: bool) {
        *self == 0
    }
}

impl Nullable for i64 {
    const NULL: Self = 0;

    open spec fn is_null_value(&self) -> bool {
        *self == 0
    }

    proof fn null_is_null() {
    }

    #[inline]
    fn is_null(&self) -> (b: bool) {
        *self == 0
    }
}

impl Nullable for usize {
    const NULL: Self = 0;

    open spec fn is_null_value(&self) -> bool {
        *self == 0
    }

    proof fn null_is_null() {
    }

    #[inline]
    fn is_null(&self) -> (b: bool) {
        *self == 0
    }
}

impl Nullable for isize {
    const NULL: Self = 0;

    open spec fn is_null_value(&self) -> bool {
        *self == 0
    }

    proof fn null_is_null() {
    }

    #[inline]
    fn is_null(&self) -> (b: bool) {
        *self == 0
    }
}

impl<T> Nullable for Option<T> {
    const NULL: Self = None;

    open spec fn is_null_value(&self) -> bool {
        *self is None
    }

    proof fn null_is_null() {
    }

    #[inline]
    fn is_null(&self) -> (b: bool) {
        self.is_none()
    }
}

impl Nullable for () {
    const NULL: Self = ();

    open spec fn is_null_value(&self) -> bool {
        true
    }

    proof fn null_is_null() {
    }

    #[inline]
    fn is_null(&self) -> (b: bool) {
        true
    }
}

/// A null pointer was passed in where it wasn't expected.
#[derive(Debug, Clone, Copy, PartialEq, Eq)]
pub struct NullPointer;

} // verus!
