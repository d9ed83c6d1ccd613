//! What a type must offer to be interned.

use vstd::prelude::*;

verus! {

/// A type is internable if its values have a string form and can be
/// reconstructed from one. The string form of a value should itself be
/// reconstructible. The three methods are the caller's: the library relies
/// on nothing about them, and its contracts speak of what they returned.
pub trait Internable: Sized {
    /// The marker of the logical domain that the values of this type form.
    fn marker() -> u64;

    /// The string form of a value.
    fn as_interned(&self) -> &str;

    /// The value that a string form stands for, if there is one.
    fn try_from_interned(text: String) -> Option<Self>;
}

/// Whether `T::marker` may return `marker`.
pub open spec fn is_marker_of<T: Internable>(marker: u64) -> bool {
    call_ensures(T::marker, (), marker)
}

/// Whether `item.as_interned()` may return the string `text`.
pub open spec fn is_text_of<T: Internable>(item: &T, text: Seq<char>) -> bool {
    exists|s: &str| s@ == text && #[trigger] call_ensures(T::as_interned, (item,), s)
}

/// Whether `T::try_from_interned` may return `parsed` for the string `text`.
pub open spec fn is_parse_of<T: Internable>(text: Seq<char>, parsed: Option<T>) -> bool {
    exists|s: String| s@ == text && #[trigger] call_ensures(T::try_from_interned, (s,), parsed)
}

/// Whether `T::try_from_interned` reconstructs a value from the string
/// `text` whenever it is asked to.
pub open spec fn always_parses<T: Internable>(text: Seq<char>) -> bool {
    forall|s: String, parsed: Option<T>|
        s@ == text && #[trigger] call_ensures(T::try_from_interned, (s,), parsed)
            ==> parsed is Some
}

/// Plain strings are their own string form; they form the domain `0`.
impl Internable for String {
    fn marker() -> (m: u64)
        ensures
            m == 0,
    {
        0
    }

    fn as_interned(&self) -> (s: &str)
        ensures
            s@ == self@,
    {
        self.as_str()
    }

    fn try_from_interned(text: String) -> (r: Option<Self>)
        ensures
            r == Some(text),
    {
        Some(text)
    }
}

} // verus!
