//! The mutating capability with a single rule: whatever has a default value
//! is set back to it.
//!
//! This trait shares its name with [`crate::mut_me_somehow::MutMeSomehow`]
//! and covers some of the same types. Import one of the two, or call this one
//! by its path.

use crate::fixed::FixedMut;
use crate::say_hi::greeting;
use crate::say_hi::Describe;
use vstd::prelude::*;

verus! {

/// A value that can be changed through its exclusive handle.
pub trait MutMeSomehow: Sized {
    /// Whether `after` is what the capability makes of `before`.
    spec fn mutated(before: Self, after: Self) -> bool;

    /// Changes the value behind `handle`.
    fn mut_me_somehow(handle: FixedMut<'_, Self>)
        ensures
            Self::mutated(handle@, final(handle.slot)@),
    ;
}

/// The value becomes a default value of its type.
impl<T: Default> MutMeSomehow for T {
    open spec fn mutated(before: Self, after: Self) -> bool {
        T::default.ensures((), after)
    }

    fn mut_me_somehow(handle: FixedMut<'_, Self>) {
        handle.set(T::default());
    }
}

/// A value greets after the capability as a default value of its type
/// does: where `text` describes every default value, it describes the value.
pub proof fn lemma_value_greets_as_default<T: Default + Describe>(
    before: T,
    after: T,
    text: Seq<char>,
)
    requires
        <T as MutMeSomehow>::mutated(before, after),
        forall|fresh: T| #[trigger] T::default.ensures((), fresh) ==> fresh.description() == text,
    ensures
        greeting(after.description()) == greeting(text),
{
}

} // verus!
