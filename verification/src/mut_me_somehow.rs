//! The mutating capability, with a rule of its own for each kind of
//! container.
//!
//! [`crate::mut_me_blanket`] has one rule for every type with a default
//! value. Boxes, shared values, arrays and plain values fall under both, so
//! the two traits are kept apart and a caller names the one it means.

use crate::fixed::FixedMut;
use crate::say_hi::descriptions;
use crate::say_hi::greeting;
use crate::say_hi::Describe;
use crate::text::lemma_joined_push;
use crate::text::quoted;
use std::rc::Rc;
use vstd::prelude::*;
use vstd::string::*;

verus! {

/// What is appended to a string.
pub open spec fn suffix() -> Seq<char> {
    " this"@ + " task is weird"@
}

/// The bytes a borrowed slice shows afterwards.
pub open spec fn fresh_bytes() -> Seq<u8> {
    seq![1u8, 2u8, 3u8]
}

/// A value that can be changed through its exclusive handle.
pub trait MutMeSomehow: Sized {
    /// Whether `after` is what the capability makes of `before`.
    spec fn mutated(before: Self, after: Self) -> bool;

    /// Changes the value behind `handle` as the rule of its type says.
    fn mut_me_somehow(handle: FixedMut<'_, Self>)
        ensures
            Self::mutated(handle@, final(handle.slot)@),
    ;
}

/// The box stays; its contents become a default value.
impl<T: Default> MutMeSomehow for Box<T> {
    open spec fn mutated(before: Self, after: Self) -> bool {
        T::default.ensures((), *after)
    }

    fn mut_me_somehow(handle: FixedMut<'_, Self>) {
        let contents = handle.get_mut();
        **contents = T::default();
    }
}

/// The handle lets go of what it shared and holds a default value of its
/// own. Nothing is written to the shared storage.
impl<T: Default> MutMeSomehow for Rc<T> {
    open spec fn mutated(before: Self, after: Self) -> bool {
        T::default.ensures((), *after)
    }

    fn mut_me_somehow(handle: FixedMut<'_, Self>) {
        handle.set(Rc::default());
    }
}

/// The array becomes empty.
impl<T> MutMeSomehow for Vec<T> {
    open spec fn mutated(before: Self, after: Self) -> bool {
        after@ == Seq::<T>::empty()
    }

    fn mut_me_somehow(handle: FixedMut<'_, Self>) {
        handle.set(Vec::new());
    }
}

/// The string grows by [`suffix`].
impl MutMeSomehow for String {
    open spec fn mutated(before: Self, after: Self) -> bool {
        after@ == before@ + suffix()
    }

    fn mut_me_somehow(handle: FixedMut<'_, Self>) {
        let text = handle.get_mut();
        text.append(" this");
        text.append(" task is weird");
        assert(text@ =~= handle@@ + suffix());
    }
}

/// The view turns to [`fresh_bytes`]; the bytes it showed before are left
/// alone.
impl<'a> MutMeSomehow for &'a [u8] {
    open spec fn mutated(before: Self, after: Self) -> bool {
        after@ == fresh_bytes()
    }

    fn mut_me_somehow(handle: FixedMut<'_, Self>) {
        let bytes: &'static [u8] = &[1, 2, 3];
        handle.set(bytes);
    }
}

/// A box greets after the capability as a default value of its contents
/// does: where `text` describes every default value, it describes the box.
pub proof fn lemma_box_greets_as_default<T: Default + Describe>(
    before: Box<T>,
    after: Box<T>,
    text: Seq<char>,
)
    requires
        <Box<T> as MutMeSomehow>::mutated(before, after),
        forall|fresh: T| #[trigger] T::default.ensures((), fresh) ==> fresh.description() == text,
    ensures
        greeting(after.description()) == greeting(text),
{
}

/// A shared value greets after the capability as a default value does: where
/// `text` describes every default value, it describes what the handle holds.
pub proof fn lemma_shared_greets_as_default<T: Default + Describe>(
    before: Rc<T>,
    after: Rc<T>,
    text: Seq<char>,
)
    requires
        <Rc<T> as MutMeSomehow>::mutated(before, after),
        forall|fresh: T| #[trigger] T::default.ensures((), fresh) ==> fresh.description() == text,
    ensures
        greeting(after.description()) == greeting(text),
{
}

/// The capability on one handle of a shared value says nothing of another
/// holder of the same value: that one still greets as the value did before.
pub proof fn lemma_other_holder_greets_as_before<T: Default + Describe>(
    before: Rc<T>,
    after: Rc<T>,
    other: Rc<T>,
)
    requires
        other == before,
        <Rc<T> as MutMeSomehow>::mutated(before, after),
    ensures
        greeting(other.description()) == greeting(before.description()),
{
}

/// An array greets after the capability as the empty list: `Hi from []`.
pub proof fn lemma_array_greets_as_empty<T: Describe>(before: Vec<T>, after: Vec<T>)
    requires
        <Vec<T> as MutMeSomehow>::mutated(before, after),
    ensures
        greeting(after.description()) == greeting(seq!['[', ']']),
{
    assert(descriptions(after@) =~= Seq::<Seq<char>>::empty());
    assert(after.description() =~= seq!['[', ']']);
}

/// A string greets after the capability as its old text with [`suffix`]
/// behind it does.
pub proof fn lemma_string_greets_with_suffix(before: String, after: String)
    requires
        <String as MutMeSomehow>::mutated(before, after),
    ensures
        greeting(after.description()) == greeting(quoted(before@ + suffix())),
{
}

/// A borrowed slice of bytes greets after the capability as the list of
/// [`fresh_bytes`]: `Hi from [1, 2, 3]`.
pub proof fn lemma_bytes_greet_as_fresh<'a>(before: &'a [u8], after: &'a [u8])
    requires
        <&'a [u8] as MutMeSomehow>::mutated(before, after),
    ensures
        greeting(after.description()) == greeting(
            seq!['[', '1', ',', ' ', '2', ',', ' ', '3', ']'],
        ),
{
    let items = descriptions(after@);
    assert(items =~= seq![seq!['1'], seq!['2'], seq!['3']]);
    let one = seq![seq!['1']];
    let two = one.push(seq!['2']);
    lemma_joined_push(one, seq!['2']);
    lemma_joined_push(two, seq!['3']);
    assert(two.push(seq!['3']) =~= items);
    assert(after.description() =~= seq!['[', '1', ',', ' ', '2', ',', ' ', '3', ']']);
}

} // verus!
