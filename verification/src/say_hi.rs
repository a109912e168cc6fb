//! Greeting: every value that can be described says hi through a read-only
//! handle.

use crate::fixed::Fixed;
use crate::text::bracketed;
use crate::text::decimal;
use crate::text::decimal_string;
use crate::text::joined;
use crate::text::lemma_joined_push;
use crate::text::quote;
use crate::text::quoted;
use std::rc::Rc;
use vstd::prelude::*;
use vstd::string::*;

verus! {

/// A value that can be put into words.
pub trait Describe {
    /// The text that stands for the value.
    spec fn description(&self) -> Seq<char>;

    /// Writes the description out.
    fn describe(&self) -> (text: String)
        ensures
            text@ == self.description(),
    ;
}

/// The greeting of a value whose description is `description`.
pub open spec fn greeting(description: Seq<char>) -> Seq<char> {
    seq!['H', 'i', ' ', 'f', 'r', 'o', 'm', ' '] + description
}

/// The descriptions of the items, in order.
pub open spec fn descriptions<T: Describe>(items: Seq<T>) -> Seq<Seq<char>> {
    Seq::new(items.len(), |i: int| items[i].description())
}

/// The greeting capability. It reads the value and leaves it as it is.
pub trait SayHi: Describe + Sized {
    /// The greeting of the value behind `handle`: `Hi from `, then its
    /// description.
    fn say_hi(handle: Fixed<'_, Self>) -> (text: String)
        ensures
            text@ == greeting(handle@.description()),
    {
        proof {
            reveal_strlit("Hi from ");
        }
        let mut text = String::from_str("Hi from ");
        let description = handle.get().describe();
        text.append(description.as_str());
        assert(text@ =~= greeting(handle@.description()));
        text
    }
}

impl<T: Describe> SayHi for T {
}

/// Greeting tells nothing but the value: two handles that show the same
/// value, or one handle asked twice, get the same greeting.
pub proof fn lemma_same_value_same_greeting<T: Describe>(first: Fixed<'_, T>, second: Fixed<'_, T>)
    requires
        first@ == second@,
    ensures
        greeting(first@.description()) == greeting(second@.description()),
{
}

impl Describe for bool {
    open spec fn description(&self) -> Seq<char> {
        if *self {
            seq!['t', 'r', 'u', 'e']
        } else {
            seq!['f', 'a', 'l', 's', 'e']
        }
    }

    fn describe(&self) -> (text: String) {
        proof {
            reveal_strlit("true");
            reveal_strlit("false");
        }
        let text = if *self {
            String::from_str("true")
        } else {
            String::from_str("false")
        };
        assert(text@ =~= self.description());
        text
    }
}

impl Describe for u8 {
    open spec fn description(&self) -> Seq<char> {
        decimal(*self as nat)
    }

    fn describe(&self) -> (text: String) {
        decimal_string(*self as u128)
    }
}

impl<'a> Describe for &'a str {
    open spec fn description(&self) -> Seq<char> {
        quoted(self@)
    }

    fn describe(&self) -> (text: String) {
        quote(*self)
    }
}

impl Describe for String {
    open spec fn description(&self) -> Seq<char> {
        quoted(self@)
    }

    fn describe(&self) -> (text: String) {
        quote(self.as_str())
    }
}

impl<T: Describe> Describe for Box<T> {
    open spec fn description(&self) -> Seq<char> {
        (**self).description()
    }

    fn describe(&self) -> (text: String) {
        (**self).describe()
    }
}

impl<T: Describe> Describe for Rc<T> {
    open spec fn description(&self) -> Seq<char> {
        (**self).description()
    }

    fn describe(&self) -> (text: String) {
        (**self).describe()
    }
}

/// Describes the items one by one and writes them out as a list.
fn describe_items<T: Describe>(items: &[T]) -> (text: String)
    ensures
        text@ == bracketed(descriptions(items@)),
{
    proof {
        reveal_strlit("[");
        reveal_strlit(", ");
        reveal_strlit("]");
    }
    let ghost all = descriptions(items@);
    let mut text = String::from_str("[");
    let mut i: usize = 0;
    assert(all.take(0) =~= Seq::<Seq<char>>::empty());
    while i < items.len()
        invariant
            i <= items.len(),
            all == descriptions(items@),
            text@ == seq!['['] + joined(all.take(i as int)),
            ", "@ == seq![',', ' '],
        decreases items.len() - i,
    {
        if i > 0 {
            text.append(", ");
        }
        let item = items[i].describe();
        text.append(item.as_str());
        proof {
            lemma_joined_push(all.take(i as int), all[i as int]);
            assert(all.take(i as int).push(all[i as int]) =~= all.take(i + 1));
            assert(text@ =~= seq!['['] + joined(all.take(i + 1)));
        }
        i = i + 1;
    }
    text.append("]");
    assert(all.take(i as int) =~= all);
    assert(text@ =~= bracketed(all));
    text
}

impl<T: Describe> Describe for Vec<T> {
    open spec fn description(&self) -> Seq<char> {
        bracketed(descriptions(self@))
    }

    fn describe(&self) -> (text: String) {
        describe_items(self.as_slice())
    }
}

impl<'a, T: Describe> Describe for &'a [T] {
    open spec fn description(&self) -> Seq<char> {
        bracketed(descriptions(self@))
    }

    fn describe(&self) -> (text: String) {
        describe_items(*self)
    }
}

} // verus!
