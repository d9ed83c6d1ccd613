//! A double-ended view of the characters of a symbol's string form.

use crate::internable::Internable;
use crate::symbol::{Resolvable, Symbol};
use std::collections::VecDeque;
use vstd::prelude::*;
use vstd::std_specs::cmp::PartialEqSpecImpl;

verus! {

/// The characters of the string form that a symbol stood for when the view
/// was made. Characters leave the view at the front and at the back; the view
/// remembers the whole string and how many characters left at the front.
#[derive(Debug)]
pub struct SymbolIterator<T: Internable> {
    source: Symbol<T>,
    whole: String,
    length: usize,
    matched: usize,
    remaining: VecDeque<char>,
}

/// Whether two queues hold the same characters in the same order.
fn same_chars(left: &VecDeque<char>, right: &VecDeque<char>) -> (same: bool)
    ensures
        same == (left@ == right@),
{
    if left.len() != right.len() {
        return false;
    }
    let mut i: usize = 0;
    while i < left.len()
        invariant
            i <= left.len(),
            left.len() == right.len(),
            forall|k: int| 0 <= k < i ==> left@[k] == right@[k],
        decreases left.len() - i,
    {
        if left[i] != right[i] {
            return false;
        }
        i += 1;
    }
    assert(left@ =~= right@);
    true
}

impl<T: Internable> SymbolIterator<T> {
    /// The symbol that the view was made from.
    pub closed spec fn source(&self) -> Symbol<T> {
        self.source
    }

    /// The whole string, as it was when the view was made.
    pub closed spec fn chars(&self) -> Seq<char> {
        self.whole@
    }

    /// How many characters have left at the front.
    pub closed spec fn consumed(&self) -> nat {
        self.matched as nat
    }

    /// The characters still in the view, front first.
    pub closed spec fn remaining(&self) -> Seq<char> {
        self.remaining@
    }

    /// The characters in the view are those of the whole string that follow
    /// the ones that left at the front, up to those that left at the back.
    pub closed spec fn wf(&self) -> bool {
        &&& self.length == self.whole@.len()
        &&& self.matched + self.remaining@.len() <= self.whole@.len()
        &&& self.remaining@ == self.whole@.subrange(
            self.matched as int,
            self.matched + self.remaining@.len(),
        )
    }

    /// Where the boundary marker stands in the rendering: behind the
    /// characters that left at the front, or at the end once none is left.
    pub open spec fn marker_at(&self) -> int {
        if self.remaining().len() == 0 {
            self.chars().len() as int
        } else {
            self.consumed() as int
        }
    }

    /// The whole string in double quotes, with the boundary marker in it.
    pub open spec fn rendering(&self) -> Seq<char> {
        seq!['"'] + self.chars().subrange(0, self.marker_at()) + seq!['•']
            + self.chars().subrange(self.marker_at(), self.chars().len() as int) + seq!['"']
    }

    /// Characters leave at the two ends only: those that left at the front
    /// and those that remain fit in the whole string, in their order.
    pub proof fn lemma_bounds(&self)
        requires
            self.wf(),
        ensures
            self.consumed() + self.remaining().len() <= self.chars().len(),
            self.remaining() == self.chars().subrange(
                self.consumed() as int,
                (self.consumed() + self.remaining().len()) as int,
            ),
            0 <= self.marker_at() <= self.chars().len(),
    {
    }

    /// The view of all the characters that `source` shows on `lookup`.
    pub fn new<R: Resolvable>(source: Symbol<T>, lookup: &R) -> (view: Self)
        requires
            source.recoverable_from(lookup),
        ensures
            view.wf(),
            view.source() == source,
            source.shows(lookup, view.chars()),
            view.remaining() == view.chars(),
            view.consumed() == 0,
    {
        let whole = source.to_string(lookup);
        let mut remaining: VecDeque<char> = VecDeque::new();
        let text = whole.as_str();
        for c in chars: text.chars()
            invariant
                chars.seq() == text@,
                remaining@ == text@.subrange(0, chars.index() as int),
        {
            remaining.push_back(c);
            assert(text@.subrange(0, chars.index() as int).push(c) =~= text@.subrange(
                0,
                chars.index() + 1,
            ));
        }
        let length = remaining.len();
        SymbolIterator { source, whole, length, matched: 0, remaining }
    }

    /// Whether a character is left in the view.
    pub fn has_next(&self) -> (more: bool)
        ensures
            more == (self.remaining().len() > 0),
    {
        self.remaining.len() > 0
    }

    /// The character at the front, which stays in the view.
    pub fn peek(&self) -> (front: Option<char>)
        ensures
            front == if self.remaining().len() > 0 {
                Some(self.remaining()[0])
            } else {
                None
            },
    {
        if self.remaining.len() > 0 {
            Some(self.remaining[0])
        } else {
            None
        }
    }

    /// Takes the character at the front out of the view.
    pub fn next(&mut self) -> (front: Option<char>)
        requires
            old(self).wf(),
        ensures
            final(self).wf(),
            final(self).source() == old(self).source(),
            final(self).chars() == old(self).chars(),
            old(self).remaining().len() > 0 ==> {
                &&& front == Some(old(self).remaining()[0])
                &&& final(self).remaining() == old(self).remaining().drop_first()
                &&& final(self).consumed() == old(self).consumed() + 1
            },
            old(self).remaining().len() == 0 ==> {
                &&& front is None
                &&& final(self).remaining() == old(self).remaining()
                &&& final(self).consumed() == old(self).consumed()
            },
    {
        let front = self.remaining.pop_front();
        if front.is_some() {
            self.matched = self.matched + 1;
        }
        assert(self.remaining@ =~= self.whole@.subrange(
            self.matched as int,
            self.matched + self.remaining@.len(),
        ));
        front
    }

    /// Takes the character at the back out of the view.
    pub fn next_back(&mut self) -> (back: Option<char>)
        requires
            old(self).wf(),
        ensures
            final(self).wf(),
            final(self).source() == old(self).source(),
            final(self).chars() == old(self).chars(),
            final(self).consumed() == old(self).consumed(),
            old(self).remaining().len() > 0 ==> {
                &&& back == Some(old(self).remaining().last())
                &&& final(self).remaining() == old(self).remaining().drop_last()
            },
            old(self).remaining().len() == 0 ==> {
                &&& back is None
                &&& final(self).remaining() == old(self).remaining()
            },
    {
        let back = self.remaining.pop_back();
        assert(self.remaining@ =~= self.whole@.subrange(
            self.matched as int,
            self.matched + self.remaining@.len(),
        ));
        back
    }

    /// The whole string in double quotes, with a boundary marker where the
    /// front of the view stands, or at the end once the view is empty.
    pub fn to_string(&self) -> (s: String)
        requires
            self.wf(),
        ensures
            s@ == self.rendering(),
    {
        let whole = self.whole.as_str();
        let len = self.length;
        let num_matched = if self.has_next() {
            self.matched
        } else {
            len
        };
        let mut out = String::from_str("\"");
        out.append(whole.substring_char(0, num_matched));
        out.append("•");
        out.append(whole.substring_char(num_matched, len));
        out.append("\"");
        proof {
            reveal_strlit("\"");
            reveal_strlit("•");
        }
        out
    }
}

impl<T: Internable> Clone for SymbolIterator<T> {
    fn clone(&self) -> (view: Self)
        ensures
            view.wf() == self.wf(),
            view.source().raw() == self.source().raw(),
            view.source().spec_origin() == self.source().spec_origin(),
            view.chars() == self.chars(),
            view.consumed() == self.consumed(),
            view.remaining() == self.remaining(),
    {
        let remaining = self.remaining.clone();
        SymbolIterator {
            source: self.source.clone(),
            whole: self.whole.clone(),
            length: self.length,
            matched: self.matched,
            remaining,
        }
    }
}

impl<T: Internable> PartialEq for SymbolIterator<T> {
    fn eq(&self, other: &Self) -> (r: bool) {
        self.source == other.source && same_chars(&self.remaining, &other.remaining)
    }
}

impl<T: Internable> PartialEqSpecImpl for SymbolIterator<T> {
    open spec fn obeys_eq_spec() -> bool {
        true
    }

    open spec fn eq_spec(&self, other: &Self) -> bool {
        &&& self.source().raw() == other.source().raw()
        &&& self.source().spec_origin() == other.source().spec_origin()
        &&& self.remaining() == other.remaining()
    }
}

} // verus!
