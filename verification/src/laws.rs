//! What holds of tables and of the symbols they mint, whatever was interned.

use crate::errors::{ResolutionErr, TableMismatchErr};
use crate::internable::{is_marker_of, is_text_of, Internable};
use crate::interner::Interner;
use crate::symbol::Symbol;
use crate::table::SymbolTable;
use vstd::prelude::*;

verus! {

/// A symbol stands, on the table that has just minted it, for the string
/// that was interned.
pub proof fn lemma_round_trip<I: Interner, T: Internable>(
    before: SymbolTable<I>,
    after: SymbolTable<I>,
    text: Seq<char>,
    marker: u64,
    sym: Symbol<T>,
)
    requires
        before.mints(&after, text, marker, &sym),
    ensures
        after.lookup(&sym) == Ok::<Seq<char>, ResolutionErr<T>>(text),
{
}

/// The store only grows: a symbol stands for the same string after another
/// string is interned, and a symbol of another table is turned down as
/// before.
pub proof fn lemma_lookup_is_stable<I: Interner, T: Internable, U: Internable>(
    before: SymbolTable<I>,
    after: SymbolTable<I>,
    text: Seq<char>,
    marker: u64,
    minted: Symbol<U>,
    sym: Symbol<T>,
)
    requires
        before.mints(&after, text, marker, &minted),
        before.lookup(&sym) != Err::<Seq<char>, ResolutionErr<T>>(ResolutionErr::InvalidIdErr),
    ensures
        after.lookup(&sym) == before.lookup(&sym),
{
}

/// Interning the same string twice, under one domain or under two, gives
/// symbols with the same raw identifier and the same origin.
pub proof fn lemma_same_text_same_id<I: Interner, T: Internable, U: Internable>(
    before: SymbolTable<I>,
    between: SymbolTable<I>,
    after: SymbolTable<I>,
    text: Seq<char>,
    first_marker: u64,
    second_marker: u64,
    first: Symbol<T>,
    second: Symbol<U>,
)
    requires
        after.wf(),
        before.mints(&between, text, first_marker, &first),
        between.mints(&after, text, second_marker, &second),
    ensures
        first.raw() == second.raw(),
        first.spec_origin() == second.spec_origin(),
{
    after.lemma_store_invariant();
    assert(after.strings().dom().contains(first.raw()));
}

/// Interning two different strings gives symbols with different raw
/// identifiers.
pub proof fn lemma_distinct_text_distinct_id<I: Interner, T: Internable, U: Internable>(
    before: SymbolTable<I>,
    between: SymbolTable<I>,
    after: SymbolTable<I>,
    first_text: Seq<char>,
    second_text: Seq<char>,
    first_marker: u64,
    second_marker: u64,
    first: Symbol<T>,
    second: Symbol<U>,
)
    requires
        before.mints(&between, first_text, first_marker, &first),
        between.mints(&after, second_text, second_marker, &second),
        first_text != second_text,
    ensures
        first.raw() != second.raw(),
{
    assert(after.strings().dom().contains(first.raw()));
}

/// Two symbols of one table that stand for strings have the same raw
/// identifier exactly if they stand for the same string.
pub proof fn lemma_id_determines_text<I: Interner, T: Internable, U: Internable>(
    table: SymbolTable<I>,
    first: Symbol<T>,
    second: Symbol<U>,
)
    requires
        table.wf(),
        table.lookup(&first) is Ok,
        table.lookup(&second) is Ok,
    ensures
        first.raw() == second.raw() <==> table.lookup(&first)->Ok_0 == table.lookup(&second)->Ok_0,
{
    table.lemma_store_invariant();
}

/// A table turns down every symbol that names another table, with both
/// identities in the error, whatever strings the table holds itself.
pub proof fn lemma_foreign_symbol_is_turned_down<I: Interner, T: Internable>(
    table: SymbolTable<I>,
    sym: Symbol<T>,
)
    requires
        sym.spec_origin() != table.identity(),
    ensures
        table.lookup(&sym) == Err::<Seq<char>, ResolutionErr<T>>(
            ResolutionErr::MismatchErr(
                TableMismatchErr::spec_new(table.identity(), sym.spec_origin()),
            ),
        ),
{
}

/// Resolving a symbol that names another table gives the mismatch error with
/// both identities, never a value and never another error, whatever the
/// type and whatever strings the table holds itself.
pub proof fn lemma_foreign_symbol_never_resolves<I: Interner, T: Internable>(
    table: SymbolTable<I>,
    sym: Symbol<T>,
    resolved: Result<T, ResolutionErr<T>>,
)
    requires
        sym.spec_origin() != table.identity(),
        table.resolves(&sym, resolved),
    ensures
        resolved == Err::<T, ResolutionErr<T>>(
            ResolutionErr::MismatchErr(
                TableMismatchErr::spec_new(table.identity(), sym.spec_origin()),
            ),
        ),
{
}

/// On a table that has interned nothing, nothing counts as interned.
pub proof fn lemma_nothing_is_interned_at_first<I: Interner, T: Internable>(
    table: SymbolTable<I>,
    asked: Seq<char>,
    found: bool,
)
    requires
        table.domains() == Set::<(Seq<char>, u64)>::empty(),
        table.finds::<T>(asked, found),
    ensures
        !found,
{
}

/// After a string is interned under a marker, exactly the pairs that were
/// interned before and the new pair count as interned.
pub proof fn lemma_lookup_after_intern<I: Interner, T: Internable>(
    before: SymbolTable<I>,
    after: SymbolTable<I>,
    text: Seq<char>,
    marker: u64,
    sym: Symbol<T>,
    other_text: Seq<char>,
    other_marker: u64,
)
    requires
        before.mints(&after, text, marker, &sym),
    ensures
        after.has(text, marker),
        after.has(other_text, other_marker) == (before.has(other_text, other_marker) || (
        other_text == text && other_marker == marker)),
{
}

/// Resolving the symbol of a string that has just been interned gives back
/// that string.
pub proof fn lemma_string_round_trip<I: Interner>(
    before: SymbolTable<I>,
    after: SymbolTable<I>,
    item: String,
    sym: Symbol<String>,
    resolved: Result<String, ResolutionErr<String>>,
)
    requires
        before.interns(&after, &item, &sym),
        after.resolves(&sym, resolved),
    ensures
        resolved matches Ok(back) && back@ == item@,
{
    let (text, marker) = choose|text: Seq<char>, marker: u64|
        {
            &&& is_text_of(&item, text)
            &&& is_marker_of::<String>(marker)
            &&& #[trigger] before.mints(&after, text, marker, &sym)
        };
    lemma_round_trip(before, after, text, marker, sym);
}

/// Interning a string a second time gives a symbol equal to the first; two
/// strings get symbols with different raw identifiers if they differ.
pub proof fn lemma_string_identity<I: Interner>(
    before: SymbolTable<I>,
    between: SymbolTable<I>,
    after: SymbolTable<I>,
    first_item: String,
    second_item: String,
    first: Symbol<String>,
    second: Symbol<String>,
)
    requires
        after.wf(),
        before.interns(&between, &first_item, &first),
        between.interns(&after, &second_item, &second),
    ensures
        first.raw() == second.raw() <==> first_item@ == second_item@,
        first.spec_origin() == second.spec_origin(),
{
    let (first_text, first_marker) = choose|text: Seq<char>, marker: u64|
        {
            &&& is_text_of(&first_item, text)
            &&& is_marker_of::<String>(marker)
            &&& #[trigger] before.mints(&between, text, marker, &first)
        };
    let (second_text, second_marker) = choose|text: Seq<char>, marker: u64|
        {
            &&& is_text_of(&second_item, text)
            &&& is_marker_of::<String>(marker)
            &&& #[trigger] between.mints(&after, text, marker, &second)
        };
    if first_item@ == second_item@ {
        lemma_same_text_same_id(
            before,
            between,
            after,
            first_text,
            first_marker,
            second_marker,
            first,
            second,
        );
    } else {
        lemma_distinct_text_distinct_id(
            before,
            between,
            after,
            first_text,
            second_text,
            first_marker,
            second_marker,
            first,
            second,
        );
    }
}

/// A string counts as interned as soon as it has been interned, and a
/// string that does not count as interned before another one is interned
/// does not count afterwards.
pub proof fn lemma_string_lookup<I: Interner>(
    before: SymbolTable<I>,
    after: SymbolTable<I>,
    item: String,
    sym: Symbol<String>,
    asked: Seq<char>,
    found_before: bool,
    found_after: bool,
)
    requires
        before.interns(&after, &item, &sym),
        before.finds::<String>(asked, found_before),
        after.finds::<String>(asked, found_after),
    ensures
        found_after == (found_before || asked == item@),
{
    let (text, marker) = choose|text: Seq<char>, marker: u64|
        {
            &&& is_text_of(&item, text)
            &&& is_marker_of::<String>(marker)
            &&& #[trigger] before.mints(&after, text, marker, &sym)
        };
    lemma_lookup_after_intern(before, after, text, marker, sym, asked, 0);
}

} // verus!
