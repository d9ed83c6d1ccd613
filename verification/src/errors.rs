//! What goes wrong when a symbol is resolved.

use crate::internable::{is_parse_of, Internable};
use std::marker::PhantomData;
use vstd::prelude::*;
use vstd::std_specs::convert::FromSpecImpl;

verus! {

/// Why a symbol did not resolve to a value.
#[derive(Debug, PartialEq, Eq)]
pub enum ResolutionErr<T: Internable> {
    /// The symbol was minted by another table.
    MismatchErr(TableMismatchErr<T>),
    /// No `T` was reconstructed from the stored string.
    ParseErr,
    /// The symbol names this table, which never issued its raw identifier.
    InvalidIdErr,
}

impl<T: Internable> ResolutionErr<T> {
    /// What resolving comes to once reconstruction has given `parsed`.
    pub open spec fn spec_from_parsed(parsed: Option<T>) -> Result<T, ResolutionErr<T>> {
        match parsed {
            Some(item) => Ok(item),
            None => Err(ResolutionErr::ParseErr),
        }
    }

    /// Whether `r` may be what resolving comes to where the stored string is
    /// `text`: what reconstruction from `text` may give, as a result.
    pub open spec fn is_outcome_for(text: Seq<char>, r: Result<T, ResolutionErr<T>>) -> bool {
        exists|parsed: Option<T>| #[trigger]
            is_parse_of(text, parsed) && r == Self::spec_from_parsed(parsed)
    }

    /// The value that was reconstructed, or the error for a string that is
    /// the string form of no value.
    #[verifier::when_used_as_spec(spec_from_parsed)]
    pub fn from_parsed(parsed: Option<T>) -> (r: Result<T, ResolutionErr<T>>)
        ensures
            r == Self::spec_from_parsed(parsed),
    {
        match parsed {
            Some(item) => Ok(item),
            None => Err(ResolutionErr::ParseErr),
        }
    }
}

impl<T: Internable> From<TableMismatchErr<T>> for ResolutionErr<T> {
    fn from(val: TableMismatchErr<T>) -> (err: Self) {
        ResolutionErr::MismatchErr(val)
    }
}

impl<T: Internable> FromSpecImpl<TableMismatchErr<T>> for ResolutionErr<T> {
    open spec fn obeys_from_spec() -> bool {
        true
    }

    open spec fn from_spec(val: TableMismatchErr<T>) -> Self {
        ResolutionErr::MismatchErr(val)
    }
}

/// A symbol was resolved on a table that did not mint it. The error keeps
/// the identity of the table that was asked and of the table that the symbol
/// names.
#[derive(Debug, PartialEq, Eq)]
pub struct TableMismatchErr<T: Internable> {
    table_address: usize,
    symbol_address: usize,
    data: PhantomData<T>,
}

impl<T: Internable> TableMismatchErr<T> {
    /// The identity of the table that was asked.
    pub closed spec fn spec_table_address(&self) -> usize {
        self.table_address
    }

    /// The identity of the table that minted the symbol.
    pub closed spec fn spec_symbol_address(&self) -> usize {
        self.symbol_address
    }

    /// The error for a symbol of the table at `sym` that was resolved on the
    /// table at `table`.
    pub closed spec fn spec_new(table: usize, sym: usize) -> Self {
        Self { table_address: table, symbol_address: sym, data: PhantomData }
    }

    /// The error keeps both identities as they were given.
    pub proof fn lemma_spec_new(table: usize, sym: usize)
        ensures
            Self::spec_new(table, sym).spec_table_address() == table,
            Self::spec_new(table, sym).spec_symbol_address() == sym,
    {
    }

    #[verifier::when_used_as_spec(spec_new)]
    pub fn new(table: usize, sym: usize) -> (err: Self)
        ensures
            err == Self::spec_new(table, sym),
    {
        Self { table_address: table, symbol_address: sym, data: PhantomData }
    }

    #[verifier::when_used_as_spec(spec_table_address)]
    pub fn table_address(&self) -> (address: usize)
        ensures
            address == self.spec_table_address(),
    {
        self.table_address
    }

    #[verifier::when_used_as_spec(spec_symbol_address)]
    pub fn symbol_address(&self) -> (address: usize)
        ensures
            address == self.spec_symbol_address(),
    {
        self.symbol_address
    }
}

} // verus!
