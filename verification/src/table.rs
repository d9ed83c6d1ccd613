//! The table: one backing store, typed access to it, and the check that a
//! symbol is resolved by the table that minted it.

use crate::array::ArrayInterner;
use crate::errors::{ResolutionErr, TableMismatchErr};
use crate::flavor::InternerFlavor;
use crate::identity::TableIdentity;
use crate::internable::{is_marker_of, is_parse_of, is_text_of, Internable};
use crate::interner::{interned_into, store_invariant, Interner};
use crate::serial::serial_value;
use crate::symbol::{Resolvable, Symbol};
use typed_ids::SerialU64;
use vstd::prelude::*;

verus! {

/// A [`SymbolTable`] owns a backing store and an identity. It interns values
/// by their string form and hands out a [`Symbol`] for each, stamped with its
/// identity; it resolves only the symbols that carry that stamp.
pub struct SymbolTable<I: Interner = ArrayInterner> {
    interner: I,
    identity: TableIdentity,
}

impl SymbolTable<ArrayInterner> {
    /// A table on a store of the given flavor, with nothing interned.
    pub fn new(flavor: InternerFlavor) -> (table: Self)
        ensures
            table.wf(),
            table.strings() == Map::<u64, Seq<char>>::empty(),
            table.domains() == Set::<(Seq<char>, u64)>::empty(),
    {
        match flavor {
            InternerFlavor::Array => Self::from(ArrayInterner::new()),
        }
    }
}

impl<I: Interner> SymbolTable<I> {
    /// The store's invariant holds.
    pub closed spec fn wf(&self) -> bool {
        self.interner.wf()
    }

    /// The stored strings, by raw identifier.
    pub closed spec fn strings(&self) -> Map<u64, Seq<char>> {
        self.interner.strings()
    }

    /// The pairs of string and domain marker that were interned.
    pub closed spec fn domains(&self) -> Set<(Seq<char>, u64)> {
        self.interner.domains()
    }

    /// The address that stands for this table's identity.
    pub closed spec fn identity(&self) -> usize {
        self.identity.spec_address()
    }

    /// No string is stored under two raw identifiers, zero identifies
    /// nothing, and what counts as interned is stored.
    pub proof fn lemma_store_invariant(&self)
        requires
            self.wf(),
        ensures
            store_invariant(self.strings(), self.domains()),
    {
        self.interner.lemma_store_invariant();
    }

    /// A table on the given store, with an identity of its own.
    pub fn from(interner: I) -> (table: Self)
        requires
            interner.wf(),
        ensures
            table.wf(),
            table.strings() == interner.strings(),
            table.domains() == interner.domains(),
    {
        Self { interner, identity: TableIdentity::fresh() }
    }

    /// Whether interning the string form `text` under the domain marker
    /// `marker` takes this table to `after` and mints `sym`.
    pub open spec fn mints<T: Internable>(
        &self,
        after: &Self,
        text: Seq<char>,
        marker: u64,
        sym: &Symbol<T>,
    ) -> bool {
        &&& after.identity() == self.identity()
        &&& sym.spec_origin() == self.identity()
        &&& interned_into(
            self.strings(),
            self.domains(),
            after.strings(),
            after.domains(),
            text,
            marker,
            sym.raw(),
        )
    }

    /// Whether interning `item` may take this table to `after` and mint
    /// `sym`: it does if a string form of `item` was interned under a marker
    /// of its type.
    pub open spec fn interns<T: Internable>(&self, after: &Self, item: &T, sym: &Symbol<T>) -> bool {
        exists|text: Seq<char>, marker: u64|
            {
                &&& is_text_of(item, text)
                &&& is_marker_of::<T>(marker)
                &&& #[trigger] self.mints(after, text, marker, sym)
            }
    }

    /// Interns `item` under its string form and the marker of its type, and
    /// returns the symbol for it.
    pub fn intern<T: Internable>(&mut self, item: &T) -> (sym: Symbol<T>)
        requires
            old(self).wf(),
        ensures
            final(self).wf(),
            old(self).interns(final(self), item, &sym),
    {
        let text = item.as_interned();
        let str_repr: String = text.to_owned();
        let typ_id = T::marker();
        let erased_id = self.interner.intern(str_repr, typ_id);
        let sym = self.to_typed_symbol(erased_id);
        proof {
            assert(old(self).mints(self, text@, typ_id, &sym));
        }
        sym
    }

    /// The string that this table holds for `sym`, or why it holds none. A
    /// symbol of another table is turned down whatever this table holds.
    pub open spec fn lookup<T: Internable>(&self, sym: &Symbol<T>) -> Result<
        Seq<char>,
        ResolutionErr<T>,
    > {
        if sym.spec_origin() != self.identity() {
            Err(
                ResolutionErr::MismatchErr(
                    TableMismatchErr::spec_new(self.identity(), sym.spec_origin()),
                ),
            )
        } else if !self.strings().dom().contains(sym.raw()) {
            Err(ResolutionErr::InvalidIdErr)
        } else {
            Ok(self.strings()[sym.raw()])
        }
    }

    /// The string that `sym` stands for. The symbol's origin is checked
    /// first: the store is asked only for a symbol of this table.
    pub fn resolve_text<T: Internable>(&self, sym: &Symbol<T>) -> (r: Result<
        String,
        ResolutionErr<T>,
    >)
        ensures
            match r {
                Ok(text) => self.lookup(sym) == Ok::<Seq<char>, ResolutionErr<T>>(text@),
                Err(err) => self.lookup(sym) == Err::<Seq<char>, ResolutionErr<T>>(err),
            },
    {
        let table_addr = self.addr();
        let sym_addr = sym.origin();
        if table_addr != sym_addr {
            let err = ResolutionErr::from(
                TableMismatchErr::new(table_addr.address(), sym_addr.address()),
            );
            return Err(err);
        }
        let id = sym.erase_type();
        match self.interner.resolve(id) {
            Some(resolution) => Ok(resolution),
            None => Err(ResolutionErr::InvalidIdErr),
        }
    }

    /// Whether resolving `sym` on this table may give `r`: the error, where
    /// this table holds no string for `sym`; else what reconstruction from
    /// that string gave.
    pub open spec fn resolves<T: Internable>(
        &self,
        sym: &Symbol<T>,
        r: Result<T, ResolutionErr<T>>,
    ) -> bool {
        &&& self.lookup(sym) matches Ok(text) ==> ResolutionErr::is_outcome_for(text, r)
        &&& self.lookup(sym) matches Err(err) ==> r == Err::<T, ResolutionErr<T>>(err)
    }

    /// The value that `sym` stands for: what `T` reconstructs from the
    /// string that `sym` stands for, where this table holds one.
    pub fn resolve<T: Internable>(&self, sym: &Symbol<T>) -> (r: Result<T, ResolutionErr<T>>)
        ensures
            self.resolves(sym, r),
    {
        match self.resolve_text(sym) {
            Ok(resolution) => {
                let ghost text = resolution@;
                let parsed = T::try_from_interned(resolution);
                assert(is_parse_of(text, parsed));
                ResolutionErr::from_parsed(parsed)
            },
            Err(err) => Err(err),
        }
    }

    /// Whether the pair of the string `text` and the domain marker `marker`
    /// was interned.
    pub open spec fn has(&self, text: Seq<char>, marker: u64) -> bool {
        self.domains().contains((text, marker))
    }

    /// Whether asking if `text` was interned as a `T` may give `found`: it
    /// does if `found` tells whether `text` was interned under a marker of
    /// `T`.
    pub open spec fn finds<T: Internable>(&self, text: Seq<char>, found: bool) -> bool {
        exists|marker: u64| #[trigger] is_marker_of::<T>(marker) && found == self.has(text, marker)
    }

    /// The symbol of the string `val` as a `T`, if `val` was interned under
    /// the marker of `T`.
    pub fn get_interned<T: Internable>(&self, val: &str) -> (found: Option<Symbol<T>>)
        requires
            self.wf(),
        ensures
            self.finds::<T>(val@, found is Some),
            found matches Some(sym) ==> self.lookup(&sym) == Ok::<Seq<char>, ResolutionErr<T>>(
                val@,
            ),
    {
        let str_repr: String = val.to_owned();
        let typ_id = T::marker();
        assert(is_marker_of::<T>(typ_id));
        match self.interner.get_interned(str_repr, typ_id) {
            Some(id) => Some(self.to_typed_symbol(id)),
            None => None,
        }
    }

    /// Whether the string `val` was interned under the marker of `T`.
    pub fn has_interned<T: Internable>(&self, val: &str) -> (has: bool)
        requires
            self.wf(),
        ensures
            self.finds::<T>(val@, has),
    {
        self.get_interned::<T>(val).is_some()
    }

    fn to_typed_symbol<T: Internable>(&self, id: SerialU64<()>) -> (sym: Symbol<T>)
        ensures
            sym.raw() == serial_value(id),
            sym.spec_origin() == self.identity(),
    {
        self.id_as_symbol(id)
    }

    fn id_as_symbol<T: Internable>(&self, id: SerialU64<()>) -> (sym: Symbol<T>)
        ensures
            sym.raw() == serial_value(id),
            sym.spec_origin() == self.identity(),
    {
        Symbol::new(id, self)
    }
}

impl<I: Interner> Resolvable for SymbolTable<I> {
    open spec fn spec_resolve(&self, id: u64) -> Option<Seq<char>> {
        if self.strings().dom().contains(id) {
            Some(self.strings()[id])
        } else {
            None
        }
    }

    open spec fn spec_addr(&self) -> usize {
        self.identity()
    }

    fn resolve(&self, id: SerialU64<()>) -> (r: Option<String>) {
        self.interner.resolve(id)
    }

    fn addr(&self) -> (a: &TableIdentity) {
        &self.identity
    }
}

} // verus!
