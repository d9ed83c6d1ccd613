//! Typed handles on interned values, and what a symbol needs of a table to
//! recover its value.

use crate::identity::TableIdentity;
use crate::internable::{always_parses, is_parse_of, is_text_of, Internable};
use crate::serial::{is_tagged_serial_of, serial_get, serial_value, tagged_serial};
use std::cmp::Ordering;
use std::hash::{Hash, Hasher};
use std::marker::PhantomData;
use typed_ids::SerialU64;
use vstd::prelude::*;
use vstd::std_specs::cmp::{PartialEqSpecImpl, PartialOrdSpecImpl};

verus! {

/// What a symbol needs of the table that minted it: the string behind a raw
/// identifier, and the table's identity.
pub trait Resolvable {
    /// The string stored under the raw identifier `id`, if it was ever issued.
    spec fn spec_resolve(&self, id: u64) -> Option<Seq<char>>;

    /// The address that stands for the table's identity.
    spec fn spec_addr(&self) -> usize;

    fn resolve(&self, id: SerialU64<()>) -> (r: Option<String>)
        ensures
            r is Some <==> self.spec_resolve(serial_value(id)) is Some,
            r matches Some(s) ==> self.spec_resolve(serial_value(id)) == Some(s@),
    ;

    fn addr(&self) -> (a: &TableIdentity)
        ensures
            a.spec_address() == self.spec_addr(),
    ;
}

/// A symbol stands for one string of one table, read as a value of type `T`.
/// It holds the raw identifier of the string and the identity of the table;
/// the string itself stays in the table.
#[derive(Debug)]
pub struct Symbol<T: Internable> {
    id: SerialU64<()>,
    lookup: TableIdentity,
    tag: PhantomData<T>,
}

impl<T: Internable> Symbol<T> {
    /// The raw identifier.
    pub closed spec fn raw(&self) -> u64 {
        serial_value(self.id)
    }

    /// The address of the table that minted the symbol.
    pub closed spec fn spec_origin(&self) -> usize {
        self.lookup.spec_address()
    }

    /// The symbol for the raw identifier `id` of the table `lookup`.
    pub fn new<R: Resolvable>(id: SerialU64<()>, lookup: &R) -> (sym: Self)
        ensures
            sym.raw() == serial_value(id),
            sym.spec_origin() == lookup.spec_addr(),
    {
        Symbol { id, lookup: lookup.addr().clone(), tag: PhantomData }
    }

    /// The raw identifier as a serial with the tag of `T`.
    pub fn id(&self) -> (id: SerialU64<T>)
        ensures
            is_tagged_serial_of(self.raw(), id),
    {
        tagged_serial(self.id)
    }

    /// The raw identifier without a tag, as the store takes it.
    pub fn erase_type(&self) -> (id: SerialU64<()>)
        ensures
            serial_value(id) == self.raw(),
    {
        self.id
    }

    /// The identity of the table that minted the symbol.
    pub fn origin(&self) -> (a: &TableIdentity)
        ensures
            a.spec_address() == self.spec_origin(),
    {
        &self.lookup
    }

    /// Whether `lookup` is the table of this symbol and holds a string for it
    /// from which a `T` is reconstructed whenever that is tried.
    pub open spec fn recoverable_from<R: Resolvable>(&self, lookup: &R) -> bool {
        &&& lookup.spec_addr() == self.spec_origin()
        &&& lookup.spec_resolve(self.raw()) matches Some(text)
        &&& always_parses::<T>(text)
    }

    /// Whether `text` may be what showing this symbol gives: the string form
    /// of a value reconstructed from the string that `lookup` holds for it.
    pub open spec fn shows<R: Resolvable>(&self, lookup: &R, text: Seq<char>) -> bool {
        exists|item: T| #[trigger]
            is_parse_of(lookup.spec_resolve(self.raw())->0, Some(item)) && is_text_of(&item, text)
    }

    /// The value that the symbol stands for.
    fn into<R: Resolvable>(&self, lookup: &R) -> (item: T)
        requires
            self.recoverable_from(lookup),
        ensures
            is_parse_of(lookup.spec_resolve(self.raw())->0, Some(item)),
    {
        let erased = self.erase_type();
        let interned_string = lookup.resolve(erased).unwrap();
        let value = T::try_from_interned(interned_string);
        value.unwrap()
    }

    /// The string form of the value that the symbol stands for.
    pub fn to_string<R: Resolvable>(&self, lookup: &R) -> (s: String)
        requires
            self.recoverable_from(lookup),
        ensures
            self.shows(lookup, s@),
    {
        let recovered_item: T = self.into(lookup);
        let as_string = recovered_item.as_interned().to_owned();
        as_string
    }

    /// Orders symbols by their raw identifiers.
    pub fn cmp(&self, other: &Self) -> (o: Ordering)
        ensures
            o == self.order_of(other),
    {
        let a = serial_get(self.id);
        let b = serial_get(other.id);
        if a < b {
            Ordering::Less
        } else if a > b {
            Ordering::Greater
        } else {
            Ordering::Equal
        }
    }

    /// How the raw identifier of `self` compares with that of `other`.
    pub open spec fn order_of(&self, other: &Self) -> Ordering {
        if self.raw() < other.raw() {
            Ordering::Less
        } else if self.raw() > other.raw() {
            Ordering::Greater
        } else {
            Ordering::Equal
        }
    }
}

impl<T: Internable> Clone for Symbol<T> {
    fn clone(&self) -> (sym: Self)
        ensures
            sym.raw() == self.raw(),
            sym.spec_origin() == self.spec_origin(),
    {
        Symbol { id: self.id, lookup: self.lookup.clone(), tag: PhantomData }
    }
}

impl<T: Internable> PartialEq for Symbol<T> {
    fn eq(&self, other: &Self) -> (r: bool) {
        serial_get(self.id) == serial_get(other.id) && self.lookup.address()
            == other.lookup.address()
    }
}

impl<T: Internable> PartialEqSpecImpl for Symbol<T> {
    open spec fn obeys_eq_spec() -> bool {
        true
    }

    open spec fn eq_spec(&self, other: &Self) -> bool {
        self.raw() == other.raw() && self.spec_origin() == other.spec_origin()
    }
}

impl<T: Internable> Eq for Symbol<T> {
}

impl<T: Internable> PartialOrd for Symbol<T> {
    fn partial_cmp(&self, other: &Self) -> (r: Option<Ordering>) {
        Some(self.cmp(other))
    }
}

impl<T: Internable> PartialOrdSpecImpl for Symbol<T> {
    open spec fn obeys_partial_cmp_spec() -> bool {
        true
    }

    open spec fn partial_cmp_spec(&self, other: &Self) -> Option<Ordering> {
        Some(self.order_of(other))
    }
}

impl<T: Internable> Hash for Symbol<T> {
    /// `Hash::hash` of `SerialU64`: the raw identifier alone goes into
    /// `state`, the table does not. Nothing is claimed of `state`.
    #[verifier::external_body]
    fn hash<H: Hasher>(&self, state: &mut H) {
        self.id.hash(state);
    }
}

} // verus!
