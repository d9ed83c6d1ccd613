//! What a backing store does, whatever way it keeps its strings.

use crate::serial::serial_value;
use typed_ids::SerialU64;
use vstd::prelude::*;

verus! {

/// Whether `text` is stored under some raw identifier of `strings`.
pub open spec fn is_stored(strings: Map<u64, Seq<char>>, text: Seq<char>) -> bool {
    exists|id: u64| #[trigger] strings.dom().contains(id) && strings[id] == text
}

/// What holds of every store: zero identifies nothing, no string is stored
/// under two identifiers, and a domain is only ever recorded for a stored
/// string.
pub open spec fn store_invariant(
    strings: Map<u64, Seq<char>>,
    domains: Set<(Seq<char>, u64)>,
) -> bool {
    &&& !strings.dom().contains(0)
    &&& forall|a: u64, b: u64|
        #![trigger strings[a], strings[b]]
        strings.dom().contains(a) && strings.dom().contains(b) && strings[a] == strings[b] ==> a
            == b
    &&& forall|text: Seq<char>, typ: u64| #[trigger]
        domains.contains((text, typ)) ==> is_stored(strings, text)
}

/// How a store changes when `text` is interned for the domain `typ` and `id`
/// comes back: nothing that was stored changes; `text` is stored under `id`,
/// which is the identifier it had if it was stored already, and the only
/// new identifier if it was not; and the pair is recorded.
pub open spec fn interned_into(
    before_strings: Map<u64, Seq<char>>,
    before_domains: Set<(Seq<char>, u64)>,
    after_strings: Map<u64, Seq<char>>,
    after_domains: Set<(Seq<char>, u64)>,
    text: Seq<char>,
    typ: u64,
    id: u64,
) -> bool {
    &&& before_strings.submap_of(after_strings)
    &&& after_strings.dom() == before_strings.dom().insert(id)
    &&& after_strings[id] == text
    &&& is_stored(before_strings, text) <==> before_strings.dom().contains(id)
    &&& after_domains == before_domains.insert((text, typ))
}

/// An [`Interner`] is a backing store: it keeps each string once, gives it a
/// raw identifier, and records for which domains the string was interned.
pub trait Interner {
    /// The stored strings, by raw identifier.
    spec fn strings(&self) -> Map<u64, Seq<char>>;

    /// The pairs of string and domain marker that were interned.
    spec fn domains(&self) -> Set<(Seq<char>, u64)>;

    /// The store's own invariant.
    spec fn wf(&self) -> bool;

    proof fn lemma_store_invariant(&self)
        requires
            self.wf(),
        ensures
            store_invariant(self.strings(), self.domains()),
    ;

    /// Stores `val` if it is not stored yet, records the domain `typ` for
    /// it, and returns its raw identifier.
    fn intern(&mut self, val: String, typ: u64) -> (id: SerialU64<()>)
        requires
            old(self).wf(),
        ensures
            final(self).wf(),
            interned_into(
                old(self).strings(),
                old(self).domains(),
                final(self).strings(),
                final(self).domains(),
                val@,
                typ,
                serial_value(id),
            ),
    ;

    /// The string stored under `id`, or nothing if this store never issued
    /// `id`.
    fn resolve(&self, id: SerialU64<()>) -> (r: Option<String>)
        ensures
            r is Some <==> self.strings().dom().contains(serial_value(id)),
            r matches Some(s) ==> s@ == self.strings()[serial_value(id)],
    ;

    /// The raw identifier of `val`, if `val` was interned for the domain
    /// `typ`.
    fn get_interned(&self, val: String, typ: u64) -> (r: Option<SerialU64<()>>)
        requires
            self.wf(),
        ensures
            r is Some <==> self.domains().contains((val@, typ)),
            r matches Some(id) ==> self.strings().dom().contains(serial_value(id))
                && self.strings()[serial_value(id)] == val@,
    ;
}

} // verus!
