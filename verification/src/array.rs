//! The store that keeps its strings in a growable array.

use crate::interner::{is_stored, Interner};
use crate::serial::{serial_from_u64, serial_get, serial_value};
use std::collections::HashSet;
use typed_ids::SerialU64;
use vstd::prelude::*;

verus! {

broadcast use vstd::std_specs::hash::group_hash_axioms;

/// One stored string, with the markers of the domains it was interned for.
#[derive(Debug)]
pub struct SymbolCell {
    value: String,
    typs: HashSet<u64>,
}

impl SymbolCell {
    /// The stored string.
    pub closed spec fn text(&self) -> Seq<char> {
        self.value@
    }

    /// The recorded domain markers.
    pub closed spec fn types(&self) -> Set<u64> {
        self.typs@
    }

    /// A cell for `value`, with no domain recorded.
    pub fn new(value: String) -> (cell: Self)
        ensures
            cell.text() == value@,
            cell.types() == Set::<u64>::empty(),
    {
        Self { value, typs: HashSet::new() }
    }

    pub fn value(&self) -> (value: &String)
        ensures
            value@ == self.text(),
    {
        &self.value
    }

    pub fn add_type(&mut self, id: u64)
        ensures
            final(self).text() == old(self).text(),
            final(self).types() == old(self).types().insert(id),
    {
        self.typs.insert(id);
    }

    pub fn has_type(&self, id: &u64) -> (has: bool)
        ensures
            has == self.types().contains(*id),
    {
        self.typs.contains(id)
    }
}

/// Whether the cell at position `i`, behind the reserved one, holds the string
/// of `pair` and records its domain marker.
pub open spec fn records(cells: Seq<SymbolCell>, i: int, pair: (Seq<char>, u64)) -> bool {
    &&& 1 <= i < cells.len()
    &&& cells[i].text() == pair.0
    &&& cells[i].types().contains(pair.1)
}

/// An [`ArrayInterner`] keeps its cells in a `Vec`. A cell's position is the
/// raw identifier of its string; position 0 holds an empty cell that stands
/// for no string. Interning scans the cells; resolving indexes them.
#[derive(Debug)]
pub struct ArrayInterner {
    store: Vec<SymbolCell>,
}

impl ArrayInterner {
    /// The cells, the reserved one at position 0 included.
    pub closed spec fn cells(&self) -> Seq<SymbolCell> {
        self.store@
    }

    /// Whether `text` is in a cell behind the reserved one.
    pub open spec fn holds(&self, text: Seq<char>) -> bool {
        exists|i: int| 1 <= i < self.cells().len() && #[trigger] self.cells()[i].text() == text
    }

    /// A store that holds the reserved cell and nothing else.
    pub fn new() -> (store: Self)
        ensures
            store.wf(),
            store.cells().len() == 1,
            store.strings() == Map::<u64, Seq<char>>::empty(),
            store.domains() == Set::<(Seq<char>, u64)>::empty(),
    {
        let store = vec![SymbolCell::new(String::new())];
        let made = Self { store };
        made
    }

    /// The position of the first cell behind the reserved one that holds
    /// `val`.
    pub fn position(&self, val: &String) -> (found: Option<usize>)
        ensures
            found matches Some(p) ==> {
                &&& 1 <= p < self.cells().len()
                &&& self.cells()[p as int].text() == val@
                &&& forall|k: int| 1 <= k < p ==> #[trigger] self.cells()[k].text() != val@
            },
            found is None ==> !self.holds(val@),
    {
        let mut i: usize = 1;
        while i < self.store.len()
            invariant
                1 <= i,
                forall|k: int| 1 <= k < i ==> #[trigger] self.store@[k].text() != val@,
            decreases self.store.len() - i,
        {
            if self.store[i].value().eq(val) {
                return Some(i);
            }
            i += 1;
        }
        None
    }

    /// A pair is recorded exactly if the one cell that holds its string
    /// records its marker.
    proof fn lemma_domains_at(&self, position: int, typ: u64)
        requires
            self.wf(),
            1 <= position < self.cells().len(),
        ensures
            self.domains().contains((self.cells()[position].text(), typ))
                <==> self.cells()[position].types().contains(typ),
    {
        let pair = (self.cells()[position].text(), typ);
        if self.cells()[position].types().contains(typ) {
            assert(records(self.store@, position, pair));
        }
    }

    fn upsert_type(&mut self, position: usize, typ: u64) -> (id: SerialU64<()>)
        requires
            old(self).wf(),
            1 <= position < old(self).cells().len(),
        ensures
            final(self).wf(),
            serial_value(id) == position,
            final(self).strings() == old(self).strings(),
            final(self).domains() == old(self).domains().insert(
                (old(self).cells()[position as int].text(), typ),
            ),
    {
        let cell = &mut self.store[position];
        if !cell.has_type(&typ) {
            cell.add_type(typ);
        }
        proof {
            let before = old(self).store@;
            let after = self.store@;
            let added = (before[position as int].text(), typ);
            assert forall|pair: (Seq<char>, u64)|
                self.domains().contains(pair) <==> old(self).domains().insert(added).contains(
                    pair,
                ) by {
                if self.domains().contains(pair) {
                    let i = choose|i: int| records(after, i, pair);
                    if pair != added {
                        assert(records(before, i, pair));
                    }
                }
                if old(self).domains().contains(pair) {
                    let i = choose|i: int| records(before, i, pair);
                    assert(records(after, i, pair));
                }
                if pair == added {
                    assert(records(after, position as int, pair));
                }
            }
        }
        serial_from_u64(position as u64).unwrap()
    }

    fn get_type(&self, position: usize, typ: u64) -> (id: Option<SerialU64<()>>)
        ensures
            id is Some <==> records(self.cells(), position as int, (self.cells()[position as int].text(), typ)),
            id matches Some(found) ==> serial_value(found) == position,
    {
        if position < self.store.len() && self.store[position].has_type(&typ) {
            serial_from_u64(position as u64)
        } else {
            None
        }
    }

    fn add_new(&mut self, val: String, typ: u64) -> (id: SerialU64<()>)
        requires
            old(self).wf(),
            !old(self).holds(val@),
        ensures
            final(self).wf(),
            serial_value(id) == old(self).cells().len(),
            final(self).strings() == old(self).strings().insert(serial_value(id), val@),
            final(self).domains() == old(self).domains().insert((val@, typ)),
    {
        let end = self.store.len();
        let mut cell = SymbolCell::new(val);
        cell.add_type(typ);
        self.store.push(cell);
        proof {
            let before = old(self).store@;
            let after = self.store@;
            let added = (val@, typ);
            assert forall|pair: (Seq<char>, u64)|
                self.domains().contains(pair) <==> old(self).domains().insert(added).contains(
                    pair,
                ) by {
                if self.domains().contains(pair) {
                    let i = choose|i: int| records(after, i, pair);
                    if i != end {
                        assert(records(before, i, pair));
                    }
                }
                if old(self).domains().contains(pair) {
                    let i = choose|i: int| records(before, i, pair);
                    assert(records(after, i, pair));
                }
                if pair == added {
                    assert(records(after, end as int, pair));
                }
            }
        }
        serial_from_u64(end as u64).unwrap()
    }
}

impl Default for ArrayInterner {
    fn default() -> (store: Self)
        ensures
            store.wf(),
            store.cells().len() == 1,
            store.strings() == Map::<u64, Seq<char>>::empty(),
            store.domains() == Set::<(Seq<char>, u64)>::empty(),
    {
        Self::new()
    }
}

impl Interner for ArrayInterner {
    /// A string's raw identifier is the position of its cell.
    open spec fn strings(&self) -> Map<u64, Seq<char>> {
        Map::new(
            |id: u64| 1 <= id < self.cells().len(),
            |id: u64| self.cells()[id as int].text(),
        )
    }

    open spec fn domains(&self) -> Set<(Seq<char>, u64)> {
        Set::new(|pair: (Seq<char>, u64)| exists|i: int| records(self.cells(), i, pair))
    }

    /// The reserved cell is there, empty, and no two cells behind it hold
    /// the same string.
    open spec fn wf(&self) -> bool {
        &&& self.cells().len() >= 1
        &&& self.cells()[0].text() == Seq::<char>::empty()
        &&& self.cells()[0].types() == Set::<u64>::empty()
        &&& forall|i: int, j: int|
            1 <= i < j < self.cells().len() ==> #[trigger] self.cells()[i].text()
                != #[trigger] self.cells()[j].text()
    }

    proof fn lemma_store_invariant(&self) {
        assert forall|text: Seq<char>, typ: u64| #[trigger]
            self.domains().contains((text, typ)) implies is_stored(self.strings(), text) by {
            let i = choose|i: int| records(self.store@, i, (text, typ));
            assert(self.store@.len() == self.store.len());
            assert(self.strings().dom().contains(i as u64));
        }
    }

    fn intern(&mut self, val: String, typ: u64) -> (id: SerialU64<()>) {
        let index = self.position(&val);
        match index {
            Some(position) => {
                let id = self.upsert_type(position, typ);
                proof {
                    assert(self.strings().dom() =~= old(self).strings().dom().insert(
                        position as u64,
                    ));
                }
                id
            },
            None => {
                let id = self.add_new(val, typ);
                proof {
                    assert(self.strings().dom() =~= old(self).strings().dom().insert(
                        serial_value(id),
                    ));
                }
                id
            },
        }
    }

    fn resolve(&self, id: SerialU64<()>) -> (r: Option<String>) {
        let raw = serial_get(id);
        if raw < self.store.len() as u64 {
            let index = raw as usize;
            Some(self.store[index].value().clone())
        } else {
            None
        }
    }

    fn get_interned(&self, val: String, typ: u64) -> (r: Option<SerialU64<()>>) {
        match self.position(&val) {
            Some(position) => {
                proof {
                    self.lemma_domains_at(position as int, typ);
                }
                self.get_type(position, typ)
            },
            None => {
                proof {
                    if self.domains().contains((val@, typ)) {
                        let i = choose|i: int| records(self.store@, i, (val@, typ));
                    }
                }
                None
            },
        }
    }
}

} // verus!
