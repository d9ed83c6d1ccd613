//! The identity that a table stamps on the symbols it mints.

use std::rc::Rc;
use vstd::prelude::*;
use vstd::std_specs::cmp::PartialEqSpecImpl;

verus! {

/// The identity of one table. It is the address of a small allocation that
/// the table makes when it is built and that every holder of the identity
/// keeps alive: the allocator then gives that address to no other table
/// while a table or a symbol still carries it. Two identities are equal if
/// their addresses are.
#[derive(Debug)]
pub struct TableIdentity {
    anchor: Rc<u8>,
    address: usize,
}

/// `Rc::as_ptr`: the address of the allocation behind `anchor`. Nothing is
/// claimed of the number.
#[verifier::external_body]
fn anchor_address(anchor: &Rc<u8>) -> usize {
    Rc::as_ptr(anchor) as usize
}

/// `Rc::clone`: another handle to the same allocation, holding the same value.
#[verifier::external_body]
fn share_anchor(anchor: &Rc<u8>) -> (r: Rc<u8>)
    ensures
        r == *anchor,
{
    Rc::clone(anchor)
}

impl TableIdentity {
    /// The address that stands for this identity.
    pub closed spec fn spec_address(&self) -> usize {
        self.address
    }

    /// A new identity: a new allocation, and the address it gave.
    pub fn fresh() -> (identity: Self)
        ensures
            identity.anchored(),
    {
        let anchor = Rc::new(0u8);
        let address = anchor_address(&anchor);
        TableIdentity { anchor, address }
    }

    /// Whether the address of this identity is one that the allocation it
    /// holds gave when it was asked for its address.
    pub closed spec fn anchored(&self) -> bool {
        call_ensures(anchor_address, (&self.anchor,), self.address)
    }

    /// The address that stands for this identity.
    #[verifier::when_used_as_spec(spec_address)]
    pub fn address(&self) -> (a: usize)
        ensures
            a == self.spec_address(),
    {
        self.address
    }
}

impl PartialEq for TableIdentity {
    fn eq(&self, other: &Self) -> (r: bool) {
        self.address == other.address
    }
}

impl PartialEqSpecImpl for TableIdentity {
    open spec fn obeys_eq_spec() -> bool {
        true
    }

    open spec fn eq_spec(&self, other: &Self) -> bool {
        self.spec_address() == other.spec_address()
    }
}

impl Eq for TableIdentity {
}

impl Clone for TableIdentity {
    fn clone(&self) -> (r: Self)
        ensures
            r.spec_address() == self.spec_address(),
            self.anchored() ==> r.anchored(),
    {
        TableIdentity { anchor: share_anchor(&self.anchor), address: self.address }
    }
}

} // verus!
