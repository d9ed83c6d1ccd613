use std::collections::hash_map::DefaultHasher;
use std::collections::HashSet;
use std::hash::{Hash, Hasher};

use symbol_table::{
    InternerFlavor, ResolutionErr, Resolvable, Symbol, SymbolTable, TableMismatchErr,
};

fn hash_of<H: Hash>(value: &H) -> u64 {
    let mut hasher = DefaultHasher::new();
    value.hash(&mut hasher);
    hasher.finish()
}

#[test]
fn symbols_are_equal_by_identifier_and_table() {
    let mut left = SymbolTable::new(InternerFlavor::Array);
    let mut right = SymbolTable::new(InternerFlavor::Array);
    let in_left: Symbol<String> = left.intern(&"toad".to_owned());
    let in_right: Symbol<String> = right.intern(&"toad".to_owned());
    let other: Symbol<String> = left.intern(&"frog".to_owned());
    assert_eq!(in_left.erase_type().get(), in_right.erase_type().get());
    assert_ne!(in_left, in_right);
    assert_ne!(in_left, other);
    assert_eq!(in_left, in_left.clone());
    assert_eq!(in_left, left.get_interned::<String>("toad").unwrap());
}

#[test]
fn hash_is_that_of_the_identifier() {
    let mut left = SymbolTable::new(InternerFlavor::Array);
    let mut right = SymbolTable::new(InternerFlavor::Array);
    let in_left: Symbol<String> = left.intern(&"toad".to_owned());
    let in_right: Symbol<String> = right.intern(&"newt".to_owned());
    assert_eq!(hash_of(&in_left), hash_of(&in_left.erase_type()));
    assert_eq!(hash_of(&in_left), hash_of(&in_right));
    let second: Symbol<String> = left.intern(&"frog".to_owned());
    let mut seen = HashSet::new();
    assert!(seen.insert(in_left.clone()));
    assert!(seen.insert(second));
    assert!(!seen.insert(in_left));
    assert_eq!(seen.len(), 2);
}

#[test]
fn clone_keeps_identifier_and_origin() {
    let mut table = SymbolTable::new(InternerFlavor::Array);
    let sym: Symbol<String> = table.intern(&"toad".to_owned());
    let copy = sym.clone();
    assert_eq!(copy.erase_type().get(), sym.erase_type().get());
    assert_eq!(copy.origin(), sym.origin());
    assert_eq!(copy.origin().address(), table.addr().address());
    assert_eq!(table.resolve(&copy), Ok("toad".to_owned()));
}

#[test]
fn symbol_outlives_nothing_it_needs() {
    let sym: Symbol<String> = {
        let mut minting = SymbolTable::new(InternerFlavor::Array);
        minting.intern(&"toad".to_owned())
    };
    let mut later = Vec::new();
    for _ in 0..16 {
        later.push(SymbolTable::new(InternerFlavor::Array));
    }
    for table in &later {
        assert_ne!(table.addr(), sym.origin());
        assert!(matches!(
            table.resolve(&sym),
            Err(ResolutionErr::MismatchErr(_))
        ));
    }
}

#[test]
fn mismatch_error_keeps_both_addresses() {
    let err: TableMismatchErr<String> = TableMismatchErr::new(16, 32);
    assert_eq!(err.table_address(), 16);
    assert_eq!(err.symbol_address(), 32);
    assert_eq!(err, TableMismatchErr::new(16, 32));
    assert_ne!(err, TableMismatchErr::new(32, 16));
    let wrapped: ResolutionErr<String> = ResolutionErr::from(err);
    assert_eq!(
        wrapped,
        ResolutionErr::MismatchErr(TableMismatchErr::new(16, 32))
    );
    assert_ne!(wrapped, ResolutionErr::ParseErr);
}

#[test]
fn parse_outcome_becomes_a_result() {
    assert_eq!(
        ResolutionErr::from_parsed(Some("toad".to_owned())),
        Ok("toad".to_owned())
    );
    assert_eq!(
        ResolutionErr::<String>::from_parsed(None),
        Err(ResolutionErr::ParseErr)
    );
}

#[test]
fn end_to_end() {
    let mut table = SymbolTable::new(InternerFlavor::Array);
    let hello: Symbol<String> = table.intern(&"hello".to_owned());
    let goodbye: Symbol<String> = table.intern(&"goodbye".to_owned());
    assert_ne!(hello.erase_type().get(), goodbye.erase_type().get());
    let again: Symbol<String> = table.intern(&"hello".to_owned());
    assert_eq!(again.erase_type().get(), hello.erase_type().get());
    let second = SymbolTable::new(InternerFlavor::Array);
    assert!(matches!(
        second.resolve(&hello),
        Err(ResolutionErr::MismatchErr(_))
    ));
}
