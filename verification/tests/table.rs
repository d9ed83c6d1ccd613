use symbol_table::{InternerFlavor, Symbol, SymbolTable};

#[test]
fn symbols_mismatch() {
    let mut table = SymbolTable::new(InternerFlavor::Array);
    let s1 = "hello".to_owned();
    let s2 = "goodbye".to_owned();
    let id1: Symbol<String> = table.intern(&s1);
    let id2 = table.intern(&s2);
    assert_ne!(id1, id2);
}

#[test]
fn symbol_belongs_to() {
    let mut table1 = SymbolTable::new(InternerFlavor::Array);
    let table2 = SymbolTable::new(InternerFlavor::Array);
    let s1 = "hello".to_owned();
    let id: Symbol<String> = table1.intern(&s1);
    let expected_err = table2.resolve(&id);
    if expected_err.is_ok() {
        assert!(false, "Expected error.")
    }
}

#[test]
fn can_recover_symbols() {
    let mut table = SymbolTable::new(InternerFlavor::Array);
    let s1 = "hello".to_owned();
    let s2 = "goodbye".to_owned();
    let id1: Symbol<String> = table.intern(&s1);
    let id2: Symbol<String> = table.intern(&s2);

    assert_eq!(table.resolve(&id1), Ok(s1));
    assert_eq!(table.resolve(&id2), Ok(s2));
}

#[test]
fn has_string() {
    let mut table = SymbolTable::new(InternerFlavor::Array);
    let s1 = "frog".to_owned();
    let _: Symbol<String> = table.intern(&s1);
    assert_eq!(true, table.has_interned::<String>("frog"));
    assert_eq!(false, table.has_interned::<String>("toad"));
}
