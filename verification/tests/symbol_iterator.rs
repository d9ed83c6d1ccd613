use symbol_table::{InternerFlavor, Symbol, SymbolIterator, SymbolTable};

fn toad_iter() -> SymbolIterator<String> {
    let mut table = SymbolTable::new(InternerFlavor::Array);
    let s = "toad".to_owned();
    let sym: Symbol<String> = table.intern(&s);
    SymbolIterator::new(sym, &table)
}

#[test]
fn neq() {
    let left = toad_iter();
    let right = toad_iter();
    assert_ne!(left, right);
}

#[test]
fn eq() {
    let left = toad_iter();
    let mut right = left.clone();
    assert_eq!(left, right);
    right.next();
    assert_ne!(left, right);
}

#[test]
fn display() {
    let mut characters = toad_iter();
    assert_eq!(characters.to_string(), "\"•toad\"");
    characters.next();
    assert_eq!(characters.to_string(), "\"t•oad\"");
    characters.next();
    assert_eq!(characters.to_string(), "\"to•ad\"");
    characters.next();
    assert_eq!(characters.to_string(), "\"toa•d\"");
    characters.next();
    assert_eq!(characters.to_string(), "\"toad•\"");
}

#[test]
fn iterable() {
    let mut toad = toad_iter();
    assert!(toad.has_next());
    assert_eq!(toad.peek(), Some('t'));
    assert_eq!(toad.next(), Some('t'));
    assert!(toad.has_next());
    assert_eq!(toad.peek(), Some('o'));
    assert_eq!(toad.next(), Some('o'));
    assert!(toad.has_next());
    assert_eq!(toad.peek(), Some('a'));
    assert_eq!(toad.next(), Some('a'));
    assert!(toad.has_next());
    assert_eq!(toad.peek(), Some('d'));
    assert_eq!(toad.next(), Some('d'));
    assert!(!toad.has_next());
    assert_eq!(toad.peek(), None);
    assert_eq!(toad.next(), None);
}
