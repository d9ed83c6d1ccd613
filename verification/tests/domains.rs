use symbol_table::{
    ArrayInterner, Internable, Interner, InternerFlavor, ResolutionErr, Resolvable, Symbol,
    SymbolIterator, SymbolTable,
};

/// A user name: any string, in a domain of its own.
#[derive(Debug, PartialEq)]
struct Username(String);

impl Internable for Username {
    fn marker() -> u64 {
        1
    }

    fn as_interned(&self) -> &str {
        &self.0
    }

    fn try_from_interned(text: String) -> Option<Self> {
        Some(Username(text))
    }
}

/// A street address: a string that starts with a digit.
#[derive(Debug, PartialEq)]
struct Address(String);

impl Internable for Address {
    fn marker() -> u64 {
        2
    }

    fn as_interned(&self) -> &str {
        &self.0
    }

    fn try_from_interned(text: String) -> Option<Self> {
        if text.starts_with(|c: char| c.is_ascii_digit()) {
            Some(Address(text))
        } else {
            None
        }
    }
}

#[test]
fn round_trip_of_strings() {
    let mut table = SymbolTable::new(InternerFlavor::Array);
    for text in ["", "a", "hello", "héllo wörld", "•", "12 Toad Lane"] {
        let item = text.to_owned();
        let sym: Symbol<String> = table.intern(&item);
        assert_eq!(table.resolve(&sym), Ok(item));
        assert_eq!(table.resolve_text(&sym), Ok(text.to_owned()));
    }
}

#[test]
fn interning_twice_gives_one_identifier() {
    let mut table = SymbolTable::new(InternerFlavor::Array);
    let first: Symbol<String> = table.intern(&"hello".to_owned());
    let second: Symbol<String> = table.intern(&"hello".to_owned());
    assert_eq!(first.erase_type().get(), second.erase_type().get());
    assert_eq!(first, second);
}

#[test]
fn different_strings_get_different_identifiers() {
    let mut table = SymbolTable::new(InternerFlavor::Array);
    let hello: Symbol<String> = table.intern(&"hello".to_owned());
    let goodbye: Symbol<String> = table.intern(&"goodbye".to_owned());
    assert_ne!(hello.erase_type().get(), goodbye.erase_type().get());
}

#[test]
fn identifiers_count_up_from_one() {
    let mut table = SymbolTable::new(InternerFlavor::Array);
    let a: Symbol<String> = table.intern(&"a".to_owned());
    let b: Symbol<String> = table.intern(&"b".to_owned());
    let empty: Symbol<String> = table.intern(&String::new());
    let again: Symbol<String> = table.intern(&"a".to_owned());
    assert_eq!(a.erase_type().get(), 1);
    assert_eq!(b.erase_type().get(), 2);
    assert_eq!(empty.erase_type().get(), 3);
    assert_eq!(again.erase_type().get(), 1);
    assert_eq!(a.id().get(), 1);
    assert_eq!(b.id().get(), 2);
}

#[test]
fn domains_share_one_stored_string() {
    let mut table = SymbolTable::new(InternerFlavor::Array);
    let as_name: Symbol<Username> = table.intern(&Username("12 Toad Lane".to_owned()));
    let as_address: Symbol<Address> = table.intern(&Address("12 Toad Lane".to_owned()));
    assert_eq!(as_name.erase_type().get(), as_address.erase_type().get());
    assert_eq!(
        table.resolve(&as_name),
        Ok(Username("12 Toad Lane".to_owned()))
    );
    assert_eq!(
        table.resolve(&as_address),
        Ok(Address("12 Toad Lane".to_owned()))
    );
}

#[test]
fn lookup_tells_domains_apart() {
    let mut table = SymbolTable::new(InternerFlavor::Array);
    assert!(!table.has_interned::<Username>("toad"));
    let _: Symbol<Username> = table.intern(&Username("toad".to_owned()));
    assert!(table.has_interned::<Username>("toad"));
    assert!(!table.has_interned::<Address>("toad"));
    assert!(!table.has_interned::<String>("toad"));
    assert!(table.get_interned::<Address>("toad").is_none());
    let found: Symbol<Username> = table.get_interned("toad").unwrap();
    assert_eq!(found.erase_type().get(), 1);
    assert_eq!(table.resolve(&found), Ok(Username("toad".to_owned())));
}

#[test]
fn lookup_does_not_intern() {
    let mut table = SymbolTable::new(InternerFlavor::Array);
    assert!(table.get_interned::<String>("frog").is_none());
    assert!(!table.has_interned::<String>("frog"));
    let frog: Symbol<String> = table.intern(&"frog".to_owned());
    assert_eq!(frog.erase_type().get(), 1);
}

#[test]
fn foreign_symbol_is_a_mismatch_even_if_the_string_is_there() {
    let mut minting = SymbolTable::new(InternerFlavor::Array);
    let mut other = SymbolTable::new(InternerFlavor::Array);
    let hello = "hello".to_owned();
    let foreign: Symbol<String> = minting.intern(&hello);
    let _: Symbol<String> = other.intern(&hello);
    match other.resolve(&foreign) {
        Err(ResolutionErr::MismatchErr(err)) => {
            assert_eq!(err.table_address(), other.addr().address());
            assert_eq!(err.symbol_address(), foreign.origin().address());
            assert_eq!(foreign.origin(), minting.addr());
            assert_ne!(foreign.origin(), other.addr());
            assert_ne!(err.table_address(), err.symbol_address());
        }
        unexpected => panic!("expected a mismatch, got {:?}", unexpected),
    }
    assert!(matches!(
        other.resolve_text(&foreign),
        Err(ResolutionErr::MismatchErr(_))
    ));
}

#[test]
fn unparsable_string_is_a_parse_error() {
    let mut table = SymbolTable::new(InternerFlavor::Array);
    let not_an_address: Symbol<Address> = table.intern(&Address("Toad Hall".to_owned()));
    assert_eq!(table.resolve(&not_an_address), Err(ResolutionErr::ParseErr));
    assert_eq!(
        table.resolve_text(&not_an_address),
        Ok("Toad Hall".to_owned())
    );
}

#[test]
fn unissued_identifier_is_an_invalid_id() {
    let mut table = SymbolTable::new(InternerFlavor::Array);
    let issued: Symbol<String> = table.intern(&"frog".to_owned());
    let mut store = ArrayInterner::new();
    store.intern("a".to_owned(), 0);
    let beyond = store.intern("b".to_owned(), 0);
    let forged: Symbol<String> = Symbol::new(beyond, &table);
    assert_eq!(forged.origin(), issued.origin());
    assert_eq!(table.resolve(&forged), Err(ResolutionErr::InvalidIdErr));
    assert_eq!(table.resolve(&issued), Ok("frog".to_owned()));
}

#[test]
fn symbols_order_by_identifier() {
    let mut table = SymbolTable::new(InternerFlavor::Array);
    let first: Symbol<String> = table.intern(&"zebra".to_owned());
    let second: Symbol<String> = table.intern(&"aardvark".to_owned());
    assert!(first < second);
    assert_eq!(first.cmp(&second), std::cmp::Ordering::Less);
    assert_eq!(second.cmp(&first), std::cmp::Ordering::Greater);
    assert_eq!(first.cmp(&first.clone()), std::cmp::Ordering::Equal);
    assert_eq!(
        first.partial_cmp(&second),
        Some(std::cmp::Ordering::Less)
    );
}

#[test]
fn symbol_shows_its_string() {
    let mut table = SymbolTable::new(InternerFlavor::Array);
    let sym: Symbol<Username> = table.intern(&Username("mole".to_owned()));
    assert_eq!(sym.to_string(&table), "mole");
}

#[test]
fn view_from_the_back() {
    let mut table = SymbolTable::new(InternerFlavor::Array);
    let sym: Symbol<String> = table.intern(&"toad".to_owned());
    let mut view = SymbolIterator::new(sym, &table);
    assert_eq!(view.next_back(), Some('d'));
    assert_eq!(view.to_string(), "\"•toad\"");
    assert_eq!(view.next_back(), Some('a'));
    assert_eq!(view.next(), Some('t'));
    assert_eq!(view.to_string(), "\"t•oad\"");
    assert_eq!(view.next_back(), Some('o'));
    assert_eq!(view.next_back(), None);
    assert_eq!(view.next(), None);
    assert!(!view.has_next());
    assert_eq!(view.to_string(), "\"toad•\"");
}

#[test]
fn view_of_the_empty_string() {
    let mut table = SymbolTable::new(InternerFlavor::Array);
    let sym: Symbol<String> = table.intern(&String::new());
    let mut view = SymbolIterator::new(sym, &table);
    assert!(!view.has_next());
    assert_eq!(view.peek(), None);
    assert_eq!(view.next(), None);
    assert_eq!(view.to_string(), "\"•\"");
}

#[test]
fn view_counts_characters_not_bytes() {
    let mut table = SymbolTable::new(InternerFlavor::Array);
    let sym: Symbol<String> = table.intern(&"héé".to_owned());
    let mut view = SymbolIterator::new(sym, &table);
    assert_eq!(view.next(), Some('h'));
    assert_eq!(view.to_string(), "\"h•éé\"");
    assert_eq!(view.next(), Some('é'));
    assert_eq!(view.to_string(), "\"hé•é\"");
}

#[test]
fn store_keeps_markers_per_string() {
    let mut store = ArrayInterner::new();
    let toad = store.intern("toad".to_owned(), 7);
    assert_eq!(toad.get(), 1);
    assert_eq!(store.resolve(toad), Some("toad".to_owned()));
    assert_eq!(store.get_interned("toad".to_owned(), 7).map(|id| id.get()), Some(1));
    assert!(store.get_interned("toad".to_owned(), 8).is_none());
    assert!(store.get_interned("frog".to_owned(), 7).is_none());
    let again = store.intern("toad".to_owned(), 8);
    assert_eq!(again.get(), 1);
    assert_eq!(store.get_interned("toad".to_owned(), 8).map(|id| id.get()), Some(1));
    assert_eq!(store.position(&"toad".to_owned()), Some(1));
    assert_eq!(store.position(&"".to_owned()), None);
    assert_eq!(store.position(&"frog".to_owned()), None);
}

#[test]
fn store_resolves_only_what_it_issued() {
    let mut small = ArrayInterner::new();
    let mut large = ArrayInterner::default();
    let one = small.intern("one".to_owned(), 0);
    large.intern("uno".to_owned(), 0);
    let two = large.intern("dos".to_owned(), 0);
    assert_eq!(small.resolve(one), Some("one".to_owned()));
    assert_eq!(small.resolve(two), None);
    assert_eq!(large.resolve(one), Some("uno".to_owned()));
    assert_eq!(large.resolve(two), Some("dos".to_owned()));
}
