//! A string-interning engine: strings are stored once in a backing store and
//! handed out as small typed symbols that compare in constant time.
//!
//! A [`SymbolTable`] owns one backing store. Interning a value stores its
//! string form, if it is not stored yet, and returns a [`Symbol`]: the raw
//! identifier of the string, the type of the value, and the identity of the
//! table. Values of different types with the same string form share one
//! stored string, and still get symbols of different types. A symbol is
//! resolved only by the table that minted it.

pub mod array;
pub mod errors;
pub mod flavor;
pub mod identity;
pub mod internable;
pub mod interner;
pub mod laws;
pub mod serial;
pub mod symbol;
pub mod symbol_iterator;
pub mod table;

pub use array::ArrayInterner;
pub use errors::{ResolutionErr, TableMismatchErr};
pub use flavor::InternerFlavor;
pub use identity::TableIdentity;
pub use internable::Internable;
pub use interner::Interner;
pub use symbol::{Resolvable, Symbol};
pub use symbol_iterator::SymbolIterator;
pub use table::SymbolTable;
