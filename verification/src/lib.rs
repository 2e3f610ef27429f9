//! Country records of ISO 3166-1 and their resolution from numeric codes,
//! letter codes, names and aliases.
//!
//! A `Registry` holds a list of records and an index for each space of
//! keys. `Registry::standard` builds the registry of all the countries;
//! the functions `Country::from_...` answer from a registry.

pub mod country;
pub mod data;
pub mod index;
pub mod key;
pub mod laws;
pub mod order;
pub mod registry;
pub mod resolve;
pub mod shape;
pub mod spaces;
pub mod suffix;
pub mod tables;

pub use country::Country;
pub use index::KeyIndex;
pub use registry::{DuplicateKey, Registry};
pub use resolve::{DecodeError, LookupInput, NotFound};
pub use spaces::KeySpace;
pub use tables::{Alias, CountryTable, EmptyLookupTable, LookupTable, EMPTY_LOOKUP_TABLE};
