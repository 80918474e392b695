//! A read-oriented representation of parsed, JSON-like structured data.
//!
//! A [`Value`] is one node of a tree of nulls, booleans, numbers, strings,
//! arrays and objects. String data either borrows from the caller-retained
//! input buffer or owns its bytes; the two are indistinguishable to every
//! reader. Navigation through the tree goes by [`Value::get`], which takes an
//! integer (for arrays) or a string-like key (for objects) and returns a
//! reference to the addressed child, or to a shared `Null` sentinel when the
//! step misses, so that lookups chain safely past the first miss.
//!
//! [`Value`]: value::Value
//! [`Value::get`]: value::Value::get

pub mod cowstr;
pub mod index;
pub mod laws;
pub mod value;
mod sealed;

pub use cowstr::CowStr;
pub use index::Index;
pub use value::Number;
pub use value::Value;
