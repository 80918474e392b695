use vstd::prelude::*;

use crate::cowstr::str_eq;
use crate::cowstr::CowStr;
use crate::sealed::Sealed;
use crate::value::lemma_entry_lookup_first;
use crate::value::lemma_entry_lookup_none;
use crate::value::lookup;
use crate::value::Key;
use crate::value::Value;

verus! {

/// Whether a navigation step's raw result matches the model: a hit hands
/// back exactly the addressed child, a miss hands back nothing.
pub open spec fn found_matches<'a, 'ctx>(
    r: Option<&'a Value<'ctx>>,
    m: Option<Value<'ctx>>,
) -> bool {
    match (r, m) {
        (Some(a), Some(b)) => *a == b,
        (None, None) => true,
        _ => false,
    }
}

/// A type that can be used to index into a [`Value`]: `usize` as a position
/// into an array, and the string-like types — `str`, `String`, [`CowStr`],
/// and references to any of them — as a key into an object's entries.
///
/// The trait is sealed, so these two key kinds are the only ones, and
/// [`Value::get`] stays total: every key either addresses a child or yields
/// the `Null` sentinel. A reference to a key behaves exactly as the key
/// itself.
pub trait Index: Sealed {
    /// Which key this is, as the contracts speak of it: an array position or
    /// an object key's characters.
    spec fn key_model(&self) -> Key;

    /// The child this key addresses in `v`, or `None` when the step misses.
    fn index_into<'a, 'ctx: 'a>(&self, v: &'a Value<'ctx>) -> (r: Option<&'a Value<'ctx>>)
        ensures
            found_matches(r, lookup(*v, self.key_model()))
    ;
}

impl Index for usize {
    open spec fn key_model(&self) -> Key {
        Key::Pos(*self as int)
    }

    fn index_into<'a, 'ctx: 'a>(&self, v: &'a Value<'ctx>) -> (r: Option<&'a Value<'ctx>>) {
        match v {
            Value::Array(elems) => {
                if *self < elems.len() {
                    Some(&elems[*self])
                } else {
                    None
                }
            },
            _ => None,
        }
    }
}

impl Index for str {
    open spec fn key_model(&self) -> Key {
        Key::Name(self@)
    }

    #[verifier::loop_isolation(false)]
    fn index_into<'a, 'ctx: 'a>(&self, v: &'a Value<'ctx>) -> (r: Option<&'a Value<'ctx>>) {
        match v {
            Value::Object(entries) => {
                let mut i: usize = 0;
                while i < entries.len()
                    invariant
                        i <= entries@.len(),
                        forall|j: int| 0 <= j < i ==> (#[trigger] entries@[j]).0@ != self@,
                    decreases entries@.len() - i,
                {
                    let e = &entries[i];
                    if str_eq(e.0.as_str(), self) {
                        proof {
                            lemma_entry_lookup_first(entries@, self@, i as int);
                        }
                        return Some(&e.1);
                    }
                    i += 1;
                }
                proof {
                    lemma_entry_lookup_none(entries@, self@);
                }
                None
            },
            _ => None,
        }
    }
}

impl Index for String {
    open spec fn key_model(&self) -> Key {
        Key::Name(self@)
    }

    fn index_into<'a, 'ctx: 'a>(&self, v: &'a Value<'ctx>) -> (r: Option<&'a Value<'ctx>>) {
        self.as_str().index_into(v)
    }
}

impl<'k> Index for CowStr<'k> {
    open spec fn key_model(&self) -> Key {
        Key::Name(self@)
    }

    fn index_into<'a, 'ctx: 'a>(&self, v: &'a Value<'ctx>) -> (r: Option<&'a Value<'ctx>>) {
        self.as_str().index_into(v)
    }
}

impl<T: Index + ?Sized> Index for &T {
    open spec fn key_model(&self) -> Key {
        (**self).key_model()
    }

    fn index_into<'a, 'ctx: 'a>(&self, v: &'a Value<'ctx>) -> (r: Option<&'a Value<'ctx>>) {
        (**self).index_into(v)
    }
}

} // verus!
