use vstd::prelude::*;

use crate::cowstr::str_eq;
use crate::cowstr::CowStr;

verus! {

/// A numeric value, preserving the distinction between the integer and
/// floating-point forms as parsed. A floating-point number is held as the
/// raw bit pattern of its IEEE 754 double, so numbers compare structurally:
/// two numbers are equal exactly when they have the same form and the same
/// payload.
#[derive(Debug, Clone, Copy, PartialEq, Eq, Structural)]
pub enum Number {
    /// A signed integer.
    I64(i64),
    /// An unsigned integer too large for `i64`.
    U64(u64),
    /// The bit pattern of a 64-bit floating-point number.
    F64Bits(u64),
}

/// One node of a parsed structured-data tree: a closed set of six variants.
/// Order of array elements and object entries is semantic and preserved;
/// object keys are not deduplicated, and lookup is a linear forward scan in
/// which the first matching key wins.
#[derive(Debug)]
pub enum Value<'ctx> {
    /// The absent/default marker, also returned as the sentinel on a missed
    /// navigation step.
    Null,
    /// A boolean.
    Bool(bool),
    /// A number.
    Number(Number),
    /// String data, borrowed from the input buffer or owned.
    Str(CowStr<'ctx>),
    /// An ordered sequence of values.
    Array(Vec<Value<'ctx>>),
    /// An ordered sequence of key/value pairs; duplicate keys are permitted.
    Object(Vec<(CowStr<'ctx>, Value<'ctx>)>),
}

/// A navigation key, as the contracts speak of it: either a position into an
/// array or a name looked up among an object's keys. The executable key types
/// all describe themselves as one of these two kinds.
pub enum Key {
    /// An array position.
    Pos(int),
    /// An object key, as its characters.
    Name(Seq<char>),
}

/// The value of the first entry whose key has the given characters, scanning
/// forward; `None` when no entry matches.
pub open spec fn entry_lookup<'ctx>(
    entries: Seq<(CowStr<'ctx>, Value<'ctx>)>,
    name: Seq<char>,
) -> Option<Value<'ctx>>
    decreases entries.len(),
{
    if entries.len() == 0 {
        None
    } else if entries[0].0@ == name {
        Some(entries[0].1)
    } else {
        entry_lookup(entries.drop_first(), name)
    }
}

/// The child addressed by one navigation step: an in-bounds position into an
/// array, or the first matching key of an object. Every other combination —
/// a position into a non-array, a name into a non-object, an out-of-bounds
/// position, a missing key — is `None`.
pub open spec fn lookup<'ctx>(v: Value<'ctx>, k: Key) -> Option<Value<'ctx>> {
    match k {
        Key::Pos(i) => match v {
            Value::Array(elems) => if 0 <= i < elems@.len() {
                Some(elems@[i])
            } else {
                None
            },
            _ => None,
        },
        Key::Name(name) => match v {
            Value::Object(entries) => entry_lookup(entries@, name),
            _ => None,
        },
    }
}

/// What one navigation step returns: the addressed child on a hit, and the
/// `Null` sentinel on a miss, so that the result is always some value and
/// further steps may follow.
pub open spec fn spec_get<'ctx>(v: Value<'ctx>, k: Key) -> Value<'ctx> {
    match lookup(v, k) {
        Some(c) => c,
        None => Value::Null,
    }
}

/// Structural, order-sensitive equality of two values: the variants match
/// and the payloads are equal, recursively. Strings compare by content alone
/// (borrowed and owned data are indistinguishable); arrays and objects
/// compare position by position, with no reordering and no key
/// deduplication.
pub open spec fn eq_val<'ctx>(a: Value<'ctx>, b: Value<'ctx>) -> bool
    decreases a,
{
    match (a, b) {
        (Value::Null, Value::Null) => true,
        (Value::Bool(x), Value::Bool(y)) => x == y,
        (Value::Number(x), Value::Number(y)) => x == y,
        (Value::Str(x), Value::Str(y)) => x@ == y@,
        (Value::Array(x), Value::Array(y)) => x@.len() == y@.len() && (forall|i: int|
            0 <= i < x@.len() ==> eq_val(#[trigger] x@[i], y@[i])),
        (Value::Object(x), Value::Object(y)) => x@.len() == y@.len() && (forall|i: int|
            0 <= i < x@.len() ==> (#[trigger] x@[i]).0@ == y@[i].0@ && eq_val(x@[i].1, y@[i].1)),
        _ => false,
    }
}

/// First match wins: when position `i` holds the first entry whose key has
/// the given characters, the scan returns that entry's value, whatever
/// entries — duplicate keys included — come after it.
pub proof fn lemma_entry_lookup_first<'ctx>(
    entries: Seq<(CowStr<'ctx>, Value<'ctx>)>,
    name: Seq<char>,
    i: int,
)
    requires
        0 <= i < entries.len(),
        entries[i].0@ == name,
        forall|j: int| 0 <= j < i ==> (#[trigger] entries[j]).0@ != name,
    ensures
        entry_lookup(entries, name) == Some(entries[i].1),
    decreases i,
{
    if i > 0 {
        assert forall|j: int| 0 <= j < i - 1 implies (#[trigger] entries.drop_first()[j]).0@
            != name by {
            assert(entries.drop_first()[j] == entries[j + 1]);
        }
        assert(entries.drop_first()[i - 1] == entries[i]);
        lemma_entry_lookup_first(entries.drop_first(), name, i - 1);
    }
}

/// When no entry's key has the given characters, the scan misses.
pub proof fn lemma_entry_lookup_none<'ctx>(
    entries: Seq<(CowStr<'ctx>, Value<'ctx>)>,
    name: Seq<char>,
)
    requires
        forall|j: int| 0 <= j < entries.len() ==> (#[trigger] entries[j]).0@ != name,
    ensures
        entry_lookup(entries, name) is None,
    decreases entries.len(),
{
    if entries.len() > 0 {
        assert forall|j: int|
            0 <= j < entries.drop_first().len() implies (#[trigger] entries.drop_first()[j]).0@
            != name by {
            assert(entries.drop_first()[j] == entries[j + 1]);
        }
        lemma_entry_lookup_none(entries.drop_first(), name);
    }
}

impl<'ctx> Value<'ctx> {
    /// Whether this value is `Null`.
    pub fn is_null(&self) -> (r: bool)
        ensures
            r == (*self is Null),
    {
        match self {
            Value::Null => true,
            _ => false,
        }
    }

    /// The boolean payload, or `None` when this value is not a boolean.
    pub fn as_bool(&self) -> (r: Option<bool>)
        ensures
            match *self {
                Value::Bool(b) => r == Some(b),
                _ => r is None,
            },
    {
        match self {
            Value::Bool(b) => Some(*b),
            _ => None,
        }
    }

    /// The numeric payload, or `None` when this value is not a number.
    pub fn as_number(&self) -> (r: Option<Number>)
        ensures
            match *self {
                Value::Number(n) => r == Some(n),
                _ => r is None,
            },
    {
        match self {
            Value::Number(n) => Some(*n),
            _ => None,
        }
    }

    /// The string payload as a plain slice, or `None` when this value is not
    /// a string. Borrowed and owned string data yield the same slice
    /// content.
    pub fn as_str(&self) -> (r: Option<&str>)
        ensures
            match *self {
                Value::Str(s) => r matches Some(t) && t@ == s@,
                _ => r is None,
            },
    {
        match self {
            Value::Str(s) => Some(s.as_str()),
            _ => None,
        }
    }

    /// The elements of an array, or `None` when this value is not an array.
    pub fn as_array(&self) -> (r: Option<&Vec<Value<'ctx>>>)
        ensures
            match *self {
                Value::Array(elems) => r matches Some(v) && *v == elems,
                _ => r is None,
            },
    {
        match self {
            Value::Array(elems) => Some(elems),
            _ => None,
        }
    }

    /// The key/value entries of an object, in insertion order, or `None`
    /// when this value is not an object.
    pub fn as_object(&self) -> (r: Option<&Vec<(CowStr<'ctx>, Value<'ctx>)>>)
        ensures
            match *self {
                Value::Object(entries) => r matches Some(v) && *v == entries,
                _ => r is None,
            },
    {
        match self {
            Value::Object(entries) => Some(entries),
            _ => None,
        }
    }

    /// Navigate one step: the child addressed by `key` — a `usize` position
    /// into an array, or a string-like key scanned forward through an
    /// object's entries, first match winning — or a reference to the shared
    /// `Null` sentinel when the step misses. Both outcomes are live values,
    /// so calls chain safely past the first miss: every further step on the
    /// sentinel misses again.
    pub fn get<'a, I: crate::index::Index>(&'a self, key: I) -> (r: &'a Value<'ctx>)
        ensures
            *r == spec_get(*self, key.key_model()),
    {
        match key.index_into(self) {
            Some(child) => child,
            None => null_ref(),
        }
    }

    /// Structural, order-sensitive equality, with strings compared by
    /// content. This is what `==` on two values computes.
    #[verifier::loop_isolation(false)]
    pub fn eq_value(&self, other: &Value<'ctx>) -> (r: bool)
        ensures
            r == eq_val(*self, *other),
        decreases *self,
    {
        match (self, other) {
            (Value::Null, Value::Null) => true,
            (Value::Bool(x), Value::Bool(y)) => *x == *y,
            (Value::Number(x), Value::Number(y)) => *x == *y,
            (Value::Str(x), Value::Str(y)) => str_eq(x.as_str(), y.as_str()),
            (Value::Array(x), Value::Array(y)) => {
                if x.len() != y.len() {
                    return false;
                }
                let mut i: usize = 0;
                while i < x.len()
                    invariant
                        i <= x@.len(),
                        x@.len() == y@.len(),
                        forall|j: int| 0 <= j < i ==> eq_val(#[trigger] x@[j], y@[j]),
                    decreases x@.len() - i,
                {
                    proof {
                        assert(decreases_to!(*self => self->Array_0));
                        assert(decreases_to!(*x => x[i as int]));
                    }
                    if !x[i].eq_value(&y[i]) {
                        proof {
                            assert(!eq_val(x@[i as int], y@[i as int]));
                        }
                        return false;
                    }
                    i += 1;
                }
                true
            },
            (Value::Object(x), Value::Object(y)) => {
                if x.len() != y.len() {
                    return false;
                }
                let mut i: usize = 0;
                while i < x.len()
                    invariant
                        i <= x@.len(),
                        x@.len() == y@.len(),
                        forall|j: int| 0 <= j < i ==> (#[trigger] x@[j]).0@ == y@[j].0@
                            && eq_val(x@[j].1, y@[j].1),
                    decreases x@.len() - i,
                {
                    let xe = &x[i];
                    let ye = &y[i];
                    if !str_eq(xe.0.as_str(), ye.0.as_str()) {
                        proof {
                            assert(x@[i as int].0@ != y@[i as int].0@);
                        }
                        return false;
                    }
                    proof {
                        assert(decreases_to!(*self => self->Object_0));
                        assert(decreases_to!(*x => x[i as int]));
                        assert(decreases_to!(x[i as int] => x[i as int].1));
                    }
                    if !xe.1.eq_value(&ye.1) {
                        proof {
                            assert(!eq_val(x@[i as int].1, y@[i as int].1));
                        }
                        return false;
                    }
                    i += 1;
                }
                true
            },
            _ => false,
        }
    }
}

impl<'ctx> PartialEq for Value<'ctx> {
    /// Equality is structural and order-sensitive; string payloads compare
    /// by content, whichever representation holds them.
    fn eq(&self, other: &Self) -> (r: bool) {
        self.eq_value(other)
    }
}

impl<'ctx> vstd::std_specs::cmp::PartialEqSpecImpl for Value<'ctx> {
    open spec fn obeys_eq_spec() -> bool {
        true
    }

    open spec fn eq_spec(&self, other: &Self) -> bool {
        eq_val(*self, *other)
    }
}

impl<'ctx> Default for Value<'ctx> {
    /// The default value is `Null`, the absent marker.
    fn default() -> (r: Self)
        ensures
            r is Null,
    {
        Value::Null
    }
}

/// A reference to the shared `Null` sentinel. Its lifetime is tied to no
/// tree, so a navigation chain may hand it on past the subtree it was asked
/// about.
pub fn null_ref() -> (r: &'static Value<'static>)
    ensures
        *r is Null,
{
    &Value::Null
}

} // verus!
