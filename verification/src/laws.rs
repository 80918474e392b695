use vstd::prelude::*;

use crate::cowstr::CowStr;
use crate::index::Index;
use crate::value::eq_val;
use crate::value::lemma_entry_lookup_first;
use crate::value::spec_get;
use crate::value::Key;
use crate::value::Value;

verus! {

/// Miss propagation: a navigation step against the wrong variant — a
/// position into a non-array, or a name into a non-object — yields the
/// `Null` sentinel; and since the sentinel is neither an array nor an
/// object, every further step on the result yields the sentinel again, so a
/// chain of lookups needs no special-casing after its first miss.
pub proof fn lemma_miss_propagation<'ctx>(v: Value<'ctx>, k: Key, k2: Key)
    requires
        match k {
            Key::Pos(_) => !(v is Array),
            Key::Name(_) => !(v is Object),
        },
    ensures
        spec_get(v, k) == Value::<'ctx>::Null,
        spec_get(spec_get(v, k), k2) == Value::<'ctx>::Null,
{
}

/// Array bounds: a position into an array of length `n` addresses the
/// element at that position when `0 <= i < n`, and yields the `Null`
/// sentinel when `i >= n`.
pub proof fn lemma_array_bounds<'ctx>(elems: Vec<Value<'ctx>>, i: int)
    ensures
        0 <= i < elems@.len() ==> spec_get(Value::Array(elems), Key::Pos(i)) == elems@[i],
        i >= elems@.len() ==> spec_get(Value::Array(elems), Key::Pos(i)) == Value::<'ctx>::Null,
{
}

/// Object first-match: when position `i` holds the first entry whose key has
/// the given characters, lookup returns that entry's value — whatever
/// entries, duplicate keys included, come after it.
pub proof fn lemma_object_first_match<'ctx>(
    entries: Vec<(CowStr<'ctx>, Value<'ctx>)>,
    name: Seq<char>,
    i: int,
)
    requires
        0 <= i < entries@.len(),
        entries@[i].0@ == name,
        forall|j: int| 0 <= j < i ==> (#[trigger] entries@[j]).0@ != name,
    ensures
        spec_get(Value::Object(entries), Key::Name(name)) == entries@[i].1,
{
    lemma_entry_lookup_first(entries@, name, i);
}

/// Key-kind transparency: a `str`, a `String` and a `CowStr` holding the
/// same characters, and a reference to any of them, all describe the same
/// key, so one navigation step with any of them returns the same child.
pub proof fn lemma_key_kind_transparency<'k, 'ctx>(
    s: &'k str,
    t: String,
    c: CowStr<'k>,
    v: Value<'ctx>,
)
    requires
        t@ == s@,
        c@ == s@,
    ensures
        s.key_model() == Key::Name(s@),
        t.key_model() == Key::Name(s@),
        c.key_model() == Key::Name(s@),
        (&t).key_model() == Key::Name(s@),
        spec_get(v, t.key_model()) == spec_get(v, s.key_model()),
        spec_get(v, c.key_model()) == spec_get(v, s.key_model()),
        spec_get(v, (&t).key_model()) == spec_get(v, s.key_model()),
{
}

/// Equality is structural and order-sensitive: two arrays are equal exactly
/// when they have the same length and equal elements position by position,
/// and two objects exactly when they have the same length and, position by
/// position, the same key and equal values. Nothing is reordered and no
/// duplicate key is dropped, so the same entries in another order compare
/// unequal.
pub proof fn lemma_eq_structural<'ctx>(
    x: Vec<Value<'ctx>>,
    y: Vec<Value<'ctx>>,
    xs: Vec<(CowStr<'ctx>, Value<'ctx>)>,
    ys: Vec<(CowStr<'ctx>, Value<'ctx>)>,
)
    ensures
        eq_val(Value::Array(x), Value::Array(y)) <==> (x@.len() == y@.len() && forall|i: int|
            0 <= i < x@.len() ==> eq_val(#[trigger] x@[i], y@[i])),
        eq_val(Value::Object(xs), Value::Object(ys)) <==> (xs@.len() == ys@.len() && forall|
            i: int,
        |
            0 <= i < xs@.len() ==> (#[trigger] xs@[i]).0@ == ys@[i].0@ && eq_val(
                xs@[i].1,
                ys@[i].1,
            )),
{
}

/// Borrowed/owned transparency: two string values holding the same
/// characters are equal, whichever of the two representations each one uses.
pub proof fn lemma_borrow_owned_transparency<'ctx>(a: CowStr<'ctx>, b: CowStr<'ctx>)
    requires
        a@ == b@,
    ensures
        eq_val(Value::Str(a), Value::Str(b)),
{
}

} // verus!
