use vstd::prelude::*;

verus! {

/// String data for one node of a value tree: either a slice borrowed from a
/// caller-retained input buffer (lifetime `'ctx`), or an independently owned
/// buffer. The two representations are indistinguishable to every reader:
/// the view, the accessor and equality all speak of the characters alone.
#[derive(Debug)]
pub enum CowStr<'ctx> {
    Borrowed(&'ctx str),
    Owned(String),
}

impl<'ctx> View for CowStr<'ctx> {
    type V = Seq<char>;

    open spec fn view(&self) -> Seq<char> {
        match self {
            CowStr::Borrowed(s) => s@,
            CowStr::Owned(s) => s@,
        }
    }
}

/// Byte-for-byte comparison of two string slices: they are equal exactly
/// when their characters are, since a character sequence and its UTF-8
/// encoding determine each other.
#[verifier::loop_isolation(false)]
pub(crate) fn str_eq(a: &str, b: &str) -> (r: bool)
    ensures
        r == (a@ == b@),
{
    proof {
        vstd::utf8::encode_utf8_decode_utf8(a@);
        vstd::utf8::encode_utf8_decode_utf8(b@);
    }
    let ab = a.as_bytes();
    let bb = b.as_bytes();
    if ab.len() != bb.len() {
        return false;
    }
    let n: usize = ab.len();
    let mut i: usize = 0;
    while i < n
        invariant
            i <= n,
            forall|j: int| 0 <= j < i ==> ab@[j] == bb@[j],
        decreases n - i,
    {
        if ab[i] != bb[i] {
            return false;
        }
        i += 1;
    }
    proof {
        assert(ab@ =~= bb@);
    }
    true
}

impl<'ctx> CowStr<'ctx> {
    /// The characters as a plain string slice, whichever representation
    /// holds them.
    pub fn as_str(&self) -> (r: &str)
        ensures
            r@ == self@,
    {
        match self {
            CowStr::Borrowed(s) => s,
            CowStr::Owned(s) => s.as_str(),
        }
    }
}

impl<'ctx> PartialEq for CowStr<'ctx> {
    /// Equality is by content: a borrowed slice and an owned buffer holding
    /// the same characters compare equal.
    fn eq(&self, other: &Self) -> (r: bool) {
        str_eq(self.as_str(), other.as_str())
    }
}

impl<'ctx> vstd::std_specs::cmp::PartialEqSpecImpl for CowStr<'ctx> {
    open spec fn obeys_eq_spec() -> bool {
        true
    }

    open spec fn eq_spec(&self, other: &Self) -> bool {
        self@ == other@
    }
}

impl<'ctx> From<&'ctx str> for CowStr<'ctx> {
    fn from(s: &'ctx str) -> (r: Self) {
        CowStr::Borrowed(s)
    }
}

impl<'ctx> vstd::std_specs::convert::FromSpecImpl<&'ctx str> for CowStr<'ctx> {
    open spec fn obeys_from_spec() -> bool {
        true
    }

    open spec fn from_spec(s: &'ctx str) -> Self {
        CowStr::Borrowed(s)
    }
}

impl<'ctx> From<String> for CowStr<'ctx> {
    fn from(s: String) -> (r: Self) {
        CowStr::Owned(s)
    }
}

impl<'ctx> vstd::std_specs::convert::FromSpecImpl<String> for CowStr<'ctx> {
    open spec fn obeys_from_spec() -> bool {
        true
    }

    open spec fn from_spec(s: String) -> Self {
        CowStr::Owned(s)
    }
}

} // verus!
