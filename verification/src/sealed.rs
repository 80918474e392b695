use vstd::prelude::*;

use crate::cowstr::CowStr;

verus! {

/// The sealing bound on [`crate::index::Index`]: only the types named here
/// can be navigation keys, so the set of key kinds — a position into an
/// array, a name into an object — is closed and navigation stays total.
pub trait Sealed {

}

impl Sealed for usize {

}

impl Sealed for str {

}

impl Sealed for String {

}

impl<'k> Sealed for CowStr<'k> {

}

impl<T: Sealed + ?Sized> Sealed for &T {

}

} // verus!
