//! Values that are either borrowed from the caller or owned, so that a
//! request can be built without copying what the caller already holds.

use vstd::prelude::*;
use crate::entities::RelyingPartyEntity;

verus! {

/// A type that lends out a borrowed form of itself.
pub trait ToBorrowed {
    type Borrowed;

    /// The borrowed form of the value.
    spec fn spec_borrowed(&self) -> &Self::Borrowed;

    fn borrowed(&self) -> (r: &Self::Borrowed)
        ensures
            r == self.spec_borrowed(),
    ;
}

/// A type whose borrowed form is itself.
pub trait BorrowAsSelf {}

impl BorrowAsSelf for RelyingPartyEntity {}

impl ToBorrowed for RelyingPartyEntity {
    type Borrowed = RelyingPartyEntity;

    open spec fn spec_borrowed(&self) -> &RelyingPartyEntity {
        self
    }

    fn borrowed(&self) -> (r: &RelyingPartyEntity) {
        self
    }
}

/// A value borrowed from the caller, or owned.
pub enum BoO<'a, T: ToBorrowed> {
    Borrowed(&'a T::Borrowed),
    Owned(T),
}

impl<'a, T: ToBorrowed> BoO<'a, T> {
    /// The borrowed form, whichever way the value is held.
    pub fn as_ref(&self) -> (r: &T::Borrowed)
        ensures
            self matches BoO::Borrowed(b) ==> r == b,
            self matches BoO::Owned(o) ==> r == o.spec_borrowed(),
    {
        match self {
            BoO::Borrowed(b) => b,
            BoO::Owned(o) => o.borrowed(),
        }
    }
}

} // verus!
