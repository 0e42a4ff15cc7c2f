//! A single-slot container that lends genuine ownership of its value to a
//! second handle and takes it back when that handle is released.
use std::ops::{Deref, DerefMut};
use vstd::prelude::*;

verus! {

/// What lending does to a cell whose view is `s`: the cell's view afterwards,
/// and the value handed to the new borrower, if one is made.
pub open spec fn lend_spec<T>(s: Option<T>) -> (Option<T>, Option<T>) {
    match s {
        Some(v) => (None, Some(v)),
        None => (None, None),
    }
}

/// What releasing a borrowed value `v` into a cell whose view is `s` does: the
/// cell's view afterwards, and whether the value went back to it.
pub open spec fn release_spec<T>(s: Option<T>, v: T) -> (Option<T>, bool) {
    match s {
        Some(w) => (Some(w), false),
        None => (Some(v), true),
    }
}

/// What consuming a cell whose view is `s` yields: its value, or the cell's
/// view unchanged when the value is lent.
pub open spec fn consume_spec<T>(s: Option<T>) -> Result<T, Option<T>> {
    match s {
        Some(v) => Ok(v),
        None => Err(s),
    }
}

/// A container that holds a value and can lend it out.
///
/// Its view is `Some(v)` while the value `v` is present and `None` while it
/// is lent to a [`BorrowedCell`].
pub struct LendingCell<T> {
    thing: Option<T>,
}

impl<T> View for LendingCell<T> {
    type V = Option<T>;

    closed spec fn view(&self) -> Option<T> {
        self.thing
    }
}

impl<T> LendingCell<T> {
    /// Creates a new cell that holds `thing`.
    pub fn new(thing: T) -> (r: Self)
        ensures
            r@ == Some(thing),
    {
        LendingCell { thing: Some(thing) }
    }

    /// A reference to the value, unless it is lent.
    pub fn try_get(&self) -> (r: Option<&T>)
        ensures
            match r {
                Some(v) => self@ == Some(*v),
                None => self@ is None,
            },
    {
        match &self.thing {
            Some(v) => Some(v),
            None => None,
        }
    }

    /// A reference to the value; the value must not be lent.
    pub fn get(&self) -> (r: &T)
        requires
            self@ is Some,
        ensures
            self@ == Some(*r),
    {
        self.try_get().unwrap()
    }

    /// A mutable reference to the value, unless it is lent.
    pub fn try_get_mut(&mut self) -> (r: Option<&mut T>)
        ensures
            match r {
                Some(v) => old(self)@ == Some(*v) && final(self)@ == Some(*final(v)),
                None => old(self)@ is None && final(self)@ is None,
            },
    {
        match &mut self.thing {
            Some(v) => Some(v),
            None => None,
        }
    }

    /// A mutable reference to the value; the value must not be lent.
    pub fn get_mut(&mut self) -> (r: &mut T)
        requires
            old(self)@ is Some,
        ensures
            old(self)@ == Some(*r),
            final(self)@ == Some(*final(r)),
    {
        self.try_get_mut().unwrap()
    }

    /// Lends the value to a new borrower; the value must not be lent already.
    pub fn to_borrowed(&mut self) -> (r: BorrowedCell<T>)
        requires
            old(self)@ is Some,
        ensures
            final(self)@ == lend_spec(old(self)@).0,
            lend_spec(old(self)@).1 == Some(r@),
    {
        self.try_to_borrowed().unwrap()
    }

    /// Lends the value to a new borrower, unless it is lent already.
    pub fn try_to_borrowed(&mut self) -> (r: Option<BorrowedCell<T>>)
        ensures
            final(self)@ == lend_spec(old(self)@).0,
            match r {
                Some(b) => lend_spec(old(self)@).1 == Some(b@),
                None => lend_spec(old(self)@).1 is None,
            },
    {
        match self.thing.take() {
            Some(v) => Some(BorrowedCell { thing: v }),
            None => None,
        }
    }

    /// Destroys the cell and returns its value, unless the value is lent; in
    /// that case the cell is handed back unchanged.
    pub fn try_into_inner(self) -> (r: Result<T, Self>)
        ensures
            match r {
                Ok(v) => consume_spec(self@) == Ok::<T, Option<T>>(v),
                Err(c) => consume_spec(self@) == Err::<T, Option<T>>(c@),
            },
    {
        if self.thing.is_some() {
            Ok(self.thing.unwrap())
        } else {
            Err(self)
        }
    }
}

/// A handle that owns a lent value until it is released.
///
/// Its view is the value it holds.
pub struct BorrowedCell<T> {
    thing: T,
}

impl<T> View for BorrowedCell<T> {
    type V = T;

    closed spec fn view(&self) -> T {
        self.thing
    }
}

impl<T> BorrowedCell<T> {
    /// Releases the borrower into `owner`, which takes the value back if it is
    /// lent; otherwise the borrower is handed back unchanged.
    pub fn release(self, owner: &mut LendingCell<T>) -> (r: Result<(), BorrowedCell<T>>)
        ensures
            final(owner)@ == release_spec(old(owner)@, self@).0,
            r is Ok <==> release_spec(old(owner)@, self@).1,
            r matches Err(b) ==> b@ == self@,
    {
        if owner.thing.is_some() {
            Err(self)
        } else {
            owner.thing = Some(self.thing);
            Ok(())
        }
    }
}

impl<T> Deref for BorrowedCell<T> {
    type Target = T;

    fn deref(&self) -> (r: &T)
        ensures
            *r == self@,
    {
        &self.thing
    }
}

impl<T> DerefMut for BorrowedCell<T> {
    fn deref_mut(&mut self) -> (r: &mut T)
        ensures
            *r == old(self)@,
            final(self)@ == *final(r),
    {
        &mut self.thing
    }
}


/// Lending a present value leaves the cell empty to its own accessors and
/// hands exactly that value to the borrower.
pub proof fn lemma_lend_moves_value<T>(v: T)
    ensures
        lend_spec(Some(v)) == (None::<T>, Some(v)),
{
}

/// Lending and then releasing the borrower into the same cell restores the
/// cell to the value it held before: the round trip is the identity.
pub proof fn lemma_lend_release_round_trip<T>(v: T)
    ensures
        release_spec(lend_spec(Some(v)).0, lend_spec(Some(v)).1->0) == (Some(v), true),
{
}

/// Once a cell has lent its value it holds none, so destroying it destroys
/// nothing and the borrower holds the only instance of the value.
pub proof fn lemma_lent_cell_holds_nothing<T>(s: Option<T>)
    ensures
        lend_spec(s).0 is None,
        s is Some ==> lend_spec(s).1 == s,
{
}

/// A second attempt to lend while a borrower is outstanding makes no second
/// borrower.
pub proof fn lemma_no_second_borrower<T>(s: Option<T>)
    ensures
        lend_spec(lend_spec(s).0).1 is None,
        lend_spec(lend_spec(s).0).0 is None,
{
}

/// Consuming a present cell yields its value; consuming a lent cell yields
/// the cell unchanged, and it can still take the value back.
pub proof fn lemma_consume<T>(v: T)
    ensures
        consume_spec(Some(v)) == Ok::<T, Option<T>>(v),
        consume_spec(lend_spec(Some(v)).0) == Err::<T, Option<T>>(None),
        release_spec(consume_spec(lend_spec(Some(v)).0)->Err_0, v) == (Some(v), true),
{
}

/// At most one handle can reach the value at any time: after any lend, the
/// cell and the borrower never both hold it, and nothing is lost.
pub proof fn lemma_exclusive_access<T>(s: Option<T>)
    ensures
        !(lend_spec(s).0 is Some && lend_spec(s).1 is Some),
        s is Some <==> (lend_spec(s).0 is Some || lend_spec(s).1 is Some),
{
}

} // verus!
