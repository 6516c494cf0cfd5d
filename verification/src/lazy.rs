//! A write-once field cell.

use vstd::prelude::*;

verus! {

/// A slot that is empty until it is populated and never changes afterwards.
///
/// The view of a cell is `None` while it is empty and `Some(value)` once it
/// holds `value`. Every operation that takes the cell by `&mut` leaves a
/// populated cell exactly as it found it; exclusive access is what keeps two
/// callers from populating the same cell at once.
#[derive(Debug, Clone)]
pub struct LazyField<T> {
    slot: Option<T>,
}

impl<T> View for LazyField<T> {
    type V = Option<T>;

    closed spec fn view(&self) -> Option<T> {
        self.slot
    }
}

impl<T: DeepView> DeepView for LazyField<T> {
    type V = Option<T::V>;

    open spec fn deep_view(&self) -> Option<T::V> {
        self@.deep_view()
    }
}

/// What a cell holds after `donor` was offered to it: its own value if it had
/// one, the donor's otherwise.
pub open spec fn first_populated<V>(own: Option<V>, donor: Option<V>) -> Option<V> {
    if own is Some {
        own
    } else {
        donor
    }
}

impl<T> LazyField<T> {
    /// An empty cell.
    pub fn new() -> (cell: Self)
        ensures
            cell@ is None,
    {
        LazyField { slot: None }
    }

    /// A cell that is populated exactly when `value` is present.
    pub fn from_option(value: Option<T>) -> (cell: Self)
        ensures
            cell@ == value,
    {
        LazyField { slot: value }
    }

    /// Whether the cell holds a value.
    pub fn is_populated(&self) -> (populated: bool)
        ensures
            populated == (self@ is Some),
    {
        self.slot.is_some()
    }

    /// The cached value, if any. A pure lookup.
    pub fn get(&self) -> (value: Option<&T>)
        ensures
            match self@ {
                Some(stored) => value == Some(&stored),
                None => value is None,
            },
    {
        self.slot.as_ref()
    }

    /// The cached value; an empty cell is first populated with what
    /// `producer` returns. The producer is only called on an empty cell, and
    /// being `FnOnce` it cannot be called twice.
    pub fn get_or_populate<F: FnOnce() -> T>(&mut self, producer: F) -> (value: &T)
        requires
            old(self)@ is None ==> call_requires(producer, ()),
        ensures
            final(self)@ == Some(*value),
            old(self)@ is Some ==> final(self)@ == old(self)@,
            old(self)@ is None ==> call_ensures(producer, (), *value),
    {
        if self.slot.is_none() {
            self.slot = Some(producer());
        }
        self.slot.as_ref().unwrap()
    }

    /// Like [`LazyField::get_or_populate`] with a producer that may fail. A
    /// failure is handed back and leaves the cell empty, so that the next
    /// access tries again.
    pub fn try_get_or_populate<E, F: FnOnce() -> Result<T, E>>(&mut self, producer: F) -> (value:
        Result<&T, E>)
        requires
            old(self)@ is None ==> call_requires(producer, ()),
        ensures
            old(self)@ is Some ==> final(self)@ == old(self)@ && value == Ok::<&T, E>(
                &old(self)@->0,
            ),
            old(self)@ is None ==> exists|produced: Result<T, E>| #[trigger]
                call_ensures(producer, (), produced) && match produced {
                    Ok(fresh) => final(self)@ == Some(fresh) && value == Ok::<&T, E>(&fresh),
                    Err(failure) => final(self)@ is None && value == Err::<&T, E>(failure),
                },
    {
        if self.slot.is_none() {
            match producer() {
                Ok(fresh) => {
                    self.slot = Some(fresh);
                },
                Err(failure) => {
                    return Err(failure);
                },
            }
        }
        Ok(self.slot.as_ref().unwrap())
    }

    /// Offers the donor's value to the cell: an empty cell takes it, a
    /// populated cell ignores it.
    pub fn absorb(&mut self, donor: LazyField<T>)
        ensures
            final(self)@ == first_populated(old(self)@, donor@),
    {
        if self.slot.is_none() {
            self.slot = donor.slot;
        }
    }

    /// Gives up the cell for what it holds.
    pub fn into_inner(self) -> (value: Option<T>)
        ensures
            value == self@,
    {
        self.slot
    }
}

} // verus!
