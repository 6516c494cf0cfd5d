//! A cache slot that can be overwritten.

use vstd::prelude::*;

verus! {

/// The locally cached value of a mutable remote field: absent until it is
/// first observed, replaced whenever a newer value is written.
#[derive(Debug, Clone)]
pub struct CacheContainer<T> {
    value: Option<T>,
}

impl<T> View for CacheContainer<T> {
    type V = Option<T>;

    closed spec fn view(&self) -> Option<T> {
        self.value
    }
}

impl<T> CacheContainer<T> {
    /// A cache that starts out with `value`, or cold.
    pub fn new(value: Option<T>) -> (cache: Self)
        ensures
            cache@ == value,
    {
        CacheContainer { value }
    }

    /// The cached value, if there is one. A pure lookup.
    pub fn peek(&self) -> (value: Option<&T>)
        ensures
            match self@ {
                Some(stored) => value == Some(&stored),
                None => value is None,
            },
    {
        self.value.as_ref()
    }

    /// The cached value; a cold cache is first filled with what `producer`
    /// returns. A failing producer is handed on and leaves the cache cold.
    pub fn get<E, F: FnOnce() -> Result<T, E>>(&mut self, producer: F) -> (value: Result<&T, E>)
        requires
            old(self)@ is None ==> call_requires(producer, ()),
        ensures
            old(self)@ is Some ==> final(self)@ == old(self)@ && value == Ok::<&T, E>(
                &old(self)@->0,
            ),
            old(self)@ is None ==> exists|produced: Result<T, E>| #[trigger]
                call_ensures(producer, (), produced) && match produced {
                    Ok(fresh) => final(self)@ == Some(fresh) && value == Ok::<&T, E>(&fresh),
                    Err(failure) => final(self)@ is None && value == Err::<&T, E>(failure),
                },
    {
        if self.value.is_none() {
            match producer() {
                Ok(fresh) => {
                    self.value = Some(fresh);
                },
                Err(failure) => {
                    return Err(failure);
                },
            }
        }
        Ok(self.value.as_ref().unwrap())
    }

    /// Overwrites the cache.
    pub fn set(&mut self, value: T)
        ensures
            final(self)@ == Some(value),
    {
        self.value = Some(value);
    }
}

} // verus!
