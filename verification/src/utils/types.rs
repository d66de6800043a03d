//! Values that are kept out of public answers unless they are shown on purpose.
use vstd::prelude::*;

verus! {

/// A value that is hidden from other users (`Hidden`) or shown (`Shown`).
#[derive(Clone, Debug)]
pub enum Private<T> {
    Hidden(T),
    Shown(T),
}

impl<T> Private<T> {
    /// The value, whichever way it is marked.
    pub open spec fn value(self) -> T {
        match self {
            Private::Hidden(x) => x,
            Private::Shown(x) => x,
        }
    }

    pub fn is_private(&self) -> (r: bool)
        ensures
            r == (*self is Hidden),
    {
        match self {
            Private::Hidden(_) => true,
            Private::Shown(_) => false,
        }
    }

    /// The value, whichever way it is marked.
    pub fn get(&self) -> (r: &T)
        ensures
            *r == self.value(),
    {
        match self {
            Private::Hidden(x) => x,
            Private::Shown(x) => x,
        }
    }

    /// Marks the value as shown; the value stays a clone of what it was.
    pub fn set_public(&mut self) where T: Clone
        ensures
            *final(self) is Shown,
            cloned(old(self).value(), final(self).value()),
    {
        let v = self.get().clone();
        *self = Private::Shown(v);
    }

    /// Marks the value as hidden; the value stays a clone of what it was.
    pub fn set_private(&mut self) where T: Clone
        ensures
            *final(self) is Hidden,
            cloned(old(self).value(), final(self).value()),
    {
        let v = self.get().clone();
        *self = Private::Hidden(v);
    }
}

impl<T> std::ops::Deref for Private<T> {
    type Target = T;

    fn deref(&self) -> (r: &T)
        ensures
            *r == self.value(),
    {
        self.get()
    }
}

impl<T: Default> Default for Private<T> {
    /// The default value, hidden.
    fn default() -> (r: Private<T>)
        ensures
            r is Hidden,
    {
        Private::Hidden(T::default())
    }
}

impl<T> From<T> for Private<T> {
    /// A value is hidden until it is shown.
    fn from(d: T) -> (r: Private<T>) {
        Private::Hidden(d)
    }
}

impl<T> vstd::std_specs::convert::FromSpecImpl<T> for Private<T> {
    open spec fn obeys_from_spec() -> bool {
        true
    }

    open spec fn from_spec(v: T) -> Private<T> {
        Private::Hidden(v)
    }
}

} // verus!
