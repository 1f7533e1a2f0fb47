use crate::modify::Modified;
use vstd::pervasive::cloned;
use vstd::prelude::*;

verus! {

/// A [`Modified`] wrapper that can additionally have its flag cleared,
/// starting a fresh tracking window without touching the value.
///
/// All base operations delegate to the wrapped [`Modified`]; the one
/// addition is [`Resetable::reset`].
pub struct Resetable<T> {
    pub(crate) inner: Modified<T>,
}

impl<T> Resetable<T> {
    /// The value currently held.
    pub closed spec fn spec_value(&self) -> T {
        self.inner.spec_value()
    }

    /// Whether the value has been exposed to mutation since construction
    /// or since the last reset.
    pub closed spec fn spec_modified(&self) -> bool {
        self.inner.spec_modified()
    }

    /// The state reached from `self` by a reset: the same value with the
    /// flag cleared.
    pub closed spec fn spec_reset(self) -> Self {
        Resetable { inner: Modified { value: self.spec_value(), modified: false } }
    }

    /// Wraps `v`; the flag starts cleared.
    pub fn new(v: T) -> (r: Self)
        ensures
            r.spec_value() == v,
            !r.spec_modified(),
    {
        Resetable { inner: Modified::new(v) }
    }

    /// Wraps `v` already marked as modified.
    pub fn new_modified(v: T) -> (r: Self)
        ensures
            r.spec_value() == v,
            r.spec_modified(),
    {
        Resetable { inner: Modified::new_modified(v) }
    }

    /// Takes over an existing [`Modified`] by move, keeping both its value
    /// and its current flag: no implicit reset happens on conversion.
    pub fn from_modified(m: Modified<T>) -> (r: Self)
        ensures
            r.spec_value() == m.spec_value(),
            r.spec_modified() == m.spec_modified(),
    {
        Resetable { inner: m }
    }

    /// Clears the flag and leaves the value untouched, however often the
    /// value was mutated beforehand: a deliberate checkpoint against which
    /// future mutation is measured.
    pub fn reset(&mut self)
        ensures
            *final(self) == old(self).spec_reset(),
            final(self).spec_value() == old(self).spec_value(),
            !final(self).spec_modified(),
    {
        self.inner.clear_modified();
    }

    /// Replaces the held value with `v` and sets the flag, even when `v`
    /// equals the previous value.
    pub fn set(&mut self, v: T)
        ensures
            final(self).spec_value() == v,
            final(self).spec_modified(),
    {
        self.inner.set(v);
    }

    /// Read-only borrow of the held value; the flag is untouched.
    pub fn get(&self) -> (r: &T)
        ensures
            *r == self.spec_value(),
    {
        self.inner.get()
    }

    /// Read-only borrow of the held value paired with the current flag.
    pub fn get_value_changed(&self) -> (r: (&T, bool))
        ensures
            *r.0 == self.spec_value(),
            r.1 == self.spec_modified(),
    {
        self.inner.get_value_changed()
    }

    /// Mutable borrow of the held value. The flag is set the moment the
    /// borrow is produced, whether or not the caller writes through it.
    pub fn get_mut(&mut self) -> (r: &mut T)
        ensures
            *r == old(self).spec_value(),
            final(self).spec_value() == *final(r),
            final(self).spec_modified(),
    {
        self.inner.get_mut()
    }

    /// Consumes the wrapper and returns the held value; the flag is dropped.
    pub fn into_inner(self) -> (r: T)
        ensures
            r == self.spec_value(),
    {
        self.inner.into_inner()
    }

    /// Consumes the wrapper and returns the held value together with the
    /// final flag state.
    pub fn into_inner_changed(self) -> (r: (T, bool))
        ensures
            r.0 == self.spec_value(),
            r.1 == self.spec_modified(),
    {
        self.inner.into_inner_changed()
    }

    /// True exactly when the value has been exposed to mutation since
    /// construction or since the last reset.
    pub fn is_modified(&self) -> (r: bool)
        ensures
            r == self.spec_modified(),
    {
        self.inner.is_modified()
    }

    /// True exactly when the value has not been exposed to mutation since
    /// construction or since the last reset; always the complement of
    /// [`Resetable::is_modified`].
    pub fn is_unchanged(&self) -> (r: bool)
        ensures
            r == !self.spec_modified(),
    {
        self.inner.is_unchanged()
    }
}

impl<T: Default> Default for Resetable<T> {
    /// Wraps the default value of `T`; the flag starts cleared.
    fn default() -> (r: Self)
        ensures
            !r.spec_modified(),
            call_ensures(T::default, (), r.spec_value()),
    {
        Resetable { inner: Modified::default() }
    }
}

impl<T: Default> Resetable<T> {
    /// Wraps the default value of `T` already marked as modified.
    pub fn default_modified() -> (r: Self)
        ensures
            r.spec_modified(),
            call_ensures(T::default, (), r.spec_value()),
    {
        Resetable { inner: Modified::default_modified() }
    }
}

impl<T: Clone> Clone for Resetable<T> {
    /// The duplicate carries the same flag as the source.
    fn clone(&self) -> (r: Self)
        ensures
            r.spec_modified() == self.spec_modified(),
            cloned(self.spec_value(), r.spec_value()),
    {
        Resetable { inner: self.inner.clone() }
    }
}

/// Law: resetting is idempotent. A second reset leads to exactly the state
/// the first reset left behind, so two resets in a row are observably the
/// same as one.
pub proof fn lemma_reset_idempotent<T>(r: Resetable<T>)
    ensures
        r.spec_reset().spec_reset() == r.spec_reset(),
{
    crate::modify::lemma_assembled_observables(r.spec_value(), false);
}

} // verus!
