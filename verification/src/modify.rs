use vstd::pervasive::cloned;
use vstd::prelude::*;

verus! {

/// A value of type `T` together with a flag that records whether the value
/// has been exposed to a mutation path since construction.
///
/// Every operation that grants write access — [`Modified::set`] and
/// [`Modified::get_mut`] — sets the flag, and on this type nothing ever
/// clears it again. Obtaining the mutable borrow is what marks the flag:
/// whether the caller actually writes through it does not matter.
pub struct Modified<T> {
    pub(crate) value: T,
    pub(crate) modified: bool,
}

impl<T> Modified<T> {
    /// The value currently held.
    pub closed spec fn spec_value(&self) -> T {
        self.value
    }

    /// Whether the value has been exposed to mutation since construction.
    pub closed spec fn spec_modified(&self) -> bool {
        self.modified
    }

    /// Wraps `v`; the flag starts cleared.
    pub fn new(v: T) -> (r: Self)
        ensures
            r.spec_value() == v,
            !r.spec_modified(),
    {
        Modified { value: v, modified: false }
    }

    /// Wraps `v` already marked as modified, for a value that should count
    /// as dirty from birth.
    pub fn new_modified(v: T) -> (r: Self)
        ensures
            r.spec_value() == v,
            r.spec_modified(),
    {
        Modified { value: v, modified: true }
    }

    /// Replaces the held value with `v` and sets the flag, even when `v`
    /// equals the previous value: modified means an assignment occurred,
    /// not that the value differs.
    pub fn set(&mut self, v: T)
        ensures
            final(self).spec_value() == v,
            final(self).spec_modified(),
    {
        self.value = v;
        self.modified = true;
    }

    /// Read-only borrow of the held value; the flag is untouched.
    pub fn get(&self) -> (r: &T)
        ensures
            *r == self.spec_value(),
    {
        &self.value
    }

    /// Read-only borrow of the held value paired with the current flag.
    pub fn get_value_changed(&self) -> (r: (&T, bool))
        ensures
            *r.0 == self.spec_value(),
            r.1 == self.spec_modified(),
    {
        (&self.value, self.modified)
    }

    /// Mutable borrow of the held value. The flag is set the moment the
    /// borrow is produced, whether or not the caller writes through it.
    pub fn get_mut(&mut self) -> (r: &mut T)
        ensures
            *r == old(self).spec_value(),
            final(self).spec_value() == *final(r),
            final(self).spec_modified(),
    {
        self.modified = true;
        &mut self.value
    }

    /// Consumes the wrapper and returns the held value; the flag is dropped.
    pub fn into_inner(self) -> (r: T)
        ensures
            r == self.spec_value(),
    {
        self.value
    }

    /// Consumes the wrapper and returns the held value together with the
    /// final flag state.
    pub fn into_inner_changed(self) -> (r: (T, bool))
        ensures
            r.0 == self.spec_value(),
            r.1 == self.spec_modified(),
    {
        (self.value, self.modified)
    }

    /// Clears the flag and leaves the value untouched. Kept crate-internal:
    /// on `Modified` itself the flag never clears, only the resettable
    /// wrapper may invoke this.
    pub(crate) fn clear_modified(&mut self)
        ensures
            *final(self) == (Modified { value: old(self).spec_value(), modified: false }),
            final(self).spec_value() == old(self).spec_value(),
            !final(self).spec_modified(),
    {
        self.modified = false;
    }

    /// True exactly when the value has been exposed to mutation.
    pub fn is_modified(&self) -> (r: bool)
        ensures
            r == self.spec_modified(),
    {
        self.modified
    }

    /// True exactly when the value has not been exposed to mutation;
    /// always the complement of [`Modified::is_modified`].
    pub fn is_unchanged(&self) -> (r: bool)
        ensures
            r == !self.spec_modified(),
    {
        !self.modified
    }
}

/// Crate-internal: what the two observers yield on a wrapper assembled from
/// a value and a flag. Lets the sibling module reason about wrappers that
/// its own spec functions assemble, without seeing this module's fields.
pub(crate) proof fn lemma_assembled_observables<T>(v: T, flag: bool)
    ensures
        (Modified { value: v, modified: flag }).spec_value() == v,
        (Modified { value: v, modified: flag }).spec_modified() == flag,
{
}

impl<T: Default> Default for Modified<T> {
    /// Wraps the default value of `T`; the flag starts cleared.
    fn default() -> (r: Self)
        ensures
            !r.spec_modified(),
            call_ensures(T::default, (), r.spec_value()),
    {
        Modified { value: T::default(), modified: false }
    }
}

impl<T: Default> Modified<T> {
    /// Wraps the default value of `T` already marked as modified.
    pub fn default_modified() -> (r: Self)
        ensures
            r.spec_modified(),
            call_ensures(T::default, (), r.spec_value()),
    {
        Modified { value: T::default(), modified: true }
    }
}

impl<T: Clone> Clone for Modified<T> {
    /// The duplicate carries the same flag as the source: duplicating a
    /// dirty wrapper yields another dirty wrapper, not a fresh one.
    fn clone(&self) -> (r: Self)
        ensures
            r.spec_modified() == self.spec_modified(),
            cloned(self.spec_value(), r.spec_value()),
    {
        Modified { value: self.value.clone(), modified: self.modified }
    }
}

} // verus!
