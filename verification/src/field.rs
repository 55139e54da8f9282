//! A single generated attribute paired with a lock flag.
//!
//! A `Field` starts empty and unlocked. Generation passes fill it through
//! [`Field::replace`], which refuses to touch a locked field; an explicit
//! user edit goes through [`Field::set`], which stores the value and locks
//! it so that later regeneration passes leave it alone.

use vstd::prelude::*;

verus! {

#[derive(Clone, Debug)]
pub struct Field<T> {
    value: Option<T>,
    is_locked: bool,
}

impl<T> Field<T> {
    pub closed spec fn value_spec(self) -> Option<T> {
        self.value
    }

    pub closed spec fn locked_spec(self) -> bool {
        self.is_locked
    }

    /// An empty, unlocked field.
    pub fn new() -> (r: Field<T>)
        ensures
            r.value_spec() == Option::<T>::None,
            !r.locked_spec(),
    {
        Field { value: None, is_locked: false }
    }

    pub fn get(&self) -> (r: Option<&T>)
        ensures
            match r {
                Some(v) => self.value_spec() == Some(*v),
                None => self.value_spec() == Option::<T>::None,
            },
    {
        self.value.as_ref()
    }

    pub fn is_some(&self) -> (r: bool)
        ensures
            r == self.value_spec().is_some(),
    {
        self.value.is_some()
    }

    pub fn is_locked(&self) -> (r: bool)
        ensures
            r == self.locked_spec(),
    {
        self.is_locked
    }

    pub fn is_unlocked(&self) -> (r: bool)
        ensures
            r == !self.locked_spec(),
    {
        !self.is_locked
    }

    /// A direct user edit: stores the value and locks the field.
    pub fn set(&mut self, value: T)
        ensures
            final(self).value_spec() == Some(value),
            final(self).locked_spec(),
    {
        self.value = Some(value);
        self.is_locked = true;
    }

    /// A generation pass: stores the value only if the field is unlocked.
    /// A locked field is left exactly as it was.
    pub fn replace(&mut self, value: T)
        ensures
            old(self).locked_spec() ==> *final(self) == *old(self),
            !old(self).locked_spec() ==> final(self).value_spec() == Some(value)
                && !final(self).locked_spec(),
    {
        if !self.is_locked {
            self.value = Some(value);
        }
    }

    /// Protects the current value from regeneration.
    pub fn lock(&mut self)
        ensures
            final(self).value_spec() == old(self).value_spec(),
            final(self).locked_spec(),
    {
        self.is_locked = true;
    }

    /// Allows regeneration to overwrite the value again.
    pub fn unlock(&mut self)
        ensures
            final(self).value_spec() == old(self).value_spec(),
            !final(self).locked_spec(),
    {
        self.is_locked = false;
    }

    /// Clears the value and the lock, forcing future regeneration.
    pub fn clear(&mut self)
        ensures
            final(self).value_spec() == Option::<T>::None,
            !final(self).locked_spec(),
    {
        self.value = None;
        self.is_locked = false;
    }
}

impl<T> Default for Field<T> {
    fn default() -> (r: Field<T>)
        ensures
            r.value_spec() == Option::<T>::None,
            !r.locked_spec(),
    {
        Field::new()
    }
}

} // verus!
