//! What a patch does to one optional field: keep it, clear it or set it.

use vstd::prelude::*;

verus! {

/// The change that a patch makes to one optional field.
#[derive(Debug, PartialEq, Eq)]
pub enum FieldUpdate<T> {
    /// The field stays as it is.
    Keep,
    /// The field is emptied.
    Clear,
    /// The field takes the value.
    Replace(T),
}

impl<T: Clone> FieldUpdate<T> {
    /// `self` is a copy of `original`: the same variant, and a clone of the
    /// value that `original` sets.
    pub open spec fn is_copy_of(self, original: Self) -> bool {
        match (self, original) {
            (FieldUpdate::Keep, FieldUpdate::Keep) => true,
            (FieldUpdate::Clear, FieldUpdate::Clear) => true,
            (FieldUpdate::Replace(copy), FieldUpdate::Replace(value)) => cloned::<T>(value, copy),
            _ => false,
        }
    }
}

impl<T: Clone> Clone for FieldUpdate<T> {
    /// The same update, with a clone of the value that it sets.
    fn clone(&self) -> (r: Self)
        ensures
            r.is_copy_of(*self),
    {
        match self {
            FieldUpdate::Keep => FieldUpdate::Keep,
            FieldUpdate::Clear => FieldUpdate::Clear,
            FieldUpdate::Replace(value) => FieldUpdate::Replace(value.clone()),
        }
    }
}

impl<T> Default for FieldUpdate<T> {
    fn default() -> (r: Self)
        ensures
            r == FieldUpdate::<T>::Keep,
    {
        FieldUpdate::Keep
    }
}

impl<T> FieldUpdate<T> {
    /// The value of a field once this update has been made to it.
    pub open spec fn applied_to(self, field: Option<T>) -> Option<T> {
        match self {
            FieldUpdate::Keep => field,
            FieldUpdate::Clear => None,
            FieldUpdate::Replace(value) => Some(value),
        }
    }

    /// The value that the update sets, if it sets one.
    pub open spec fn set_value(self) -> Option<T> {
        match self {
            FieldUpdate::Replace(value) => Some(value),
            _ => None,
        }
    }

    /// Makes this update to `field`.
    pub fn apply(self, field: &mut Option<T>)
        ensures
            *final(field) == self.applied_to(*old(field)),
            self is Keep ==> *final(field) == *old(field),
            self is Clear ==> *final(field) is None,
            self matches FieldUpdate::Replace(value) ==> *final(field) == Some(value),
    {
        match self {
            FieldUpdate::Keep => {},
            FieldUpdate::Clear => {
                *field = None;
            },
            FieldUpdate::Replace(value) => {
                *field = Some(value);
            },
        }
    }

    /// The value that the update sets: `Some` only for `Replace`.
    pub fn value(&self) -> (r: Option<&T>)
        ensures
            match self.set_value() {
                Some(v) => r == Some(&v),
                None => r is None,
            },
            *self matches FieldUpdate::Replace(value) ==> r == Some(&value),
            !(*self is Replace) ==> r is None,
    {
        match self {
            FieldUpdate::Replace(value) => Some(value),
            FieldUpdate::Keep | FieldUpdate::Clear => None,
        }
    }
}

/// What an update does to a field: keeping leaves it as it was, clearing
/// empties it, replacing gives it the value.
pub proof fn law_update_effect<T>(update: FieldUpdate<T>, field: Option<T>)
    ensures
        update is Keep ==> update.applied_to(field) == field,
        update is Clear ==> update.applied_to(field) is None,
        update matches FieldUpdate::Replace(value) ==> update.applied_to(field) == Some(value),
        update matches FieldUpdate::Replace(value) ==> update.set_value() == Some(value),
        !(update is Replace) ==> update.set_value() is None,
{
}

/// Making the same update twice leaves the field as making it once does.
pub proof fn law_update_is_idempotent<T>(update: FieldUpdate<T>, field: Option<T>)
    ensures
        update.applied_to(update.applied_to(field)) == update.applied_to(field),
{
}

/// Cloning gives back the very value, for every value of `T`.
pub open spec fn clones_are_exact<T: Clone>() -> bool {
    forall|a: T, b: T| #[trigger] cloned::<T>(a, b) ==> a == b
}

/// Making an update and then a copy of it leaves the field as making the
/// update once does, when cloning gives back the very value (as it does
/// for the ages and texts that patches carry).
pub proof fn law_update_then_copy_is_idempotent<T: Clone>(
    update: FieldUpdate<T>,
    first: FieldUpdate<T>,
    second: FieldUpdate<T>,
    field: Option<T>,
)
    requires
        clones_are_exact::<T>(),
        first.is_copy_of(update),
        second.is_copy_of(update),
    ensures
        second.applied_to(first.applied_to(field)) == update.applied_to(field),
{
    match (update, first, second) {
        (FieldUpdate::Replace(v), FieldUpdate::Replace(a), FieldUpdate::Replace(b)) => {
            assert(cloned::<T>(v, a));
            assert(cloned::<T>(v, b));
        },
        _ => {},
    }
}

/// Cloning an age gives back the very age.
pub proof fn lemma_age_clones_are_exact()
    ensures
        clones_are_exact::<i32>(),
{
}

/// Cloning a text gives back the very text.
pub proof fn lemma_text_clones_are_exact()
    ensures
        clones_are_exact::<String>(),
{
}

} // verus!
