//! Field capabilities: typed, stateless tokens that grant access to one field
//! of one record type.
//!
//! A record type implements [`FieldAccess<FIELD_NAME>`] once per accessible
//! field; a [`Field`] token for that `(record type, field id)` pair then
//! exposes the same accessors with the record as an explicit argument, so the
//! token can be passed around as a capability.

use vstd::prelude::*;

verus! {

/// The contract a record type implements once per accessible field.
///
/// `FIELD_NAME` is a compile-time identifier for the field: a given id on a
/// given record type denotes exactly one storage slot. The two spec functions
/// give the mathematical reading of that slot: `spec_get` projects it out of a
/// record, and `spec_set` is the record with only that slot overwritten.
pub trait FieldAccess<const FIELD_NAME: usize>: Sized {
    type FieldType;

    /// The current value of this field of `self`.
    spec fn spec_get(self) -> Self::FieldType;

    /// `self` with this field overwritten by `v`.
    spec fn spec_set(self, v: Self::FieldType) -> Self;

    /// Writing a value and reading it back yields that value.
    proof fn lemma_set_get(self, v: Self::FieldType)
        ensures
            self.spec_set(v).spec_get() == v,
    ;

    /// Returns a reference to this field in `self`.
    fn get(&self) -> (r: &Self::FieldType)
        ensures
            *r == self.spec_get(),
    ;

    /// Returns a mutable reference to this field in `self`.
    fn get_mut(&mut self) -> (r: &mut Self::FieldType)
        ensures
            *r == old(self).spec_get(),
            *final(self) == old(self).spec_set(*final(r)),
    ;

    /// Overwrites this field of `self` with `field_value`.
    fn set(&mut self, field_value: Self::FieldType)
        ensures
            *final(self) == old(self).spec_set(field_value),
    ;
}

/// A capability token for field `FIELD_NAME` of record type `T`.
///
/// The token is stateless and copyable: it carries no data, only the
/// compile-time fact that `T` has this field. `ARG_INDEX` names the position
/// in an evaluation context that the token reads from, so that a field set
/// bound to one slot of a future multi-record context stays distinct from one
/// bound to another.
pub struct Field<T, const FIELD_NAME: usize, const ARG_INDEX: usize> where
    T: FieldAccess<FIELD_NAME>,
 {
    _marker: core::marker::PhantomData<T>,
}

impl<T, const FIELD_NAME: usize, const ARG_INDEX: usize> Field<T, FIELD_NAME, ARG_INDEX> where
    T: FieldAccess<FIELD_NAME>,
 {
    /// The capability token for this field. Tokens carry no data, so this is
    /// the only value of the type (see [`Self::lemma_token_unique`]).
    pub closed spec fn spec_token() -> Self {
        Field { _marker: core::marker::PhantomData }
    }

    /// Law: capabilities of one type are all equal — equality between tokens
    /// is a static fact and carries no information.
    pub proof fn lemma_token_unique(a: Self, b: Self)
        ensures
            a == b,
    {
    }

    /// Returns a reference to this capability's field in `value`.
    pub fn get(self, value: &T) -> (r: &<T as FieldAccess<FIELD_NAME>>::FieldType)
        ensures
            *r == value.spec_get(),
    {
        value.get()
    }

    /// Returns a mutable reference to this capability's field in `value`.
    pub fn get_mut(self, value: &mut T) -> (r: &mut <T as FieldAccess<FIELD_NAME>>::FieldType)
        ensures
            *r == old(value).spec_get(),
            *final(value) == old(value).spec_set(*final(r)),
    {
        value.get_mut()
    }

    /// Overwrites this capability's field of `value` with `field_value`.
    pub fn set(self, value: &mut T, field_value: <T as FieldAccess<FIELD_NAME>>::FieldType)
        ensures
            *final(value) == old(value).spec_set(field_value),
    {
        value.set(field_value)
    }
}

impl<T, const FIELD_NAME: usize, const ARG_INDEX: usize> Default for Field<
    T,
    FIELD_NAME,
    ARG_INDEX,
> where T: FieldAccess<FIELD_NAME> {
    /// Capabilities carry no data, so the default token is the only token.
    fn default() -> (r: Self)
        ensures
            r == Field::<T, FIELD_NAME, ARG_INDEX>::spec_token(),
    {
        Field { _marker: core::marker::PhantomData }
    }
}

impl<T, const FIELD_NAME: usize, const ARG_INDEX: usize> Clone for Field<
    T,
    FIELD_NAME,
    ARG_INDEX,
> where T: FieldAccess<FIELD_NAME> {
    fn clone(&self) -> (r: Self)
        ensures
            r == *self,
    {
        *self
    }
}

impl<T, const FIELD_NAME: usize, const ARG_INDEX: usize> Copy for Field<
    T,
    FIELD_NAME,
    ARG_INDEX,
> where T: FieldAccess<FIELD_NAME> {

}

impl<T, const FIELD_NAME: usize, const ARG_INDEX: usize> PartialEq for Field<
    T,
    FIELD_NAME,
    ARG_INDEX,
> where T: FieldAccess<FIELD_NAME> {
    /// Two capabilities of the same type always denote the same field, so
    /// equality is a static fact and carries no information.
    fn eq(&self, _other: &Self) -> (r: bool) {
        true
    }
}

impl<T, const FIELD_NAME: usize, const ARG_INDEX: usize> vstd::std_specs::cmp::PartialEqSpecImpl for Field<
    T,
    FIELD_NAME,
    ARG_INDEX,
> where T: FieldAccess<FIELD_NAME> {
    open spec fn obeys_eq_spec() -> bool {
        true
    }

    open spec fn eq_spec(&self, _other: &Self) -> bool {
        true
    }
}

impl<T, const FIELD_NAME: usize, const ARG_INDEX: usize> Eq for Field<
    T,
    FIELD_NAME,
    ARG_INDEX,
> where T: FieldAccess<FIELD_NAME> {

}

/// Law: for any field capability and any value `v` of its field type, writing
/// `v` through the capability and reading it back yields `v` again.
pub proof fn lemma_field_round_trip<T, const FIELD_NAME: usize>(rec: T, v: T::FieldType) where
    T: FieldAccess<FIELD_NAME>,

    ensures
        rec.spec_set(v).spec_get() == v,
{
    rec.lemma_set_get(v);
}

} // verus!
