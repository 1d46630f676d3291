//! A small demonstration record exercising the field-capability contract:
//! one numeric field, one string field, one vector field.

use vstd::prelude::*;

use crate::field::Field;
use crate::field::FieldAccess;

verus! {

/// A record type with three externally accessible fields.
pub struct Test {
    pub age: usize,
    pub category: &'static str,
    pub items: Vec<i32>,
}

impl FieldAccess<0> for Test {
    type FieldType = usize;

    open spec fn spec_get(self) -> usize {
        self.age
    }

    open spec fn spec_set(self, v: usize) -> Self {
        Test { age: v, ..self }
    }

    proof fn lemma_set_get(self, v: usize) {
    }

    fn get(&self) -> (r: &usize) {
        &self.age
    }

    fn get_mut(&mut self) -> (r: &mut usize) {
        &mut self.age
    }

    fn set(&mut self, field_value: usize) {
        self.age = field_value;
    }
}

impl FieldAccess<1> for Test {
    type FieldType = &'static str;

    open spec fn spec_get(self) -> &'static str {
        self.category
    }

    open spec fn spec_set(self, v: &'static str) -> Self {
        Test { category: v, ..self }
    }

    proof fn lemma_set_get(self, v: &'static str) {
    }

    fn get(&self) -> (r: &&'static str) {
        &self.category
    }

    fn get_mut(&mut self) -> (r: &mut &'static str) {
        &mut self.category
    }

    fn set(&mut self, field_value: &'static str) {
        self.category = field_value;
    }
}

impl FieldAccess<2> for Test {
    type FieldType = Vec<i32>;

    open spec fn spec_get(self) -> Vec<i32> {
        self.items
    }

    open spec fn spec_set(self, v: Vec<i32>) -> Self {
        Test { items: v, ..self }
    }

    proof fn lemma_set_get(self, v: Vec<i32>) {
    }

    fn get(&self) -> (r: &Vec<i32>) {
        &self.items
    }

    fn get_mut(&mut self) -> (r: &mut Vec<i32>) {
        &mut self.items
    }

    fn set(&mut self, field_value: Vec<i32>) {
        self.items = field_value;
    }
}

/// The bundle of one capability per accessible field of [`Test`].
/// `ARG_INDEX` names the context slot every capability of the bundle binds.
pub struct TestFields<const ARG_INDEX: usize> {
    pub age: Field<Test, 0, ARG_INDEX>,
    pub category: Field<Test, 1, ARG_INDEX>,
    pub items: Field<Test, 2, ARG_INDEX>,
}

impl<const ARG_INDEX: usize> TestFields<ARG_INDEX> {
    /// The one value of the bundle: capabilities carry no data.
    pub open spec fn spec_default() -> Self {
        TestFields {
            age: Field::spec_token(),
            category: Field::spec_token(),
            items: Field::spec_token(),
        }
    }
}

impl<const ARG_INDEX: usize> Default for TestFields<ARG_INDEX> {
    fn default() -> (r: Self)
        ensures
            r == TestFields::<ARG_INDEX>::spec_default(),
    {
        TestFields { age: Field::default(), category: Field::default(), items: Field::default() }
    }
}

/// Law: writing one field of a [`Test`] record leaves the value of every
/// other field unchanged.
pub proof fn lemma_set_preserves_other_fields(
    t: Test,
    age: usize,
    category: &'static str,
    items: Vec<i32>,
)
    ensures
        <Test as FieldAccess<1>>::spec_get(<Test as FieldAccess<0>>::spec_set(t, age))
            == <Test as FieldAccess<1>>::spec_get(t),
        <Test as FieldAccess<2>>::spec_get(<Test as FieldAccess<0>>::spec_set(t, age))
            == <Test as FieldAccess<2>>::spec_get(t),
        <Test as FieldAccess<0>>::spec_get(<Test as FieldAccess<1>>::spec_set(t, category))
            == <Test as FieldAccess<0>>::spec_get(t),
        <Test as FieldAccess<2>>::spec_get(<Test as FieldAccess<1>>::spec_set(t, category))
            == <Test as FieldAccess<2>>::spec_get(t),
        <Test as FieldAccess<0>>::spec_get(<Test as FieldAccess<2>>::spec_set(t, items))
            == <Test as FieldAccess<0>>::spec_get(t),
        <Test as FieldAccess<1>>::spec_get(<Test as FieldAccess<2>>::spec_set(t, items))
            == <Test as FieldAccess<1>>::spec_get(t),
{
}

} // verus!
