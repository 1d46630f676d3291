//! The expression abstraction: pure computations evaluable against a context.
//!
//! A context is a tuple of references to the records an expression operates
//! over; in the filtering case, exactly one record reference. A field
//! capability is the primitive expression: it extracts its field's current
//! value (by copy) from the record at its context position. Richer
//! combinators (equality against a constant, boolean connectives) would be
//! further implementations of [`Expr`]; the abstraction is the seam where
//! they plug in without touching the table or the capability mechanism.

use vstd::prelude::*;

use crate::field::Field;
use crate::field::FieldAccess;

verus! {

/// Yields the argument at position `ARG_INDEX` of a context tuple.
///
/// The single-record context implements slot 0; a multi-record context would
/// add one implementation per slot. The index keeps a capability bound to one
/// slot distinct from one bound to another.
pub trait CtxArg<const ARG_INDEX: usize> {
    type Output;

    /// The argument at position `ARG_INDEX` of `self`.
    spec fn spec_arg(self) -> Self::Output;

    /// Returns the argument at position `ARG_INDEX` of `self`.
    fn arg(&self) -> (out: Self::Output)
        ensures
            out == self.spec_arg(),
    ;
}

impl<'a, R> CtxArg<0> for (&'a R,) {
    type Output = &'a R;

    open spec fn spec_arg(self) -> &'a R {
        self.0
    }

    fn arg(&self) -> (out: &'a R)
        ensures
            out == self.spec_arg(),
    {
        self.0
    }
}

/// A pure computation from a context of type `Ctx` to a typed output.
///
/// Evaluation is side-effect-free and deterministic: `eval` returns exactly
/// `spec_eval`, a function of the expression value and the context alone, so
/// evaluating the same expression twice against the same context yields the
/// same result.
pub trait Expr<Ctx>: Sized {
    type Output;

    /// The value this expression denotes on context `ctx`.
    spec fn spec_eval(self, ctx: Ctx) -> Self::Output;

    /// Evaluates this expression against `ctx`.
    fn eval(self, ctx: &Ctx) -> (out: Self::Output)
        ensures
            out == self.spec_eval(*ctx),
    ;
}

impl<'a, T, Ctx, const FIELD_NAME: usize, const ARG_INDEX: usize> Expr<Ctx> for Field<
    T,
    FIELD_NAME,
    ARG_INDEX,
> where
    T: FieldAccess<FIELD_NAME> + 'a,
    Ctx: CtxArg<ARG_INDEX, Output = &'a T>,
    <T as FieldAccess<FIELD_NAME>>::FieldType: Copy,
 {
    type Output = <T as FieldAccess<FIELD_NAME>>::FieldType;

    /// A field capability denotes the current value of its field of the
    /// record at its context position.
    open spec fn spec_eval(self, ctx: Ctx) -> <T as FieldAccess<FIELD_NAME>>::FieldType {
        (*ctx.spec_arg()).spec_get()
    }

    fn eval(self, ctx: &Ctx) -> (out: <T as FieldAccess<FIELD_NAME>>::FieldType)
        ensures
            out == self.spec_eval(*ctx),
    {
        *self.get(ctx.arg())
    }
}

} // verus!
