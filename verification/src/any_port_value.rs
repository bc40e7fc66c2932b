//! Values of any type behind one uniform handle.

use core::any::{Any, TypeId};
use vstd::prelude::*;

verus! {

/// What a type needs to be the value of a port: it can be shared between
/// threads and its identity can be inspected at run time.
pub trait AnyPortValue: 'static + Send + Sync {

}

impl<T: 'static + Send + Sync> AnyPortValue for T {

}

#[verifier::external_type_specification]
#[verifier::external_body]
pub struct ExTypeId(TypeId);

/// `TypeId::of`: the run-time identity of the type `T`. Nothing is claimed
/// of it: the identity of a type has no name in contracts.
#[verifier::external_body]
pub(crate) fn type_id_of<T: AnyPortValue>() -> (id: TypeId) {
    TypeId::of::<T>()
}

/// `TypeId`'s `==`: whether two identities are the same. The contract claims
/// that the result is the equality of the two values.
#[verifier::external_body]
pub(crate) fn same_type_id(a: &TypeId, b: &TypeId) -> (same: bool)
    ensures
        same == (*a == *b),
{
    a == b
}

/// An optional value of some type that is only known at run time.
///
/// It is a `Box<dyn Any + Send + Sync>`, which holds an `Option<T>` for the
/// type `T` it was made with. The box is hidden from Verus, which does not
/// take the type `dyn Any`.
#[derive(Debug)]
#[verifier::external_body]
pub struct ErasedValue {
    boxed: Box<dyn Any + Send + Sync>,
}

/// Whether the optional value behind the hidden type is a `Some`.
pub uninterp spec fn erased_filled(erased: ErasedValue) -> bool;

/// `Box::new`, as a `dyn Any`: hides the type of `value`. The box holds a
/// value exactly if `value` is one.
#[verifier::external_body]
pub(crate) fn erase<T: AnyPortValue>(value: Option<T>) -> (erased: ErasedValue)
    ensures
        erased_filled(erased) == (value is Some),
{
    ErasedValue { boxed: Box::new(value) }
}

/// `<dyn Any>::downcast_ref`: the optional value, if the box was made with
/// the type `T`.
#[verifier::external_body]
pub(crate) fn peek<T: AnyPortValue>(erased: &ErasedValue) -> (typed: Option<&Option<T>>)
    ensures
        typed is Some ==> (*typed->0 is Some) == erased_filled(*erased),
{
    erased.boxed.downcast_ref::<Option<T>>()
}

/// `<dyn Any>::downcast_mut`: the optional value for writing, if the box was
/// made with the type `T`; what is written through the reference is what the
/// box holds afterwards. Where the box was made with another type, nothing is
/// changed.
#[verifier::external_body]
pub(crate) fn peek_mut<T: AnyPortValue>(erased: &mut ErasedValue) -> (typed: Option<
    &mut Option<T>,
>)
    ensures
        typed is None ==> *final(erased) == *old(erased),
        typed is Some ==> (*typed->0 is Some) == erased_filled(*old(erased)),
        typed is Some ==> erased_filled(*final(erased)) == (*final(typed->0) is Some),
{
    erased.boxed.downcast_mut::<Option<T>>()
}

} // verus!
