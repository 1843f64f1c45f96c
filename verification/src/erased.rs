//! Values whose type is known only at run time: the senders a node keeps for
//! topics of different data types, and the type identities it compares.
use vstd::prelude::*;
use std::any::Any;
use std::any::TypeId;
use crate::error::Error;

verus! {

#[verifier::external_type_specification]
#[verifier::external_body]
pub struct ExTypeId(std::any::TypeId);

/// A boxed value whose type is erased, so that values of different types
/// (a node's senders for topics of different data types) can be kept side
/// by side.
///
/// Its one field is a `Box<dyn Any + Send>`: neither that type (a trait
/// object of more than one trait) nor `dyn Any` can appear in a
/// specification, so the struct is opaque. `Send` keeps a node that holds
/// such values movable across threads.
#[verifier::external_body]
pub struct AnyBox {
    inner: Box<dyn Any + Send>,
}

impl AnyBox {
    /// Boxes `value`, erasing its type (`Box::new` and an unsizing
    /// coercion). Nothing is stated of the box.
    #[verifier::external_body]
    pub fn new<S: Send + 'static>(value: S) -> AnyBox {
        AnyBox { inner: Box::new(value) }
    }
}

/// Takes back the value in `buf` as a `T`, with `Box::<dyn Any>::downcast` of
/// std; when `buf` holds a value of another type, gives `on_error`. Whether
/// the types agree is not stated (types are not values here).
#[verifier::external_body]
pub fn downcast<T: 'static>(buf: AnyBox, on_error: Error) -> (r: Result<T, Error>)
    ensures
        r is Err ==> r->Err_0 == on_error,
{
    let inner: Box<dyn Any> = buf.inner;
    match inner.downcast::<T>() {
        Ok(t) => Ok(*t),
        Err(_) => Err(on_error),
    }
}

/// `std::any::TypeId::of`: the identity of type `A`.
#[verifier::external_body]
pub(crate) fn type_id_of<A: ?Sized + 'static>() -> TypeId {
    TypeId::of::<A>()
}

/// `==` of `std::any::TypeId`: whether two identities are of one type.
/// Its meaning is not stated (types are not values here).
#[verifier::external_body]
pub(crate) fn same_type_id(a: &TypeId, b: &TypeId) -> bool {
    a == b
}

} // verus!
