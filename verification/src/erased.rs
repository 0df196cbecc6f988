//! Values whose type is found again at run time.

use std::sync::Arc;
use vstd::prelude::*;

verus! {

/// What tells types apart at run time.
#[verifier::external_type_specification]
#[verifier::external_body]
pub struct ExTypeId(std::any::TypeId);

/// An `Arc<dyn Any + Send + Sync>`.
#[derive(Debug)]
#[verifier::external_body]
pub struct Untyped {
    inner: Arc<dyn std::any::Any + Send + Sync>,
}

/// A shared value of any type, with the id of its type.
#[derive(Debug)]
pub struct Erased {
    key: std::any::TypeId,
    value: Untyped,
}

/// An owned value of any type: a `Box<dyn Any + Send + Sync>`.
#[derive(Debug)]
#[verifier::external_body]
pub struct ErasedBox {
    inner: Box<dyn std::any::Any + Send + Sync>,
}

/// Calls `std::any::TypeId::of`. Claims nothing by itself: of which type an id is,
/// is known to the functions below.
#[verifier::external_body]
fn type_id_of<T: 'static>() -> (id: std::any::TypeId) {
    std::any::TypeId::of::<T>()
}

/// `id` is the id of the type `T`.
pub closed spec fn is_type_id<T: 'static>(id: std::any::TypeId) -> bool {
    call_ensures(type_id_of::<T>, (), id)
}

/// `T` and `U` are different types: no id is that of both.
pub open spec fn distinct_types<T: 'static, U: 'static>() -> bool {
    forall|id: std::any::TypeId| #[trigger] is_type_id::<T>(id) ==> !is_type_id::<U>(id)
}

/// Calls `!=` of `std::any::TypeId` on the ids of two types. Claims that the ids
/// differ if and only if the types do.
#[verifier::external_body]
fn ids_differ<T: 'static, U: 'static>(t: std::any::TypeId, u: std::any::TypeId) -> (yes: bool)
    requires
        is_type_id::<T>(t),
        is_type_id::<U>(u),
    ensures
        (yes == distinct_types::<T, U>()),
{
    t != u
}

/// Whether `T` and `U` are different types.
pub fn types_differ<T: 'static, U: 'static>() -> (yes: bool)
    ensures
        yes == distinct_types::<T, U>(),
{
    ids_differ::<T, U>(type_id_of::<T>(), type_id_of::<U>())
}

/// Calls `type_id` of `dyn Any + Send + Sync`. Claims nothing by itself: whose id
/// it is, is known to `erase_arc` and `downcast_arc`.
#[verifier::external_body]
fn stored_type_id(e: &Untyped) -> (id: std::any::TypeId) {
    std::any::Any::type_id(&*e.inner)
}

/// `id` is the id of the type of the value in `e`.
closed spec fn keyed(e: Untyped, id: std::any::TypeId) -> bool {
    call_ensures(stored_type_id, (&e,), id)
}

/// Turns an `Arc<T>` into an `Arc<dyn Any + Send + Sync>`. Claims that the id of
/// the type of the value in it is that of `T`. What was put in is known to
/// `downcast_arc`.
#[verifier::external_body]
fn erase_arc<T: Send + Sync + 'static>(value: Arc<T>) -> (e: Untyped)
    ensures
        forall|id: std::any::TypeId| #[trigger] keyed(e, id) ==> is_type_id::<T>(id),
{
    Untyped { inner: value }
}

/// `e` is `value` with its type forgotten.
closed spec fn untyped_of<T: Send + Sync + 'static>(value: Arc<T>, e: Untyped) -> bool {
    call_ensures(erase_arc::<T>, (value,), e)
}

/// Calls `Arc::downcast` on `Arc<dyn Any + Send + Sync>`. Claims that it gives the
/// value that was erased if that value was a `T`, that is, if the id of its type
/// is that of `T`, and nothing otherwise.
#[verifier::external_body]
fn downcast_arc<T: Send + Sync + 'static>(e: &Untyped) -> (res: Option<Arc<T>>)
    ensures
        res is Some ==> untyped_of(res->0, *e),
        forall|value: Arc<T>| #[trigger] untyped_of(value, *e) ==> res == Some(value),
        forall|id: std::any::TypeId| #[trigger]
            keyed(*e, id) ==> (res is Some <==> is_type_id::<T>(id)),
{
    match Arc::clone(&e.inner).downcast::<T>() {
        Ok(value) => Some(value),
        Err(_) => None,
    }
}

/// `e` is `value` with its type forgotten but for the type's id.
pub closed spec fn erasure_of<T: Send + Sync + 'static>(value: Arc<T>, e: Erased) -> bool {
    is_type_id::<T>(e.key) && untyped_of(value, e.value)
}

/// The `T` that was erased to `e`, if it was a `T`.
pub open spec fn erased_as<T: Send + Sync + 'static>(e: Erased) -> Option<Arc<T>> {
    if exists|value: Arc<T>| erasure_of(value, e) {
        Some(choose|value: Arc<T>| erasure_of(value, e))
    } else {
        None
    }
}

/// Puts a `T` into a `Box<dyn Any + Send + Sync>`. Claims nothing by itself:
/// what was put in is known to `downcast_ref` and `downcast_box`.
#[verifier::external_body]
fn erase_box<T: Send + Sync + 'static>(value: T) -> (e: ErasedBox) {
    ErasedBox { inner: Box::new(value) }
}

/// `e` is `value` in a box, with its type forgotten.
pub closed spec fn boxing_of<T: Send + Sync + 'static>(value: T, e: ErasedBox) -> bool {
    call_ensures(erase_box::<T>, (value,), e)
}

/// The `T` in the box `e`, if it holds a `T`.
pub open spec fn boxed_as<T: Send + Sync + 'static>(e: ErasedBox) -> Option<T> {
    if exists|value: T| boxing_of(value, e) {
        Some(choose|value: T| boxing_of(value, e))
    } else {
        None
    }
}

/// Calls `downcast_ref` of `dyn Any + Send + Sync`. Claims that it gives the
/// value in the box if that value is a `T`, and nothing otherwise.
#[verifier::external_body]
fn downcast_ref<T: Send + Sync + 'static>(e: &ErasedBox) -> (res: Option<&T>)
    ensures
        match res {
            Some(value) => boxed_as::<T>(*e) == Some(*value),
            None => boxed_as::<T>(*e) is None,
        },
        forall|value: T| #[trigger] boxing_of(value, *e) ==> res == Some(&value),
{
    e.inner.downcast_ref::<T>()
}

/// Calls `downcast` of `Box<dyn Any + Send + Sync>`. Claims that it gives the
/// value in the box if that value is a `T`, and the same box back otherwise.
#[verifier::external_body]
fn downcast_box<T: Send + Sync + 'static>(e: ErasedBox) -> (res: Result<T, ErasedBox>)
    ensures
        match res {
            Ok(value) => boxed_as::<T>(e) == Some(value),
            Err(back) => boxed_as::<T>(e) is None && back == e,
        },
        forall|value: T| #[trigger] boxing_of(value, e) ==> res is Ok && res->Ok_0 == value,
{
    match e.inner.downcast::<T>() {
        Ok(value) => Ok(*value),
        Err(inner) => Err(ErasedBox { inner }),
    }
}

impl Erased {
    /// The id that is kept with the value is that of its type.
    #[verifier::type_invariant]
    spec fn consistent(&self) -> bool {
        keyed(self.value, self.key)
    }

    /// The id of the type of the value.
    pub closed spec fn type_key(&self) -> std::any::TypeId {
        self.key
    }

    /// Forget the type of `value`, which `downcast` finds again.
    pub fn new<T: Send + Sync + 'static>(value: Arc<T>) -> (e: Erased)
        ensures
            is_type_id::<T>(e.type_key()),
            erasure_of(value, e),
            erased_as::<T>(e) == Some(value),
    {
        let untyped: Untyped = erase_arc(value);
        let key: std::any::TypeId = stored_type_id(&untyped);
        assert(keyed(untyped, key));
        let e: Erased = Erased { key, value: untyped };
        assert(erasure_of(value, e));
        let _found: Option<Arc<T>> = downcast_arc(&e.value);
        e
    }

    /// The value, if it is a `T`.
    pub fn downcast<T: Send + Sync + 'static>(&self) -> (res: Option<Arc<T>>)
        ensures
            res == erased_as::<T>(*self),
            res is Some <==> is_type_id::<T>(self.type_key()),
            forall|value: Arc<T>| #[trigger] erasure_of(value, *self) ==> res == Some(value),
    {
        proof {
            use_type_invariant(self);
        }
        let res: Option<Arc<T>> = downcast_arc(&self.value);
        assert(res matches Some(value) ==> erasure_of(value, *self));
        res
    }
}

impl ErasedBox {
    /// Forget the type of `value`, which `get` and `take` find again.
    pub fn new<T: Send + Sync + 'static>(value: T) -> (e: ErasedBox)
        ensures
            boxing_of(value, e),
            boxed_as::<T>(e) == Some(value),
    {
        let e: ErasedBox = erase_box(value);
        assert(boxing_of(value, e));
        let _found: Option<&T> = downcast_ref(&e);
        e
    }

    /// The value, if it is a `T`.
    pub fn get<T: Send + Sync + 'static>(&self) -> (res: Option<&T>)
        ensures
            match res {
                Some(value) => boxed_as::<T>(*self) == Some(*value),
                None => boxed_as::<T>(*self) is None,
            },
            forall|value: T| #[trigger] boxing_of(value, *self) ==> res == Some(&value),
    {
        downcast_ref(self)
    }

    /// Take the value out, if it is a `T`; the box comes back otherwise.
    pub fn take<T: Send + Sync + 'static>(self) -> (res: Result<T, ErasedBox>)
        ensures
            match res {
                Ok(value) => boxed_as::<T>(self) == Some(value),
                Err(back) => boxed_as::<T>(self) is None && back == self,
            },
            forall|value: T| #[trigger] boxing_of(value, self) ==> res is Ok && res->Ok_0
                == value,
    {
        downcast_box(self)
    }
}

/// A value is not found as one of a different type.
pub proof fn law_types_are_told_apart<T: Send + Sync + 'static, U: Send + Sync + 'static>(
    value: &Arc<T>,
    e: &Erased,
)
    requires
        erasure_of(*value, *e),
        distinct_types::<T, U>(),
    ensures
        erased_as::<U>(*e) is None,
{
}

/// A value whose type was forgotten is found again as what it was, and as nothing
/// of another type.
pub proof fn law_values_are_found_as_what_they_were<
    T: Send + Sync + 'static,
    U: Send + Sync + 'static,
>(value: Arc<T>, e: &Erased, same: Option<Arc<T>>, other: Option<Arc<U>>, differ: bool)
    requires
        call_ensures(Erased::new::<T>, (value,), *e),
    ensures
        erased_as::<T>(*e) == Some(value),
        call_ensures(Erased::downcast::<T>, (e,), same) ==> same == Some(value),
        call_ensures(types_differ::<T, U>, (), differ) ==> (differ && call_ensures(
            Erased::downcast::<U>,
            (e,),
            other,
        ) ==> other is None),
{
    if distinct_types::<T, U>() {
        law_types_are_told_apart::<T, U>(&value, e);
    }
}

} // verus!
