//! Handles that lead to one capability of a payload rather than to the
//! payload itself.

use vstd::prelude::*;
use std::marker::PhantomData;
use crate::guards::{GdDynMut, GdMut, Narrow};
use crate::storage::{conflict_of, BindError, InstanceStorage};

verus! {

/// A narrowing that is fixed to one payload type `T` and one capability
/// `D`, ready to be applied to an object.
#[verifier::reject_recursive_types(T)]
#[verifier::reject_recursive_types(D)]
#[verifier::reject_recursive_types(C)]
pub struct Downcast<T, D: ?Sized, C: Narrow<T, D>> {
    converter: C,
    _payload: PhantomData<T>,
    _facet: PhantomData<D>,
}

impl<T, D: ?Sized, C: Narrow<T, D>> Downcast<T, D, C> {
    /// The narrowing that is applied.
    pub closed spec fn converter(self) -> C {
        self.converter
    }

    /// What narrowing comes to, given the answer to the exclusive claim: a
    /// guard that holds the very same claim and applies this narrowing, or
    /// the same refusal.
    pub fn narrowed<'o>(&'o self, claim: Result<GdMut<'o, T>, BindError>) -> (bound: Result<
        GdDynMut<'o, T, D, &'o C>,
        BindError,
    >)
        ensures
            match claim {
                Ok(held) => bound matches Ok(guard) && guard.guard() == held.guard()
                    && *guard.caster() == self.converter(),
                Err(error) => bound == Err::<GdDynMut<'o, T, D, &'o C>, BindError>(error),
            },
    {
        match claim {
            Ok(held) => Ok(GdDynMut::from_guard(held.into_guard(), &self.converter)),
            Err(error) => Err(error),
        }
    }

    /// Claims the payload of `obj` exclusively and narrows it. The
    /// capability is reached through the returned guard and through nothing
    /// else.
    pub fn call<'o>(&'o self, obj: &'o InstanceStorage<T>) -> (bound: Result<
        GdDynMut<'o, T, D, &'o C>,
        BindError,
    >)
        ensures
            bound matches Ok(guard) ==> *guard.caster() == self.converter(),
            bound matches Err(error) ==> error.conflict() == conflict_of(error.refusal()),
    {
        self.narrowed(obj.bind_mut())
    }
}

/// Fixes a narrowing to the payload type of an object and to a capability.
/// The object and the marker only select the two types.
pub fn make_fn<T, D: ?Sized, C: Narrow<T, D>>(
    _inferred_type: &InstanceStorage<T>,
    _known_type: PhantomData<D>,
    ref_converter: C,
) -> (downcast: Downcast<T, D, C>)
    ensures
        downcast.converter() == ref_converter,
{
    Downcast { converter: ref_converter, _payload: PhantomData, _facet: PhantomData }
}

/// An object together with the narrowing to one capability `D` of its
/// payload.
#[verifier::reject_recursive_types(T)]
#[verifier::reject_recursive_types(D)]
#[verifier::reject_recursive_types(C)]
pub struct DynGd<T, D: ?Sized, C: Narrow<T, D>> {
    obj: InstanceStorage<T>,
    erased_downcast: Downcast<T, D, C>,
}

impl<T, D: ?Sized, C: Narrow<T, D>> DynGd<T, D, C> {
    /// The narrowing that this handle applies.
    pub closed spec fn converter(self) -> C {
        self.erased_downcast.converter()
    }

    /// The object behind the handle.
    pub closed spec fn obj(self) -> InstanceStorage<T> {
        self.obj
    }

    /// A handle to `obj` that narrows its payload with `ref_converter`.
    pub fn new(obj: InstanceStorage<T>, ref_converter: C) -> (handle: Self)
        ensures
            handle.converter() == ref_converter,
            handle.obj() == obj,
    {
        let erased_downcast = make_fn(&obj, PhantomData, ref_converter);
        DynGd { obj, erased_downcast }
    }

    /// The object behind the handle.
    pub fn storage(&self) -> (storage: &InstanceStorage<T>)
        ensures
            *storage == self.obj(),
    {
        &self.obj
    }

    /// Claims the payload exclusively and narrows it to the capability.
    pub fn dbind_mut(&self) -> (bound: Result<GdDynMut<'_, T, D, &C>, BindError>)
        ensures
            bound matches Ok(guard) ==> *guard.caster() == self.converter(),
            bound matches Err(error) ==> error.conflict() == conflict_of(error.refusal()),
    {
        self.erased_downcast.call(&self.obj)
    }
}

} // verus!
