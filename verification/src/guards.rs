//! Scoped access to a payload and to the object around it.
//!
//! A guard is the only way to a payload. It holds its claim on the payload's
//! cell for as long as it lives and gives the claim back when it is dropped,
//! on every way out of a scope. No guard can be copied or cloned: a claim is
//! given back once.
//!
//! A shared guard opens onto the payload by itself. An exclusive guard holds
//! the claim and hands it out for the embedding to open: the cell can refuse
//! that access with a panic, and nothing in this library panics.

use vstd::prelude::*;
use godot_cell::panicking::{InaccessibleGuard, MutGuard, RefGuard};
use std::marker::PhantomData;
use std::ops::{Deref, DerefMut};
use crate::cell::ref_guard_get;

verus! {

/// Shared access to a payload of type `T`.
#[verifier::reject_recursive_types(T)]
pub struct GdRef<'a, T> {
    guard: RefGuard<'a, T>,
}

impl<'a, T> GdRef<'a, T> {
    /// The claim that this guard holds.
    pub closed spec fn guard(self) -> RefGuard<'a, T> {
        self.guard
    }

    pub fn from_guard(guard: RefGuard<'a, T>) -> (bound: Self)
        ensures
            bound.guard() == guard,
    {
        Self { guard }
    }
}

impl<T> Deref for GdRef<'_, T> {
    type Target = T;

    fn deref(&self) -> &T {
        ref_guard_get(&self.guard)
    }
}

/// Exclusive access to a payload of type `T`.
#[verifier::reject_recursive_types(T)]
pub struct GdMut<'a, T> {
    guard: MutGuard<'a, T>,
}

impl<'a, T> GdMut<'a, T> {
    /// The claim that this guard holds.
    pub closed spec fn guard(self) -> MutGuard<'a, T> {
        self.guard
    }

    pub fn from_guard(guard: MutGuard<'a, T>) -> (bound: Self)
        ensures
            bound.guard() == guard,
    {
        Self { guard }
    }

    /// Gives up the guard for the claim it holds. The claim stays held.
    pub fn into_guard(self) -> (guard: MutGuard<'a, T>)
        ensures
            guard == self.guard(),
    {
        self.guard
    }

    /// The claim, to read the payload through.
    pub fn claim(&self) -> (claim: &MutGuard<'a, T>)
        ensures
            *claim == self.guard(),
    {
        &self.guard
    }

    /// The claim, to write the payload through. The guard holds whatever
    /// the claim is when the caller is done with it.
    pub fn claim_mut(&mut self) -> (claim: &mut MutGuard<'a, T>)
        ensures
            *claim == old(self).guard(),
            final(self).guard() == *final(claim),
    {
        &mut self.guard
    }
}

/// Narrows a payload of type `T` to one capability of it, `D`: in practice
/// a trait object of a trait that `T` implements.
pub trait Narrow<T, D: ?Sized> {
    fn narrow<'t>(&self, payload: &'t T) -> &'t D;

    fn narrow_mut<'t>(&self, payload: &'t mut T) -> &'t mut D;
}

/// A borrowed narrowing narrows as the narrowing itself does.
impl<T, D: ?Sized, C: Narrow<T, D>> Narrow<T, D> for &C {
    fn narrow<'t>(&self, payload: &'t T) -> (facet: &'t D)
        ensures
            call_ensures(C::narrow, (*self, payload), facet),
    {
        (*self).narrow(payload)
    }

    fn narrow_mut<'t>(&self, payload: &'t mut T) -> (facet: &'t mut D)
        ensures
            exists|inner: &mut T|
                *inner == *old(payload) && *final(inner) == *final(payload) && #[trigger] call_ensures(
                    C::narrow_mut,
                    (*self, inner),
                    facet,
                ),
    {
        (*self).narrow_mut(payload)
    }
}

/// Exclusive access to one capability `D` of a payload of type `T`.
///
/// The guard holds the exclusive claim on the payload together with the
/// narrowing that leads from the payload to the capability, so the
/// capability can only be reached while the claim is held.
#[verifier::reject_recursive_types(T)]
#[verifier::reject_recursive_types(D)]
#[verifier::reject_recursive_types(C)]
pub struct GdDynMut<'a, T, D: ?Sized, C: Narrow<T, D>> {
    guard: MutGuard<'a, T>,
    caster: C,
    _facet: PhantomData<D>,
}

impl<'a, T, D: ?Sized, C: Narrow<T, D>> GdDynMut<'a, T, D, C> {
    /// The claim that this guard holds.
    pub closed spec fn guard(self) -> MutGuard<'a, T> {
        self.guard
    }

    /// The narrowing that this guard applies.
    pub closed spec fn caster(self) -> C {
        self.caster
    }

    pub fn from_guard(guard: MutGuard<'a, T>, dynamic_caster: C) -> (bound: Self)
        ensures
            bound.guard() == guard,
            bound.caster() == dynamic_caster,
    {
        Self { guard, caster: dynamic_caster, _facet: PhantomData }
    }

    /// The claim, to read the payload through.
    pub fn claim(&self) -> (claim: &MutGuard<'a, T>)
        ensures
            *claim == self.guard(),
    {
        &self.guard
    }

    /// The narrowing that leads from the payload to the capability.
    pub fn narrowing(&self) -> (narrowing: &C)
        ensures
            *narrowing == self.caster(),
    {
        &self.caster
    }

    /// The claim, to write the payload through, and the narrowing to apply
    /// to what it opens onto. The narrowing stays; the guard holds whatever
    /// the claim is when the caller is done with it.
    pub fn open_mut(&mut self) -> (parts: (&mut MutGuard<'a, T>, &C))
        ensures
            *parts.0 == old(self).guard(),
            *parts.1 == old(self).caster(),
            final(self).guard() == *final(parts.0),
            final(self).caster() == old(self).caster(),
    {
        (&mut self.guard, &self.caster)
    }

    /// The capability of a payload that the claim was opened onto.
    pub fn facet<'t>(&self, payload: &'t T) -> (facet: &'t D)
        ensures
            call_ensures(C::narrow, (&self.caster(), payload), facet),
    {
        self.caster.narrow(payload)
    }
}

/// Read access to the object around a payload, for code that already holds
/// the payload.
///
/// `B` is the handle to the object. The reference to the payload is kept
/// only to tie the accessor to the borrow of the payload.
#[verifier::reject_recursive_types(T)]
pub struct BaseRef<'a, T, B> {
    gd: B,
    _instance: &'a T,
}

impl<'a, T, B> BaseRef<'a, T, B> {
    /// The handle to the object.
    pub closed spec fn handle(self) -> B {
        self.gd
    }

    /// The payload that the accessor is tied to.
    pub closed spec fn instance(self) -> &'a T {
        self._instance
    }

    pub fn new(gd: B, instance: &'a T) -> (base: Self)
        ensures
            base.handle() == gd,
            base.instance() == instance,
    {
        Self { gd, _instance: instance }
    }
}

impl<T, B> Deref for BaseRef<'_, T, B> {
    type Target = B;

    fn deref(&self) -> (handle: &B)
        ensures
            *handle == self.handle(),
    {
        &self.gd
    }
}

/// Write access to the object around a payload.
///
/// It can only be made together with a guard that keeps the payload out of
/// reach, so the payload and the object are never both open to writing
/// through two different paths.
#[verifier::reject_recursive_types(T)]
pub struct BaseMut<'a, T, B> {
    gd: B,
    _inaccessible_guard: InaccessibleGuard<'a, T>,
}

impl<'a, T, B> BaseMut<'a, T, B> {
    /// The handle to the object.
    pub closed spec fn handle(self) -> B {
        self.gd
    }

    /// The guard that keeps the payload out of reach.
    pub closed spec fn inaccessible_guard(self) -> InaccessibleGuard<'a, T> {
        self._inaccessible_guard
    }

    pub fn new(gd: B, inaccessible_guard: InaccessibleGuard<'a, T>) -> (base: Self)
        ensures
            base.handle() == gd,
            base.inaccessible_guard() == inaccessible_guard,
    {
        Self { gd, _inaccessible_guard: inaccessible_guard }
    }
}

impl<T, B> Deref for BaseMut<'_, T, B> {
    type Target = B;

    fn deref(&self) -> (handle: &B)
        ensures
            *handle == self.handle(),
    {
        &self.gd
    }
}

impl<T, B> DerefMut for BaseMut<'_, T, B> {
    fn deref_mut(&mut self) -> (handle: &mut B)
        ensures
            *handle == old(self).handle(),
            final(self).handle() == *final(handle),
            final(self).inaccessible_guard() == old(self).inaccessible_guard(),
    {
        &mut self.gd
    }
}

/// Read access to the object around a script instance.
pub type ScriptBaseRef<'a, T, B> = BaseRef<'a, T, B>;

/// Write access to the object around a script instance.
pub type ScriptBaseMut<'a, T, B> = BaseMut<'a, T, B>;

} // verus!
