//! The payload slot of one engine object, and binding to it.

use vstd::prelude::*;
use vstd::string::*;
use godot_cell::panicking::{GdCell, InaccessibleGuard, MutGuard, RefGuard};
use crate::cell::{cell_borrow, cell_borrow_mut, cell_make_inaccessible};
use crate::guards::{BaseMut, GdMut, GdRef};

verus! {

/// What stood in the way of a claim, as far as the cell tells.
#[derive(Clone, Copy, Debug, PartialEq, Eq, Structural)]
pub enum Conflict {
    /// A guard for exclusive access is alive and in use.
    AlreadyExclusive,
    /// Guards for shared access are alive.
    AlreadyShared,
    /// Anything else the cell refuses a claim for.
    Other,
}

/// The cell's words for a claim that met an exclusive guard, in the one
/// version of the cell that this library is built on.
pub open spec fn exclusive_refusal() -> Seq<char> {
    "cannot borrow while accessible mutable borrow exists"@
}

/// The cell's words for an exclusive claim that met shared guards, in the
/// same version of the cell.
pub open spec fn shared_refusal() -> Seq<char> {
    "cannot borrow mutable while shared borrow exists"@
}

/// The conflict that a refusal of the cell speaks of.
pub open spec fn conflict_of(refusal: Seq<char>) -> Conflict {
    if refusal == exclusive_refusal() {
        Conflict::AlreadyExclusive
    } else if refusal == shared_refusal() {
        Conflict::AlreadyShared
    } else {
        Conflict::Other
    }
}

/// The text of a failed binding, naming the payload's type and the cell's
/// reason.
pub open spec fn bind_message(payload_type: Seq<char>, refusal: Seq<char>) -> Seq<char> {
    "cannot borrow payload of type `"@ + payload_type + "`: "@ + refusal
}

/// A claim on a payload that was refused. It is an ordinary value for the
/// caller that made the claim; nothing is aborted.
#[derive(Debug)]
pub struct BindError {
    conflict: Conflict,
    refusal: String,
}

impl BindError {
    /// What stood in the way.
    pub closed spec fn conflict(&self) -> Conflict {
        self.conflict
    }

    /// The cell's own words.
    pub closed spec fn refusal(&self) -> Seq<char> {
        self.refusal@
    }

    /// Reads the cell's refusal.
    pub fn from_refusal(refusal: String) -> (error: Self)
        ensures
            error.refusal() == refusal@,
            error.conflict() == conflict_of(refusal@),
    {
        let exclusive = String::from_str("cannot borrow while accessible mutable borrow exists");
        let shared = String::from_str("cannot borrow mutable while shared borrow exists");
        let conflict = if refusal == exclusive {
            Conflict::AlreadyExclusive
        } else if refusal == shared {
            Conflict::AlreadyShared
        } else {
            Conflict::Other
        };
        BindError { conflict, refusal }
    }

    pub fn kind(&self) -> (conflict: Conflict)
        ensures
            conflict == self.conflict(),
    {
        self.conflict
    }

    /// The diagnostic for this refusal of access to a payload of the type
    /// named `payload_type`.
    pub fn message(&self, payload_type: &str) -> (text: String)
        ensures
            text@ == bind_message(payload_type@, self.refusal()),
    {
        let mut text = String::from_str("cannot borrow payload of type `");
        text.append(payload_type);
        text.append("`: ");
        text.append(self.refusal.as_str());
        text
    }
}

/// What a claim for shared access comes to, given the cell's answer: the
/// guard around the cell's guard, or the refusal as the cell worded it.
pub fn shared_binding<'a, T>(claim: Result<RefGuard<'a, T>, String>) -> (bound: Result<
    GdRef<'a, T>,
    BindError,
>)
    ensures
        match claim {
            Ok(guard) => bound matches Ok(held) && held.guard() == guard,
            Err(refusal) => bound matches Err(error) && error.refusal() == refusal@
                && error.conflict() == conflict_of(refusal@),
        },
{
    match claim {
        Ok(guard) => Ok(GdRef::from_guard(guard)),
        Err(refusal) => Err(BindError::from_refusal(refusal)),
    }
}

/// What a claim for exclusive access comes to, given the cell's answer.
pub fn exclusive_binding<'a, T>(claim: Result<MutGuard<'a, T>, String>) -> (bound: Result<
    GdMut<'a, T>,
    BindError,
>)
    ensures
        match claim {
            Ok(guard) => bound matches Ok(held) && held.guard() == guard,
            Err(refusal) => bound matches Err(error) && error.refusal() == refusal@
                && error.conflict() == conflict_of(refusal@),
        },
{
    match claim {
        Ok(guard) => Ok(GdMut::from_guard(guard)),
        Err(refusal) => Err(BindError::from_refusal(refusal)),
    }
}

/// What opening the object for writing comes to, given the cell's answer to
/// putting the payload out of reach.
pub fn base_binding<'a, T, B>(gd: B, claim: Result<InaccessibleGuard<'a, T>, String>) -> (base:
    Result<BaseMut<'a, T, B>, BindError>)
    ensures
        match claim {
            Ok(guard) => base matches Ok(opened) && opened.handle() == gd
                && opened.inaccessible_guard() == guard,
            Err(refusal) => base matches Err(error) && error.refusal() == refusal@
                && error.conflict() == conflict_of(refusal@),
        },
{
    match claim {
        Ok(guard) => Ok(BaseMut::new(gd, guard)),
        Err(refusal) => Err(BindError::from_refusal(refusal)),
    }
}

/// The slot that holds the payload of one engine object.
///
/// Whether a claim is granted is up to the cell in the slot and depends on
/// the guards that are alive; what is stated of a claim holds either way.
#[verifier::reject_recursive_types(T)]
pub struct InstanceStorage<T> {
    user_instance: GdCell<T>,
}

impl<T> InstanceStorage<T> {
    /// A slot that holds `user_instance`.
    pub fn new(user_instance: T) -> (storage: Self) {
        InstanceStorage { user_instance: GdCell::new(user_instance) }
    }

    /// Whether any guard on the payload is alive.
    pub fn is_bound(&self) -> (bound: bool) {
        self.user_instance.is_currently_bound()
    }

    /// Claims shared access to the payload.
    pub fn bind(&self) -> (bound: Result<GdRef<'_, T>, BindError>)
        ensures
            bound matches Err(error) ==> error.conflict() == conflict_of(error.refusal()),
    {
        shared_binding(cell_borrow(&self.user_instance))
    }

    /// Claims exclusive access to the payload.
    pub fn bind_mut(&self) -> (bound: Result<GdMut<'_, T>, BindError>)
        ensures
            bound matches Err(error) ==> error.conflict() == conflict_of(error.refusal()),
    {
        exclusive_binding(cell_borrow_mut(&self.user_instance))
    }

    /// Opens the object around the payload for writing: the payload is put
    /// out of reach, and `gd`, the handle to the object, is handed out
    /// together with the guard that keeps it so. `instance` is the reference
    /// through which the payload is currently held exclusively.
    pub fn base_mut<'a, B>(&'a self, gd: B, instance: &'a mut T) -> (base: Result<
        BaseMut<'a, T, B>,
        BindError,
    >)
        ensures
            base matches Ok(opened) ==> opened.handle() == gd,
            base matches Err(error) ==> error.conflict() == conflict_of(error.refusal()),
    {
        base_binding(gd, cell_make_inaccessible(&self.user_instance, instance))
    }
}

} // verus!
