//! The cell that holds a payload, and what is taken on trust about it.
//!
//! The payload of an engine object sits in a `GdCell`, which keeps count of
//! the references it has handed out behind a shared reference to itself. Its
//! state is therefore not a function of any value that the verifier sees, and
//! nothing is claimed here about which calls succeed: every use of a result
//! in this library holds for either answer.
//!
//! Only calls that return on every input are made from here. Reading or
//! writing the payload through a `MutGuard` is not among them: the cell
//! checks on each such access that the guard is its latest exclusive one and
//! panics if it is not, which a leaked `InaccessibleGuard` can bring about.
//! The guards of this library therefore hold an exclusive claim and hand it
//! out; opening it is left to the embedding.

use vstd::prelude::*;
use godot_cell::panicking::{GdCell, InaccessibleGuard, MutGuard, RefGuard};
use std::ops::Deref;

verus! {

#[verifier::external_type_specification]
#[verifier::external_body]
#[verifier::reject_recursive_types(T)]
pub struct ExGdCell<T>(GdCell<T>);

#[verifier::external_type_specification]
#[verifier::external_body]
#[verifier::reject_recursive_types(T)]
pub struct ExRefGuard<'a, T>(RefGuard<'a, T>);

#[verifier::external_type_specification]
#[verifier::external_body]
#[verifier::reject_recursive_types(T)]
pub struct ExMutGuard<'a, T>(MutGuard<'a, T>);

#[verifier::external_type_specification]
#[verifier::external_body]
#[verifier::reject_recursive_types(T)]
pub struct ExInaccessibleGuard<'a, T>(InaccessibleGuard<'a, T>);

/// `GdCell::new` puts a value into a new cell. Nothing is claimed of the
/// cell.
pub assume_specification<T>[ GdCell::<T>::new ](value: T) -> (cell: GdCell<T>)
;

/// `GdCell::is_currently_bound` tells whether any reference handed out by
/// the cell is still alive. Nothing is claimed of the answer.
pub assume_specification<T>[ GdCell::<T>::is_currently_bound ](cell: &GdCell<T>) -> (bound: bool)
;

/// `GdCell::borrow`: a guard for shared access, or the text of the cell's
/// refusal. Nothing is claimed of which one comes back.
#[verifier::external_body]
pub(crate) fn cell_borrow<'c, T>(cell: &'c GdCell<T>) -> (guard: Result<RefGuard<'c, T>, String>) {
    match cell.borrow() {
        Ok(guard) => Ok(guard),
        Err(refusal) => Err(refusal.to_string()),
    }
}

/// `GdCell::borrow_mut`: a guard for exclusive access, or the text of the
/// cell's refusal. Nothing is claimed of which one comes back.
#[verifier::external_body]
pub(crate) fn cell_borrow_mut<'c, T>(cell: &'c GdCell<T>) -> (guard: Result<
    MutGuard<'c, T>,
    String,
>) {
    match cell.borrow_mut() {
        Ok(guard) => Ok(guard),
        Err(refusal) => Err(refusal.to_string()),
    }
}

/// `GdCell::make_inaccessible`: a guard that keeps the reference it was
/// given out of use, or the text of the cell's refusal. Nothing is claimed of
/// which one comes back.
#[verifier::external_body]
pub(crate) fn cell_make_inaccessible<'c, 'v, T>(
    cell: &'c GdCell<T>,
    current: &'v mut T,
) -> (guard: Result<InaccessibleGuard<'v, T>, String>) where 'c: 'v {
    match cell.make_inaccessible(current) {
        Ok(guard) => Ok(guard),
        Err(refusal) => Err(refusal.to_string()),
    }
}

/// `RefGuard::deref`: the payload behind a shared guard. Nothing is claimed
/// of the payload.
#[verifier::external_body]
pub(crate) fn ref_guard_get<'g, 'a, T>(guard: &'g RefGuard<'a, T>) -> (payload: &'g T) {
    guard.deref()
}

} // verus!
