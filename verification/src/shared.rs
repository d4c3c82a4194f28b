//! State shared between tasks: a value in a `RefCell`, guarded by a mutex that
//! runs its users in a critical section.
use core::cell::RefCell;
use embassy_sync::blocking_mutex::raw::CriticalSectionRawMutex;
use embassy_sync::blocking_mutex::Mutex;
use vstd::prelude::*;

verus! {

/// Declares `embassy_sync`'s critical-section mutex mechanism.
#[verifier::external_type_specification]
#[verifier::external_body]
pub struct ExCriticalSectionRawMutex(CriticalSectionRawMutex);

/// Declares `embassy_sync`'s blocking mutex.
#[verifier::external_type_specification]
#[verifier::external_body]
#[verifier::reject_recursive_types(R)]
#[verifier::reject_recursive_types(T)]
pub struct ExMutex<R, T: ?Sized>(Mutex<R, T>);

/// Declares std's `RefCell`.
#[verifier::external_type_specification]
#[verifier::external_body]
#[verifier::reject_recursive_types(T)]
pub struct ExRefCell<T: ?Sized>(RefCell<T>);

/// A value that several tasks read and write, one at a time.
///
/// Only the library reaches the cell, through `with_shared` and `snapshot` of the
/// board that the value belongs to. They borrow it only while a function of that
/// board reads or changes it, and no caller's code runs meanwhile, so a borrow
/// never meets another.
#[verifier::reject_recursive_types(S)]
pub struct Shared<S> {
    pub(crate) cell: Mutex<CriticalSectionRawMutex, RefCell<S>>,
}

/// Puts a value into a `RefCell` and that into a mutex, with `embassy_sync`'s
/// `Mutex::new`. The cell is not borrowed and the mutex not locked. What the cell
/// holds changes behind shared references, so nothing is said of it.
#[verifier::external_body]
fn new_cell<S>(state: S) -> (cell: Mutex<CriticalSectionRawMutex, RefCell<S>>)
{
    Mutex::new(RefCell::new(state))
}

impl<S> Shared<S> {
    /// Shares `state`: the first task to use it finds it as it is here.
    pub fn new(state: S) -> (shared: Shared<S>) {
        Shared { cell: new_cell(state) }
    }
}

/// Calls `embassy_sync`'s `Mutex::lock`, borrows the `RefCell` and copies the
/// value out; the borrow ends with the copy. Which value that is depends on the
/// other tasks, so nothing is said of it.
#[verifier::external_body]
pub(crate) fn lock_copy<S: Copy>(shared: &Shared<S>) -> (state: S)
{
    shared.cell.lock(|cell| *cell.borrow())
}

} // verus!
