//! The ledger that many threads share: one table behind one lock.
//!
//! Every operation takes the lock, performs one operation of the table, and gives
//! the lock back before it returns. What an operation finds in the table depends on
//! what other threads did before it took the lock, so the contracts here state only
//! what holds of every answer; what is answered in which state, and how the state
//! changes, is stated by the operations of `BorrowTable`.

use crate::state::LedgerResult;
use crate::table::{BorrowTable, MAX_SHARED_BORROWS};
use spin::{Mutex, MutexGuard};
use vstd::prelude::*;

verus! {

/// `spin::mutex::Mutex`, the lock.
#[verifier::external_type_specification]
#[verifier::external_body]
#[verifier::reject_recursive_types(T)]
#[verifier::reject_recursive_types(R)]
pub struct ExMutex<T: ?Sized, R>(spin::mutex::Mutex<T, R>);

/// `spin::mutex::MutexGuard`, which holds the lock until it is dropped.
#[verifier::external_type_specification]
#[verifier::external_body]
#[verifier::reject_recursive_types(T)]
pub struct ExMutexGuard<'a, T: 'a + ?Sized>(MutexGuard<'a, T>);

/// `spin::relax::Spin`, the way in which the lock waits.
#[verifier::external_type_specification]
#[verifier::external_body]
pub struct ExSpin(spin::Spin);

/// A new lock around `table`: `spin::Mutex::new`.
///
/// Trusted, with nothing claimed of the lock.
#[verifier::external_body]
fn guarded(table: BorrowTable) -> (lock: Mutex<BorrowTable>) {
    Mutex::new(table)
}

/// Waits for the lock and takes it: `spin::Mutex::lock`.
///
/// Trusted, with nothing claimed of the guard. The call spins for as long as the
/// lock is taken. No function of this module keeps a guard beyond its own end, nor
/// asks for the lock while it holds a guard.
#[verifier::external_body]
fn acquire<'a>(lock: &'a Mutex<BorrowTable>) -> (guard: MutexGuard<'a, BorrowTable>) {
    lock.lock()
}

/// The table that a guard gives access to: `DerefMut::deref_mut` of `spin::MutexGuard`.
///
/// Trusted, with nothing claimed of the table that is found.
#[verifier::external_body]
fn table_of<'a, 'b>(guard: &'a mut MutexGuard<'b, BorrowTable>) -> (table: &'a mut BorrowTable) {
    &mut **guard
}

/// A borrow table behind a lock, for use by many threads at once.
pub struct Ledger {
    table: Mutex<BorrowTable>,
}

/// Initialize the ledger: a new one, in which every address is free.
///
/// The lock is made around the table that `BorrowTable::new` gives, which is empty.
pub fn jlrs_ledger_init() -> (ledger: Ledger) {
    Ledger { table: guarded(BorrowTable::new()) }
}

/// Check if the given address is tracked as a shared borrow.
///
/// Returns `LedgerResult::OkTrue` if it is borrowed sharedly, or `LedgerResult::OkFalse` if
/// it isn't: the answer of `BorrowTable::is_borrowed_shared` for the table that is found
/// under the lock.
pub fn jlrs_ledger_is_borrowed_shared(ledger: &Ledger, addr: usize) -> (result: LedgerResult)
    ensures
        result != LedgerResult::Error,
{
    let mut guard = acquire(&ledger.table);
    let table = table_of(&mut guard);
    LedgerResult::from_bool(table.is_borrowed_shared(addr))
}

/// Check if the given address is tracked as an exclusive borrow.
///
/// Returns `LedgerResult::OkTrue` if it is borrowed exclusively, or `LedgerResult::OkFalse`
/// if it isn't: the answer of `BorrowTable::is_borrowed_exclusive` for the table that is
/// found under the lock.
pub fn jlrs_ledger_is_borrowed_exclusive(ledger: &Ledger, addr: usize) -> (result: LedgerResult)
    ensures
        result != LedgerResult::Error,
{
    let mut guard = acquire(&ledger.table);
    let table = table_of(&mut guard);
    LedgerResult::from_bool(table.is_borrowed_exclusive(addr))
}

/// Check if the given address is tracked in some way.
///
/// Returns `LedgerResult::OkTrue` if it is borrowed, or `LedgerResult::OkFalse` if it isn't:
/// the answer of `BorrowTable::is_borrowed` for the table that is found under the lock.
pub fn jlrs_ledger_is_borrowed(ledger: &Ledger, addr: usize) -> (result: LedgerResult)
    ensures
        result != LedgerResult::Error,
{
    let mut guard = acquire(&ledger.table);
    let table = table_of(&mut guard);
    LedgerResult::from_bool(table.is_borrowed(addr))
}

/// The number of active shared borrows of `addr`: what `BorrowTable::shared_borrow_count`
/// gives for the table that is found under the lock.
pub fn jlrs_ledger_n_shared_borrows(ledger: &Ledger, addr: usize) -> (count: usize)
    ensures
        count <= MAX_SHARED_BORROWS,
{
    let mut guard = acquire(&ledger.table);
    let table = table_of(&mut guard);
    table.shared_borrow_count(addr)
}

/// Stop tracking the address as a shared borrow.
///
/// Returns `LedgerResult::OkTrue` if it's no longer tracked, `LedgerResult::OkFalse` if other
/// shared borrows still exist, and `LedgerResult::Error` if the address wasn't tracked or is
/// tracked as an exclusive borrow: `BorrowTable::unborrow_shared` on the table that is found
/// under the lock. Each of the three answers can come back.
pub fn jlrs_ledger_unborrow_shared(ledger: &Ledger, addr: usize) -> (result: LedgerResult) {
    let mut guard = acquire(&ledger.table);
    let table = table_of(&mut guard);
    table.unborrow_shared(addr)
}

/// Stop tracking the address as an exclusive borrow.
///
/// Returns `LedgerResult::OkTrue` if it's no longer tracked, and `LedgerResult::Error` if the
/// address wasn't tracked or was tracked as a shared borrow: `BorrowTable::unborrow_exclusive`
/// on the table that is found under the lock.
pub fn jlrs_ledger_unborrow_exclusive(ledger: &Ledger, addr: usize) -> (result: LedgerResult)
    ensures
        result != LedgerResult::OkFalse,
{
    let mut guard = acquire(&ledger.table);
    let table = table_of(&mut guard);
    table.unborrow_exclusive(addr)
}

/// Try to track the address as a shared borrow.
///
/// Returns `LedgerResult::OkTrue` on success, or `LedgerResult::OkFalse` if it is already
/// tracked as an exclusive borrow. An address that already has `MAX_SHARED_BORROWS`
/// shared borrows cannot take one more: the ledger is left as it is and
/// `LedgerResult::Error` is returned. This is `BorrowTable::try_borrow_shared_bounded` on the
/// table that is found under the lock. Each of the three answers can come back.
pub fn jlrs_ledger_try_borrow_shared(ledger: &Ledger, addr: usize) -> (result: LedgerResult) {
    let mut guard = acquire(&ledger.table);
    let table = table_of(&mut guard);
    table.try_borrow_shared_bounded(addr)
}

/// Try to track the address as an exclusive borrow.
///
/// Returns `LedgerResult::OkTrue` on success, or `LedgerResult::OkFalse` if it is already
/// tracked: `BorrowTable::try_borrow_exclusive` on the table that is found under the lock.
pub fn jlrs_ledger_try_borrow_exclusive(ledger: &Ledger, addr: usize) -> (result: LedgerResult)
    ensures
        result != LedgerResult::Error,
{
    let mut guard = acquire(&ledger.table);
    let table = table_of(&mut guard);
    table.try_borrow_exclusive(addr)
}

/// Clear the ledger.
///
/// This function exists for tests and benchmarks, which start from an empty ledger.
pub fn clear_ledger(ledger: &Ledger) {
    let mut guard = acquire(&ledger.table);
    let table = table_of(&mut guard);
    table.clear();
}

} // verus!
