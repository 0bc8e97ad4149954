//! A runtime borrow ledger.
//!
//! The ledger records, per address, whether that address is currently free, borrowed by
//! any number of shared borrowers, or borrowed by exactly one exclusive borrower. Addresses
//! are opaque integers: they are used as keys and never dereferenced.

pub mod state;
pub mod model;
pub mod table;
pub mod ledger;
pub mod laws;

pub use state::{jlrs_ledger_api_version, LedgerResult, JLRS_LEDGER_API_VERSION};
pub use ledger::{
    clear_ledger, jlrs_ledger_init, jlrs_ledger_is_borrowed, jlrs_ledger_is_borrowed_exclusive,
    jlrs_ledger_is_borrowed_shared, jlrs_ledger_n_shared_borrows, jlrs_ledger_try_borrow_exclusive,
    jlrs_ledger_try_borrow_shared, jlrs_ledger_unborrow_exclusive, jlrs_ledger_unborrow_shared,
    Ledger,
};
pub use table::{BorrowTable, MAX_SHARED_BORROWS};
