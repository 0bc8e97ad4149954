//! Result codes, and the borrow state of one address with its transition table.

use vstd::prelude::*;

verus! {

/// The current API version.
pub const JLRS_LEDGER_API_VERSION: usize = 3;

/// Indicates whether an operation succeeded, failed, or was incorrect.
#[derive(PartialEq, Eq, Debug, Clone, Copy, Structural)]
pub enum LedgerResult {
    /// Operation succeeded and the result is `false`, or the operation failed.
    OkFalse,
    /// Operation succeeded, result is `true`.
    OkTrue,
    /// Operation is incorrect given the state of the ledger.
    Error,
}

impl LedgerResult {
    /// The integer that stands for this result where only integers can be exchanged.
    pub open spec fn spec_code(self) -> int {
        match self {
            LedgerResult::OkFalse => 0,
            LedgerResult::OkTrue => 1,
            LedgerResult::Error => -1,
        }
    }

    /// The result that answers a question with yes or no: `OkTrue` for yes.
    pub open spec fn spec_from_bool(flag: bool) -> LedgerResult {
        if flag {
            LedgerResult::OkTrue
        } else {
            LedgerResult::OkFalse
        }
    }

    /// The result that answers a question with yes or no: `OkTrue` for yes.
    pub fn from_bool(flag: bool) -> (result: LedgerResult)
        ensures
            result == LedgerResult::spec_from_bool(flag),
    {
        if flag {
            LedgerResult::OkTrue
        } else {
            LedgerResult::OkFalse
        }
    }

    /// The integer that stands for this result where only integers can be exchanged.
    pub fn code(self) -> (c: i32)
        ensures
            c == self.spec_code(),
    {
        match self {
            LedgerResult::OkFalse => 0,
            LedgerResult::OkTrue => 1,
            LedgerResult::Error => -1,
        }
    }
}

/// Return the API version.
pub fn jlrs_ledger_api_version() -> (version: usize)
    ensures
        version == JLRS_LEDGER_API_VERSION,
{
    JLRS_LEDGER_API_VERSION
}

/// How one address is borrowed at one instant.
pub enum BorrowState {
    /// Nobody borrows the address.
    Free,
    /// This many shared borrows of the address are outstanding.
    Shared(nat),
    /// One exclusive borrow of the address is outstanding.
    Exclusive,
}

/// The four requests that change how an address is borrowed.
pub enum Operation {
    BorrowShared,
    BorrowExclusive,
    UnborrowShared,
    UnborrowExclusive,
}

impl BorrowState {
    /// A shared state counts at least one borrow: with none left the address is free.
    pub open spec fn valid(self) -> bool {
        self matches BorrowState::Shared(n) ==> n >= 1
    }

    /// The number of outstanding shared borrows.
    pub open spec fn shared_count(self) -> nat {
        match self {
            BorrowState::Shared(n) => n,
            _ => 0,
        }
    }

    pub open spec fn is_shared(self) -> bool {
        self is Shared
    }

    pub open spec fn is_exclusive(self) -> bool {
        self is Exclusive
    }

    pub open spec fn is_borrowed(self) -> bool {
        !(self is Free)
    }

    /// The state that follows `self` when `op` is requested.
    ///
    /// A request that does not fit the state leaves it as it is.
    pub open spec fn next(self, op: Operation) -> BorrowState {
        match (op, self) {
            (Operation::BorrowShared, BorrowState::Free) => BorrowState::Shared(1),
            (Operation::BorrowShared, BorrowState::Shared(n)) => BorrowState::Shared(n + 1),
            (Operation::BorrowExclusive, BorrowState::Free) => BorrowState::Exclusive,
            (Operation::UnborrowShared, BorrowState::Shared(n)) => if n <= 1 {
                BorrowState::Free
            } else {
                BorrowState::Shared((n - 1) as nat)
            },
            (Operation::UnborrowExclusive, BorrowState::Exclusive) => BorrowState::Free,
            _ => self,
        }
    }

    /// What the requester of `op` is told when the address is in state `self`.
    ///
    /// A borrow that cannot be granted is answered with `OkFalse`. The release of the last
    /// shared borrow is answered with `OkTrue`, that of any other with `OkFalse`. A release
    /// that matches no borrow is answered with `Error`.
    pub open spec fn answer(self, op: Operation) -> LedgerResult {
        match (op, self) {
            (Operation::BorrowShared, BorrowState::Exclusive) => LedgerResult::OkFalse,
            (Operation::BorrowShared, _) => LedgerResult::OkTrue,
            (Operation::BorrowExclusive, BorrowState::Free) => LedgerResult::OkTrue,
            (Operation::BorrowExclusive, _) => LedgerResult::OkFalse,
            (Operation::UnborrowShared, BorrowState::Shared(n)) => if n <= 1 {
                LedgerResult::OkTrue
            } else {
                LedgerResult::OkFalse
            },
            (Operation::UnborrowShared, _) => LedgerResult::Error,
            (Operation::UnborrowExclusive, BorrowState::Exclusive) => LedgerResult::OkTrue,
            (Operation::UnborrowExclusive, _) => LedgerResult::Error,
        }
    }
}

} // verus!
