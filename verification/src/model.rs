//! The ledger as a mathematical map from borrowed addresses to their states.
//!
//! An address that the map does not hold is free. The map never holds a free address.

use crate::state::{BorrowState, LedgerResult, Operation};
use vstd::prelude::*;

verus! {

/// The borrowed addresses of a ledger, each with its state.
pub type Borrows = Map<usize, BorrowState>;

/// One request made of the ledger: what is asked, and of which address.
pub struct Request {
    pub op: Operation,
    pub addr: usize,
}

/// Every address that `borrows` holds is borrowed, and by at least one borrower.
pub open spec fn well_formed(borrows: Borrows) -> bool {
    forall|a: usize| #[trigger]
        borrows.contains_key(a) ==> borrows[a].is_borrowed() && borrows[a].valid()
}

/// The state of `addr`: the one that `borrows` holds for it, or free.
pub open spec fn state_at(borrows: Borrows, addr: usize) -> BorrowState {
    if borrows.contains_key(addr) {
        borrows[addr]
    } else {
        BorrowState::Free
    }
}

/// `borrows` with `addr` brought to `state`: a free address leaves the map.
pub open spec fn record(borrows: Borrows, addr: usize, state: BorrowState) -> Borrows {
    if state is Free {
        borrows.remove(addr)
    } else {
        borrows.insert(addr, state)
    }
}

/// `borrows` after `op` was requested of `addr`.
pub open spec fn apply(borrows: Borrows, op: Operation, addr: usize) -> Borrows {
    record(borrows, addr, state_at(borrows, addr).next(op))
}

/// What the requester of `op` on `addr` is told.
pub open spec fn reply(borrows: Borrows, op: Operation, addr: usize) -> LedgerResult {
    state_at(borrows, addr).answer(op)
}

/// `borrows` after all of `requests` were made, the first one first.
pub open spec fn replay(borrows: Borrows, requests: Seq<Request>) -> Borrows
    decreases requests.len(),
{
    if requests.len() == 0 {
        borrows
    } else {
        let before = replay(borrows, requests.drop_last());
        apply(before, requests.last().op, requests.last().addr)
    }
}

/// By how much one request changes the number of shared borrows that were granted
/// for `addr` and not yet released: a granted shared borrow of `addr` adds one, a
/// release of a shared borrow of `addr` that matched takes one away.
pub open spec fn shared_gain(borrows: Borrows, request: Request, addr: usize) -> int {
    if request.addr != addr {
        0
    } else {
        match request.op {
            Operation::BorrowShared => if reply(borrows, request.op, addr)
                == LedgerResult::OkTrue {
                1
            } else {
                0
            },
            Operation::UnborrowShared => if reply(borrows, request.op, addr)
                != LedgerResult::Error {
                -1
            } else {
                0
            },
            _ => 0,
        }
    }
}

/// The shared borrows of `addr` granted in the course of `requests`, less those released.
pub open spec fn net_shared(borrows: Borrows, requests: Seq<Request>, addr: usize) -> int
    decreases requests.len(),
{
    if requests.len() == 0 {
        0
    } else {
        let earlier = requests.drop_last();
        net_shared(borrows, earlier, addr) + shared_gain(
            replay(borrows, earlier),
            requests.last(),
            addr,
        )
    }
}

} // verus!
