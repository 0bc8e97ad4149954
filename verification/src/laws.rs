//! What holds of every ledger, proved over the model that the operations are stated in.

use crate::model::{
    apply, net_shared, replay, reply, shared_gain, state_at, well_formed, Borrows, Request,
};
use crate::state::{BorrowState, LedgerResult, Operation};
use crate::table::BorrowTable;
use vstd::prelude::*;

verus! {

/// An address is borrowed exactly if it is borrowed by shared borrowers or by an
/// exclusive one.
pub proof fn law_borrowed_means_shared_or_exclusive(table: &BorrowTable, addr: usize)
    ensures
        table.state(addr).is_borrowed() == (table.state(addr).is_shared() || table.state(
            addr,
        ).is_exclusive()),
{
}

/// No address is borrowed by shared borrowers and by an exclusive one at once.
pub proof fn law_shared_excludes_exclusive(table: &BorrowTable, addr: usize)
    ensures
        !(table.state(addr).is_shared() && table.state(addr).is_exclusive()),
{
}

/// A borrowed address of a table always has at least one borrower: a shared state
/// with no borrower does not occur, and the count is zero exactly where no shared
/// borrow is outstanding.
pub proof fn law_shared_count_positive(table: &BorrowTable, addr: usize)
    ensures
        table.state(addr).valid(),
        table.state(addr).is_shared() <==> table.state(addr).shared_count() >= 1,
{
    table.lemma_view_well_formed();
}

/// A request made of one address leaves the state of every other address as it was.
pub proof fn law_other_addresses_untouched(
    borrows: Borrows,
    op: Operation,
    addr: usize,
    other: usize,
)
    requires
        other != addr,
    ensures
        state_at(apply(borrows, op, addr), other) == state_at(borrows, other),
{
}

/// A request brings the state of its address to the one that the transition table
/// gives, and leaves the ledger well formed.
pub proof fn law_request_follows_table(borrows: Borrows, op: Operation, addr: usize)
    requires
        well_formed(borrows),
    ensures
        well_formed(apply(borrows, op, addr)),
        state_at(apply(borrows, op, addr), addr) == state_at(borrows, addr).next(op),
{
}

/// Whatever requests are made of a well-formed ledger, it stays well formed.
pub proof fn law_replay_well_formed(borrows: Borrows, requests: Seq<Request>)
    requires
        well_formed(borrows),
    ensures
        well_formed(replay(borrows, requests)),
    decreases requests.len(),
{
    if requests.len() > 0 {
        let earlier = requests.drop_last();
        law_replay_well_formed(borrows, earlier);
        law_request_follows_table(replay(borrows, earlier), requests.last().op, requests.last().addr);
    }
}

/// The requests for `count` shared borrows of `addr`, one after the other.
pub open spec fn shared_borrows(addr: usize, count: nat) -> Seq<Request> {
    Seq::new(count, |i: int| Request { op: Operation::BorrowShared, addr })
}

/// Shared borrows stack: requested of an address that is not borrowed exclusively,
/// with no release in between, each of `count` shared borrows is granted, and the
/// address then has `count` shared borrows more than before. For a free address that
/// is `count`.
pub proof fn law_shared_borrows_stack(borrows: Borrows, addr: usize, count: nat)
    requires
        well_formed(borrows),
        !(state_at(borrows, addr) is Exclusive),
    ensures
        forall|i: int|
            0 <= i < count ==> reply(
                #[trigger] replay(borrows, shared_borrows(addr, count).take(i)),
                Operation::BorrowShared,
                addr,
            ) == LedgerResult::OkTrue,
        state_at(replay(borrows, shared_borrows(addr, count)), addr).shared_count() == state_at(
            borrows,
            addr,
        ).shared_count() + count,
        state_at(borrows, addr) is Free ==> state_at(
            replay(borrows, shared_borrows(addr, count)),
            addr,
        ) == BorrowState::Shared(count) || count == 0,
    decreases count,
{
    let requests = shared_borrows(addr, count);
    if count > 0 {
        let fewer = (count - 1) as nat;
        let earlier = shared_borrows(addr, fewer);
        law_shared_borrows_stack(borrows, addr, fewer);
        law_replay_well_formed(borrows, earlier);
        assert(requests.drop_last() =~= earlier);
        assert(requests.last() == Request { op: Operation::BorrowShared, addr });
        assert(!(state_at(replay(borrows, earlier), addr) is Exclusive)) by {
            if fewer > 0 {
                assert(earlier.take(fewer - 1) =~= earlier.drop_last());
            }
        }
        assert forall|i: int| 0 <= i < count implies reply(
            #[trigger] replay(borrows, requests.take(i)),
            Operation::BorrowShared,
            addr,
        ) == LedgerResult::OkTrue by {
            if i < fewer {
                assert(requests.take(i) =~= earlier.take(i));
            } else {
                assert(requests.take(i) =~= earlier);
            }
        }
    } else {
        assert(requests =~= Seq::<Request>::empty());
    }
}

/// The net count: in a ledger that started with no borrowed address, the number of
/// shared borrows of an address is the number of shared borrows of it that were
/// granted less the number of its shared borrows that were released. From any other
/// well-formed start the count has changed by that difference.
pub proof fn law_net_shared_count(borrows: Borrows, requests: Seq<Request>, addr: usize)
    requires
        well_formed(borrows),
    ensures
        state_at(replay(borrows, requests), addr).shared_count() == state_at(
            borrows,
            addr,
        ).shared_count() + net_shared(borrows, requests, addr),
        borrows == Map::<usize, BorrowState>::empty() ==> state_at(
            replay(borrows, requests),
            addr,
        ).shared_count() == net_shared(borrows, requests, addr),
    decreases requests.len(),
{
    if requests.len() > 0 {
        let earlier = requests.drop_last();
        let before = replay(borrows, earlier);
        law_net_shared_count(borrows, earlier, addr);
        law_replay_well_formed(borrows, earlier);
        lemma_gain_is_change(before, requests.last(), addr);
    }
}

/// One request changes the count of shared borrows of an address by its gain.
proof fn lemma_gain_is_change(borrows: Borrows, request: Request, addr: usize)
    requires
        well_formed(borrows),
    ensures
        state_at(apply(borrows, request.op, request.addr), addr).shared_count() == state_at(
            borrows,
            addr,
        ).shared_count() + shared_gain(borrows, request, addr),
{
}

} // verus!
