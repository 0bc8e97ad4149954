use jlrs_ledger::{BorrowTable, LedgerResult, MAX_SHARED_BORROWS};

const P: usize = 0x1000;
const Q: usize = 0x2000;

#[test]
fn new_table_has_nothing_borrowed() {
    let table = BorrowTable::new();
    for addr in [0usize, 1, P, Q, usize::MAX] {
        assert!(!table.is_borrowed(addr));
        assert!(!table.is_borrowed_shared(addr));
        assert!(!table.is_borrowed_exclusive(addr));
        assert_eq!(table.shared_borrow_count(addr), 0);
    }
}

#[test]
fn result_codes() {
    assert_eq!(LedgerResult::OkFalse.code(), 0);
    assert_eq!(LedgerResult::OkTrue.code(), 1);
    assert_eq!(LedgerResult::Error.code(), -1);
}

#[test]
fn yes_and_no_as_results() {
    assert_eq!(LedgerResult::from_bool(true), LedgerResult::OkTrue);
    assert_eq!(LedgerResult::from_bool(false), LedgerResult::OkFalse);
}

#[test]
fn largest_count_is_half_the_word() {
    assert_eq!(MAX_SHARED_BORROWS, usize::MAX >> 1);
}

#[test]
fn shared_borrow_is_recorded() {
    let mut table = BorrowTable::new();
    assert_eq!(table.try_borrow_shared(P), LedgerResult::OkTrue);
    assert!(table.is_borrowed_shared(P));
    assert_eq!(table.shared_borrow_count(P), 1);
}

#[test]
fn exclusive_after_shared_is_refused_and_changes_nothing() {
    let mut table = BorrowTable::new();
    assert_eq!(table.try_borrow_shared(P), LedgerResult::OkTrue);
    assert_eq!(table.try_borrow_exclusive(P), LedgerResult::OkFalse);
    assert_eq!(table.shared_borrow_count(P), 1);
    assert!(table.is_borrowed_shared(P));
    assert!(!table.is_borrowed_exclusive(P));
}

#[test]
fn shared_released_partially_then_fully() {
    let mut table = BorrowTable::new();
    assert_eq!(table.try_borrow_shared(P), LedgerResult::OkTrue);
    assert_eq!(table.try_borrow_shared(P), LedgerResult::OkTrue);
    assert_eq!(table.shared_borrow_count(P), 2);
    assert_eq!(table.unborrow_shared(P), LedgerResult::OkFalse);
    assert_eq!(table.shared_borrow_count(P), 1);
    assert_eq!(table.unborrow_shared(P), LedgerResult::OkTrue);
    assert!(!table.is_borrowed(P));
}

#[test]
fn exclusive_excludes_shared_until_released() {
    let mut table = BorrowTable::new();
    assert_eq!(table.try_borrow_exclusive(P), LedgerResult::OkTrue);
    assert_eq!(table.try_borrow_shared(P), LedgerResult::OkFalse);
    assert!(table.is_borrowed_exclusive(P));
    assert_eq!(table.shared_borrow_count(P), 0);
    assert_eq!(table.unborrow_exclusive(P), LedgerResult::OkTrue);
    assert!(!table.is_borrowed(P));
    assert_eq!(table.try_borrow_shared(P), LedgerResult::OkTrue);
}

#[test]
fn exclusive_twice_is_refused() {
    let mut table = BorrowTable::new();
    assert_eq!(table.try_borrow_exclusive(P), LedgerResult::OkTrue);
    assert_eq!(table.try_borrow_exclusive(P), LedgerResult::OkFalse);
    assert!(table.is_borrowed_exclusive(P));
}

#[test]
fn release_of_a_free_address_is_an_error() {
    let mut table = BorrowTable::new();
    assert_eq!(table.unborrow_shared(P), LedgerResult::Error);
    assert_eq!(table.unborrow_exclusive(P), LedgerResult::Error);
    assert!(!table.is_borrowed(P));
}

#[test]
fn release_of_the_other_kind_is_an_error_and_changes_nothing() {
    let mut table = BorrowTable::new();
    assert_eq!(table.try_borrow_exclusive(P), LedgerResult::OkTrue);
    assert_eq!(table.unborrow_shared(P), LedgerResult::Error);
    assert!(table.is_borrowed_exclusive(P));

    assert_eq!(table.try_borrow_shared(Q), LedgerResult::OkTrue);
    assert_eq!(table.try_borrow_shared(Q), LedgerResult::OkTrue);
    assert_eq!(table.unborrow_exclusive(Q), LedgerResult::Error);
    assert!(table.is_borrowed_shared(Q));
    assert_eq!(table.shared_borrow_count(Q), 2);
}

#[test]
fn borrowed_means_shared_or_exclusive() {
    let mut table = BorrowTable::new();
    assert_eq!(table.try_borrow_shared(P), LedgerResult::OkTrue);
    assert_eq!(table.try_borrow_exclusive(Q), LedgerResult::OkTrue);
    for addr in [P, Q, 3usize] {
        assert_eq!(
            table.is_borrowed(addr),
            table.is_borrowed_shared(addr) || table.is_borrowed_exclusive(addr)
        );
        assert!(!(table.is_borrowed_shared(addr) && table.is_borrowed_exclusive(addr)));
    }
    assert!(table.is_borrowed(P));
    assert!(table.is_borrowed(Q));
    assert!(!table.is_borrowed(3));
}

#[test]
fn shared_borrows_stack() {
    let mut table = BorrowTable::new();
    for k in 1..=1000usize {
        assert_eq!(table.try_borrow_shared(P), LedgerResult::OkTrue);
        assert_eq!(table.shared_borrow_count(P), k);
    }
    assert_eq!(table.shared_borrow_count(Q), 0);
}

#[test]
fn count_is_grants_less_releases() {
    let mut table = BorrowTable::new();
    let mut net: usize = 0;
    // true is a shared borrow, false is the release of one
    let script = [
        true, true, false, true, true, true, false, false, false, false, false, true, false,
        false, true,
    ];
    for borrow in script {
        if borrow {
            if table.try_borrow_shared(P) == LedgerResult::OkTrue {
                net += 1;
            }
        } else if table.unborrow_shared(P) != LedgerResult::Error {
            net -= 1;
        }
        // requests that are refused in between do not count
        assert_eq!(table.try_borrow_exclusive(P) == LedgerResult::OkTrue, net == 0);
        if net == 0 {
            assert_eq!(table.unborrow_exclusive(P), LedgerResult::OkTrue);
        }
        assert_eq!(table.shared_borrow_count(P), net);
        assert_eq!(table.is_borrowed_shared(P), net > 0);
    }
    assert_eq!(net, 1);
    assert_eq!(table.shared_borrow_count(P), 1);
}

#[test]
fn addresses_do_not_touch_each_other() {
    let mut table = BorrowTable::new();
    assert_eq!(table.try_borrow_exclusive(P), LedgerResult::OkTrue);
    assert_eq!(table.try_borrow_shared(Q), LedgerResult::OkTrue);
    assert_eq!(table.try_borrow_shared(Q), LedgerResult::OkTrue);
    assert!(table.is_borrowed_exclusive(P));
    assert_eq!(table.shared_borrow_count(Q), 2);
    assert_eq!(table.unborrow_exclusive(P), LedgerResult::OkTrue);
    assert_eq!(table.shared_borrow_count(Q), 2);
    assert!(!table.is_borrowed(P));
}

#[test]
fn the_extreme_addresses_are_addresses_like_any_other() {
    let mut table = BorrowTable::new();
    assert_eq!(table.try_borrow_shared(0), LedgerResult::OkTrue);
    assert_eq!(table.try_borrow_exclusive(usize::MAX), LedgerResult::OkTrue);
    assert_eq!(table.shared_borrow_count(0), 1);
    assert!(table.is_borrowed_exclusive(usize::MAX));
    assert!(!table.is_borrowed(1));
}

#[test]
fn clear_frees_every_address() {
    let mut table = BorrowTable::new();
    assert_eq!(table.try_borrow_exclusive(P), LedgerResult::OkTrue);
    assert_eq!(table.try_borrow_shared(Q), LedgerResult::OkTrue);
    table.clear();
    assert!(!table.is_borrowed(P));
    assert!(!table.is_borrowed(Q));
    assert_eq!(table.shared_borrow_count(Q), 0);
    assert_eq!(table.try_borrow_exclusive(Q), LedgerResult::OkTrue);
}

#[test]
fn a_freed_address_is_like_a_fresh_one() {
    let mut table = BorrowTable::new();
    assert_eq!(table.try_borrow_shared(P), LedgerResult::OkTrue);
    assert_eq!(table.unborrow_shared(P), LedgerResult::OkTrue);
    assert_eq!(table.try_borrow_exclusive(P), LedgerResult::OkTrue);
    assert_eq!(table.unborrow_exclusive(P), LedgerResult::OkTrue);
    assert_eq!(table.try_borrow_shared(P), LedgerResult::OkTrue);
    assert_eq!(table.shared_borrow_count(P), 1);
}

#[test]
fn bounded_shared_borrow_answers_like_the_plain_one() {
    let mut table = BorrowTable::new();
    assert_eq!(table.try_borrow_shared_bounded(P), LedgerResult::OkTrue);
    assert_eq!(table.try_borrow_shared_bounded(P), LedgerResult::OkTrue);
    assert_eq!(table.shared_borrow_count(P), 2);
    assert_eq!(table.try_borrow_exclusive(Q), LedgerResult::OkTrue);
    assert_eq!(table.try_borrow_shared_bounded(Q), LedgerResult::OkFalse);
    assert!(table.is_borrowed_exclusive(Q));
    assert_eq!(table.shared_borrow_count(Q), 0);
}
