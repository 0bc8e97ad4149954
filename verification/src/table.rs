//! The table of borrowed addresses, and the operations on it.
//!
//! Each borrowed address is kept with one machine word: `EXCLUSIVE_BORROW` for an
//! exclusive borrow, and `SHARED_BORROW` times the number of borrowers for shared ones.
//! A free address has no entry.

use crate::model::{apply, record, reply, state_at, well_formed, Borrows};
use crate::state::{BorrowState, LedgerResult, Operation};
use rustc_hash::{FxBuildHasher, FxHashMap};
use std::collections::HashMap;
use vstd::prelude::*;
use vstd::std_specs::hash::*;

verus! {

/// The word of an exclusively borrowed address.
pub const EXCLUSIVE_BORROW: usize = 1;

/// The word of an address with one shared borrow; each further borrow adds as much.
pub const SHARED_BORROW: usize = 2;

/// The largest number of shared borrows of one address that a word can count.
pub const MAX_SHARED_BORROWS: usize = usize::MAX / 2;

/// The words that the table stores: the exclusive one, and the even ones from
/// `SHARED_BORROW` on.
pub open spec fn word_is_valid(word: usize) -> bool {
    word == EXCLUSIVE_BORROW || (word >= SHARED_BORROW && word % 2 == 0)
}

/// The state that a word stands for.
pub open spec fn word_state(word: usize) -> BorrowState {
    if word == EXCLUSIVE_BORROW {
        BorrowState::Exclusive
    } else if word / 2 == 0 {
        BorrowState::Free
    } else {
        BorrowState::Shared((word / 2) as nat)
    }
}

/// `rustc_hash::FxBuildHasher`, the hasher builder of the table's map.
#[verifier::external_type_specification]
#[verifier::external_body]
pub struct ExFxBuildHasher(FxBuildHasher);

/// Whether the hasher builder of `words` builds hashers that give equal keys equal
/// hashes. vstd specifies `get`, `insert`, `remove` and `contains_key` of a `HashMap`
/// only for such a builder. This is a property of the builder's type.
pub open spec fn hashes_consistently<S>(words: &HashMap<usize, usize, S>) -> bool {
    builds_valid_hashers::<S>()
}

/// An empty map that hashes with `rustc_hash`: `FxHashMap::default()`.
///
/// Trusted, and not proved: the map holds no key; and its hasher builder,
/// `FxBuildHasher`, builds hashers that give equal keys equal hashes. Every hasher
/// that it builds is `FxHasher::default()`, which starts from the same state and
/// has no source of chance, so the second claim holds of every map of this type.
#[verifier::external_body]
fn empty_words() -> (words: FxHashMap<usize, usize>)
    ensures
        words@.dom() == Set::<usize>::empty(),
        hashes_consistently(&words),
{
    FxHashMap::default()
}

/// The borrowed addresses, each with its word.
pub struct BorrowTable {
    words: FxHashMap<usize, usize>,
}

impl View for BorrowTable {
    type V = Borrows;

    /// The borrowed addresses, each with its state.
    closed spec fn view(&self) -> Borrows {
        Map::new(
            |a: usize| self.words@.contains_key(a) && word_state(self.words@[a]).is_borrowed(),
            |a: usize| word_state(self.words@[a]),
        )
    }
}

impl BorrowTable {
    #[verifier::type_invariant]
    spec fn inv(&self) -> bool {
        &&& hashes_consistently(&self.words)
        &&& forall|a: usize| #[trigger]
            self.words@.contains_key(a) ==> word_is_valid(self.words@[a])
    }

    /// The state of `addr`.
    pub open spec fn state(&self, addr: usize) -> BorrowState {
        state_at(self@, addr)
    }

    /// The stored words.
    closed spec fn words(&self) -> Map<usize, usize> {
        self.words@
    }

    /// Whatever words a table holds, its view holds borrowed addresses only.
    pub proof fn lemma_view_well_formed(&self)
        ensures
            well_formed(self@),
    {
    }

    /// A table in which every address is free.
    pub fn new() -> (table: BorrowTable)
        ensures
            table@ == Map::<usize, BorrowState>::empty(),
    {
        let table = BorrowTable { words: empty_words() };
        assert(table@ =~= Map::<usize, BorrowState>::empty());
        table
    }

    /// The word of `addr`, if it has one.
    fn word(&self, addr: usize) -> (found: Option<usize>)
        ensures
            match found {
                Some(word) => self.words().contains_key(addr) && self.words()[addr] == word
                    && word_is_valid(word) && self.state(addr) == word_state(word),
                None => !self.words().contains_key(addr) && self.state(addr) is Free,
            },
    {
        proof {
            use_type_invariant(self);
        }
        broadcast use group_hash_axioms;
        match self.words.get(&addr) {
            Some(word) => Some(*word),
            None => None,
        }
    }

    /// Takes the words out of the table, leaving it empty.
    ///
    /// A change is made to the words while they are outside the table and the
    /// changed words are put back whole, so the table never holds words that are
    /// half changed.
    fn take_words(&mut self) -> (words: FxHashMap<usize, usize>)
        ensures
            words@ == old(self).words(),
            hashes_consistently(&words),
            forall|a: usize| #[trigger] words@.contains_key(a) ==> word_is_valid(words@[a]),
    {
        proof {
            use_type_invariant(&*self);
        }
        let mut words = empty_words();
        core::mem::swap(&mut self.words, &mut words);
        words
    }

    /// Gives `addr` the word `word`.
    fn store(&mut self, addr: usize, word: usize)
        requires
            word_is_valid(word),
        ensures
            final(self).words() == old(self).words().insert(addr, word),
            final(self)@ == record(old(self)@, addr, word_state(word)),
    {
        broadcast use group_hash_axioms;
        let mut words = self.take_words();
        words.insert(addr, word);
        self.words = words;
        assert(self@ =~= record(old(self)@, addr, word_state(word)));
    }

    /// Takes the entry of `addr` away.
    fn discard(&mut self, addr: usize)
        ensures
            final(self).words() == old(self).words().remove(addr),
            final(self)@ == record(old(self)@, addr, BorrowState::Free),
    {
        broadcast use group_hash_axioms;
        let mut words = self.take_words();
        words.remove(&addr);
        self.words = words;
        assert(self@ =~= record(old(self)@, addr, BorrowState::Free));
    }

    /// Whether `addr` is borrowed by shared borrowers.
    pub fn is_borrowed_shared(&self, addr: usize) -> (shared: bool)
        ensures
            shared == self.state(addr).is_shared(),
    {
        match self.word(addr) {
            None => false,
            Some(word) => word != EXCLUSIVE_BORROW,
        }
    }

    /// Whether `addr` is borrowed by an exclusive borrower.
    pub fn is_borrowed_exclusive(&self, addr: usize) -> (exclusive: bool)
        ensures
            exclusive == self.state(addr).is_exclusive(),
    {
        match self.word(addr) {
            None => false,
            Some(word) => word == EXCLUSIVE_BORROW,
        }
    }

    /// Whether `addr` is borrowed in either way.
    pub fn is_borrowed(&self, addr: usize) -> (borrowed: bool)
        ensures
            borrowed == self.state(addr).is_borrowed(),
    {
        proof {
            use_type_invariant(self);
        }
        broadcast use group_hash_axioms;
        self.words.contains_key(&addr)
    }

    /// The number of outstanding shared borrows of `addr`: none if it is free or
    /// borrowed exclusively.
    pub fn shared_borrow_count(&self, addr: usize) -> (count: usize)
        ensures
            count == self.state(addr).shared_count(),
            count <= MAX_SHARED_BORROWS,
    {
        match self.word(addr) {
            Some(word) => {
                assert(word >> 1 == word / 2) by (bit_vector);
                word >> 1
            },
            None => 0,
        }
    }

    /// Tries to record one more shared borrow of `addr`.
    ///
    /// The borrow is granted, with `OkTrue`, unless `addr` is borrowed exclusively: then
    /// the answer is `OkFalse` and nothing changes. The count of a word is bounded, so the
    /// caller must not ask for more than `MAX_SHARED_BORROWS` borrows of one address.
    pub fn try_borrow_shared(&mut self, addr: usize) -> (result: LedgerResult)
        requires
            old(self).state(addr).shared_count() < MAX_SHARED_BORROWS,
        ensures
            result == reply(old(self)@, Operation::BorrowShared, addr),
            final(self)@ == apply(old(self)@, Operation::BorrowShared, addr),
            result == LedgerResult::OkFalse <==> old(self).state(addr) is Exclusive,
            result == LedgerResult::OkTrue <==> !(old(self).state(addr) is Exclusive),
            result == LedgerResult::OkTrue ==> final(self).state(addr).shared_count() == old(
                self,
            ).state(addr).shared_count() + 1,
    {
        match self.word(addr) {
            None => {
                self.store(addr, SHARED_BORROW);
                LedgerResult::OkTrue
            },
            Some(current) => {
                if current != EXCLUSIVE_BORROW {
                    self.store(addr, current + SHARED_BORROW);
                    LedgerResult::OkTrue
                } else {
                    proof {
                        self.lemma_unchanged(addr);
                    }
                    LedgerResult::OkFalse
                }
            },
        }
    }

    /// Tries to record one more shared borrow of `addr`, whatever its count.
    ///
    /// As long as the count of `addr` is below `MAX_SHARED_BORROWS` this is
    /// `try_borrow_shared`. An address with `MAX_SHARED_BORROWS` shared borrows cannot
    /// take one more: the answer is `Error` and nothing changes.
    pub fn try_borrow_shared_bounded(&mut self, addr: usize) -> (result: LedgerResult)
        ensures
            old(self).state(addr).shared_count() < MAX_SHARED_BORROWS ==> result == reply(
                old(self)@,
                Operation::BorrowShared,
                addr,
            ) && final(self)@ == apply(old(self)@, Operation::BorrowShared, addr),
            old(self).state(addr).shared_count() >= MAX_SHARED_BORROWS ==> result
                == LedgerResult::Error && final(self)@ == old(self)@,
    {
        if self.shared_borrow_count(addr) < MAX_SHARED_BORROWS {
            self.try_borrow_shared(addr)
        } else {
            LedgerResult::Error
        }
    }

    /// Tries to record an exclusive borrow of `addr`.
    ///
    /// The borrow is granted, with `OkTrue`, only if `addr` is free. If it is borrowed in
    /// either way the answer is `OkFalse` and nothing changes.
    pub fn try_borrow_exclusive(&mut self, addr: usize) -> (result: LedgerResult)
        ensures
            result == reply(old(self)@, Operation::BorrowExclusive, addr),
            final(self)@ == apply(old(self)@, Operation::BorrowExclusive, addr),
            result == LedgerResult::OkTrue <==> old(self).state(addr) is Free,
            result == LedgerResult::OkFalse <==> !(old(self).state(addr) is Free),
    {
        match self.word(addr) {
            None => {
                self.store(addr, EXCLUSIVE_BORROW);
                LedgerResult::OkTrue
            },
            Some(_) => {
                proof {
                    self.lemma_unchanged(addr);
                }
                LedgerResult::OkFalse
            },
        }
    }

    /// Releases one shared borrow of `addr`.
    ///
    /// The answer is `OkTrue` if that was the last one, so that `addr` is free again, and
    /// `OkFalse` if other shared borrows remain. If `addr` is free or borrowed exclusively
    /// the answer is `Error` and nothing changes.
    pub fn unborrow_shared(&mut self, addr: usize) -> (result: LedgerResult)
        ensures
            result == reply(old(self)@, Operation::UnborrowShared, addr),
            final(self)@ == apply(old(self)@, Operation::UnborrowShared, addr),
            result == LedgerResult::Error <==> !(old(self).state(addr) is Shared),
            result != LedgerResult::Error ==> final(self).state(addr).shared_count() == old(
                self,
            ).state(addr).shared_count() - 1,
            result == LedgerResult::OkTrue ==> final(self).state(addr) is Free,
    {
        match self.word(addr) {
            Some(current) => {
                if current == SHARED_BORROW {
                    self.discard(addr);
                    LedgerResult::OkTrue
                } else if current != EXCLUSIVE_BORROW {
                    self.store(addr, current - SHARED_BORROW);
                    LedgerResult::OkFalse
                } else {
                    proof {
                        self.lemma_unchanged(addr);
                    }
                    LedgerResult::Error
                }
            },
            None => {
                proof {
                    self.lemma_unchanged(addr);
                }
                LedgerResult::Error
            },
        }
    }

    /// Releases the exclusive borrow of `addr`.
    ///
    /// The answer is `OkTrue` if `addr` was borrowed exclusively; it is free then. If it
    /// is free or borrowed by shared borrowers the answer is `Error` and nothing changes.
    pub fn unborrow_exclusive(&mut self, addr: usize) -> (result: LedgerResult)
        ensures
            result == reply(old(self)@, Operation::UnborrowExclusive, addr),
            final(self)@ == apply(old(self)@, Operation::UnborrowExclusive, addr),
            result == LedgerResult::OkTrue <==> old(self).state(addr) is Exclusive,
            result == LedgerResult::Error <==> !(old(self).state(addr) is Exclusive),
            result == LedgerResult::OkTrue ==> final(self).state(addr) is Free,
    {
        match self.word(addr) {
            Some(current) => {
                if current == EXCLUSIVE_BORROW {
                    self.discard(addr);
                    LedgerResult::OkTrue
                } else {
                    proof {
                        self.lemma_unchanged(addr);
                    }
                    LedgerResult::Error
                }
            },
            None => {
                proof {
                    self.lemma_unchanged(addr);
                }
                LedgerResult::Error
            },
        }
    }

    /// Frees every address.
    pub fn clear(&mut self)
        ensures
            final(self)@ == Map::<usize, BorrowState>::empty(),
    {
        let mut words = self.take_words();
        words.clear();
        self.words = words;
        assert(self@ =~= Map::<usize, BorrowState>::empty());
    }

    /// Recording for an address the state that it has changes nothing.
    proof fn lemma_unchanged(&self, addr: usize)
        ensures
            record(self@, addr, self.state(addr)) == self@,
    {
        assert(record(self@, addr, self.state(addr)) =~= self@);
    }
}

} // verus!
