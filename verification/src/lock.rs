//! The lock itself: the atomic state word beside the protected value.
use std::cell::UnsafeCell;
use std::sync::atomic::AtomicUsize;
use std::sync::atomic::Ordering;

use vstd::prelude::*;

use crate::read::ReadFuture;
use crate::state::{
    exit_wakes, lemma_flag_unions, reader_exit_wakes, ONE_READER, UPGRADABLE_FLAG, WRITER_FLAG,
};
use crate::steps::{is_reader_exit, is_upgradable_exit, is_writer_exit};
use self::word::{
    create_word, load_word, read_ordering, store_ordering, store_word, subtract_word, swap_word,
};
pub use self::word::{WordEvent, WordReceipt};
use crate::upgradable_read::UpgradableReadFuture;
use crate::write::WriteFuture;

mod word;

verus! {

#[verifier::external_type_specification]
#[verifier::external_body]
#[verifier::reject_recursive_types(T)]
pub struct ExUnsafeCell<T: ?Sized>(UnsafeCell<T>);

/// Calls `UnsafeCell::new`. Nothing is stated of the cell: what it holds can
/// change behind a shared reference, so no spec value can stand for it.
#[verifier::external_body]
fn cell_new<T>(value: T) -> (cell: UnsafeCell<T>) {
    UnsafeCell::new(value)
}

/// Calls `UnsafeCell::into_inner`. Nothing is stated of the value: it is the last
/// one written through the cell, which no spec value follows.
#[verifier::external_body]
fn cell_into_inner<T>(cell: UnsafeCell<T>) -> (value: T) {
    cell.into_inner()
}

/// The record of every operation one holder of the lock (a future or a guard) has
/// made on the lock's word, and of how many journals it handed on.
///
/// Only this module makes a journal from nothing, when a lock hands out a future;
/// any other journal is split off an existing one, which counts the split. Every
/// operation on a lock's word takes a journal and records its receipt there, so a
/// holder's journal tells all that holder did to the word.
pub struct WordJournal {
    events: Ghost<Seq<WordReceipt>>,
    children: Ghost<nat>,
}

impl WordJournal {
    /// The receipts of the operations made with this journal, oldest first.
    pub closed spec fn events(&self) -> Seq<WordReceipt> {
        self.events@
    }

    /// How many journals were split off this one.
    pub closed spec fn children(&self) -> nat {
        self.children@
    }

    fn fresh() -> (journal: Self)
        ensures
            journal.events() == Seq::<WordReceipt>::empty(),
            journal.children() == 0,
    {
        WordJournal { events: Ghost(Seq::empty()), children: Ghost(0) }
    }

    /// Splits off an empty journal for a new holder, counting the split here.
    pub fn split(&mut self) -> (child: Self)
        ensures
            final(self).events() == old(self).events(),
            final(self).children() == old(self).children() + 1,
            child.events() == Seq::<WordReceipt>::empty(),
            child.children() == 0,
    {
        self.children = Ghost(self.children@ + 1);
        WordJournal::fresh()
    }

    fn record(&mut self, receipt: &WordReceipt)
        ensures
            final(self).events() == old(self).events().push(*receipt),
            final(self).children() == old(self).children(),
    {
        self.events = Ghost(self.events@.push(*receipt));
    }
}

/// A reader-writer lock
///
/// This type of lock allows a number of readers or at most one writer at any
/// point in time. The write portion of this lock typically allows modification
/// of the underlying data (exclusive access) and the read portion of this lock
/// typically allows for read-only access (shared access).
///
/// The state of the lock is one atomic word, laid out as `crate::state` describes.
#[verifier::reject_recursive_types(T)]
pub struct RwLock<T> {
    state: AtomicUsize,
    data: UnsafeCell<T>,
    created: WordReceipt,
}

impl<T> RwLock<T> {
    /// The cell that holds the protected value.
    pub closed spec fn cell(&self) -> UnsafeCell<T> {
        self.data
    }

    /// The atomic state word.
    pub closed spec fn word(&self) -> AtomicUsize {
        self.state
    }

    /// The receipt of the word's creation.
    pub closed spec fn created(&self) -> WordReceipt {
        self.created
    }

    /// Creates a new instance of an `RwLock<T>` which is unlocked: its word is
    /// created holding 0 (no reader, no flag).
    pub fn new(data: T) -> (lock: Self)
        ensures
            lock.created().atomic() == lock.word(),
            lock.created().event() == (WordEvent::Created { initial: 0 }),
    {
        let (state, created) = create_word(0);
        RwLock { state, data: cell_new(data), created }
    }

    /// Consumes this `RwLock`, returning the underlying data.
    pub fn into_inner(self) -> (data: T) {
        cell_into_inner(self.data)
    }

    /// The cell that holds the protected value; a guard reads and writes through it.
    pub fn data_cell(&self) -> (cell: &UnsafeCell<T>)
        ensures
            *cell == self.cell(),
    {
        &self.data
    }

    /// The atomic state word.
    fn state_word(&self) -> (word: &AtomicUsize)
        ensures
            *word == self.word(),
    {
        &self.state
    }

    /// Return a future that attempts to acquire this RwLock with shared read access.
    ///
    /// The future will be pending until there are no more writers which hold the lock.
    /// There may be other readers currently inside the lock when the future acquired the lock.
    pub fn read(&self) -> (future: ReadFuture<'_, T>)
        ensures
            future.lock() == *self,
            !future.acquired(),
            future.log() == Seq::<WordReceipt>::empty(),
            future.history() == Seq::<WordReceipt>::empty(),
            future.children() == 0,
    {
        ReadFuture::new(self, WordJournal::fresh())
    }

    /// Return a future that attempts to lock this RwLock with upgradable read access.
    ///
    /// The future will be pending until there are no more writers or other upgradable reads
    /// which hold the lock. There may be other readers currently inside the lock when the
    /// future acquired the lock.
    pub fn upgradable_read(&self) -> (future: UpgradableReadFuture<'_, T>)
        ensures
            future.lock() == *self,
            !future.acquired(),
            future.log() == Seq::<WordReceipt>::empty(),
            future.history() == Seq::<WordReceipt>::empty(),
            future.children() == 0,
    {
        UpgradableReadFuture::new(self, WordJournal::fresh())
    }

    /// Return a future that attempts to lock this `RwLock` with exclusive write access.
    ///
    /// The future will be pending while other writers or other readers currently have
    /// access to the lock.
    pub fn write(&self) -> (future: WriteFuture<'_, T>)
        ensures
            future.lock() == *self,
            !future.acquired(),
            !future.writer_flag_acquired(),
            future.log() == Seq::<WordReceipt>::empty(),
            future.history() == Seq::<WordReceipt>::empty(),
            future.children() == 0,
    {
        WriteFuture::new(self, WordJournal::fresh())
    }

    /// Loads the word, recording the load in `journal`.
    pub fn load(&self, journal: &mut WordJournal, order: Ordering) -> (r: (usize, WordReceipt))
        requires
            read_ordering(order),
        ensures
            r.1.atomic() == self.word(),
            r.1.event() == (WordEvent::Loaded { loaded: r.0 }),
            final(journal).events() == old(journal).events().push(r.1),
            final(journal).children() == old(journal).children(),
    {
        let (loaded, receipt) = load_word(&self.state, order);
        journal.record(&receipt);
        (loaded, receipt)
    }

    /// Tries to swap the word from `current` to `new`, recording the attempt in
    /// `journal`. The result is what the swap returned.
    pub fn swap(
        &self,
        journal: &mut WordJournal,
        current: usize,
        new: usize,
        success: Ordering,
        failure: Ordering,
    ) -> (r: (Result<usize, usize>, WordReceipt))
        requires
            read_ordering(failure),
        ensures
            r.0 matches Ok(found) ==> found == current,
            r.1.atomic() == self.word(),
            r.1.event() == (WordEvent::Swapped {
                expected: current,
                desired: new,
                found: match r.0 {
                    Ok(found) => found,
                    Err(found) => found,
                },
                succeeded: r.0 is Ok,
            }),
            final(journal).events() == old(journal).events().push(r.1),
            final(journal).children() == old(journal).children(),
    {
        let (result, receipt) = swap_word(&self.state, current, new, success, failure);
        journal.record(&receipt);
        (result, receipt)
    }

    /// Subtracts `amount` from the word, recording it in `journal`. The result is
    /// the word found just before.
    pub fn subtract(&self, journal: &mut WordJournal, amount: usize, order: Ordering) -> (r: (
        usize,
        WordReceipt,
    ))
        ensures
            r.1.atomic() == self.word(),
            r.1.event() == (WordEvent::Subtracted { amount, previous: r.0 }),
            final(journal).events() == old(journal).events().push(r.1),
            final(journal).children() == old(journal).children(),
    {
        let (previous, receipt) = subtract_word(&self.state, amount, order);
        journal.record(&receipt);
        (previous, receipt)
    }

    /// Stores `value` in the word, recording it in `journal`.
    pub fn store(&self, journal: &mut WordJournal, value: usize, order: Ordering) -> (r: WordReceipt)
        requires
            store_ordering(order),
        ensures
            r.atomic() == self.word(),
            r.event() == (WordEvent::Stored { stored: value }),
            final(journal).events() == old(journal).events().push(r),
            final(journal).children() == old(journal).children(),
    {
        let receipt = store_word(&self.state, value, order);
        journal.record(&receipt);
        receipt
    }

    /// Takes one reader off the word, recording it in `journal`. Returns whether
    /// the waiting task is to be woken, as `reader_exit_wakes` decides on the word
    /// found by the subtraction, and the receipt of that subtraction.
    pub fn unlock_reader(&self, journal: &mut WordJournal) -> (r: (bool, WordReceipt))
        ensures
            is_reader_exit(r.1, self.word()),
            r.0 == exit_wakes(r.1.event()->previous),
            final(journal).events() == old(journal).events().push(r.1),
            final(journal).children() == old(journal).children(),
    {
        let (previous, receipt) = self.subtract(journal, ONE_READER, Ordering::Release);
        (reader_exit_wakes(previous), receipt)
    }

    /// Takes one reader and `UPGRADABLE_FLAG` off the word, recording it in
    /// `journal`. The waiting task is always to be woken.
    pub fn unlock_upgradable_reader(&self, journal: &mut WordJournal) -> (r: (bool, WordReceipt))
        ensures
            r.0,
            is_upgradable_exit(r.1, self.word()),
            final(journal).events() == old(journal).events().push(r.1),
            final(journal).children() == old(journal).children(),
    {
        proof {
            lemma_flag_unions();
        }
        let (_, receipt) = self.subtract(journal, ONE_READER | UPGRADABLE_FLAG, Ordering::Release);
        (true, receipt)
    }

    /// Takes `WRITER_FLAG` off the word, recording it in `journal`. The waiting
    /// task is always to be woken.
    pub fn unlock_writer(&self, journal: &mut WordJournal) -> (r: (bool, WordReceipt))
        ensures
            r.0,
            is_writer_exit(r.1, self.word()),
            final(journal).events() == old(journal).events().push(r.1),
            final(journal).children() == old(journal).children(),
    {
        let (_, receipt) = self.subtract(journal, WRITER_FLAG, Ordering::Release);
        (true, receipt)
    }
}

} // verus!
