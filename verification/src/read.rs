//! Shared read access: the future that asks for it and the guard that holds it.
use std::sync::atomic::Ordering;

use vstd::prelude::*;

use crate::lock::{RwLock, WordJournal, WordReceipt};
use crate::state::{exit_wakes, reader_entry, LockError};
use crate::steps::{is_reader_exit, poll_as_step, reader_step};

verus! {

/// A pending request for shared read access to a lock.
#[verifier::reject_recursive_types(T)]
pub struct ReadFuture<'a, T> {
    rwlock: &'a RwLock<T>,
    lock_acquired: bool,
    log: Ghost<Seq<WordReceipt>>,
    journal: WordJournal,
}

impl<'a, T> ReadFuture<'a, T> {
    /// The lock this future asks.
    pub closed spec fn lock(&self) -> RwLock<T> {
        *self.rwlock
    }

    /// Whether this future has already handed out its guard.
    pub closed spec fn acquired(&self) -> bool {
        self.lock_acquired
    }

    /// The receipts of the operations on the word that the latest attempt made.
    pub closed spec fn log(&self) -> Seq<WordReceipt> {
        self.log@
    }

    /// Every operation this future has made on the word.
    pub closed spec fn history(&self) -> Seq<WordReceipt> {
        self.journal.events()
    }

    /// How many guards this future has handed out.
    pub closed spec fn children(&self) -> nat {
        self.journal.children()
    }

    /// A request on `rwlock` that has not acquired anything yet, recording its
    /// operations in `journal`.
    pub fn new(rwlock: &'a RwLock<T>, journal: WordJournal) -> (future: Self)
        ensures
            future.lock() == *rwlock,
            !future.acquired(),
            future.log() == Seq::<WordReceipt>::empty(),
            future.history() == journal.events(),
            future.children() == journal.children(),
    {
        ReadFuture { rwlock, lock_acquired: false, log: Ghost(Seq::empty()), journal }
    }

    /// One attempt to enter as a reader: loads the word, lets `reader_entry`
    /// decide, and, where it allows, tries to swap the word loaded for the new one.
    ///
    /// `Ok(true)` exactly when that swap succeeded, `Ok(false)` when the reader
    /// must wait or the swap failed, `Err(ReaderOverflow)` when the reader count
    /// is full; `reader_step` states this over the receipts, which `log` keeps.
    pub fn try_acquire_reader(&mut self) -> (r: Result<bool, LockError>)
        ensures
            final(self).lock() == old(self).lock(),
            final(self).acquired() == old(self).acquired(),
            reader_step(old(self).lock().word(), final(self).log(), r),
            final(self).history() == old(self).history() + final(self).log(),
            final(self).children() == old(self).children(),
    {
        let (observed, load) = self.rwlock.load(&mut self.journal, Ordering::Relaxed);
        self.log = Ghost(Seq::empty().push(load));
        match reader_entry(observed) {
            Err(e) => Err(e),
            Ok(None) => Ok(false),
            Ok(Some(target)) => {
                let (swapped, swap) = self.rwlock.swap(
                    &mut self.journal,
                    observed,
                    target,
                    Ordering::Acquire,
                    Ordering::Relaxed,
                );
                self.log = Ghost(self.log@.push(swap));
                Ok(swapped.is_ok())
            },
        }
    }

    /// What a poll of this future decides, short of registering the waker.
    ///
    /// The guard is handed out exactly when the attempt succeeded; the future then
    /// records that it acquired the lock. Otherwise it is left as it was and the
    /// caller waits.
    pub fn poll_acquire(&mut self) -> (r: Result<Option<ReadGuard<'a, T>>, LockError>)
        ensures
            final(self).lock() == old(self).lock(),
            reader_step(old(self).lock().word(), final(self).log(), poll_as_step(r)),
            final(self).history() == old(self).history() + final(self).log(),
            match r {
                Ok(Some(guard)) => guard.lock() == old(self).lock() && guard.log()
                    == Seq::<WordReceipt>::empty() && final(self).acquired()
                    && final(self).children() == old(self).children() + 1,
                _ => final(self).acquired() == old(self).acquired() && final(self).children()
                    == old(self).children(),
            },
    {
        match self.try_acquire_reader() {
            Err(e) => Err(e),
            Ok(false) => Ok(None),
            Ok(true) => {
                self.lock_acquired = true;
                let journal = self.journal.split();
                Ok(Some(ReadGuard::held(self.rwlock, journal)))
            },
        }
    }
}

/// Shared read access to a lock, held until `release` is called.
#[verifier::reject_recursive_types(T)]
pub struct ReadGuard<'a, T> {
    rwlock: &'a RwLock<T>,
    journal: WordJournal,
}

impl<'a, T> ReadGuard<'a, T> {
    /// The lock this guard reads.
    pub closed spec fn lock(&self) -> RwLock<T> {
        *self.rwlock
    }

    /// Every operation this guard has made on the word.
    pub closed spec fn log(&self) -> Seq<WordReceipt> {
        self.journal.events()
    }

    /// How many journals this guard has handed on.
    pub closed spec fn children(&self) -> nat {
        self.journal.children()
    }

    /// A guard over `rwlock`, for a reader share already recorded in its word,
    /// recording its operations in `journal`.
    pub(crate) fn held(rwlock: &'a RwLock<T>, journal: WordJournal) -> (guard: Self)
        ensures
            guard.lock() == *rwlock,
            guard.log() == journal.events(),
            guard.children() == journal.children(),
    {
        ReadGuard { rwlock, journal }
    }

    /// The lock this guard reads.
    pub fn rwlock(&self) -> (lock: &'a RwLock<T>)
        ensures
            *lock == self.lock(),
    {
        self.rwlock
    }

    /// Gives the reader share back: takes `ONE_READER` off the lock's word.
    /// Returns whether the waiting task is to be woken, which is when this reader
    /// was the last one in the word it found.
    pub fn release(&mut self) -> (wake: bool)
        ensures
            final(self).lock() == old(self).lock(),
            final(self).log().len() == old(self).log().len() + 1,
            final(self).log().drop_last() == old(self).log(),
            is_reader_exit(final(self).log().last(), old(self).lock().word()),
            wake == exit_wakes(final(self).log().last().event()->previous),
            final(self).children() == old(self).children(),
    {
        let (wake, _) = self.rwlock.unlock_reader(&mut self.journal);
        wake
    }
}

} // verus!
