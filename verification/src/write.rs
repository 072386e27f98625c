//! Exclusive write access: the future that asks for it and the guard that holds it.
use std::sync::atomic::Ordering;

use vstd::prelude::*;

use crate::lock::{RwLock, WordJournal, WordReceipt};
use crate::read::ReadGuard;
use crate::state::{lemma_flag_unions, readers_drained, writer_claim, ONE_READER, UPGRADABLE_FLAG, WRITER_FLAG};
use crate::steps::{is_store, is_writer_exit, upgradable_alone, writer_step};
use crate::upgradable_read::UpgradableReadGuard;

verus! {

/// A pending request for exclusive write access to a lock.
///
/// The writer first announces itself with `WRITER_FLAG`, which stops new readers,
/// then waits for the readers already inside to leave.
#[verifier::reject_recursive_types(T)]
pub struct WriteFuture<'a, T> {
    rwlock: &'a RwLock<T>,
    lock_acquired: bool,
    writer_flag_acquired: bool,
    log: Ghost<Seq<WordReceipt>>,
    journal: WordJournal,
}

impl<'a, T> WriteFuture<'a, T> {
    /// The lock this future asks.
    pub closed spec fn lock(&self) -> RwLock<T> {
        *self.rwlock
    }

    /// Whether this future has already handed out its guard.
    pub closed spec fn acquired(&self) -> bool {
        self.lock_acquired
    }

    /// Whether this future has set `WRITER_FLAG` and waits for readers to leave.
    pub closed spec fn writer_flag_acquired(&self) -> bool {
        self.writer_flag_acquired
    }

    /// The receipts of the operations on the word that the latest call on this
    /// future made.
    pub closed spec fn log(&self) -> Seq<WordReceipt> {
        self.log@
    }

    /// Every operation this future has made on the word.
    pub closed spec fn history(&self) -> Seq<WordReceipt> {
        self.journal.events()
    }

    /// How many guards this future has handed out.
    pub closed spec fn children(&self) -> nat {
        self.journal.children()
    }

    /// A request on `rwlock` that has not done anything yet, recording its
    /// operations in `journal`.
    pub fn new(rwlock: &'a RwLock<T>, journal: WordJournal) -> (future: Self)
        ensures
            future.lock() == *rwlock,
            !future.acquired(),
            !future.writer_flag_acquired(),
            future.log() == Seq::<WordReceipt>::empty(),
            future.history() == journal.events(),
            future.children() == journal.children(),
    {
        WriteFuture {
            rwlock,
            lock_acquired: false,
            writer_flag_acquired: false,
            log: Ghost(Seq::empty()),
            journal,
        }
    }

    /// One step of acquiring the lock.
    ///
    /// Once `WRITER_FLAG` is set, the step only looks whether the readers have
    /// drained (`readers_drained`). Before that, it tries to go from an unlocked
    /// word straight to `WRITER_FLAG` (then the lock is taken at once); failing
    /// that, it tries to install the word that `writer_claim` computes from what it
    /// read, and records that the flag is set when it succeeds. `writer_step`
    /// states the result and the flag over the receipts, which `log` keeps.
    pub fn try_acquire_writer(&mut self) -> (r: bool)
        ensures
            final(self).lock() == old(self).lock(),
            final(self).acquired() == old(self).acquired(),
            writer_step(
                old(self).lock().word(),
                old(self).writer_flag_acquired(),
                final(self).writer_flag_acquired(),
                final(self).log(),
                r,
            ),
            final(self).history() == old(self).history() + final(self).log(),
            final(self).children() == old(self).children(),
    {
        if self.writer_flag_acquired {
            let (observed, load) = self.rwlock.load(&mut self.journal, Ordering::Relaxed);
            self.log = Ghost(Seq::empty().push(load));
            readers_drained(observed)
        } else {
            let (first, swap) = self.rwlock.swap(
                &mut self.journal,
                0,
                WRITER_FLAG,
                Ordering::Relaxed,
                Ordering::Relaxed,
            );
            self.log = Ghost(Seq::empty().push(swap));
            match first {
                Ok(_) => true,
                Err(observed) => match writer_claim(observed) {
                    None => false,
                    Some(target) => {
                        let (claimed, claim) = self.rwlock.swap(
                            &mut self.journal,
                            observed,
                            target,
                            Ordering::Relaxed,
                            Ordering::Relaxed,
                        );
                        self.log = Ghost(self.log@.push(claim));
                        if claimed.is_ok() {
                            self.writer_flag_acquired = true;
                        }
                        false
                    },
                },
            }
        }
    }

    /// What a poll of this future decides, short of registering the waker.
    ///
    /// On success the future records that it acquired the lock and hands out the
    /// guard; otherwise the caller waits.
    pub fn poll_acquire(&mut self) -> (r: Option<WriteGuard<'a, T>>)
        ensures
            final(self).lock() == old(self).lock(),
            writer_step(
                old(self).lock().word(),
                old(self).writer_flag_acquired(),
                final(self).writer_flag_acquired(),
                final(self).log(),
                r is Some,
            ),
            final(self).history() == old(self).history() + final(self).log(),
            match r {
                Some(guard) => guard.lock() == old(self).lock() && !guard.given_up() && guard.log()
                    == Seq::<WordReceipt>::empty() && final(self).acquired()
                    && final(self).children() == old(self).children() + 1,
                None => final(self).acquired() == old(self).acquired() && final(self).children()
                    == old(self).children(),
            },
    {
        if self.try_acquire_writer() {
            self.lock_acquired = true;
            let journal = self.journal.split();
            Some(WriteGuard::held(self.rwlock, journal))
        } else {
            None
        }
    }

    /// Whether this future still holds `WRITER_FLAG`: it set the flag and never
    /// handed out its guard.
    pub fn holds_writer_flag(&self) -> (held: bool)
        ensures
            held == (!self.acquired() && self.writer_flag_acquired()),
    {
        !self.lock_acquired && self.writer_flag_acquired
    }

    /// What dropping this future does to the lock: a writer that still holds
    /// `WRITER_FLAG` (`holds_writer_flag`) takes it off the word. Returns whether
    /// the waiting task is to be woken, which is exactly when the flag was taken off.
    pub fn release(&mut self) -> (wake: bool)
        ensures
            final(self).lock() == old(self).lock(),
            final(self).acquired() == old(self).acquired(),
            final(self).writer_flag_acquired() == old(self).writer_flag_acquired(),
            wake == (!old(self).acquired() && old(self).writer_flag_acquired()),
            wake ==> final(self).log().len() == 1 && is_writer_exit(
                final(self).log()[0],
                old(self).lock().word(),
            ),
            !wake ==> final(self).log() == Seq::<WordReceipt>::empty(),
            final(self).history() == old(self).history() + final(self).log(),
            final(self).children() == old(self).children(),
    {
        if self.holds_writer_flag() {
            let (wake, receipt) = self.rwlock.unlock_writer(&mut self.journal);
            self.log = Ghost(Seq::empty().push(receipt));
            wake
        } else {
            self.log = Ghost(Seq::empty());
            false
        }
    }
}

/// Exclusive write access to a lock, held until it is released or downgraded.
#[verifier::reject_recursive_types(T)]
pub struct WriteGuard<'a, T> {
    rwlock: &'a RwLock<T>,
    given_up: bool,
    journal: WordJournal,
}

impl<'a, T> WriteGuard<'a, T> {
    /// The lock this guard writes.
    pub closed spec fn lock(&self) -> RwLock<T> {
        *self.rwlock
    }

    /// Whether the exclusive lock has been turned into another lock by a
    /// downgrade; the guard then holds nothing and grants no access.
    pub closed spec fn given_up(&self) -> bool {
        self.given_up
    }

    /// Every operation this guard has made on the word.
    pub closed spec fn log(&self) -> Seq<WordReceipt> {
        self.journal.events()
    }

    /// How many journals this guard has handed on.
    pub closed spec fn children(&self) -> nat {
        self.journal.children()
    }

    /// A guard over `rwlock`, for an exclusive hold already recorded in its word.
    pub(crate) fn held(rwlock: &'a RwLock<T>, journal: WordJournal) -> (guard: Self)
        ensures
            guard.lock() == *rwlock,
            !guard.given_up(),
            guard.log() == journal.events(),
            guard.children() == journal.children(),
    {
        WriteGuard { rwlock, given_up: false, journal }
    }

    /// The lock this guard writes.
    pub fn rwlock(&self) -> (lock: &'a RwLock<T>)
        ensures
            *lock == self.lock(),
    {
        self.rwlock
    }

    /// Whether the exclusive lock has been turned into another lock.
    pub fn is_given_up(&self) -> (g: bool)
        ensures
            g == self.given_up(),
    {
        self.given_up
    }

    /// Atomically downgrades an exclusive lock into a shared lock without allowing
    /// any thread to take an exclusive lock in the meantime.
    ///
    /// Stores the word `ONE_READER`: one reader, no flag. The exclusive lock is
    /// now the returned shared lock; this guard gives nothing back any more.
    pub fn downgrade(&mut self) -> (guard: ReadGuard<'a, T>)
        requires
            !old(self).given_up(),
        ensures
            final(self).lock() == old(self).lock(),
            final(self).given_up(),
            final(self).log().len() == old(self).log().len() + 1,
            final(self).log().drop_last() == old(self).log(),
            is_store(final(self).log().last(), old(self).lock().word(), ONE_READER),
            guard.lock() == old(self).lock(),
            guard.log() == Seq::<WordReceipt>::empty(),
            final(self).children() == old(self).children() + 1,
    {
        self.rwlock.store(&mut self.journal, ONE_READER, Ordering::Release);
        self.given_up = true;
        let journal = self.journal.split();
        ReadGuard::held(self.rwlock, journal)
    }

    /// Downgrades an exclusive lock to an upgradable lock.
    ///
    /// Stores the word `ONE_READER | UPGRADABLE_FLAG`: one reader, which holds the
    /// upgradable lock. The exclusive lock is now the returned upgradable lock;
    /// this guard gives nothing back any more.
    pub fn downgrade_to_upgradable(&mut self) -> (guard: UpgradableReadGuard<'a, T>)
        requires
            !old(self).given_up(),
        ensures
            final(self).lock() == old(self).lock(),
            final(self).given_up(),
            final(self).log().len() == old(self).log().len() + 1,
            final(self).log().drop_last() == old(self).log(),
            is_store(final(self).log().last(), old(self).lock().word(), upgradable_alone()),
            guard.lock() == old(self).lock(),
            !guard.upgrade_called(),
            !guard.downgraded(),
            guard.log() == Seq::<WordReceipt>::empty(),
            final(self).children() == old(self).children() + 1,
    {
        proof {
            lemma_flag_unions();
        }
        self.rwlock.store(&mut self.journal, ONE_READER | UPGRADABLE_FLAG, Ordering::Release);
        self.given_up = true;
        let journal = self.journal.split();
        UpgradableReadGuard::held(self.rwlock, journal)
    }

    /// Gives the exclusive lock back, unless a downgrade turned it into another
    /// lock: takes `WRITER_FLAG` off the word. Returns whether the waiting task is
    /// to be woken, which is exactly when the lock was given back.
    pub fn release(&mut self) -> (wake: bool)
        ensures
            final(self).lock() == old(self).lock(),
            wake == !old(self).given_up(),
            final(self).given_up() == old(self).given_up(),
            wake ==> final(self).log().len() == old(self).log().len() + 1
                && final(self).log().drop_last() == old(self).log() && is_writer_exit(
                final(self).log().last(),
                old(self).lock().word(),
            ),
            !wake ==> final(self).log() == old(self).log(),
            final(self).children() == old(self).children(),
    {
        if !self.given_up {
            let (wake, _) = self.rwlock.unlock_writer(&mut self.journal);
            wake
        } else {
            false
        }
    }
}

} // verus!
