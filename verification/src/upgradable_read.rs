//! Upgradable read access: shared access that at most one reader holds at a time
//! and that can later be turned into exclusive access.
use std::sync::atomic::Ordering;

use vstd::prelude::*;

use crate::lock::{RwLock, WordJournal, WordReceipt};
use crate::read::ReadGuard;
use crate::state::{upgradable_entry, LockError, UPGRADABLE_FLAG};
use crate::steps::{is_upgradable_downgrade, is_upgradable_exit, poll_as_step, upgradable_step};
use crate::upgrade::UpgradeFuture;

verus! {

/// A pending request for upgradable read access to a lock.
#[verifier::reject_recursive_types(T)]
pub struct UpgradableReadFuture<'a, T> {
    rwlock: &'a RwLock<T>,
    lock_acquired: bool,
    log: Ghost<Seq<WordReceipt>>,
    journal: WordJournal,
}

impl<'a, T> UpgradableReadFuture<'a, T> {
    /// The lock this future asks.
    pub closed spec fn lock(&self) -> RwLock<T> {
        *self.rwlock
    }

    /// Whether this future has already handed out its guard.
    pub closed spec fn acquired(&self) -> bool {
        self.lock_acquired
    }

    /// The receipts of the operations on the word that the latest attempt made.
    pub closed spec fn log(&self) -> Seq<WordReceipt> {
        self.log@
    }

    /// Every operation this future has made on the word.
    pub closed spec fn history(&self) -> Seq<WordReceipt> {
        self.journal.events()
    }

    /// How many guards this future has handed out.
    pub closed spec fn children(&self) -> nat {
        self.journal.children()
    }

    /// A request on `rwlock` that has not acquired anything yet, recording its
    /// operations in `journal`.
    pub fn new(rwlock: &'a RwLock<T>, journal: WordJournal) -> (future: Self)
        ensures
            future.lock() == *rwlock,
            !future.acquired(),
            future.log() == Seq::<WordReceipt>::empty(),
            future.history() == journal.events(),
            future.children() == journal.children(),
    {
        UpgradableReadFuture { rwlock, lock_acquired: false, log: Ghost(Seq::empty()), journal }
    }

    /// One attempt to enter as the upgradable reader: loads the word, lets
    /// `upgradable_entry` decide, and, where it allows, tries to swap the word
    /// loaded for the new one.
    ///
    /// `Ok(true)` exactly when that swap succeeded, `Ok(false)` when the reader
    /// must wait or the swap failed, `Err(ReaderOverflow)` when the reader count
    /// is full; `upgradable_step` states this over the receipts, which `log` keeps.
    pub fn try_acquire_upgradable_reader(&mut self) -> (r: Result<bool, LockError>)
        ensures
            final(self).lock() == old(self).lock(),
            final(self).acquired() == old(self).acquired(),
            upgradable_step(old(self).lock().word(), final(self).log(), r),
            final(self).history() == old(self).history() + final(self).log(),
            final(self).children() == old(self).children(),
    {
        let (observed, load) = self.rwlock.load(&mut self.journal, Ordering::Relaxed);
        self.log = Ghost(Seq::empty().push(load));
        match upgradable_entry(observed) {
            Err(e) => Err(e),
            Ok(None) => Ok(false),
            Ok(Some(target)) => {
                let (swapped, swap) = self.rwlock.swap(
                    &mut self.journal,
                    observed,
                    target,
                    Ordering::Acquire,
                    Ordering::Relaxed,
                );
                self.log = Ghost(self.log@.push(swap));
                Ok(swapped.is_ok())
            },
        }
    }

    /// What a poll of this future decides, short of registering the waker.
    ///
    /// A live guard (neither upgraded nor downgraded) is handed out exactly when
    /// the attempt succeeded; the future then records that it acquired the lock.
    /// Otherwise it is left as it was and the caller waits.
    pub fn poll_acquire(&mut self) -> (r: Result<Option<UpgradableReadGuard<'a, T>>, LockError>)
        ensures
            final(self).lock() == old(self).lock(),
            upgradable_step(old(self).lock().word(), final(self).log(), poll_as_step(r)),
            final(self).history() == old(self).history() + final(self).log(),
            match r {
                Ok(Some(guard)) => guard.lock() == old(self).lock() && !guard.upgrade_called()
                    && !guard.downgraded() && guard.log() == Seq::<WordReceipt>::empty()
                    && final(self).acquired() && final(self).children() == old(self).children()
                    + 1,
                _ => final(self).acquired() == old(self).acquired() && final(self).children()
                    == old(self).children(),
            },
    {
        match self.try_acquire_upgradable_reader() {
            Err(e) => Err(e),
            Ok(false) => Ok(None),
            Ok(true) => {
                self.lock_acquired = true;
                let journal = self.journal.split();
                Ok(Some(UpgradableReadGuard::held(self.rwlock, journal)))
            },
        }
    }
}

/// Upgradable read access to a lock, held until it is released, upgraded or
/// downgraded.
#[verifier::reject_recursive_types(T)]
pub struct UpgradableReadGuard<'a, T> {
    rwlock: &'a RwLock<T>,
    upgrade_called: bool,
    downgraded: bool,
    journal: WordJournal,
}

impl<'a, T> UpgradableReadGuard<'a, T> {
    /// The lock this guard reads.
    pub closed spec fn lock(&self) -> RwLock<T> {
        *self.rwlock
    }

    /// Whether the guard has been handed over to an upgrade.
    pub closed spec fn upgrade_called(&self) -> bool {
        self.upgrade_called
    }

    /// Whether the guard has been turned into a shared lock by
    /// `downgrade_upgradable`; it then gives nothing back.
    pub closed spec fn downgraded(&self) -> bool {
        self.downgraded
    }

    /// Every operation this guard has made on the word.
    pub closed spec fn log(&self) -> Seq<WordReceipt> {
        self.journal.events()
    }

    /// How many journals this guard has handed on.
    pub closed spec fn children(&self) -> nat {
        self.journal.children()
    }

    /// A guard over `rwlock`, for an upgradable share already recorded in its
    /// word, recording its operations in `journal`.
    pub(crate) fn held(rwlock: &'a RwLock<T>, journal: WordJournal) -> (guard: Self)
        ensures
            guard.lock() == *rwlock,
            !guard.upgrade_called(),
            !guard.downgraded(),
            guard.log() == journal.events(),
            guard.children() == journal.children(),
    {
        UpgradableReadGuard { rwlock, upgrade_called: false, downgraded: false, journal }
    }

    /// The lock this guard reads.
    pub fn rwlock(&self) -> (lock: &'a RwLock<T>)
        ensures
            *lock == self.lock(),
    {
        self.rwlock
    }

    /// Whether the guard has been turned into a shared lock.
    pub fn is_downgraded(&self) -> (d: bool)
        ensures
            d == self.downgraded(),
    {
        self.downgraded
    }

    /// Downgrades an upgradable lock to a shared lock.
    ///
    /// Takes `UPGRADABLE_FLAG` off the lock's word; the reader share stays and now
    /// belongs to the returned guard, and this guard gives nothing back any more.
    pub fn downgrade_upgradable(&mut self) -> (guard: ReadGuard<'a, T>)
        requires
            !old(self).downgraded(),
        ensures
            guard.lock() == old(self).lock(),
            guard.log() == Seq::<WordReceipt>::empty(),
            final(self).lock() == old(self).lock(),
            final(self).downgraded(),
            final(self).upgrade_called() == old(self).upgrade_called(),
            final(self).log().len() == old(self).log().len() + 1,
            final(self).log().drop_last() == old(self).log(),
            is_upgradable_downgrade(final(self).log().last(), old(self).lock().word()),
            final(self).children() == old(self).children() + 1,
    {
        self.rwlock.subtract(&mut self.journal, UPGRADABLE_FLAG, Ordering::Release);
        self.downgraded = true;
        let journal = self.journal.split();
        ReadGuard::held(self.rwlock, journal)
    }

    /// Upgrades an upgradable lock to an exclusive lock.
    ///
    /// The guard is consumed: its share passes to the returned future, which
    /// releases it if it is itself dropped before acquiring the lock.
    pub fn upgrade(self) -> (future: UpgradeFuture<'a, T>)
        ensures
            future.lock() == self.lock(),
            !future.acquired(),
            !future.writer_flag_acquired(),
            future.log() == Seq::<WordReceipt>::empty(),
            future.history() == self.log(),
            future.children() == self.children(),
    {
        let UpgradableReadGuard { rwlock, upgrade_called: _, downgraded: _, journal } = self;
        UpgradeFuture::new(rwlock, journal)
    }

    /// Gives the upgradable share back, unless it was handed to an upgrade or
    /// turned into a shared lock: takes `ONE_READER | UPGRADABLE_FLAG` off the
    /// lock's word. Returns whether the waiting task is to be woken, which is
    /// exactly when the share was given back.
    pub fn release(&mut self) -> (wake: bool)
        ensures
            final(self).lock() == old(self).lock(),
            final(self).downgraded() == old(self).downgraded(),
            final(self).upgrade_called() == old(self).upgrade_called(),
            wake == (!old(self).upgrade_called() && !old(self).downgraded()),
            wake ==> final(self).log().len() == old(self).log().len() + 1
                && final(self).log().drop_last() == old(self).log() && is_upgradable_exit(
                final(self).log().last(),
                old(self).lock().word(),
            ),
            !wake ==> final(self).log() == old(self).log(),
            final(self).children() == old(self).children(),
    {
        if !self.upgrade_called && !self.downgraded {
            let (wake, _) = self.rwlock.unlock_upgradable_reader(&mut self.journal);
            wake
        } else {
            false
        }
    }
}

} // verus!
