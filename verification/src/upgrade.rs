//! Turning upgradable read access into exclusive access.
use std::sync::atomic::Ordering;

use vstd::prelude::*;

use crate::lock::{RwLock, WordJournal, WordReceipt};
use crate::state::{readers_drained, upgrade_claim, LockError, ONE_READER, UPGRADABLE_FLAG, WRITER_FLAG};
use crate::state::lemma_flag_unions;
use crate::steps::{is_upgradable_exit, is_writer_exit, poll_as_step, upgrade_step};
use crate::write::WriteGuard;

verus! {

/// What an upgrade that has not handed out its guard still holds of the lock.
#[derive(Debug, Clone, Copy, PartialEq, Eq, Structural)]
pub enum UpgradeHolding {
    /// The guard was handed out; the future holds nothing.
    Nothing,
    /// `WRITER_FLAG`, set in place of the upgradable share.
    WriterFlag,
    /// The upgradable reader share it was created with.
    UpgradableShare,
}

/// A pending upgrade of an upgradable read lock to an exclusive lock.
///
/// The upgrade first announces itself with `WRITER_FLAG` (handing its reader share
/// back), then waits for the remaining readers to leave.
#[verifier::reject_recursive_types(T)]
pub struct UpgradeFuture<'a, T> {
    rwlock: &'a RwLock<T>,
    lock_acquired: bool,
    writer_flag_acquired: bool,
    log: Ghost<Seq<WordReceipt>>,
    journal: WordJournal,
}

impl<'a, T> UpgradeFuture<'a, T> {
    /// The lock this future asks.
    pub closed spec fn lock(&self) -> RwLock<T> {
        *self.rwlock
    }

    /// Whether this future has already handed out its guard.
    pub closed spec fn acquired(&self) -> bool {
        self.lock_acquired
    }

    /// Whether this future has set `WRITER_FLAG` in place of its upgradable share.
    pub closed spec fn writer_flag_acquired(&self) -> bool {
        self.writer_flag_acquired
    }

    /// The receipts of the operations on the word that the latest call on this
    /// future made.
    pub closed spec fn log(&self) -> Seq<WordReceipt> {
        self.log@
    }

    /// Every operation this future, and the guard it was made from, has made on
    /// the word.
    pub closed spec fn history(&self) -> Seq<WordReceipt> {
        self.journal.events()
    }

    /// How many journals this future has handed on.
    pub closed spec fn children(&self) -> nat {
        self.journal.children()
    }

    /// What this future still holds of the lock, as `holding` returns it.
    pub open spec fn holding_spec(&self) -> UpgradeHolding {
        if self.acquired() {
            UpgradeHolding::Nothing
        } else if self.writer_flag_acquired() {
            UpgradeHolding::WriterFlag
        } else {
            UpgradeHolding::UpgradableShare
        }
    }

    /// An upgrade on `rwlock`, whose caller holds the upgradable share, recording
    /// its operations in `journal`.
    pub fn new(rwlock: &'a RwLock<T>, journal: WordJournal) -> (future: Self)
        ensures
            future.lock() == *rwlock,
            !future.acquired(),
            !future.writer_flag_acquired(),
            future.log() == Seq::<WordReceipt>::empty(),
            future.history() == journal.events(),
            future.children() == journal.children(),
    {
        UpgradeFuture {
            rwlock,
            lock_acquired: false,
            writer_flag_acquired: false,
            log: Ghost(Seq::empty()),
            journal,
        }
    }

    /// One step of the upgrade.
    ///
    /// Once `WRITER_FLAG` is set, the step only looks whether the readers have
    /// drained (`readers_drained`). Before that, it tries to go from "this reader
    /// alone" straight to `WRITER_FLAG` (then the lock is taken at once); failing
    /// that, it tries to install the word that `upgrade_claim` computes from what
    /// it read, and records that the flag is set when it succeeds.
    /// `Err(ReaderUnderflow)` when the word read is too small to hold this
    /// reader's share.
    pub fn try_upgrade(&mut self) -> (r: Result<bool, LockError>)
        ensures
            final(self).lock() == old(self).lock(),
            final(self).acquired() == old(self).acquired(),
            upgrade_step(
                old(self).lock().word(),
                old(self).writer_flag_acquired(),
                final(self).writer_flag_acquired(),
                final(self).log(),
                r,
            ),
            final(self).history() == old(self).history() + final(self).log(),
            final(self).children() == old(self).children(),
    {
        if self.writer_flag_acquired {
            let (observed, load) = self.rwlock.load(&mut self.journal, Ordering::Relaxed);
            self.log = Ghost(Seq::empty().push(load));
            Ok(readers_drained(observed))
        } else {
            proof {
                lemma_flag_unions();
            }
            let (first, swap) = self.rwlock.swap(
                &mut self.journal,
                ONE_READER | UPGRADABLE_FLAG,
                WRITER_FLAG,
                Ordering::Relaxed,
                Ordering::Relaxed,
            );
            self.log = Ghost(Seq::empty().push(swap));
            match first {
                Ok(_) => Ok(true),
                Err(observed) => match upgrade_claim(observed) {
                    Err(e) => Err(e),
                    Ok(target) => {
                        let (claimed, claim) = self.rwlock.swap(
                            &mut self.journal,
                            observed,
                            target,
                            Ordering::Relaxed,
                            Ordering::Relaxed,
                        );
                        self.log = Ghost(self.log@.push(claim));
                        if claimed.is_ok() {
                            self.writer_flag_acquired = true;
                        }
                        Ok(false)
                    },
                },
            }
        }
    }

    /// What a poll of this future decides, short of registering the waker.
    ///
    /// On success the future records that it acquired the lock and hands out the
    /// write guard; otherwise the caller waits.
    pub fn poll_acquire(&mut self) -> (r: Result<Option<WriteGuard<'a, T>>, LockError>)
        ensures
            final(self).lock() == old(self).lock(),
            upgrade_step(
                old(self).lock().word(),
                old(self).writer_flag_acquired(),
                final(self).writer_flag_acquired(),
                final(self).log(),
                poll_as_step(r),
            ),
            final(self).history() == old(self).history() + final(self).log(),
            match r {
                Ok(Some(guard)) => guard.lock() == old(self).lock() && !guard.given_up()
                    && guard.log() == Seq::<WordReceipt>::empty() && final(self).acquired()
                    && final(self).children() == old(self).children() + 1,
                _ => final(self).acquired() == old(self).acquired() && final(self).children()
                    == old(self).children(),
            },
    {
        match self.try_upgrade() {
            Err(e) => Err(e),
            Ok(false) => Ok(None),
            Ok(true) => {
                self.lock_acquired = true;
                let journal = self.journal.split();
                Ok(Some(WriteGuard::held(self.rwlock, journal)))
            },
        }
    }

    /// What this future still holds of the lock.
    pub fn holding(&self) -> (h: UpgradeHolding)
        ensures
            h == self.holding_spec(),
    {
        if self.lock_acquired {
            UpgradeHolding::Nothing
        } else if self.writer_flag_acquired {
            UpgradeHolding::WriterFlag
        } else {
            UpgradeHolding::UpgradableShare
        }
    }

    /// What dropping this future does to the lock: it gives back what `holding`
    /// names, taking `WRITER_FLAG` off the lock's word for the flag and
    /// `ONE_READER | UPGRADABLE_FLAG` for the share. Returns whether the waiting
    /// task is to be woken, which is exactly when something was given back.
    pub fn release(&mut self) -> (wake: bool)
        ensures
            final(self).lock() == old(self).lock(),
            final(self).acquired() == old(self).acquired(),
            final(self).writer_flag_acquired() == old(self).writer_flag_acquired(),
            wake == (old(self).holding_spec() != UpgradeHolding::Nothing),
            wake == !old(self).acquired(),
            match old(self).holding_spec() {
                UpgradeHolding::Nothing => final(self).log() == Seq::<WordReceipt>::empty(),
                UpgradeHolding::WriterFlag => final(self).log().len() == 1 && is_writer_exit(
                    final(self).log()[0],
                    old(self).lock().word(),
                ),
                UpgradeHolding::UpgradableShare => final(self).log().len() == 1
                    && is_upgradable_exit(final(self).log()[0], old(self).lock().word()),
            },
            final(self).history() == old(self).history() + final(self).log(),
            final(self).children() == old(self).children(),
    {
        match self.holding() {
            UpgradeHolding::Nothing => {
                self.log = Ghost(Seq::empty());
                false
            },
            UpgradeHolding::WriterFlag => {
                let (wake, receipt) = self.rwlock.unlock_writer(&mut self.journal);
                self.log = Ghost(Seq::empty().push(receipt));
                wake
            },
            UpgradeHolding::UpgradableShare => {
                let (wake, receipt) = self.rwlock.unlock_upgradable_reader(&mut self.journal);
                self.log = Ghost(Seq::empty().push(receipt));
                wake
            },
        }
    }
}

} // verus!
