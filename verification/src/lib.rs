//! An asynchronous reader-writer lock whose readers can be upgraded to writers,
//! built on one atomic state word whose transitions are verified.
//!
//! Not vulnerable to write starvation: readers wait while a writer waits.
mod laws;
mod lock;
mod read;
mod state;
mod step_laws;
mod steps;
mod upgradable_read;
mod upgrade;
mod write;

pub use laws::{
    lemma_reader_entry_step,
    lemma_upgradable_entry_step,
    lemma_writer_claim_step,
    lemma_upgrade_claim_step,
    lemma_upgrade_fast_path,
    lemma_write_fast_path,
    lemma_writer_excludes_entries,
    lemma_upgradable_excludes_entries,
    lemma_write_lock_is_exclusive,
    lemma_drained_means_locked,
    lemma_reader_exit_undoes_entry,
    lemma_upgradable_exit_undoes_entry,
    lemma_writer_exit_undoes_claim,
    lemma_withdrawn_upgrade_is_upgradable_exit,
    lemma_exits_keep_invariant,
    lemma_downgrade_word,
    lemma_downgrade_to_upgradable_word,
    lemma_last_reader_exit_wakes,
};
pub use lock::{RwLock, WordEvent, WordJournal, WordReceipt};
pub use step_laws::{
    lemma_reader_gets_in_beside_no_writer,
    lemma_upgradable_gets_in_alone,
    lemma_writer_gets_lock_alone,
    lemma_writer_flag_is_in_word,
    lemma_upgrade_fast_path_is_exclusive,
    lemma_upgrade_flag_is_in_word,
    lemma_failed_reader_attempt_changes_nothing,
    lemma_failed_upgradable_attempt_changes_nothing,
    lemma_idle_writer_step_changes_nothing,
    lemma_idle_upgrade_step_changes_nothing,
};
pub use read::{ReadFuture, ReadGuard};
pub use state::{
    reader_entry, reader_exit_wakes, readers_drained, upgradable_entry, upgrade_claim,
    writer_claim, LockError, ONE_READER, READERS_MASK, UPGRADABLE_FLAG, WRITER_FLAG,
};
pub use upgradable_read::{UpgradableReadFuture, UpgradableReadGuard};
pub use upgrade::{UpgradeFuture, UpgradeHolding};
pub use write::{WriteFuture, WriteGuard};
