//! What holds of the state word across operations: the invariant that every
//! transition keeps, what each kind of holder excludes, and what one operation
//! undoes of another.
use vstd::prelude::*;

use crate::state::{
    after_reader_exit, exit_wakes, after_upgradable_downgrade, after_upgradable_exit, after_writer_exit,
    reader_admitted, readers, upgradable_admitted, upgradable_bit, well_formed, write_locked,
    write_pending, writer_admitted, writer_bit, ONE_READER, UPGRADABLE_FLAG, WRITER_FLAG,
};

verus! {

/// A reader entering a well-formed word keeps it well-formed: the word gets one
/// reader more and keeps both flags.
pub proof fn lemma_reader_entry_step(s: usize)
    requires
        well_formed(s),
        reader_admitted(s),
        s + ONE_READER <= usize::MAX,
    ensures
        well_formed((s + ONE_READER) as usize),
        readers((s + ONE_READER) as usize) == readers(s) + 1,
        writer_bit((s + ONE_READER) as usize) == writer_bit(s),
        upgradable_bit((s + ONE_READER) as usize) == upgradable_bit(s),
{
}

/// A reader taking the upgradable lock keeps the word well-formed: it is counted
/// as a reader and sets `UPGRADABLE_FLAG`; no writer flag stands.
pub proof fn lemma_upgradable_entry_step(s: usize)
    requires
        well_formed(s),
        upgradable_admitted(s),
        s + ONE_READER + UPGRADABLE_FLAG <= usize::MAX,
    ensures
        well_formed((s + ONE_READER + UPGRADABLE_FLAG) as usize),
        readers((s + ONE_READER + UPGRADABLE_FLAG) as usize) == readers(s) + 1,
        upgradable_bit((s + ONE_READER + UPGRADABLE_FLAG) as usize),
        !writer_bit((s + ONE_READER + UPGRADABLE_FLAG) as usize),
{
}

/// A writer announcing itself keeps the word well-formed: `WRITER_FLAG` is set
/// and the readers inside stay counted, so the writer holds the lock at once when
/// there were none and waits for them otherwise.
pub proof fn lemma_writer_claim_step(s: usize)
    requires
        well_formed(s),
        writer_admitted(s),
    ensures
        s + WRITER_FLAG <= usize::MAX,
        well_formed((s + WRITER_FLAG) as usize),
        writer_bit((s + WRITER_FLAG) as usize),
        !upgradable_bit((s + WRITER_FLAG) as usize),
        readers((s + WRITER_FLAG) as usize) == readers(s),
        readers(s) == 0 ==> write_locked((s + WRITER_FLAG) as usize),
        readers(s) > 0 ==> write_pending((s + WRITER_FLAG) as usize),
{
}

/// While the upgradable lock is held the upgrade's subtraction never underflows,
/// and the word it writes is well-formed: the holder's reader share and
/// `UPGRADABLE_FLAG` are gone and `WRITER_FLAG` is set, so no new reader, no new
/// upgradable reader and no other writer can enter until the upgrade completes
/// or withdraws.
pub proof fn lemma_upgrade_claim_step(s: usize)
    requires
        well_formed(s),
        upgradable_bit(s),
    ensures
        s >= ONE_READER + UPGRADABLE_FLAG,
        well_formed((s - ONE_READER - UPGRADABLE_FLAG + WRITER_FLAG) as usize),
        writer_bit((s - ONE_READER - UPGRADABLE_FLAG + WRITER_FLAG) as usize),
        !upgradable_bit((s - ONE_READER - UPGRADABLE_FLAG + WRITER_FLAG) as usize),
        readers((s - ONE_READER - UPGRADABLE_FLAG + WRITER_FLAG) as usize) == readers(s) - 1,
        !reader_admitted((s - ONE_READER - UPGRADABLE_FLAG + WRITER_FLAG) as usize),
        !upgradable_admitted((s - ONE_READER - UPGRADABLE_FLAG + WRITER_FLAG) as usize),
        !writer_admitted((s - ONE_READER - UPGRADABLE_FLAG + WRITER_FLAG) as usize),
{
}

/// When the upgradable holder is the only reader, the upgrade's first attempt
/// goes straight from `ONE_READER | UPGRADABLE_FLAG` to a word in which the
/// writer holds the lock.
pub proof fn lemma_upgrade_fast_path()
    ensures
        well_formed((ONE_READER + UPGRADABLE_FLAG) as usize),
        upgradable_bit((ONE_READER + UPGRADABLE_FLAG) as usize),
        readers((ONE_READER + UPGRADABLE_FLAG) as usize) == 1,
        write_locked(WRITER_FLAG),
        !upgradable_bit(WRITER_FLAG),
        well_formed(WRITER_FLAG),
{
}

/// A writer on an unlocked word goes straight to a word in which it holds the
/// lock, and gives the lock back to an unlocked word.
pub proof fn lemma_write_fast_path()
    ensures
        well_formed(0),
        readers(0) == 0 && !writer_bit(0) && !upgradable_bit(0),
        writer_admitted(0),
        write_locked(WRITER_FLAG),
        after_writer_exit(WRITER_FLAG) == 0,
{
}

/// At most one writer, and no starvation of writers: once `WRITER_FLAG` is set,
/// whether the writer holds the lock or waits for readers to leave, no reader,
/// no upgradable reader and no other writer is admitted.
pub proof fn lemma_writer_excludes_entries(s: usize)
    requires
        writer_bit(s),
    ensures
        !reader_admitted(s),
        !upgradable_admitted(s),
        !writer_admitted(s),
{
}

/// At most one upgradable reader: while one holds `UPGRADABLE_FLAG`, no other
/// reader may take the upgradable lock and no writer may announce itself, but
/// plain readers are still admitted.
pub proof fn lemma_upgradable_excludes_entries(s: usize)
    requires
        well_formed(s),
        upgradable_bit(s),
    ensures
        !upgradable_admitted(s),
        !writer_admitted(s),
        reader_admitted(s),
{
}

/// A number of readers or at most one writer: in a well-formed word where a
/// writer holds the lock, no reader of either kind is inside.
pub proof fn lemma_write_lock_is_exclusive(s: usize)
    requires
        well_formed(s),
        write_locked(s),
    ensures
        readers(s) == 0,
        !upgradable_bit(s),
{
}

/// A writer that has set its flag holds the lock exactly when the word it reads
/// shows no reader left.
pub proof fn lemma_drained_means_locked(s: usize)
    requires
        writer_bit(s),
    ensures
        write_locked(s) == (readers(s) == 0),
        write_pending(s) == (readers(s) > 0),
{
}

/// A reader leaving undoes a reader entering.
pub proof fn lemma_reader_exit_undoes_entry(s: usize)
    requires
        s + ONE_READER <= usize::MAX,
    ensures
        after_reader_exit((s + ONE_READER) as usize) == s,
{
}

/// The upgradable reader leaving undoes its entering.
pub proof fn lemma_upgradable_exit_undoes_entry(s: usize)
    requires
        s + ONE_READER + UPGRADABLE_FLAG <= usize::MAX,
    ensures
        after_upgradable_exit((s + ONE_READER + UPGRADABLE_FLAG) as usize) == s,
{
}

/// A writer withdrawing its flag undoes its announcement.
pub proof fn lemma_writer_exit_undoes_claim(s: usize)
    requires
        writer_admitted(s),
    ensures
        s + WRITER_FLAG <= usize::MAX,
        after_writer_exit((s + WRITER_FLAG) as usize) == s,
{
}

/// An upgrade that set `WRITER_FLAG` and is then dropped leaves the same word as
/// the upgradable reader leaving without upgrading.
pub proof fn lemma_withdrawn_upgrade_is_upgradable_exit(s: usize)
    requires
        well_formed(s),
        upgradable_bit(s),
    ensures
        after_writer_exit((s - ONE_READER - UPGRADABLE_FLAG + WRITER_FLAG) as usize)
            == after_upgradable_exit(s),
{
}

/// Every release keeps the word well-formed, when it gives back something that
/// the word records: a plain reader (one reader besides the upgradable holder), the
/// upgradable lock, or `WRITER_FLAG`.
pub proof fn lemma_exits_keep_invariant(s: usize)
    requires
        well_formed(s),
    ensures
        readers(s) > (if upgradable_bit(s) { 1nat } else { 0nat }) ==> after_reader_exit(s) >= 0
            && well_formed(after_reader_exit(s) as usize) && readers(
            after_reader_exit(s) as usize,
        ) == readers(s) - 1,
        upgradable_bit(s) ==> after_upgradable_exit(s) >= 0 && well_formed(
            after_upgradable_exit(s) as usize,
        ) && !upgradable_bit(after_upgradable_exit(s) as usize) && readers(
            after_upgradable_exit(s) as usize,
        ) == readers(s) - 1,
        writer_bit(s) ==> after_writer_exit(s) >= 0 && well_formed(after_writer_exit(s) as usize)
            && !writer_bit(after_writer_exit(s) as usize) && readers(
            after_writer_exit(s) as usize,
        ) == readers(s),
        upgradable_bit(s) ==> after_upgradable_downgrade(s) >= 0 && well_formed(
            after_upgradable_downgrade(s) as usize,
        ) && !upgradable_bit(after_upgradable_downgrade(s) as usize) && readers(
            after_upgradable_downgrade(s) as usize,
        ) == readers(s),
{
}

/// Downgrading a write lock stores one reader and no flag: readers are admitted
/// again at once, while a writer that announces itself cannot complete until that
/// reader leaves, so no exclusive lock is taken in the meantime.
pub proof fn lemma_downgrade_word()
    ensures
        well_formed(ONE_READER),
        readers(ONE_READER) == 1,
        !writer_bit(ONE_READER),
        !upgradable_bit(ONE_READER),
        reader_admitted(ONE_READER),
        !write_locked((ONE_READER + WRITER_FLAG) as usize),
        after_reader_exit(ONE_READER) == 0,
{
}

/// Downgrading a write lock to an upgradable one stores one reader that holds
/// the upgradable lock: plain readers are admitted, no writer and no other
/// upgradable reader is.
pub proof fn lemma_downgrade_to_upgradable_word()
    ensures
        well_formed((ONE_READER + UPGRADABLE_FLAG) as usize),
        readers((ONE_READER + UPGRADABLE_FLAG) as usize) == 1,
        upgradable_bit((ONE_READER + UPGRADABLE_FLAG) as usize),
        !writer_bit((ONE_READER + UPGRADABLE_FLAG) as usize),
        reader_admitted((ONE_READER + UPGRADABLE_FLAG) as usize),
        !upgradable_admitted((ONE_READER + UPGRADABLE_FLAG) as usize),
        !writer_admitted((ONE_READER + UPGRADABLE_FLAG) as usize),
        after_upgradable_exit((ONE_READER + UPGRADABLE_FLAG) as usize) == 0,
{
}

/// A reader leaving wakes the waiting task exactly when it was the last reader:
/// when the word after its exit records no reader, so that a writer waiting for
/// readers to drain finds the lock free.
pub proof fn lemma_last_reader_exit_wakes(previous: usize)
    requires
        readers(previous) >= 1,
    ensures
        after_reader_exit(previous) >= 0,
        exit_wakes(previous) == (readers(after_reader_exit(previous) as usize) == 0),
{
}


} // verus!
