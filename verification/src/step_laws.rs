//! What the receipts of a successful attempt show of the word it wrote: the
//! exclusion that the lock promises, stated for each future's result.
use std::sync::atomic::AtomicUsize;

use vstd::prelude::*;

use crate::state::{
    readers, reader_admitted, upgradable_admitted, upgradable_bit, well_formed, write_locked,
    writer_admitted, writer_bit, LockError, ONE_READER,
};
use crate::steps::{changes_nothing, reader_step, upgradable_alone, upgradable_step, upgrade_step, writer_step};
use crate::laws::{lemma_upgradable_entry_step, lemma_upgrade_claim_step, lemma_writer_claim_step};
use crate::lock::WordReceipt;

verus! {

/// A reader gets in only by a swap that succeeded on a word with no writer flag,
/// and that swap installed the same word with one reader more, no writer flag,
/// and the upgradable flag as it was.
pub proof fn lemma_reader_gets_in_beside_no_writer(word: AtomicUsize, log: Seq<WordReceipt>)
    requires
        reader_step(word, log, Ok::<bool, LockError>(true)),
    ensures
        log.len() == 2,
        log[1].atomic() == word,
        log[1].event()->succeeded,
        reader_admitted(log[1].event()->found),
        log[1].event()->desired == log[1].event()->found + ONE_READER,
        readers(log[1].event()->desired) == readers(log[1].event()->found) + 1,
        !writer_bit(log[1].event()->desired),
        upgradable_bit(log[1].event()->desired) == upgradable_bit(log[1].event()->found),
{
    assert(log[1].atomic() == word);
}

/// A reader gets the upgradable lock only by a swap that succeeded on a word
/// with neither flag, and that swap installed the same word with one reader more
/// and `UPGRADABLE_FLAG` set: at most one upgradable reader, never beside a writer.
pub proof fn lemma_upgradable_gets_in_alone(word: AtomicUsize, log: Seq<WordReceipt>)
    requires
        upgradable_step(word, log, Ok::<bool, LockError>(true)),
    ensures
        log.len() == 2,
        log[1].atomic() == word,
        log[1].event()->succeeded,
        upgradable_admitted(log[1].event()->found),
        readers(log[1].event()->desired) == readers(log[1].event()->found) + 1,
        upgradable_bit(log[1].event()->desired),
        !writer_bit(log[1].event()->desired),
{
    assert(log[1].atomic() == word);
    lemma_upgradable_entry_step(log[0].event()->loaded);
}

/// A writer without its flag gets the lock only by swapping an unlocked word for
/// a word in which it holds the lock alone; a writer with its flag set gets it
/// only when the word it loaded records no reader.
pub proof fn lemma_writer_gets_lock_alone(
    word: AtomicUsize,
    flag_before: bool,
    flag_after: bool,
    log: Seq<WordReceipt>,
)
    requires
        writer_step(word, flag_before, flag_after, log, true),
    ensures
        log[0].atomic() == word,
        !flag_before ==> log[0].event()->succeeded && log[0].event()->found == 0
            && write_locked(log[0].event()->desired) && !upgradable_bit(log[0].event()->desired),
        flag_before ==> readers(log[0].event()->loaded) == 0,
{
    assert(log[0].atomic() == word);
}

/// A writer comes to hold `WRITER_FLAG` only by a swap that succeeded on a word
/// that admitted a writer, installing that word with the flag set: from then on no
/// reader, upgradable reader or other writer is admitted.
pub proof fn lemma_writer_flag_is_in_word(word: AtomicUsize, log: Seq<WordReceipt>, got: bool)
    requires
        writer_step(word, false, true, log, got),
    ensures
        log.len() == 2,
        log[1].atomic() == word,
        log[1].event()->succeeded,
        writer_admitted(log[1].event()->found),
        writer_bit(log[1].event()->desired),
        readers(log[1].event()->desired) == readers(log[1].event()->found),
        !reader_admitted(log[1].event()->desired),
        !upgradable_admitted(log[1].event()->desired),
        !writer_admitted(log[1].event()->desired),
{
    assert(log[1].atomic() == word);
    lemma_writer_claim_step(log[0].event()->found);
}

/// An upgrade without its flag gets the lock at once only by swapping the word
/// in which it is the only reader for a word in which it holds the lock alone.
pub proof fn lemma_upgrade_fast_path_is_exclusive(
    word: AtomicUsize,
    flag_after: bool,
    log: Seq<WordReceipt>,
)
    requires
        upgrade_step(word, false, flag_after, log, Ok::<bool, LockError>(true)),
    ensures
        log.len() == 1,
        log[0].atomic() == word,
        log[0].event()->succeeded,
        log[0].event()->found == upgradable_alone(),
        write_locked(log[0].event()->desired),
        !upgradable_bit(log[0].event()->desired),
        !flag_after,
{
    assert(log[0].atomic() == word);
}

/// An upgrade comes to hold `WRITER_FLAG` only by a swap that succeeded on a word
/// recording its upgradable share, installing that word with the share and
/// `UPGRADABLE_FLAG` handed back and `WRITER_FLAG` set.
pub proof fn lemma_upgrade_flag_is_in_word(
    word: AtomicUsize,
    log: Seq<WordReceipt>,
    r: Result<bool, LockError>,
)
    requires
        upgrade_step(word, false, true, log, r),
        well_formed(log[0].event()->found),
        upgradable_bit(log[0].event()->found),
    ensures
        r == Ok::<bool, LockError>(false),
        log.len() == 2,
        log[1].atomic() == word,
        log[1].event()->succeeded,
        writer_bit(log[1].event()->desired),
        !upgradable_bit(log[1].event()->desired),
        readers(log[1].event()->desired) == readers(log[1].event()->found) - 1,
{
    assert(log[1].atomic() == word);
    lemma_upgrade_claim_step(log[0].event()->found);
}


/// A reader's attempt that does not get in leaves the word as it found it: every
/// operation it made is a load or a swap that failed.
pub proof fn lemma_failed_reader_attempt_changes_nothing(
    word: AtomicUsize,
    log: Seq<WordReceipt>,
    r: Result<bool, LockError>,
)
    requires
        reader_step(word, log, r),
        r != Ok::<bool, LockError>(true),
    ensures
        changes_nothing(log),
{
}

/// An attempt at the upgradable lock that does not get in leaves the word as it
/// found it.
pub proof fn lemma_failed_upgradable_attempt_changes_nothing(
    word: AtomicUsize,
    log: Seq<WordReceipt>,
    r: Result<bool, LockError>,
)
    requires
        upgradable_step(word, log, r),
        r != Ok::<bool, LockError>(true),
    ensures
        changes_nothing(log),
{
}

/// A writer's step that neither gets the lock nor sets its flag leaves the word
/// as it found it.
pub proof fn lemma_idle_writer_step_changes_nothing(
    word: AtomicUsize,
    flag: bool,
    log: Seq<WordReceipt>,
)
    requires
        writer_step(word, flag, flag, log, false),
    ensures
        changes_nothing(log),
{
}

/// An upgrade's step that neither gets the lock nor sets its flag leaves the word
/// as it found it: a failed claim writes nothing.
pub proof fn lemma_idle_upgrade_step_changes_nothing(
    word: AtomicUsize,
    flag: bool,
    log: Seq<WordReceipt>,
    r: Result<bool, LockError>,
)
    requires
        upgrade_step(word, flag, flag, log, r),
        r != Ok::<bool, LockError>(true),
    ensures
        changes_nothing(log),
{
}

} // verus!
