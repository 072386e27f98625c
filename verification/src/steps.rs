//! What one attempt of a future does to the lock's word, read off the receipts of
//! the operations it made.
use std::sync::atomic::AtomicUsize;

use vstd::prelude::*;

use crate::state::{
    readers, reader_admitted, upgradable_admitted, writer_admitted, LockError, ONE_READER,
    UPGRADABLE_FLAG, WRITER_FLAG,
};
use crate::lock::{WordEvent, WordReceipt};

verus! {

/// The word in which one reader holds the upgradable lock and nothing else is
/// recorded: `ONE_READER | UPGRADABLE_FLAG`.
pub open spec fn upgradable_alone() -> usize {
    (ONE_READER + UPGRADABLE_FLAG) as usize
}

/// Every operation in `log` went to the atomic word `word`.
pub open spec fn on_word(log: Seq<WordReceipt>, word: AtomicUsize) -> bool {
    forall|i: int| 0 <= i < log.len() ==> #[trigger] log[i].atomic() == word
}

/// No operation in `log` changed the word: each is a load or a compare-and-swap
/// that failed.
pub open spec fn changes_nothing(log: Seq<WordReceipt>) -> bool {
    forall|i: int|
        0 <= i < log.len() ==> (#[trigger] log[i].event() is Loaded || (log[i].event() is Swapped
            && !log[i].event()->succeeded))
}

/// `e` is a compare-and-swap from `expected` to `desired`, which found
/// `expected` when it succeeded.
pub open spec fn is_swap(e: WordEvent, expected: int, desired: int) -> bool {
    &&& e is Swapped
    &&& e->expected == expected
    &&& e->desired == desired
    &&& e->succeeded ==> e->found == expected
}

/// `r` records the subtraction of `amount` from the atomic word `word`.
pub open spec fn is_subtraction(r: WordReceipt, word: AtomicUsize, amount: int) -> bool {
    r.atomic() == word && r.event() is Subtracted && r.event()->amount == amount
}

/// `r` records the store of `value` to the atomic word `word`.
pub open spec fn is_store(r: WordReceipt, word: AtomicUsize, value: usize) -> bool {
    r.atomic() == word && r.event() is Stored && r.event()->stored == value
}

/// `r` records a reader's share taken off `word`.
pub open spec fn is_reader_exit(r: WordReceipt, word: AtomicUsize) -> bool {
    is_subtraction(r, word, ONE_READER as int)
}

/// `r` records the upgradable reader's share and `UPGRADABLE_FLAG` taken off `word`.
pub open spec fn is_upgradable_exit(r: WordReceipt, word: AtomicUsize) -> bool {
    is_subtraction(r, word, ONE_READER + UPGRADABLE_FLAG)
}

/// `r` records `WRITER_FLAG` taken off `word`.
pub open spec fn is_writer_exit(r: WordReceipt, word: AtomicUsize) -> bool {
    is_subtraction(r, word, WRITER_FLAG as int)
}

/// `r` records `UPGRADABLE_FLAG` taken off `word`, the reader's share staying.
pub open spec fn is_upgradable_downgrade(r: WordReceipt, word: AtomicUsize) -> bool {
    is_subtraction(r, word, UPGRADABLE_FLAG as int)
}

/// One attempt of a reader, as `log` records it on `word`, with result `r`.
///
/// The attempt loads the word. Where a writer holds or waits for the lock, it
/// stops there with `Ok(false)`; where the count is full, with
/// `Err(ReaderOverflow)`. Otherwise it tries to swap the word it loaded for the
/// same word with one reader more, and its result is whether that swap succeeded.
pub open spec fn reader_step(word: AtomicUsize, log: Seq<WordReceipt>, r: Result<bool, LockError>) -> bool {
    &&& on_word(log, word)
    &&& log.len() >= 1
    &&& log[0].event() is Loaded
    &&& {
        let seen = log[0].event()->loaded;
        if !reader_admitted(seen) {
            log.len() == 1 && r == Ok::<bool, LockError>(false)
        } else if seen + ONE_READER > usize::MAX {
            log.len() == 1 && r == Err::<bool, LockError>(LockError::ReaderOverflow)
        } else {
            &&& log.len() == 2
            &&& is_swap(log[1].event(), seen as int, seen + ONE_READER)
            &&& r == Ok::<bool, LockError>(log[1].event()->succeeded)
        }
    }
}

/// One attempt of a reader asking for the upgradable lock, as `log` records it
/// on `word`, with result `r`: as `reader_step`, where the upgradable lock must
/// also be free, and the swap adds one reader and `UPGRADABLE_FLAG`.
pub open spec fn upgradable_step(
    word: AtomicUsize,
    log: Seq<WordReceipt>,
    r: Result<bool, LockError>,
) -> bool {
    &&& on_word(log, word)
    &&& log.len() >= 1
    &&& log[0].event() is Loaded
    &&& {
        let seen = log[0].event()->loaded;
        if !upgradable_admitted(seen) {
            log.len() == 1 && r == Ok::<bool, LockError>(false)
        } else if seen + ONE_READER + UPGRADABLE_FLAG > usize::MAX {
            log.len() == 1 && r == Err::<bool, LockError>(LockError::ReaderOverflow)
        } else {
            &&& log.len() == 2
            &&& is_swap(log[1].event(), seen as int, seen + ONE_READER + UPGRADABLE_FLAG)
            &&& r == Ok::<bool, LockError>(log[1].event()->succeeded)
        }
    }
}

/// One step of a writer, as `log` records it on `word`: whether it held
/// `WRITER_FLAG` before and after, and whether it got the lock.
///
/// With the flag already set, the step loads the word and gets the lock exactly
/// when no reader is left. Without it, the step tries to swap an unlocked word for
/// `WRITER_FLAG` and gets the lock exactly when that swap succeeds. When it fails
/// on a word that admits a writer, it tries to swap that word for the same word
/// with `WRITER_FLAG` set, and holds the flag afterwards exactly when that swap
/// succeeds; on any other word it stops without the flag.
pub open spec fn writer_step(
    word: AtomicUsize,
    flag_before: bool,
    flag_after: bool,
    log: Seq<WordReceipt>,
    got: bool,
) -> bool {
    &&& on_word(log, word)
    &&& log.len() >= 1
    &&& if flag_before {
        &&& log.len() == 1
        &&& log[0].event() is Loaded
        &&& flag_after
        &&& got == (readers(log[0].event()->loaded) == 0)
    } else {
        &&& is_swap(log[0].event(), 0, WRITER_FLAG as int)
        &&& if log[0].event()->succeeded {
            log.len() == 1 && got && !flag_after
        } else {
            let seen = log[0].event()->found;
            &&& !got
            &&& if writer_admitted(seen) {
                &&& log.len() == 2
                &&& is_swap(log[1].event(), seen as int, seen + WRITER_FLAG)
                &&& flag_after == log[1].event()->succeeded
            } else {
                log.len() == 1 && !flag_after
            }
        }
    }
}

/// One step of an upgrade, as `log` records it on `word`: whether it held
/// `WRITER_FLAG` before and after, and its result.
///
/// With the flag already set, the step loads the word and gets the lock exactly
/// when no reader is left. Without it, the step tries to swap
/// `ONE_READER | UPGRADABLE_FLAG` (the upgrading reader alone) for `WRITER_FLAG`
/// and gets the lock exactly when that swap succeeds. When it fails on a word too
/// small to hold the reader's share, the result is `Err(ReaderUnderflow)`;
/// otherwise it tries to swap that word for the word with the share and
/// `UPGRADABLE_FLAG` taken off and `WRITER_FLAG` set, holds the flag afterwards
/// exactly when that swap succeeds, and gives `Ok(false)`.
pub open spec fn upgrade_step(
    word: AtomicUsize,
    flag_before: bool,
    flag_after: bool,
    log: Seq<WordReceipt>,
    r: Result<bool, LockError>,
) -> bool {
    &&& on_word(log, word)
    &&& log.len() >= 1
    &&& if flag_before {
        &&& log.len() == 1
        &&& log[0].event() is Loaded
        &&& flag_after
        &&& r == Ok::<bool, LockError>(readers(log[0].event()->loaded) == 0)
    } else {
        &&& is_swap(log[0].event(), upgradable_alone() as int, WRITER_FLAG as int)
        &&& if log[0].event()->succeeded {
            log.len() == 1 && r == Ok::<bool, LockError>(true) && !flag_after
        } else {
            let seen = log[0].event()->found;
            if seen < upgradable_alone() {
                log.len() == 1 && r == Err::<bool, LockError>(LockError::ReaderUnderflow)
                    && !flag_after
            } else {
                &&& log.len() == 2
                &&& is_swap(
                    log[1].event(),
                    seen as int,
                    seen - ONE_READER - UPGRADABLE_FLAG + WRITER_FLAG,
                )
                &&& flag_after == log[1].event()->succeeded
                &&& r == Ok::<bool, LockError>(false)
            }
        }
    }
}

/// A poll's result read as the result of the attempt behind it.
pub open spec fn poll_as_step<G>(r: Result<Option<G>, LockError>) -> Result<bool, LockError> {
    match r {
        Ok(Some(_)) => Ok(true),
        Ok(None) => Ok(false),
        Err(e) => Err(e),
    }
}

} // verus!
