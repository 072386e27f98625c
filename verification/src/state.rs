//! The lock's state word and the decisions taken on it.
//!
//! The whole state of a lock lives in one `usize`:
//! - bit 0 (`UPGRADABLE_FLAG`): a reader holds the upgradable lock;
//! - bit 1 (`WRITER_FLAG`): if the reader count is zero, a writer holds the
//!   exclusive lock; otherwise a writer waits for the remaining readers;
//! - the bits above (`READERS_MASK`) count the readers, in units of `ONE_READER`.
//!
//! Every function here is pure: it looks at a value read from the atomic word
//! and says what to write back (or that nothing may be written).
use vstd::prelude::*;

verus! {

/// A reader is holding an upgradable lock. The reader count must be non-zero and
/// `WRITER_FLAG` must not be set.
pub const UPGRADABLE_FLAG: usize = 0b0001;

/// If the reader count is zero: a writer is currently holding an exclusive lock.
/// Otherwise: a writer is waiting for the remaining readers to exit the lock.
pub const WRITER_FLAG: usize = 0b0010;

/// Mask of the bits used to count readers.
pub const READERS_MASK: usize = !0b0011;

/// Base unit for counting readers.
pub const ONE_READER: usize = 0b0100;

/// Why an attempt on the state word could not be carried out.
#[derive(Debug, Clone, Copy, PartialEq, Eq, Structural)]
pub enum LockError {
    /// One more reader would not fit in the reader count.
    ReaderOverflow,
    /// The word holds fewer readers than the one being handed over.
    ReaderUnderflow,
}

/// Number of readers recorded in the word.
pub open spec fn readers(s: usize) -> nat {
    (s / 4) as nat
}

/// Whether `WRITER_FLAG` is set.
pub open spec fn writer_bit(s: usize) -> bool {
    (s / 2) % 2 == 1
}

/// Whether `UPGRADABLE_FLAG` is set.
pub open spec fn upgradable_bit(s: usize) -> bool {
    s % 2 == 1
}

/// The invariant that the comments on the flags state: an upgradable holder is
/// one of the readers, and no writer flag stands beside it.
pub open spec fn well_formed(s: usize) -> bool {
    upgradable_bit(s) ==> readers(s) >= 1 && !writer_bit(s)
}

/// A writer holds the exclusive lock.
pub open spec fn write_locked(s: usize) -> bool {
    writer_bit(s) && readers(s) == 0
}

/// A writer has announced itself and waits for readers to leave.
pub open spec fn write_pending(s: usize) -> bool {
    writer_bit(s) && readers(s) > 0
}

/// A reader may enter: no writer holds the lock or waits for it.
pub open spec fn reader_admitted(s: usize) -> bool {
    !writer_bit(s)
}

/// A reader may take the upgradable lock: no writer holds or waits for the lock,
/// and no other reader holds the upgradable lock.
pub open spec fn upgradable_admitted(s: usize) -> bool {
    !writer_bit(s) && !upgradable_bit(s)
}

/// A writer may announce itself: no writer is there yet and no reader holds the
/// upgradable lock.
pub open spec fn writer_admitted(s: usize) -> bool {
    !writer_bit(s) && !upgradable_bit(s)
}

/// A reader leaving wakes the waiting task: it was the last reader, that is, the
/// word as it stood before its share was taken off recorded exactly one reader.
pub open spec fn exit_wakes(previous: usize) -> bool {
    readers(previous) == 1
}

/// The word after a reader leaves (what `unlock_reader` subtracts).
pub open spec fn after_reader_exit(s: usize) -> int {
    s - ONE_READER
}

/// The word after the upgradable reader leaves (what `unlock_upgradable_reader`
/// subtracts).
pub open spec fn after_upgradable_exit(s: usize) -> int {
    s - (ONE_READER + UPGRADABLE_FLAG)
}

/// The word after a writer leaves or withdraws (what `unlock_writer` subtracts).
pub open spec fn after_writer_exit(s: usize) -> int {
    s - WRITER_FLAG
}

/// The word after the upgradable reader steps down to a plain reader (what
/// `downgrade_upgradable` subtracts).
pub open spec fn after_upgradable_downgrade(s: usize) -> int {
    s - UPGRADABLE_FLAG
}


proof fn lemma_flag_bits(s: usize)
    ensures
        (s & 2 == 0) == ((s / 2) % 2 == 0),
        (s & 1 == 0) == (s % 2 == 0),
        (s & 3 == 0) == ((s / 2) % 2 == 0 && s % 2 == 0),
        (s & !3usize == 0) == (s / 4 == 0),
        (s & !3usize == 4) == (s / 4 == 1),
        s & 2 == 0 ==> s | 2 == s + 2,
{
    assert((s & 2 == 0) == ((s / 2) % 2 == 0)) by (bit_vector);
    assert((s & 1 == 0) == (s % 2 == 0)) by (bit_vector);
    assert((s & 3 == 0) == ((s / 2) % 2 == 0 && s % 2 == 0)) by (bit_vector);
    assert((s & !3usize == 0) == (s / 4 == 0)) by (bit_vector);
    assert((s & !3usize == 4) == (s / 4 == 1)) by (bit_vector);
    assert(s & 2 == 0 ==> s | 2 == s + 2) by (bit_vector);
}

pub(crate) proof fn lemma_flag_unions()
    ensures
        WRITER_FLAG | UPGRADABLE_FLAG == 3,
        ONE_READER | UPGRADABLE_FLAG == 5,
        READERS_MASK == !3usize,
{
    assert(2usize | 1usize == 3usize) by (bit_vector);
    assert(4usize | 1usize == 5usize) by (bit_vector);
}

/// Decides what a reader may write after reading `observed` from the word.
///
/// `Ok(None)`: a writer holds the lock or waits for it, so the reader must wait.
/// `Ok(Some(n))`: the reader may try to install `n`, which is `observed` with one
/// reader more. `Err(ReaderOverflow)`: the reader count is full.
pub fn reader_entry(observed: usize) -> (r: Result<Option<usize>, LockError>)
    ensures
        !reader_admitted(observed) ==> r == Ok::<Option<usize>, LockError>(None),
        reader_admitted(observed) && observed + ONE_READER > usize::MAX ==> r == Err::<
            Option<usize>,
            LockError,
        >(LockError::ReaderOverflow),
        reader_admitted(observed) && observed + ONE_READER <= usize::MAX ==> r == Ok::<
            Option<usize>,
            LockError,
        >(Some((observed + ONE_READER) as usize)),
{
    proof {
        lemma_flag_bits(observed);
    }
    if observed & WRITER_FLAG == 0 {
        match observed.checked_add(ONE_READER) {
            Some(n) => Ok(Some(n)),
            None => Err(LockError::ReaderOverflow),
        }
    } else {
        Ok(None)
    }
}

/// Decides what a reader asking for the upgradable lock may write after reading
/// `observed`.
///
/// `Ok(None)`: a writer holds or waits for the lock, or another reader holds the
/// upgradable lock. `Ok(Some(n))`: the reader may try to install `n`, which is
/// `observed` with one reader more and `UPGRADABLE_FLAG` set.
/// `Err(ReaderOverflow)`: the reader count is full.
pub fn upgradable_entry(observed: usize) -> (r: Result<Option<usize>, LockError>)
    ensures
        !upgradable_admitted(observed) ==> r == Ok::<
            Option<usize>,
            LockError,
        >(None),
        upgradable_admitted(observed) && observed + ONE_READER + UPGRADABLE_FLAG > usize::MAX ==> r == Err::<Option<usize>, LockError>(
            LockError::ReaderOverflow,
        ),
        upgradable_admitted(observed) && observed + ONE_READER + UPGRADABLE_FLAG <= usize::MAX ==> r == Ok::<Option<usize>, LockError>(
            Some((observed + ONE_READER + UPGRADABLE_FLAG) as usize),
        ),
{
    proof {
        lemma_flag_bits(observed);
        lemma_flag_unions();
    }
    if observed & (WRITER_FLAG | UPGRADABLE_FLAG) == 0 {
        match observed.checked_add(ONE_READER | UPGRADABLE_FLAG) {
            Some(n) => Ok(Some(n)),
            None => Err(LockError::ReaderOverflow),
        }
    } else {
        Ok(None)
    }
}

/// Decides what a writer may write after its attempt to go from an unlocked
/// word straight to `WRITER_FLAG` failed and it read `observed`.
///
/// `None`: a writer or an upgradable reader is already there, so the writer must
/// wait. `Some(n)`: the writer may try to install `n`, which is `observed` with
/// `WRITER_FLAG` set; the readers already inside then drain out.
pub fn writer_claim(observed: usize) -> (r: Option<usize>)
    ensures
        !writer_admitted(observed) ==> r == None::<usize>,
        writer_admitted(observed) ==> r == Some(
            (observed + WRITER_FLAG) as usize,
        ),
{
    proof {
        lemma_flag_bits(observed);
        lemma_flag_unions();
    }
    if observed & (WRITER_FLAG | UPGRADABLE_FLAG) != 0 {
        None
    } else {
        Some(observed | WRITER_FLAG)
    }
}

/// Decides what the holder of the upgradable lock writes to announce itself as
/// a writer, after its attempt to go from "itself alone" straight to
/// `WRITER_FLAG` failed and it read `observed`.
///
/// The result hands the holder's own reader share and `UPGRADABLE_FLAG` back and
/// sets `WRITER_FLAG`: `observed - (ONE_READER | UPGRADABLE_FLAG) + WRITER_FLAG`.
/// `Err(ReaderUnderflow)` when `observed` is too small for that subtraction.
pub fn upgrade_claim(observed: usize) -> (r: Result<usize, LockError>)
    ensures
        observed < ONE_READER + UPGRADABLE_FLAG ==> r == Err::<usize, LockError>(
            LockError::ReaderUnderflow,
        ),
        observed >= ONE_READER + UPGRADABLE_FLAG ==> r == Ok::<usize, LockError>(
            (observed - ONE_READER - UPGRADABLE_FLAG + WRITER_FLAG) as usize,
        ),
{
    proof {
        lemma_flag_unions();
    }
    match observed.checked_sub(ONE_READER | UPGRADABLE_FLAG) {
        Some(rest) => Ok(rest + WRITER_FLAG),
        None => Err(LockError::ReaderUnderflow),
    }
}

/// Whether the word read by a writer that has set `WRITER_FLAG` shows no reader
/// left, so that the writer now holds the lock.
pub fn readers_drained(observed: usize) -> (r: bool)
    ensures
        r == (readers(observed) == 0),
{
    proof {
        lemma_flag_bits(observed);
        lemma_flag_unions();
    }
    observed & READERS_MASK == 0
}

/// Whether a reader leaving the lock wakes the waiting task, given the word
/// `previous` as it stood just before the reader's share was taken off: exactly
/// when that reader was the last one, so that a writer waiting for the readers to
/// drain may go on.
pub fn reader_exit_wakes(previous: usize) -> (r: bool)
    ensures
        r == exit_wakes(previous),
{
    proof {
        lemma_flag_bits(previous);
        lemma_flag_unions();
    }
    previous & READERS_MASK == ONE_READER
}

} // verus!
