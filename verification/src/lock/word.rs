//! The operations on the atomic state word, each of which hands back a receipt.
//!
//! A receipt names the atomic the operation went to and what happened there: the
//! operands handed to it, the value it found and, for a compare-and-swap, whether
//! it succeeded. Its fields are private to this module, so only the operations
//! below make one.
use std::sync::atomic::AtomicUsize;
use std::sync::atomic::Ordering;

use vstd::prelude::*;

verus! {

/// What one operation on the state word did.
#[derive(Debug, Clone, Copy, PartialEq, Eq, Structural)]
pub enum WordEvent {
    /// The word was created holding `initial`.
    Created { initial: usize },
    /// The word was read; it held `loaded`.
    Loaded { loaded: usize },
    /// A compare-and-swap from `expected` to `desired`; the word held `found`, and
    /// the swap took place exactly when `succeeded`.
    Swapped { expected: usize, desired: usize, found: usize, succeeded: bool },
    /// `amount` was subtracted; the word held `previous` just before.
    Subtracted { amount: usize, previous: usize },
    /// `stored` was written to the word.
    Stored { stored: usize },
}

/// Proof that an operation was made on an atomic word, and of what it did.
pub struct WordReceipt {
    atomic: Ghost<AtomicUsize>,
    event: Ghost<WordEvent>,
}

impl WordReceipt {
    /// The atomic word the operation went to.
    pub closed spec fn atomic(&self) -> AtomicUsize {
        self.atomic@
    }

    /// What the operation did.
    pub closed spec fn event(&self) -> WordEvent {
        self.event@
    }
}

/// Whether `order` is one that `AtomicUsize` accepts for a read: a load or the
/// failure case of a compare-and-swap panic on `Release` and `AcqRel`.
pub open spec fn read_ordering(order: Ordering) -> bool {
    order == Ordering::Relaxed || order == Ordering::Acquire || order == Ordering::SeqCst
}

/// Whether `order` is one that `AtomicUsize::store` accepts: it panics on
/// `Acquire` and `AcqRel`.
pub open spec fn store_ordering(order: Ordering) -> bool {
    order == Ordering::Relaxed || order == Ordering::Release || order == Ordering::SeqCst
}

/// Calls `AtomicUsize::new`: the word is created holding `value`.
#[verifier::external_body]
pub(super) fn create_word(value: usize) -> (r: (AtomicUsize, WordReceipt))
    ensures
        r.1.atomic() == r.0,
        r.1.event() == (WordEvent::Created { initial: value }),
{
    let word = AtomicUsize::new(value);
    let receipt = WordReceipt { atomic: Ghost(word), event: Ghost(WordEvent::Created { initial: value }) };
    (word, receipt)
}

/// Calls `AtomicUsize::load`: the value returned is the value the word held.
/// Nothing is stated of that value, which other threads set.
#[verifier::external_body]
pub(super) fn load_word(word: &AtomicUsize, order: Ordering) -> (r: (usize, WordReceipt))
    requires
        read_ordering(order),
    ensures
        r.1.atomic() == *word,
        r.1.event() == (WordEvent::Loaded { loaded: r.0 }),
{
    let loaded = word.load(order);
    (loaded, WordReceipt { atomic: Ghost(*word), event: Ghost(WordEvent::Loaded { loaded }) })
}

/// Calls `AtomicUsize::compare_exchange_weak`. As its documentation says, the
/// value returned is the value the word held, and on success it is `current`.
/// Nothing is stated of when it succeeds: the word may have changed, and the
/// attempt may fail spuriously.
#[verifier::external_body]
pub(super) fn swap_word(
    word: &AtomicUsize,
    current: usize,
    new: usize,
    success: Ordering,
    failure: Ordering,
) -> (r: (Result<usize, usize>, WordReceipt))
    requires
        read_ordering(failure),
    ensures
        r.0 matches Ok(found) ==> found == current,
        r.1.atomic() == *word,
        r.1.event() == (WordEvent::Swapped {
            expected: current,
            desired: new,
            found: match r.0 {
                Ok(found) => found,
                Err(found) => found,
            },
            succeeded: r.0 is Ok,
        }),
{
    let result = word.compare_exchange_weak(current, new, success, failure);
    let (found, succeeded) = match result {
        Ok(found) => (found, true),
        Err(found) => (found, false),
    };
    let event = WordEvent::Swapped { expected: current, desired: new, found, succeeded };
    (result, WordReceipt { atomic: Ghost(*word), event: Ghost(event) })
}

/// Calls `AtomicUsize::fetch_sub`: the value returned is the value the word held
/// just before. Nothing is stated of that value, which other threads set.
#[verifier::external_body]
pub(super) fn subtract_word(word: &AtomicUsize, amount: usize, order: Ordering) -> (r: (
    usize,
    WordReceipt,
))
    ensures
        r.1.atomic() == *word,
        r.1.event() == (WordEvent::Subtracted { amount, previous: r.0 }),
{
    let previous = word.fetch_sub(amount, order);
    (
        previous,
        WordReceipt { atomic: Ghost(*word), event: Ghost(WordEvent::Subtracted { amount, previous }) },
    )
}

/// Calls `AtomicUsize::store`.
#[verifier::external_body]
pub(super) fn store_word(word: &AtomicUsize, value: usize, order: Ordering) -> (r: WordReceipt)
    requires
        store_ordering(order),
    ensures
        r.atomic() == *word,
        r.event() == (WordEvent::Stored { stored: value }),
{
    word.store(value, order);
    WordReceipt { atomic: Ghost(*word), event: Ghost(WordEvent::Stored { stored: value }) }
}

} // verus!
