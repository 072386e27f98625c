use async_rwlock_upgradable::{
    reader_entry, reader_exit_wakes, readers_drained, upgradable_entry, upgrade_claim,
    writer_claim, LockError, ONE_READER, READERS_MASK, UPGRADABLE_FLAG, WRITER_FLAG,
};

#[test]
fn flag_layout() {
    assert_eq!(UPGRADABLE_FLAG, 1);
    assert_eq!(WRITER_FLAG, 2);
    assert_eq!(ONE_READER, 4);
    assert_eq!(READERS_MASK, !3usize);
    assert_eq!(ONE_READER | UPGRADABLE_FLAG, 5);
}

#[test]
fn reader_enters_free_and_read_locked_words() {
    assert_eq!(reader_entry(0), Ok(Some(4)));
    assert_eq!(reader_entry(4), Ok(Some(8)));
    // beside the upgradable reader
    assert_eq!(reader_entry(5), Ok(Some(9)));
}

#[test]
fn reader_waits_for_writer_held_or_pending() {
    // writer holds the lock
    assert_eq!(reader_entry(2), Ok(None));
    // writer waits for two readers: new readers must wait too
    assert_eq!(reader_entry(10), Ok(None));
}

#[test]
fn reader_count_overflow_is_reported() {
    let full = usize::MAX - 3; // all reader bits set, no flag
    assert_eq!(reader_entry(full), Err(LockError::ReaderOverflow));
    // with a writer flag the writer check comes first
    assert_eq!(reader_entry(usize::MAX), Ok(None));
}

#[test]
fn upgradable_entry_decisions() {
    assert_eq!(upgradable_entry(0), Ok(Some(5)));
    assert_eq!(upgradable_entry(8), Ok(Some(13)));
    assert_eq!(upgradable_entry(5), Ok(None));
    assert_eq!(upgradable_entry(2), Ok(None));
    assert_eq!(upgradable_entry(6), Ok(None));
    assert_eq!(upgradable_entry(usize::MAX - 3), Err(LockError::ReaderOverflow));
}

#[test]
fn writer_claim_decisions() {
    assert_eq!(writer_claim(4), Some(6));
    assert_eq!(writer_claim(12), Some(14));
    assert_eq!(writer_claim(0), Some(2));
    assert_eq!(writer_claim(2), None);
    assert_eq!(writer_claim(5), None);
    assert_eq!(writer_claim(6), None);
}

#[test]
fn upgrade_claim_hands_share_back_and_sets_writer() {
    assert_eq!(upgrade_claim(5), Ok(2));
    assert_eq!(upgrade_claim(9), Ok(6));
    assert_eq!(upgrade_claim(13), Ok(10));
    assert_eq!(upgrade_claim(4), Err(LockError::ReaderUnderflow));
    assert_eq!(upgrade_claim(0), Err(LockError::ReaderUnderflow));
}

#[test]
fn readers_drained_decisions() {
    assert!(readers_drained(2));
    assert!(readers_drained(0));
    assert!(!readers_drained(6));
    assert!(!readers_drained(4));
}

#[test]
fn last_reader_exit_wakes() {
    // the word before the exit records the leaving reader
    assert!(reader_exit_wakes(4));
    // a writer waits for this last reader
    assert!(reader_exit_wakes(6));
    // beside the upgradable reader, this is the last plain reader but not the last one
    assert!(!reader_exit_wakes(9));
    assert!(!reader_exit_wakes(8));
    assert!(!reader_exit_wakes(10));
    assert!(!reader_exit_wakes(0));
}

#[test]
fn entry_then_exit_round_trips() {
    for s in [0usize, 4, 5, 8, 9, 40] {
        if let Ok(Some(n)) = reader_entry(s) {
            assert_eq!(n - ONE_READER, s);
        }
        if let Ok(Some(n)) = upgradable_entry(s) {
            assert_eq!(n - (ONE_READER | UPGRADABLE_FLAG), s);
        }
        if let Some(n) = writer_claim(s) {
            assert_eq!(n - WRITER_FLAG, s);
        }
    }
}

#[test]
fn withdrawn_upgrade_equals_upgradable_exit() {
    for s in [5usize, 9, 13, 101] {
        let claimed = upgrade_claim(s).unwrap();
        assert_eq!(claimed - WRITER_FLAG, s - (ONE_READER | UPGRADABLE_FLAG));
    }
}
