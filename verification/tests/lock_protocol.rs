use async_rwlock_upgradable::{
    ReadFuture, ReadGuard, RwLock, UpgradableReadGuard, UpgradeFuture, WriteFuture, WriteGuard,
};

// `compare_exchange_weak` may fail spuriously, so an attempt that must succeed is retried.
const TRIES: usize = 1000;

fn read_now<'a>(future: &mut ReadFuture<'a, i32>) -> ReadGuard<'a, i32> {
    for _ in 0..TRIES {
        if let Some(guard) = future.poll_acquire().unwrap() {
            return guard;
        }
    }
    panic!("reader could not enter");
}

fn write_now<'a>(future: &mut WriteFuture<'a, i32>) -> WriteGuard<'a, i32> {
    for _ in 0..TRIES {
        if let Some(guard) = future.poll_acquire() {
            return guard;
        }
    }
    panic!("writer could not enter");
}

fn upgrade_now<'a>(future: &mut UpgradeFuture<'a, i32>) -> WriteGuard<'a, i32> {
    for _ in 0..TRIES {
        if let Some(guard) = future.poll_acquire().unwrap() {
            return guard;
        }
    }
    panic!("upgrade could not complete");
}

fn upgradable_now<'a>(lock: &'a RwLock<i32>) -> UpgradableReadGuard<'a, i32> {
    let mut future = lock.upgradable_read();
    for _ in 0..TRIES {
        if let Some(guard) = future.poll_acquire().unwrap() {
            return guard;
        }
    }
    panic!("upgradable reader could not enter");
}

#[test]
fn new_lock_gives_value_back() {
    let lock = RwLock::new(42);
    assert_eq!(lock.into_inner(), 42);
}

#[test]
fn writer_excludes_readers_until_released() {
    let lock = RwLock::new(0);
    let mut w = lock.write();
    let mut guard = write_now(&mut w);
    let mut r = lock.read();
    assert!(r.poll_acquire().unwrap().is_none());
    let mut u = lock.upgradable_read();
    assert!(u.poll_acquire().unwrap().is_none());
    let mut w2 = lock.write();
    assert!(w2.poll_acquire().is_none());
    assert!(guard.release());
    let mut reader = read_now(&mut r);
    // the only reader leaving is the last one: it wakes the waiting task
    assert!(reader.release());
}

#[test]
fn last_reader_out_wakes() {
    let lock = RwLock::new(0);
    let mut r1 = lock.read();
    let mut r2 = lock.read();
    let mut g1 = read_now(&mut r1);
    let mut g2 = read_now(&mut r2);
    // another reader is still inside: no wake
    assert!(!g1.release());
    // the last reader leaves: wake
    assert!(g2.release());
    let mut w = lock.write();
    let mut wg = write_now(&mut w);
    assert!(wg.release());
}

#[test]
fn pending_writer_blocks_new_readers() {
    let lock = RwLock::new(0);
    let mut r1 = lock.read();
    let mut g1 = read_now(&mut r1);
    let mut w = lock.write();
    // the writer sets its flag, then waits for the reader
    let mut got = None;
    for _ in 0..TRIES {
        got = w.poll_acquire();
        if got.is_some() {
            break;
        }
    }
    assert!(got.is_none());
    // a new reader must wait: no write starvation
    let mut r2 = lock.read();
    assert!(r2.poll_acquire().unwrap().is_none());
    // the last reader leaving wakes the waiting writer, which then gets the lock
    assert!(g1.release());
    let mut wg = write_now(&mut w);
    assert!(wg.release());
    let mut g2 = read_now(&mut r2);
    assert!(g2.release());
}

#[test]
fn withdrawn_writer_gives_its_flag_back() {
    let lock = RwLock::new(0);
    let mut r1 = lock.read();
    let mut g1 = read_now(&mut r1);
    let mut w = lock.write();
    for _ in 0..TRIES {
        assert!(w.poll_acquire().is_none());
    }
    // dropping the pending writer takes its flag back and wakes the waiting task
    assert!(w.release());
    let mut r2 = lock.read();
    let mut g2 = read_now(&mut r2);
    assert!(!g1.release());
    assert!(g2.release());
    let mut w2 = lock.write();
    let mut wg = write_now(&mut w2);
    assert!(wg.release());
}

#[test]
fn writer_future_that_never_announced_releases_nothing() {
    let lock = RwLock::new(0);
    let mut w = lock.write();
    assert!(!w.release());
    let mut w2 = lock.write();
    let mut g = write_now(&mut w2);
    // an acquired future releases nothing: the guard does
    assert!(!w2.release());
    assert!(g.release());
}

#[test]
fn only_one_upgradable_reader() {
    let lock = RwLock::new(0);
    let mut up = upgradable_now(&lock);
    let mut second = lock.upgradable_read();
    assert!(second.poll_acquire().unwrap().is_none());
    // plain readers are still admitted
    let mut r = lock.read();
    let mut g = read_now(&mut r);
    // no writer can announce itself
    let mut w = lock.write();
    assert!(w.poll_acquire().is_none());
    assert!(!w.release());
    // the upgradable reader is still counted
    assert!(!g.release());
    assert!(up.release());
    let mut g2 = upgradable_now(&lock);
    assert!(g2.release());
}

#[test]
fn upgrade_alone_is_immediate() {
    let lock = RwLock::new(0);
    let up = upgradable_now(&lock);
    let mut f = up.upgrade();
    let mut wg = upgrade_now(&mut f);
    let mut r = lock.read();
    assert!(r.poll_acquire().unwrap().is_none());
    // the future acquired the lock: dropping it gives nothing back
    assert!(!f.release());
    assert!(wg.release());
    let mut g = read_now(&mut r);
    assert!(g.release());
}

#[test]
fn upgrade_waits_for_other_readers() {
    let lock = RwLock::new(0);
    let up = upgradable_now(&lock);
    let mut r = lock.read();
    let mut g = read_now(&mut r);
    let mut f = up.upgrade();
    for _ in 0..TRIES {
        assert!(f.poll_acquire().unwrap().is_none());
    }
    // the upgrade has announced itself: new readers wait
    let mut r2 = lock.read();
    assert!(r2.poll_acquire().unwrap().is_none());
    // the upgrade handed its share back, so this is the last reader
    assert!(g.release());
    let mut wg = upgrade_now(&mut f);
    assert!(wg.release());
    let mut g2 = read_now(&mut r2);
    assert!(g2.release());
}

#[test]
fn withdrawn_upgrade_releases_the_lock() {
    let lock = RwLock::new(0);
    let up = upgradable_now(&lock);
    let mut r = lock.read();
    let mut g = read_now(&mut r);
    let mut f = up.upgrade();
    for _ in 0..TRIES {
        assert!(f.poll_acquire().unwrap().is_none());
    }
    assert!(f.release());
    assert!(g.release());
    let mut w = lock.write();
    let mut wg = write_now(&mut w);
    assert!(wg.release());
}

#[test]
fn unpolled_upgrade_gives_share_back() {
    let lock = RwLock::new(0);
    let mut up = upgradable_now(&lock);
    assert!(up.release());
    let up2 = upgradable_now(&lock);
    let mut f = up2.upgrade();
    // the unacquired upgrade holds the upgradable share and gives it back
    assert!(f.release());
    let mut again = upgradable_now(&lock);
    assert!(again.release());
}

#[test]
fn downgrade_keeps_writers_out() {
    let lock = RwLock::new(0);
    let mut w = lock.write();
    let mut wg = write_now(&mut w);
    let mut g = wg.downgrade();
    assert!(wg.is_given_up());
    let mut r = lock.read();
    let mut g2 = read_now(&mut r);
    let mut w2 = lock.write();
    for _ in 0..TRIES {
        assert!(w2.poll_acquire().is_none());
    }
    assert!(w2.release());
    // the write guard was turned into `g`: it gives nothing back
    assert!(!wg.release());
    assert!(!g.release());
    assert!(g2.release());
    let mut w3 = lock.write();
    let mut wg3 = write_now(&mut w3);
    assert!(wg3.release());
}

#[test]
fn downgrade_to_upgradable_then_upgrade() {
    let lock = RwLock::new(0);
    let mut w = lock.write();
    let mut wg = write_now(&mut w);
    let up = wg.downgrade_to_upgradable();
    assert!(!wg.release());
    let mut second = lock.upgradable_read();
    assert!(second.poll_acquire().unwrap().is_none());
    let mut r = lock.read();
    let mut g = read_now(&mut r);
    assert!(!g.release());
    let mut f = up.upgrade();
    let mut wg2 = upgrade_now(&mut f);
    assert!(wg2.release());
    // the lock is free again
    let mut w3 = lock.write();
    let mut wg3 = write_now(&mut w3);
    assert!(wg3.release());
}

#[test]
fn downgrade_upgradable_to_plain_reader() {
    let lock = RwLock::new(0);
    let mut up = upgradable_now(&lock);
    let mut g = up.downgrade_upgradable();
    assert!(up.is_downgraded());
    // the upgradable guard was turned into `g`: it gives nothing back
    assert!(!up.release());
    // the upgradable lock is free again
    let mut up2 = upgradable_now(&lock);
    assert!(up2.release());
    assert!(g.release());
    let mut w = lock.write();
    let mut wg = write_now(&mut w);
    assert!(wg.release());
    // released once: the word is back to unlocked
    let mut w2 = lock.write();
    let mut wg2 = write_now(&mut w2);
    assert!(wg2.release());
}

#[test]
fn guards_point_at_their_lock() {
    let lock = RwLock::new(7);
    let mut r = lock.read();
    let mut g = read_now(&mut r);
    assert!(std::ptr::eq(g.rwlock(), &lock));
    assert!(g.release());
    let mut up = upgradable_now(&lock);
    assert!(std::ptr::eq(up.rwlock(), &lock));
    assert!(up.release());
    let mut w = lock.write();
    let mut wg = write_now(&mut w);
    assert!(std::ptr::eq(wg.rwlock(), &lock));
    assert!(wg.release());
}
