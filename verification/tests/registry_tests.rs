//! Lock registry behavior: reference counting, entry lifetime, and the
//! reader/writer granting rules.

use parfs::server::fsrw_mutex::{acquire_file_rwlock, release_file_rwlock, FsrwMutex};

#[test]
fn balanced_acquires_and_releases_leave_no_entry() {
    // An interleaved sequence on one path that nets to zero holders.
    let mut m = FsrwMutex::new();
    let p = String::from("/srv/root/a.txt");
    acquire_file_rwlock(&mut m, &p);
    acquire_file_rwlock(&mut m, &p);
    release_file_rwlock(&mut m, &p);
    acquire_file_rwlock(&mut m, &p);
    release_file_rwlock(&mut m, &p);
    release_file_rwlock(&mut m, &p);
    assert_eq!(m.file_dict.len(), 0);
}

#[test]
fn entry_exists_while_holders_remain() {
    let mut m = FsrwMutex::new();
    let p = String::from("/srv/root/a.txt");
    acquire_file_rwlock(&mut m, &p);
    acquire_file_rwlock(&mut m, &p);
    release_file_rwlock(&mut m, &p);
    assert_eq!(m.file_dict.len(), 1);
    assert_eq!(m.file_dict[0].lock.threads_accessing, 1);
    release_file_rwlock(&mut m, &p);
    assert_eq!(m.file_dict.len(), 0);
}

#[test]
fn writer_excludes_readers_and_writers() {
    let mut m = FsrwMutex::new();
    let p = String::from("/srv/root/big.bin");
    acquire_file_rwlock(&mut m, &p);
    assert!(m.try_lock_write(&p));
    // A second session arrives while the writer holds the lock.
    acquire_file_rwlock(&mut m, &p);
    assert!(!m.try_lock_read(&p));
    assert!(!m.try_lock_write(&p));
    m.unlock_write(&p);
    assert!(m.try_lock_read(&p));
    m.unlock_read(&p);
    release_file_rwlock(&mut m, &p);
    release_file_rwlock(&mut m, &p);
}

#[test]
fn readers_share_and_exclude_writers() {
    let mut m = FsrwMutex::new();
    let p = String::from("/srv/root/shared.txt");
    acquire_file_rwlock(&mut m, &p);
    acquire_file_rwlock(&mut m, &p);
    acquire_file_rwlock(&mut m, &p);
    assert!(m.try_lock_read(&p));
    assert!(m.try_lock_read(&p));
    assert!(!m.try_lock_write(&p));
    m.unlock_read(&p);
    assert!(!m.try_lock_write(&p));
    m.unlock_read(&p);
    assert!(m.try_lock_write(&p));
    m.unlock_write(&p);
    release_file_rwlock(&mut m, &p);
    release_file_rwlock(&mut m, &p);
    release_file_rwlock(&mut m, &p);
    assert_eq!(m.file_dict.len(), 0);
}

#[test]
fn distinct_paths_never_block_each_other() {
    let mut m = FsrwMutex::new();
    let p = String::from("/srv/root/p.bin");
    let q = String::from("/srv/root/q.bin");
    acquire_file_rwlock(&mut m, &p);
    acquire_file_rwlock(&mut m, &q);
    assert!(m.try_lock_write(&p));
    // The writer on p leaves q untouched.
    assert!(m.try_lock_write(&q));
    m.unlock_write(&q);
    acquire_file_rwlock(&mut m, &q);
    assert!(m.try_lock_read(&q));
    m.unlock_read(&q);
    release_file_rwlock(&mut m, &q);
    m.unlock_write(&p);
    release_file_rwlock(&mut m, &p);
    release_file_rwlock(&mut m, &q);
    assert_eq!(m.file_dict.len(), 0);
}

#[test]
fn concurrent_download_waits_for_upload() {
    // Session A uploads big.bin (write lock); session B's download is denied
    // until A finishes, then B reads the complete content's lock state.
    let mut m = FsrwMutex::new();
    let p = String::from("/srv/root/big.bin");
    acquire_file_rwlock(&mut m, &p);
    assert!(m.try_lock_write(&p));
    acquire_file_rwlock(&mut m, &p);
    assert!(!m.try_lock_read(&p)); // B waits
    assert!(!m.try_lock_read(&p)); // still waits
    m.unlock_write(&p); // A finished writing
    release_file_rwlock(&mut m, &p);
    assert!(m.try_lock_read(&p)); // B proceeds on the final content
    m.unlock_read(&p);
    release_file_rwlock(&mut m, &p);
    assert_eq!(m.file_dict.len(), 0);
}
