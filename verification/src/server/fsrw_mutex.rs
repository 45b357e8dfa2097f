//! The file lock registry: a canonical-path-keyed table of reader/writer
//! lock states with reference counting.
//!
//! Each canonical path with at least one interested holder has exactly one
//! entry. `acquire_file_rwlock` registers a holder, creating the entry on
//! first access; `release_file_rwlock` deregisters one, removing the entry
//! when the last holder leaves. Between acquire and release a holder may take
//! the path's lock as a reader or as a writer; any number of readers share it,
//! a writer excludes everyone. The registry records those lock states as plain
//! counts, so the granting rules are verified here; the blocking itself is the
//! caller's concern.

use vstd::prelude::*;

verus! {

/// The lock state of one registered path: how many holders have acquired the
/// entry, how many of them currently hold the lock as readers, and whether
/// one holds it as the writer.
#[derive(Debug, Clone, Copy, PartialEq, Eq, Structural)]
pub struct FileLock {
    pub threads_accessing: u64,
    pub readers: u64,
    pub writer: bool,
}

/// One registry entry: a canonical path and its lock state.
#[derive(Debug)]
pub struct LockEntry {
    pub path: String,
    pub lock: FileLock,
}

/// The registry table. An entry exists for a path if and only if at least one
/// holder has acquired it and not yet released it.
#[derive(Debug)]
pub struct FsrwMutex {
    pub file_dict: Vec<LockEntry>,
}

impl FileLock {
    /// How many holders of this entry currently hold its lock.
    pub open spec fn lock_holders(self) -> nat {
        (self.readers + (if self.writer {
            1nat
        } else {
            0nat
        })) as nat
    }
}

impl FsrwMutex {
    /// Whether the registry has an entry for `p`.
    pub open spec fn contains_path(self, p: Seq<char>) -> bool {
        exists|i: int| 0 <= i < self.file_dict@.len() && self.file_dict@[i].path@ == p
    }

    /// The index of the entry for `p`; meaningful only when one exists.
    pub open spec fn entry_index(self, p: Seq<char>) -> int {
        choose|i: int| 0 <= i < self.file_dict@.len() && self.file_dict@[i].path@ == p
    }

    /// The lock state recorded for `p`; meaningful only when an entry exists.
    pub open spec fn state_of(self, p: Seq<char>) -> FileLock {
        self.file_dict@[self.entry_index(p)].lock
    }

    /// How many holders have acquired `p` and not released it; zero when no
    /// entry exists.
    pub open spec fn count_of(self, p: Seq<char>) -> nat {
        if self.contains_path(p) {
            self.state_of(p).threads_accessing as nat
        } else {
            0
        }
    }

    /// How many holders currently hold the lock of `p` as readers.
    pub open spec fn readers_of(self, p: Seq<char>) -> nat {
        if self.contains_path(p) {
            self.state_of(p).readers as nat
        } else {
            0
        }
    }

    /// Whether some holder currently holds the lock of `p` as the writer.
    pub open spec fn writer_of(self, p: Seq<char>) -> bool {
        self.contains_path(p) && self.state_of(p).writer
    }

    /// How many holders currently hold the lock of `p`, as reader or writer.
    pub open spec fn lock_holders_of(self, p: Seq<char>) -> nat {
        if self.contains_path(p) {
            self.state_of(p).lock_holders()
        } else {
            0
        }
    }

    /// The registry's invariant: paths are unique, every entry has at least
    /// one holder, holders of the lock are registered holders, and a writer
    /// excludes all readers.
    pub open spec fn wf(self) -> bool {
        let s = self.file_dict@;
        &&& forall|i: int, j: int|
            0 <= i < s.len() && 0 <= j < s.len() && i != j ==> s[i].path@ != s[j].path@
        &&& forall|i: int| 0 <= i < s.len() ==> (#[trigger] s[i].lock).threads_accessing >= 1
        &&& forall|i: int|
            0 <= i < s.len() ==> (#[trigger] s[i].lock).lock_holders()
                <= s[i].lock.threads_accessing
        &&& forall|i: int| 0 <= i < s.len() ==> ((#[trigger] s[i].lock).writer ==> s[i].lock.readers == 0)
    }

    /// In a well-formed registry any index holding `p` is the entry index of
    /// `p`, so `p` has one entry.
    pub proof fn lemma_unique_index(self, p: Seq<char>, i: int)
        requires
            self.wf(),
            0 <= i < self.file_dict@.len(),
            self.file_dict@[i].path@ == p,
        ensures
            self.contains_path(p),
            self.entry_index(p) == i,
    {
        assert(self.contains_path(p));
        let j = self.entry_index(p);
        assert(0 <= j < self.file_dict@.len() && self.file_dict@[j].path@ == p);
    }

    /// A well-formed registry has an entry for a path exactly when the path
    /// has outstanding holders. This is the registry invariant behind the
    /// balanced acquire/release law.
    pub proof fn lemma_entry_iff_positive_count(self, p: Seq<char>)
        requires
            self.wf(),
        ensures
            self.contains_path(p) <==> self.count_of(p) > 0,
    {
        if self.contains_path(p) {
            let i = self.entry_index(p);
            assert(0 <= i < self.file_dict@.len() && self.file_dict@[i].path@ == p);
        }
    }

    /// Whether a read-lock request at `p` would be granted now.
    pub open spec fn read_grantable(self, p: Seq<char>) -> bool {
        !self.writer_of(p)
    }

    /// Whether a write-lock request at `p` would be granted now: nobody may
    /// hold the lock, neither a reader nor a writer.
    pub open spec fn write_grantable(self, p: Seq<char>) -> bool {
        self.readers_of(p) == 0 && !self.writer_of(p)
    }

    /// Creates an empty registry: no path has an entry.
    pub fn new() -> (r: Self)
        ensures
            r.wf(),
            forall|p: Seq<char>| !r.contains_path(p),
            r.file_dict@.len() == 0,
    {
        FsrwMutex { file_dict: Vec::new() }
    }

    /// The index of the entry for `path`, or `None` when no entry exists.
    fn find_index(&self, path: &String) -> (r: Option<usize>)
        ensures
            match r {
                Some(i) => 0 <= i < self.file_dict@.len() && self.file_dict@[i as int].path@
                    == path@,
                None => !self.contains_path(path@),
            },
    {
        let n: usize = self.file_dict.len();
        let mut i: usize = 0;
        while i < n
            invariant
                0 <= i <= n == self.file_dict@.len(),
                forall|j: int| 0 <= j < i ==> self.file_dict@[j].path@ != path@,
            decreases n - i,
        {
            if self.file_dict[i].path == *path {
                return Some(i);
            }
            i = i + 1;
        }
        None
    }
}

/// Registers one more holder for `path`: an existing entry's holder count
/// grows by one, and a path without an entry gets a fresh entry with one
/// holder and a free lock. No other path's entry changes.
pub fn acquire_file_rwlock(m: &mut FsrwMutex, path: &String)
    requires
        old(m).wf(),
        old(m).count_of(path@) < u64::MAX,
    ensures
        final(m).wf(),
        final(m).contains_path(path@),
        final(m).count_of(path@) == old(m).count_of(path@) + 1,
        final(m).readers_of(path@) == old(m).readers_of(path@),
        final(m).writer_of(path@) == old(m).writer_of(path@),
        forall|q: Seq<char>|
            q != path@ ==> #[trigger] final(m).contains_path(q) == old(m).contains_path(q)
                && final(m).count_of(q) == old(m).count_of(q) && final(m).readers_of(q) == old(
                m,
            ).readers_of(q) && final(m).writer_of(q) == old(m).writer_of(q),
{
    let ghost p = path@;
    match m.find_index(path) {
        Some(i) => {
            proof {
                old(m).lemma_unique_index(p, i as int);
            }
            let entry = &m.file_dict[i];
            let updated = LockEntry {
                path: entry.path.clone(),
                lock: FileLock {
                    threads_accessing: entry.lock.threads_accessing + 1,
                    readers: entry.lock.readers,
                    writer: entry.lock.writer,
                },
            };
            m.file_dict[i] = updated;
            proof {
                let s_old = old(m).file_dict@;
                let s_new = m.file_dict@;
                assert(forall|k: int|
                    0 <= k < s_new.len() && k != i ==> s_new[k] == s_old[k]);
                assert(s_new[i as int].path@ == p);
                assert(m.wf());
                m.lemma_unique_index(p, i as int);
                assert forall|q: Seq<char>| q != p implies (#[trigger] m.contains_path(q)) == old(
                    m,
                ).contains_path(q) && m.count_of(q) == old(m).count_of(q) && m.readers_of(q) == old(
                    m,
                ).readers_of(q) && m.writer_of(q) == old(m).writer_of(q) by {
                    if old(m).contains_path(q) {
                        let j = old(m).entry_index(q);
                        assert(s_old[j].path@ == q);
                        assert(s_new[j] == s_old[j]);
                        m.lemma_unique_index(q, j);
                    }
                    if m.contains_path(q) {
                        let j = m.entry_index(q);
                        assert(s_new[j].path@ == q);
                        assert(j != i);
                        assert(s_old[j].path@ == q);
                        old(m).lemma_unique_index(q, j);
                    }
                }
            }
        },
        None => {
            let entry = LockEntry {
                path: path.clone(),
                lock: FileLock { threads_accessing: 1, readers: 0, writer: false },
            };
            m.file_dict.push(entry);
            proof {
                let s_old = old(m).file_dict@;
                let s_new = m.file_dict@;
                let n = s_old.len() as int;
                assert(s_new[n].path@ == p);
                assert(forall|k: int| 0 <= k < n ==> s_new[k] == s_old[k]);
                assert forall|i: int, j: int|
                    0 <= i < s_new.len() && 0 <= j < s_new.len() && i != j implies s_new[i].path@
                    != s_new[j].path@ by {
                    if i < n && j < n {
                    } else if i == n {
                        assert(s_new[j].path@ != p) by {
                            if s_new[j].path@ == p {
                                old(m).lemma_unique_index(p, j);
                            }
                        }
                    } else {
                        assert(s_new[i].path@ != p) by {
                            if s_new[i].path@ == p {
                                old(m).lemma_unique_index(p, i);
                            }
                        }
                    }
                }
                assert(m.wf());
                m.lemma_unique_index(p, n);
                assert(old(m).count_of(p) == 0);
                assert forall|q: Seq<char>| q != p implies (#[trigger] m.contains_path(q)) == old(
                    m,
                ).contains_path(q) && m.count_of(q) == old(m).count_of(q) && m.readers_of(q) == old(
                    m,
                ).readers_of(q) && m.writer_of(q) == old(m).writer_of(q) by {
                    if old(m).contains_path(q) {
                        let j = old(m).entry_index(q);
                        assert(s_old[j].path@ == q);
                        assert(s_new[j] == s_old[j]);
                        m.lemma_unique_index(q, j);
                    }
                    if m.contains_path(q) {
                        let j = m.entry_index(q);
                        assert(s_new[j].path@ == q);
                        assert(j != n);
                        assert(s_old[j].path@ == q);
                        old(m).lemma_unique_index(q, j);
                    }
                }
            }
        },
    }
}

impl FsrwMutex {
    /// Replaces the lock state of the entry at `i`, leaving every other entry
    /// as it was.
    fn update_entry(&mut self, i: usize, lock: FileLock)
        requires
            old(self).wf(),
            i < old(self).file_dict@.len(),
            lock.threads_accessing == old(self).file_dict@[i as int].lock.threads_accessing,
            lock.lock_holders() <= lock.threads_accessing,
            lock.writer ==> lock.readers == 0,
        ensures
            final(self).wf(),
            final(self).contains_path(old(self).file_dict@[i as int].path@),
            final(self).state_of(old(self).file_dict@[i as int].path@) == lock,
            final(self).count_of(old(self).file_dict@[i as int].path@)
                == old(self).count_of(old(self).file_dict@[i as int].path@),
            forall|q: Seq<char>|
                q != old(self).file_dict@[i as int].path@
                    ==> #[trigger] final(self).contains_path(q) == old(self).contains_path(q)
                    && final(self).count_of(q) == old(self).count_of(q)
                    && final(self).readers_of(q) == old(self).readers_of(q)
                    && final(self).writer_of(q) == old(self).writer_of(q),
    {
        let ghost p = self.file_dict@[i as int].path@;
        proof {
            old(self).lemma_unique_index(p, i as int);
        }
        let entry = &self.file_dict[i];
        let updated = LockEntry { path: entry.path.clone(), lock };
        self.file_dict[i] = updated;
        proof {
            let s_old = old(self).file_dict@;
            let s_new = self.file_dict@;
            assert(forall|k: int| 0 <= k < s_new.len() && k != i ==> s_new[k] == s_old[k]);
            assert(s_new[i as int].path@ == p);
            assert(self.wf());
            self.lemma_unique_index(p, i as int);
            assert forall|q: Seq<char>| q != p implies (#[trigger] self.contains_path(q)) == old(
                self,
            ).contains_path(q) && self.count_of(q) == old(self).count_of(q) && self.readers_of(q)
                == old(self).readers_of(q) && self.writer_of(q) == old(self).writer_of(q) by {
                if old(self).contains_path(q) {
                    let j = old(self).entry_index(q);
                    assert(s_old[j].path@ == q);
                    assert(s_new[j] == s_old[j]);
                    self.lemma_unique_index(q, j);
                }
                if self.contains_path(q) {
                    let j = self.entry_index(q);
                    assert(s_new[j].path@ == q);
                    assert(j != i);
                    assert(s_old[j].path@ == q);
                    old(self).lemma_unique_index(q, j);
                }
            }
        }
    }

    /// Asks for the lock of `path` as a reader, for a holder that has
    /// acquired the entry and holds no lock on it yet. The request is granted
    /// exactly when no writer holds the lock; readers share freely. A denied
    /// request changes nothing: the caller may wait and ask again.
    pub fn try_lock_read(&mut self, path: &String) -> (granted: bool)
        requires
            old(self).wf(),
            old(self).contains_path(path@),
            old(self).lock_holders_of(path@) < old(self).count_of(path@),
        ensures
            final(self).wf(),
            granted <==> !old(self).writer_of(path@),
            granted ==> final(self).readers_of(path@) == old(self).readers_of(path@) + 1,
            !granted ==> *final(self) == *old(self),
            final(self).writer_of(path@) == old(self).writer_of(path@),
            final(self).count_of(path@) == old(self).count_of(path@),
            final(self).contains_path(path@),
            forall|q: Seq<char>|
                q != path@ ==> #[trigger] final(self).contains_path(q) == old(self).contains_path(
                    q,
                ) && final(self).count_of(q) == old(self).count_of(q) && final(self).readers_of(q)
                    == old(self).readers_of(q) && final(self).writer_of(q) == old(self).writer_of(
                    q,
                ),
    {
        let ghost p = path@;
        let i = match self.find_index(path) {
            Some(i) => i,
            None => {
                proof {
                    assert(false);
                }
                0
            },
        };
        proof {
            old(self).lemma_unique_index(p, i as int);
        }
        let entry = &self.file_dict[i];
        if entry.lock.writer {
            return false;
        }
        let lock = FileLock {
            threads_accessing: entry.lock.threads_accessing,
            readers: entry.lock.readers + 1,
            writer: false,
        };
        self.update_entry(i, lock);
        true
    }

    /// Asks for the lock of `path` as the writer, for a holder that has
    /// acquired the entry and holds no lock on it yet. The request is granted
    /// exactly when nobody holds the lock — no reader and no writer — so a
    /// writer excludes everyone. A denied request changes nothing: the caller
    /// may wait and ask again.
    pub fn try_lock_write(&mut self, path: &String) -> (granted: bool)
        requires
            old(self).wf(),
            old(self).contains_path(path@),
            old(self).lock_holders_of(path@) < old(self).count_of(path@),
        ensures
            final(self).wf(),
            granted <==> old(self).readers_of(path@) == 0 && !old(self).writer_of(path@),
            granted ==> final(self).writer_of(path@),
            !granted ==> *final(self) == *old(self),
            final(self).readers_of(path@) == old(self).readers_of(path@),
            final(self).count_of(path@) == old(self).count_of(path@),
            final(self).contains_path(path@),
            forall|q: Seq<char>|
                q != path@ ==> #[trigger] final(self).contains_path(q) == old(self).contains_path(
                    q,
                ) && final(self).count_of(q) == old(self).count_of(q) && final(self).readers_of(q)
                    == old(self).readers_of(q) && final(self).writer_of(q) == old(self).writer_of(
                    q,
                ),
    {
        let ghost p = path@;
        let i = match self.find_index(path) {
            Some(i) => i,
            None => {
                proof {
                    assert(false);
                }
                0
            },
        };
        proof {
            old(self).lemma_unique_index(p, i as int);
        }
        let entry = &self.file_dict[i];
        if entry.lock.writer || entry.lock.readers > 0 {
            return false;
        }
        let lock = FileLock {
            threads_accessing: entry.lock.threads_accessing,
            readers: 0,
            writer: true,
        };
        self.update_entry(i, lock);
        true
    }

    /// Returns the lock of `path` that the caller held as a reader.
    pub fn unlock_read(&mut self, path: &String)
        requires
            old(self).wf(),
            old(self).readers_of(path@) >= 1,
        ensures
            final(self).wf(),
            final(self).readers_of(path@) == old(self).readers_of(path@) - 1,
            final(self).writer_of(path@) == old(self).writer_of(path@),
            final(self).count_of(path@) == old(self).count_of(path@),
            final(self).contains_path(path@),
            forall|q: Seq<char>|
                q != path@ ==> #[trigger] final(self).contains_path(q) == old(self).contains_path(
                    q,
                ) && final(self).count_of(q) == old(self).count_of(q) && final(self).readers_of(q)
                    == old(self).readers_of(q) && final(self).writer_of(q) == old(self).writer_of(
                    q,
                ),
    {
        let ghost p = path@;
        let i = match self.find_index(path) {
            Some(i) => i,
            None => {
                proof {
                    assert(false);
                }
                0
            },
        };
        proof {
            old(self).lemma_unique_index(p, i as int);
        }
        let entry = &self.file_dict[i];
        let lock = FileLock {
            threads_accessing: entry.lock.threads_accessing,
            readers: entry.lock.readers - 1,
            writer: entry.lock.writer,
        };
        self.update_entry(i, lock);
    }

    /// Returns the lock of `path` that the caller held as the writer.
    pub fn unlock_write(&mut self, path: &String)
        requires
            old(self).wf(),
            old(self).writer_of(path@),
        ensures
            final(self).wf(),
            !final(self).writer_of(path@),
            final(self).readers_of(path@) == old(self).readers_of(path@),
            final(self).count_of(path@) == old(self).count_of(path@),
            final(self).contains_path(path@),
            forall|q: Seq<char>|
                q != path@ ==> #[trigger] final(self).contains_path(q) == old(self).contains_path(
                    q,
                ) && final(self).count_of(q) == old(self).count_of(q) && final(self).readers_of(q)
                    == old(self).readers_of(q) && final(self).writer_of(q) == old(self).writer_of(
                    q,
                ),
    {
        let ghost p = path@;
        let i = match self.find_index(path) {
            Some(i) => i,
            None => {
                proof {
                    assert(false);
                }
                0
            },
        };
        proof {
            old(self).lemma_unique_index(p, i as int);
        }
        let entry = &self.file_dict[i];
        let lock = FileLock {
            threads_accessing: entry.lock.threads_accessing,
            readers: entry.lock.readers,
            writer: false,
        };
        self.update_entry(i, lock);
    }
}

/// Deregisters one holder of `path`. The releasing holder must hold the
/// entry but not its lock; when it was the last holder the entry is removed,
/// and at that moment nobody holds the lock — the condition the registry
/// checks before dropping an entry. No other path's entry changes.
pub fn release_file_rwlock(m: &mut FsrwMutex, path: &String)
    requires
        old(m).wf(),
        old(m).contains_path(path@),
        old(m).lock_holders_of(path@) < old(m).count_of(path@),
    ensures
        final(m).wf(),
        final(m).count_of(path@) == old(m).count_of(path@) - 1,
        final(m).contains_path(path@) <==> old(m).count_of(path@) > 1,
        final(m).readers_of(path@) == old(m).readers_of(path@),
        final(m).writer_of(path@) == old(m).writer_of(path@),
        forall|q: Seq<char>|
            q != path@ ==> #[trigger] final(m).contains_path(q) == old(m).contains_path(q)
                && final(m).count_of(q) == old(m).count_of(q) && final(m).readers_of(q) == old(
                m,
            ).readers_of(q) && final(m).writer_of(q) == old(m).writer_of(q),
{
    let ghost p = path@;
    let i = match m.find_index(path) {
        Some(i) => i,
        None => {
            proof {
                assert(false);
            }
            0
        },
    };
    proof {
        old(m).lemma_unique_index(p, i as int);
    }
    let entry = &m.file_dict[i];
    if entry.lock.threads_accessing == 1 {
        m.file_dict.remove(i);
        proof {
            let s_old = old(m).file_dict@;
            let s_new = m.file_dict@;
            assert(forall|k: int|
                0 <= k < s_new.len() ==> s_new[k] == (if k < i {
                    s_old[k]
                } else {
                    s_old[k + 1]
                }));
            assert(m.wf());
            assert(!m.contains_path(p)) by {
                if m.contains_path(p) {
                    let j = m.entry_index(p);
                    assert(s_new[j].path@ == p);
                    if j < i {
                        old(m).lemma_unique_index(p, j);
                    } else {
                        old(m).lemma_unique_index(p, j + 1);
                    }
                }
            }
            assert forall|q: Seq<char>| q != p implies (#[trigger] m.contains_path(q)) == old(
                m,
            ).contains_path(q) && m.count_of(q) == old(m).count_of(q) && m.readers_of(q) == old(
                m,
            ).readers_of(q) && m.writer_of(q) == old(m).writer_of(q) by {
                if old(m).contains_path(q) {
                    let j = old(m).entry_index(q);
                    assert(s_old[j].path@ == q);
                    assert(j != i);
                    if j < i {
                        assert(s_new[j] == s_old[j]);
                        m.lemma_unique_index(q, j);
                    } else {
                        assert(s_new[j - 1] == s_old[j]);
                        m.lemma_unique_index(q, j - 1);
                    }
                }
                if m.contains_path(q) {
                    let j = m.entry_index(q);
                    assert(s_new[j].path@ == q);
                    if j < i {
                        old(m).lemma_unique_index(q, j);
                    } else {
                        old(m).lemma_unique_index(q, j + 1);
                    }
                }
            }
        }
    } else {
        let updated = LockEntry {
            path: entry.path.clone(),
            lock: FileLock {
                threads_accessing: entry.lock.threads_accessing - 1,
                readers: entry.lock.readers,
                writer: entry.lock.writer,
            },
        };
        m.file_dict[i] = updated;
        proof {
            let s_old = old(m).file_dict@;
            let s_new = m.file_dict@;
            assert(forall|k: int| 0 <= k < s_new.len() && k != i ==> s_new[k] == s_old[k]);
            assert(s_new[i as int].path@ == p);
            assert(m.wf());
            m.lemma_unique_index(p, i as int);
            assert forall|q: Seq<char>| q != p implies (#[trigger] m.contains_path(q)) == old(
                m,
            ).contains_path(q) && m.count_of(q) == old(m).count_of(q) && m.readers_of(q) == old(
                m,
            ).readers_of(q) && m.writer_of(q) == old(m).writer_of(q) by {
                if old(m).contains_path(q) {
                    let j = old(m).entry_index(q);
                    assert(s_old[j].path@ == q);
                    assert(s_new[j] == s_old[j]);
                    m.lemma_unique_index(q, j);
                }
                if m.contains_path(q) {
                    let j = m.entry_index(q);
                    assert(s_new[j].path@ == q);
                    assert(j != i);
                    assert(s_old[j].path@ == q);
                    old(m).lemma_unique_index(q, j);
                }
            }
        }
    }
}

/// Independence law: whether a lock is granted at a path depends on that
/// path's own lock state alone. Two registries that agree on a path's state —
/// as they do before and after any operation on a different path, by the
/// operations' contracts — grant and deny its locks alike, so distinct paths
/// never block each other.
pub proof fn lemma_paths_independent(m1: FsrwMutex, m2: FsrwMutex, p: Seq<char>)
    requires
        m1.readers_of(p) == m2.readers_of(p),
        m1.writer_of(p) == m2.writer_of(p),
    ensures
        m1.read_grantable(p) == m2.read_grantable(p),
        m1.write_grantable(p) == m2.write_grantable(p),
{
}

/// One bookkeeping step on a single path's entry: registering a holder or
/// deregistering one.
#[derive(Debug, Clone, Copy, PartialEq, Eq, Structural)]
pub enum RegistryOp {
    Acquire,
    Release,
}

/// The holder count after one bookkeeping step. This is exactly how
/// `acquire_file_rwlock` and `release_file_rwlock` move the count of the path
/// they are given, as their contracts state.
pub open spec fn apply_registry_op(count: nat, op: RegistryOp) -> nat {
    match op {
        RegistryOp::Acquire => count + 1,
        RegistryOp::Release => if count > 0 {
            (count - 1) as nat
        } else {
            0
        },
    }
}

/// The holder count after a sequence of bookkeeping steps.
pub open spec fn apply_registry_ops(count: nat, ops: Seq<RegistryOp>) -> nat
    decreases ops.len(),
{
    if ops.len() == 0 {
        count
    } else {
        apply_registry_ops(apply_registry_op(count, ops[0]), ops.drop_first())
    }
}

/// Whether a sequence of bookkeeping steps never releases a path nobody
/// holds; only such sequences arise, since releasing requires an entry.
pub open spec fn registry_ops_valid(count: nat, ops: Seq<RegistryOp>) -> bool
    decreases ops.len(),
{
    ops.len() == 0 || ((ops[0] is Release ==> count > 0) && registry_ops_valid(
        apply_registry_op(count, ops[0]),
        ops.drop_first(),
    ))
}

/// How many of the steps register a holder.
pub open spec fn acquires_in(ops: Seq<RegistryOp>) -> int
    decreases ops.len(),
{
    if ops.len() == 0 {
        0
    } else {
        (if ops[0] is Acquire {
            1int
        } else {
            0int
        }) + acquires_in(ops.drop_first())
    }
}

/// How many of the steps deregister a holder.
pub open spec fn releases_in(ops: Seq<RegistryOp>) -> int
    decreases ops.len(),
{
    if ops.len() == 0 {
        0
    } else {
        (if ops[0] is Release {
            1int
        } else {
            0int
        }) + releases_in(ops.drop_first())
    }
}

/// A valid sequence of bookkeeping steps moves the holder count by exactly
/// the number of acquires less the number of releases.
pub proof fn lemma_registry_ops_net(count: nat, ops: Seq<RegistryOp>)
    requires
        registry_ops_valid(count, ops),
    ensures
        apply_registry_ops(count, ops) == count + acquires_in(ops) - releases_in(ops),
    decreases ops.len(),
{
    if ops.len() > 0 {
        lemma_registry_ops_net(apply_registry_op(count, ops[0]), ops.drop_first());
    }
}

/// Lock registry law: after any interleaved sequence of acquires and releases
/// on one path that starts with no holders and nets to zero outstanding
/// holders, a well-formed registry whose holder count for that path evolved by
/// that sequence has no entry for the path.
pub proof fn lemma_balanced_ops_leave_no_entry(
    m: FsrwMutex,
    p: Seq<char>,
    ops: Seq<RegistryOp>,
)
    requires
        m.wf(),
        registry_ops_valid(0, ops),
        acquires_in(ops) == releases_in(ops),
        m.count_of(p) == apply_registry_ops(0, ops),
    ensures
        !m.contains_path(p),
{
    lemma_registry_ops_net(0, ops);
    m.lemma_entry_iff_positive_count(p);
}

} // verus!
