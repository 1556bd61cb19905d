//! The shared store: one clipboard history behind a read/write lock, written
//! by the watcher and read on demand by any number of concurrent queries.

use vstd::prelude::*;
use vstd::rwlock::RwLock;
use vstd::rwlock::RwLockPredicate;

use crate::history::no_adjacent_dups;
use crate::history::ClipboardHistory;

verus! {

/// The lock's invariant: whatever history is stored in the lock satisfies the
/// history invariant, so every reader sees a well-formed history.
pub struct HistoryLockInv {}

impl RwLockPredicate<ClipboardHistory> for HistoryLockInv {
    open spec fn inv(self, h: ClipboardHistory) -> bool {
        h.wf()
    }
}

/// The state shared between the watcher (the single writer) and the query
/// handlers (readers): a clipboard history guarded by a read/write lock.
pub struct SharedClipboardState {
    lock: RwLock<ClipboardHistory, HistoryLockInv>,
}

impl SharedClipboardState {
    /// A fresh store holding an empty history, as the process starts with.
    pub fn new() -> SharedClipboardState {
        SharedClipboardState {
            lock: RwLock::new(ClipboardHistory::new(), Ghost(HistoryLockInv {})),
        }
    }

    /// One watcher iteration against the shared store. A failed read is
    /// swallowed. For a successful read, the watcher first asks under a read
    /// lock whether the value must be stored, and only then takes the write
    /// lock; the append under the write lock checks again, so the history
    /// invariant holds even if another writer slipped in between the two
    /// locks. Returns whether an append happened.
    pub fn poll(&self, read: Option<String>) -> (appended: bool) {
        match read {
            None => false,
            Some(content) => {
                let read_handle = self.lock.acquire_read();
                let should_try = read_handle.borrow().needs_append(&content);
                read_handle.release_read();
                if should_try {
                    let (mut h, write_handle) = self.lock.acquire_write();
                    let appended = h.observe(content);
                    write_handle.release_write(h);
                    appended
                } else {
                    false
                }
            },
        }
    }

    /// A read-only snapshot of the entire ordered history, taken under a read
    /// lock: it is always one complete history satisfying the invariant — a
    /// concurrent append is either entirely visible or not yet visible, never
    /// a torn entry.
    pub fn get_previous_content(&self) -> (r: Vec<String>)
        ensures
            no_adjacent_dups(r.deep_view()),
    {
        let read_handle = self.lock.acquire_read();
        let r = read_handle.borrow().get_previous_content();
        read_handle.release_read();
        r
    }
}

} // verus!
