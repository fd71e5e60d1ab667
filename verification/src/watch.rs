//! The file-watch manager: the registry of active watches and the delivery
//! decisions their background threads make.

use vstd::prelude::*;
use crate::events::{Action, CoreError, UiEvent};

verus! {

/// One active filesystem watch, keyed by owning session and watched path.
/// A session watches at most one entry per distinct path; different sessions
/// may watch the same path independently.
pub struct WatchEntry {
    pub session: u64,
    pub path: String,
}

/// Whether entry `e` carries the key `(session, path)`.
pub open spec fn entry_matches(e: WatchEntry, session: u64, path: Seq<char>) -> bool {
    e.session == session && e.path@ == path
}

/// The shared registry of active watches.  The hosting runtime guards it with
/// one lock, held only across these structural changes, never across file I/O
/// or event emission.
pub struct WatchManager {
    entries: Vec<WatchEntry>,
}

impl WatchManager {
    /// The registered watch entries.
    pub closed spec fn entries_seq(self) -> Seq<WatchEntry> {
        self.entries@
    }

    /// Whether a watch with key `(session, path)` is registered.
    pub open spec fn has_watch(self, session: u64, path: Seq<char>) -> bool {
        exists|i: int|
            0 <= i < self.entries_seq().len() && #[trigger] entry_matches(
                self.entries_seq()[i],
                session,
                path,
            )
    }

    /// The number of registered watches.
    pub open spec fn watch_count(self) -> nat {
        self.entries_seq().len()
    }

    /// No key is registered twice.
    pub open spec fn wf(self) -> bool {
        forall|i: int, j: int|
            #![trigger self.entries_seq()[i], self.entries_seq()[j]]
            0 <= i < j < self.entries_seq().len() ==> !entry_matches(
                self.entries_seq()[i],
                self.entries_seq()[j].session,
                self.entries_seq()[j].path@,
            )
    }

    /// A manager with no watches.
    pub fn new() -> (r: WatchManager)
        ensures
            r.wf(),
            r.watch_count() == 0,
            forall|s: u64, p: Seq<char>| !r.has_watch(s, p),
    {
        WatchManager { entries: Vec::new() }
    }

    /// The index of the entry keyed `(session, path)`, if one is registered.
    #[verifier::loop_isolation(false)]
    fn find(&self, session: u64, path: &String) -> (r: Option<usize>)
        ensures
            match r {
                Some(i) => i < self.entries_seq().len() && entry_matches(
                    self.entries_seq()[i as int],
                    session,
                    path@,
                ),
                None => !self.has_watch(session, path@),
            },
    {
        let n = self.entries.len();
        let mut i: usize = 0;
        while i < n
            invariant
                i <= n,
                forall|j: int|
                    0 <= j < i ==> !entry_matches(#[trigger] self.entries@[j], session, path@),
            decreases n - i,
        {
            if self.entries[i].session == session && self.entries[i].path.eq(path) {
                return Some(i);
            }
            i = i + 1;
        }
        None
    }

    /// Registers a watch for `(session, path)`.  `path_exists` is the result
    /// of the caller's single existence check at call time; when it is false
    /// the watch is refused with `NotFound`.  Registering an already-watched
    /// key keeps the registry as it is.
    pub fn start_watch(&mut self, session: u64, path: String, path_exists: bool) -> (r: Result<
        (),
        CoreError,
    >)
        requires
            old(self).wf(),
        ensures
            start_watch_post(*old(self), session, path@, path_exists, *final(self), r),
    {
        if !path_exists {
            return Err(CoreError::NotFound);
        }
        if self.find(session, &path).is_none() {
            let ghost pre = *self;
            self.entries.push(WatchEntry { session, path });
            proof {
                assert forall|s: u64, p: Seq<char>| #[trigger]
                    self.has_watch(s, p) implies pre.has_watch(s, p) || (s == session && p
                    == path@) by {
                    let i = choose|i: int|
                        0 <= i < self.entries_seq().len() && #[trigger] entry_matches(
                            self.entries_seq()[i],
                            s,
                            p,
                        );
                    if i < pre.entries_seq().len() {
                        assert(entry_matches(pre.entries_seq()[i], s, p));
                    }
                }
                assert forall|s: u64, p: Seq<char>| pre.has_watch(s, p) implies #[trigger]
                    self.has_watch(s, p) by {
                    let i = choose|i: int|
                        0 <= i < pre.entries_seq().len() && #[trigger] entry_matches(
                            pre.entries_seq()[i],
                            s,
                            p,
                        );
                    assert(entry_matches(self.entries_seq()[i], s, p));
                }
                assert(entry_matches(
                    self.entries_seq()[self.entries_seq().len() - 1],
                    session,
                    path@,
                ));
                assert forall|i: int, j: int|
                    0 <= i < j < self.entries_seq().len() implies !entry_matches(
                    self.entries_seq()[i],
                    self.entries_seq()[j].session,
                    self.entries_seq()[j].path@,
                ) by {
                    if j == self.entries_seq().len() - 1 {
                        assert(!pre.has_watch(session, path@));
                        assert(!entry_matches(pre.entries_seq()[i], session, path@));
                    }
                }
            }
        }
        Ok(())
    }

    /// Removes the entry at index `i` and shows the removal's effect on the
    /// registered keys.
    fn remove_at(&mut self, i: usize, Ghost(session): Ghost<u64>, Ghost(path): Ghost<Seq<char>>)
        requires
            old(self).wf(),
            i < old(self).entries_seq().len(),
            entry_matches(old(self).entries_seq()[i as int], session, path),
        ensures
            final(self).wf(),
            forall|s: u64, p: Seq<char>|
                final(self).has_watch(s, p) <==> (old(self).has_watch(s, p) && !(s == session && p
                    == path)),
            final(self).watch_count() == old(self).watch_count() - 1,
    {
        let ghost pre = *self;
        self.entries.remove(i);
        proof {
            assert forall|s: u64, p: Seq<char>| #[trigger]
                self.has_watch(s, p) implies pre.has_watch(s, p) && !(s == session && p
                == path) by {
                let k = choose|k: int|
                    0 <= k < self.entries_seq().len() && #[trigger] entry_matches(
                        self.entries_seq()[k],
                        s,
                        p,
                    );
                if k < i {
                    assert(entry_matches(pre.entries_seq()[k], s, p));
                } else {
                    assert(entry_matches(pre.entries_seq()[k + 1], s, p));
                }
            }
            assert forall|s: u64, p: Seq<char>|
                pre.has_watch(s, p) && !(s == session && p == path) implies #[trigger]
                self.has_watch(s, p) by {
                let k = choose|k: int|
                    0 <= k < pre.entries_seq().len() && #[trigger] entry_matches(
                        pre.entries_seq()[k],
                        s,
                        p,
                    );
                assert(k != i);
                if k < i {
                    assert(entry_matches(self.entries_seq()[k], s, p));
                } else {
                    assert(entry_matches(self.entries_seq()[k - 1], s, p));
                }
            }
        }
    }

    /// Stops the watch for `(session, path)`.  Removal is idempotent: the
    /// entry may already have removed itself concurrently, so stopping an
    /// absent watch succeeds too.
    pub fn stop_watch(&mut self, session: u64, path: &String) -> (r: Result<(), ()>)
        requires
            old(self).wf(),
        ensures
            stop_watch_post(*old(self), session, path@, *final(self), r),
    {
        match self.find(session, path) {
            Some(i) => {
                self.remove_at(i, Ghost(session), Ghost(path@));
                proof {
                    assert(old(self).has_watch(session, path@));
                }
            },
            None => {},
        }
        Ok(())
    }

    /// Removes the watch whose delivery thread observed a terminal watcher
    /// error; the only path by which an entry disappears without an explicit
    /// stop.
    pub fn remove_errored(&mut self, session: u64, path: &String)
        requires
            old(self).wf(),
        ensures
            stop_watch_post(*old(self), session, path@, *final(self), Ok(())),
    {
        let _ = self.stop_watch(session, path);
    }

    /// The index of some entry owned by `session`, if one is registered.
    #[verifier::loop_isolation(false)]
    fn find_by_session(&self, session: u64) -> (r: Option<usize>)
        ensures
            match r {
                Some(i) => i < self.entries_seq().len() && self.entries_seq()[i as int].session
                    == session,
                None => forall|i: int|
                    0 <= i < self.entries_seq().len() ==> #[trigger] self.entries_seq()[i].session
                        != session,
            },
    {
        let n = self.entries.len();
        let mut i: usize = 0;
        while i < n
            invariant
                i <= n,
                forall|j: int| 0 <= j < i ==> #[trigger] self.entries@[j].session != session,
            decreases n - i,
        {
            if self.entries[i].session == session {
                return Some(i);
            }
            i = i + 1;
        }
        None
    }

    /// Removes every watch owned by `session`; called exactly once while the
    /// session closes, so a closed session never leaves orphaned watches.
    #[verifier::loop_isolation(false)]
    pub fn cleanup_session(&mut self, session: u64)
        requires
            old(self).wf(),
        ensures
            cleanup_session_post(*old(self), session, *final(self)),
    {
        let ghost pre = *self;
        let mut found = self.find_by_session(session);
        while found.is_some()
            invariant
                self.wf(),
                forall|s: u64, p: Seq<char>|
                    s != session ==> (#[trigger] self.has_watch(s, p) <==> pre.has_watch(s, p)),
                match found {
                    Some(i) => i < self.entries_seq().len() && self.entries_seq()[i as int].session
                        == session,
                    None => forall|i: int|
                        0 <= i < self.entries_seq().len()
                            ==> #[trigger] self.entries_seq()[i].session != session,
                },
            decreases self.entries@.len(),
        {
            let i = found.unwrap();
            let ghost path = self.entries_seq()[i as int].path@;
            self.remove_at(i, Ghost(session), Ghost(path));
            found = self.find_by_session(session);
        }
        proof {
            assert forall|s: u64, p: Seq<char>| s == session implies !#[trigger] self.has_watch(
                s,
                p,
            ) by {
                if self.has_watch(s, p) {
                    let i = choose|i: int|
                        0 <= i < self.entries_seq().len() && #[trigger] entry_matches(
                            self.entries_seq()[i],
                            s,
                            p,
                        );
                }
            }
        }
    }

    /// Whether a watch with key `(session, path)` is registered.
    pub fn is_watching(&self, session: u64, path: &String) -> (r: bool)
        ensures
            r == self.has_watch(session, path@),
    {
        self.find(session, path).is_some()
    }

    /// The number of registered watches.
    pub fn len(&self) -> (r: usize)
        ensures
            r == self.watch_count(),
    {
        self.entries.len()
    }
}

/// What `start_watch` guarantees: an absent path is refused with `NotFound`
/// and nothing changes; otherwise exactly the key `(session, path)` is added
/// to the registered keys.
pub open spec fn start_watch_post(
    pre: WatchManager,
    session: u64,
    path: Seq<char>,
    path_exists: bool,
    post: WatchManager,
    r: Result<(), CoreError>,
) -> bool {
    &&& post.wf()
    &&& if !path_exists {
        &&& r == Result::<(), CoreError>::Err(CoreError::NotFound)
        &&& post.entries_seq() == pre.entries_seq()
    } else {
        &&& r is Ok
        &&& forall|s: u64, p: Seq<char>|
            post.has_watch(s, p) <==> (pre.has_watch(s, p) || (s == session && p == path))
        &&& post.watch_count() == pre.watch_count() + if pre.has_watch(session, path) {
            0int
        } else {
            1int
        }
    }
}

/// What `stop_watch` guarantees: it never errors, and exactly the key
/// `(session, path)` is gone from the registered keys.
pub open spec fn stop_watch_post(
    pre: WatchManager,
    session: u64,
    path: Seq<char>,
    post: WatchManager,
    r: Result<(), ()>,
) -> bool {
    &&& post.wf()
    &&& r is Ok
    &&& forall|s: u64, p: Seq<char>|
        post.has_watch(s, p) <==> (pre.has_watch(s, p) && !(s == session && p == path))
    &&& post.watch_count() == pre.watch_count() - if pre.has_watch(session, path) {
        1int
    } else {
        0int
    }
}

/// What `cleanup_session` guarantees: exactly the watches of other sessions
/// survive.
pub open spec fn cleanup_session_post(
    pre: WatchManager,
    session: u64,
    post: WatchManager,
) -> bool {
    &&& post.wf()
    &&& forall|s: u64, p: Seq<char>|
        post.has_watch(s, p) <==> (pre.has_watch(s, p) && s != session)
}

/// Whether a filesystem notification concerns the watched path: it must be a
/// modify notification and name the watched path exactly (path equality, not
/// canonicalization).
pub open spec fn notification_matches(
    watched: Seq<char>,
    is_modify: bool,
    event_paths: Seq<Seq<char>>,
) -> bool {
    is_modify && exists|i: int| 0 <= i < event_paths.len() && #[trigger] event_paths[i] == watched
}

/// Decides whether a delivery thread reacts to a notification at all.
#[verifier::loop_isolation(false)]
pub fn should_deliver(watched: &String, is_modify: bool, event_paths: &Vec<String>) -> (r: bool)
    ensures
        r == notification_matches(watched@, is_modify, event_paths.deep_view()),
{
    if !is_modify {
        return false;
    }
    let n = event_paths.len();
    let mut i: usize = 0;
    while i < n
        invariant
            i <= n,
            forall|j: int| 0 <= j < i ==> #[trigger] event_paths.deep_view()[j] != watched@,
        decreases n - i,
    {
        if event_paths[i].eq(watched) {
            proof {
                assert(event_paths.deep_view()[i as int] == watched@);
            }
            return true;
        }
        proof {
            assert(event_paths.deep_view()[i as int] == event_paths@[i as int]@);
        }
        i = i + 1;
    }
    false
}

/// What `delivery_event` guarantees: a successful re-read emits the changed
/// file to the owning session only, immediately; a failed re-read (the file
/// may have vanished between notification and read) is swallowed.
pub open spec fn delivery_post(
    session: u64,
    watched: String,
    read_content: Option<String>,
    r: Option<Action>,
) -> bool {
    match read_content {
        None => r is None,
        Some(c) => r == Some(
            (Action::Emit {
                session,
                event: UiEvent::FileChangedExternally { path: watched, content: c },
                after_grace: false,
            }),
        ),
    }
}

/// Turns the re-read outcome for a matching notification into the delivery
/// step, scoped to the owning session.
pub fn delivery_event(session: u64, watched: &String, read_content: Option<String>) -> (r: Option<
    Action,
>)
    ensures
        delivery_post(session, *watched, read_content, r),
{
    match read_content {
        None => None,
        Some(content) => Some(
            Action::Emit {
                session,
                event: UiEvent::FileChangedExternally { path: watched.clone(), content },
                after_grace: false,
            },
        ),
    }
}

/// Stopping a watch is idempotent: a second stop of the same key in a row, or
/// a stop of a key that was never registered, succeeds and changes nothing.
pub proof fn lemma_stop_watch_idempotent(
    w0: WatchManager,
    w1: WatchManager,
    w2: WatchManager,
    session: u64,
    path: Seq<char>,
    r1: Result<(), ()>,
    r2: Result<(), ()>,
)
    requires
        stop_watch_post(w0, session, path, w1, r1),
        stop_watch_post(w1, session, path, w2, r2),
    ensures
        r1 is Ok,
        r2 is Ok,
        forall|s: u64, p: Seq<char>| w2.has_watch(s, p) <==> w1.has_watch(s, p),
        w2.watch_count() == w1.watch_count(),
        !w0.has_watch(session, path) ==> w1.watch_count() == w0.watch_count(),
{
    assert(!w1.has_watch(session, path));
    assert forall|s: u64, p: Seq<char>| w2.has_watch(s, p) <==> w1.has_watch(s, p) by {
        if w1.has_watch(s, p) {
            assert(!(s == session && p == path));
        }
    }
}

/// A change notification for a path watched by session `s` never emits to a
/// session other than `s`: when another session `t` independently watches the
/// same path, each delivery thread emits once, to its own session.
pub proof fn lemma_delivery_scoped(
    s: u64,
    t: u64,
    watched: String,
    c1: Option<String>,
    c2: Option<String>,
    r1: Option<Action>,
    r2: Option<Action>,
)
    requires
        s != t,
        delivery_post(s, watched, c1, r1),
        delivery_post(t, watched, c2, r2),
    ensures
        r1 matches Some(a1) ==> a1 matches Action::Emit { session: e1, .. } && e1 == s,
        r2 matches Some(a2) ==> a2 matches Action::Emit { session: e2, .. } && e2 == t,
        r1 is Some && r2 is Some ==> r1 != r2,
{
}

} // verus!
