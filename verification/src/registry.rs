//! The window registry: session identifiers and live window lookup.

use vstd::prelude::*;
use crate::events::{Action, UiEvent};

verus! {

/// Lifecycle of one document window session.  A closed session is simply no
/// longer in the registry.
#[derive(Debug, Clone, Copy, PartialEq, Eq, Structural)]
pub enum SessionState {
    Creating,
    Ready,
}

/// One open document window.
#[derive(Debug, Clone, Copy, PartialEq, Eq, Structural)]
pub struct Session {
    pub id: u64,
    pub state: SessionState,
}

/// Owns the mapping from generated session identifiers to live windows.
/// Identifiers come from a single monotonically increasing counter and are
/// never reused.
pub struct WindowRegistry {
    next_id: u64,
    sessions: Vec<Session>,
    quit_on_last_close: bool,
}

impl WindowRegistry {
    /// The live sessions, in creation order.
    pub closed spec fn sessions_seq(self) -> Seq<Session> {
        self.sessions@
    }

    /// The identifier the next created session will receive.
    pub closed spec fn next_id_spec(self) -> u64 {
        self.next_id
    }

    /// Whether closing the last window terminates the process (a host
    /// platform convention, configured at construction).
    pub closed spec fn quits_on_last_close(self) -> bool {
        self.quit_on_last_close
    }

    /// Whether a live session carries the identifier `id`.
    pub open spec fn contains_id(self, id: u64) -> bool {
        exists|i: int|
            0 <= i < self.sessions_seq().len() && #[trigger] self.sessions_seq()[i].id == id
    }

    /// The number of live sessions.
    pub open spec fn live_count(self) -> nat {
        self.sessions_seq().len()
    }

    /// Identifiers are strictly increasing in creation order and always below
    /// the counter, so no two live sessions share one.
    pub open spec fn wf(self) -> bool {
        &&& forall|i: int, j: int|
            0 <= i < j < self.sessions_seq().len() ==> #[trigger] self.sessions_seq()[i].id
                < #[trigger] self.sessions_seq()[j].id
        &&& forall|i: int|
            0 <= i < self.sessions_seq().len() ==> #[trigger] self.sessions_seq()[i].id
                < self.next_id_spec()
    }

    /// A registry with no sessions.
    pub fn new(quit_on_last_close: bool) -> (r: WindowRegistry)
        ensures
            r.wf(),
            r.sessions_seq() == Seq::<Session>::empty(),
            r.next_id_spec() == 1u64,
            r.quits_on_last_close() == quit_on_last_close,
    {
        WindowRegistry { next_id: 1, sessions: Vec::new(), quit_on_last_close }
    }

    /// Allocates a fresh identifier, records the session, and returns the
    /// steps the hosting runtime must take: create the window and, when an
    /// initial file is given, deliver its `FileOpened` event to exactly that
    /// session after the grace delay.
    pub fn create_session(&mut self, initial_file: Option<(String, String)>) -> (r: (
        u64,
        Vec<Action>,
    ))
        requires
            old(self).wf(),
            old(self).next_id_spec() < u64::MAX,
        ensures
            create_session_post(*old(self), initial_file, *final(self), r.0, r.1@),
    {
        let id = self.next_id;
        self.next_id = self.next_id + 1;
        self.sessions.push(Session { id, state: SessionState::Creating });
        let mut actions: Vec<Action> = Vec::new();
        actions.push(Action::CreateWindow { session: id });
        match initial_file {
            None => {
                proof {
                    assert(actions@ =~= session_open_actions(id as int, None));
                }
            },
            Some(file) => {
                actions.push(
                    Action::Emit {
                        session: id,
                        event: UiEvent::FileOpened { path: file.0, content: file.1 },
                        after_grace: true,
                    },
                );
                proof {
                    assert(actions@ =~= session_open_actions(id as int, initial_file));
                }
            },
        }
        (id, actions)
    }

    /// Marks the session `id`, if live, as ready; everything else is kept.
    #[verifier::loop_isolation(false)]
    pub fn mark_ready(&mut self, id: u64)
        requires
            old(self).wf(),
        ensures
            mark_ready_post(*old(self), id, *final(self)),
    {
        let ghost pre = *self;
        let n = self.sessions.len();
        let mut i: usize = 0;
        while i < n
            invariant
                i <= n,
                n == self.sessions@.len(),
                self.next_id == pre.next_id_spec(),
                self.quit_on_last_close == pre.quits_on_last_close(),
                self.sessions@.len() == pre.sessions_seq().len(),
                forall|j: int|
                    0 <= j < i ==> #[trigger] self.sessions@[j] == mark_ready_session(
                        pre.sessions_seq()[j],
                        id,
                    ),
                forall|j: int| i <= j < n ==> self.sessions@[j] == pre.sessions_seq()[j],
            decreases n - i,
        {
            if self.sessions[i].id == id {
                let updated = Session { id, state: SessionState::Ready };
                self.sessions[i] = updated;
            }
            i = i + 1;
        }
        proof {
            assert forall|j: int, k: int|
                0 <= j < k < self.sessions_seq().len() implies #[trigger] self.sessions_seq()[j].id
                < #[trigger] self.sessions_seq()[k].id by {
                assert(pre.sessions_seq()[j].id < pre.sessions_seq()[k].id);
            }
            assert forall|j: int|
                0 <= j < self.sessions_seq().len() implies #[trigger] self.sessions_seq()[j].id
                < self.next_id_spec() by {
                assert(pre.sessions_seq()[j].id < pre.next_id_spec());
            }
        }
    }

    /// The focused session if it is live, else the oldest live session, else
    /// nothing.  Focus is queried by the caller, never cached here.
    #[verifier::loop_isolation(false)]
    pub fn resolve_target(&self, focused: Option<u64>) -> (r: Option<u64>)
        requires
            self.wf(),
        ensures
            r == spec_resolve_target(*self, focused),
            resolve_target_post(*self, focused, r),
    {
        if let Some(f) = focused {
            let n = self.sessions.len();
            let mut i: usize = 0;
            while i < n
                invariant
                    i <= n,
                    n == self.sessions@.len(),
                    forall|j: int| 0 <= j < i ==> #[trigger] self.sessions@[j].id != f,
                decreases n - i,
            {
                if self.sessions[i].id == f {
                    proof {
                        assert(self.sessions_seq()[i as int].id == f);
                        assert(self.contains_id(f));
                    }
                    return Some(f);
                }
                i = i + 1;
            }
        }
        if self.sessions.len() > 0 {
            Some(self.sessions[0].id)
        } else {
            None
        }
    }

    /// Removes the session `id`; reports whether it was live.  Its watches
    /// are cleaned up by the caller before or during this teardown, never
    /// after (see `router::close_session`).
    #[verifier::loop_isolation(false)]
    pub fn remove_session(&mut self, id: u64) -> (removed: bool)
        requires
            old(self).wf(),
        ensures
            remove_session_post(*old(self), id, *final(self), removed),
    {
        let ghost pre = *self;
        let n = self.sessions.len();
        let mut i: usize = 0;
        while i < n
            invariant
                i <= n,
                n == self.sessions@.len(),
                pre == *self,
                pre.wf(),
                forall|j: int| 0 <= j < i ==> #[trigger] self.sessions@[j].id != id,
            decreases n - i,
        {
            if self.sessions[i].id == id {
                proof {
                    assert(pre.sessions_seq()[i as int].id == id);
                }
                self.sessions.remove(i);
                proof {
                    lemma_remove_session_at(pre, id, i as int, *self);
                    assert(remove_session_post(pre, id, *self, true));
                }
                return true;
            }
            i = i + 1;
        }
        proof {
            assert(!pre.contains_id(id));
        }
        false
    }

    /// The number of live sessions.
    pub fn len(&self) -> (r: usize)
        ensures
            r == self.live_count(),
    {
        self.sessions.len()
    }

    /// Whether a live session carries the identifier `id`.
    #[verifier::loop_isolation(false)]
    pub fn has_session(&self, id: u64) -> (r: bool)
        ensures
            r == self.contains_id(id),
    {
        let n = self.sessions.len();
        let mut i: usize = 0;
        while i < n
            invariant
                i <= n,
                n == self.sessions@.len(),
                forall|j: int| 0 <= j < i ==> #[trigger] self.sessions@[j].id != id,
            decreases n - i,
        {
            if self.sessions[i].id == id {
                return true;
            }
            i = i + 1;
        }
        false
    }

    /// The session at position `i` in creation order.
    pub fn session_at(&self, i: usize) -> (r: Session)
        requires
            i < self.live_count(),
        ensures
            r == self.sessions_seq()[i as int],
    {
        self.sessions[i]
    }

    /// The identifier the next created session will receive; lets a caller
    /// check that the counter cannot overflow before creating sessions.
    pub fn next_session_id(&self) -> (r: u64)
        ensures
            r == self.next_id_spec(),
    {
        self.next_id
    }

    /// Whether closing the last window terminates the process.
    pub fn quit_on_last_close(&self) -> (r: bool)
        ensures
            r == self.quits_on_last_close(),
    {
        self.quit_on_last_close
    }
}

/// The window-creation and initial-delivery steps for a fresh session `id`.
pub open spec fn session_open_actions(id: int, initial_file: Option<(String, String)>) -> Seq<
    Action,
> {
    match initial_file {
        None => seq![(Action::CreateWindow { session: id as u64 })],
        Some(file) => seq![
            (Action::CreateWindow { session: id as u64 }),
            (Action::Emit {
                session: id as u64,
                event: UiEvent::FileOpened { path: file.0, content: file.1 },
                after_grace: true,
            }),
        ],
    }
}

/// What `create_session` guarantees: the returned identifier is the counter's
/// value, the counter advances by one, the session is appended, and the
/// actions are exactly the window creation plus the optional deferred
/// delivery of the initial file to that same session.
pub open spec fn create_session_post(
    pre: WindowRegistry,
    initial_file: Option<(String, String)>,
    post: WindowRegistry,
    id: u64,
    actions: Seq<Action>,
) -> bool {
    &&& post.wf()
    &&& id == pre.next_id_spec()
    &&& post.next_id_spec() == pre.next_id_spec() + 1
    &&& post.sessions_seq() == pre.sessions_seq().push(
        Session { id, state: SessionState::Creating },
    )
    &&& post.quits_on_last_close() == pre.quits_on_last_close()
    &&& actions == session_open_actions(id as int, initial_file)
}

/// The session `s` after a readiness signal for `id`.
pub open spec fn mark_ready_session(s: Session, id: u64) -> Session {
    if s.id == id {
        Session { id: s.id, state: SessionState::Ready }
    } else {
        s
    }
}

/// What `mark_ready` guarantees: the session with identifier `id`, if live,
/// is now ready; every other session, the counter, and the quit convention
/// are untouched.
pub open spec fn mark_ready_post(pre: WindowRegistry, id: u64, post: WindowRegistry) -> bool {
    &&& post.wf()
    &&& post.next_id_spec() == pre.next_id_spec()
    &&& post.quits_on_last_close() == pre.quits_on_last_close()
    &&& post.sessions_seq().len() == pre.sessions_seq().len()
    &&& forall|i: int|
        0 <= i < pre.sessions_seq().len() ==> #[trigger] post.sessions_seq()[i]
            == mark_ready_session(pre.sessions_seq()[i], id)
}

/// What `resolve_target` guarantees: the focused session when it is live,
/// else the oldest live session, and nothing only when no session is live.
/// Whether the queried focus names a live session.
pub open spec fn focused_is_live(reg: WindowRegistry, focused: Option<u64>) -> bool {
    match focused {
        Some(f) => reg.contains_id(f),
        None => false,
    }
}

/// The session a window-scoped command acts on: the focused session when it
/// is live, else the oldest live session, else none.
pub open spec fn spec_resolve_target(reg: WindowRegistry, focused: Option<u64>) -> Option<u64> {
    if focused_is_live(reg, focused) {
        focused
    } else if reg.live_count() > 0 {
        Some(reg.sessions_seq()[0].id)
    } else {
        None
    }
}

pub open spec fn resolve_target_post(
    reg: WindowRegistry,
    focused: Option<u64>,
    r: Option<u64>,
) -> bool {
    &&& (r is None <==> reg.live_count() == 0)
    &&& (focused_is_live(reg, focused) ==> r == Some(focused->0))
    &&& (r matches Some(t) ==> reg.contains_id(t))
    &&& (reg.live_count() > 0 && !focused_is_live(reg, focused) ==> r == Some(
        reg.sessions_seq()[0].id,
    ))
}

/// What `remove_session` guarantees: exactly the sessions other than `id`
/// survive, and the counter never moves backwards on teardown.
pub open spec fn remove_session_post(
    pre: WindowRegistry,
    id: u64,
    post: WindowRegistry,
    removed: bool,
) -> bool {
    &&& post.wf()
    &&& post.next_id_spec() == pre.next_id_spec()
    &&& post.quits_on_last_close() == pre.quits_on_last_close()
    &&& removed == pre.contains_id(id)
    &&& forall|x: u64| post.contains_id(x) <==> pre.contains_id(x) && x != id
    &&& post.live_count() == if pre.contains_id(id) {
        pre.live_count() - 1
    } else {
        pre.live_count() as int
    }
    &&& !removed ==> post.sessions_seq() == pre.sessions_seq()
}

/// Removing the entry at index `k` (the one carrying `id`) yields exactly the
/// sessions other than `id`.
proof fn lemma_remove_session_at(pre: WindowRegistry, id: u64, k: int, post: WindowRegistry)
    requires
        pre.wf(),
        0 <= k < pre.sessions_seq().len(),
        pre.sessions_seq()[k].id == id,
        post.sessions_seq() == pre.sessions_seq().remove(k),
        post.next_id_spec() == pre.next_id_spec(),
        post.quits_on_last_close() == pre.quits_on_last_close(),
    ensures
        remove_session_post(pre, id, post, true),
{
    assert(pre.contains_id(id));
    assert forall|x: u64| post.contains_id(x) implies pre.contains_id(x) && x != id by {
        let i = choose|i: int|
            0 <= i < post.sessions_seq().len() && #[trigger] post.sessions_seq()[i].id == x;
        if i < k {
            assert(pre.sessions_seq()[i].id == x);
            assert(pre.sessions_seq()[i].id != pre.sessions_seq()[k].id);
        } else {
            assert(pre.sessions_seq()[i + 1].id == x);
            assert(pre.sessions_seq()[i + 1].id != pre.sessions_seq()[k].id);
        }
    }
    assert forall|x: u64| pre.contains_id(x) && x != id implies post.contains_id(x) by {
        let i = choose|i: int|
            0 <= i < pre.sessions_seq().len() && #[trigger] pre.sessions_seq()[i].id == x;
        assert(i != k);
        if i < k {
            assert(post.sessions_seq()[i].id == x);
        } else {
            assert(post.sessions_seq()[i - 1].id == x);
        }
    }
}

/// Identifiers returned by any two session creations are distinct and
/// strictly increasing, whatever files they open and whatever other
/// operations run in between: every operation's contract keeps the counter
/// or advances it (`mid` is the registry when the second creation runs).
pub proof fn lemma_session_ids_strictly_increase(
    r0: WindowRegistry,
    r1: WindowRegistry,
    mid: WindowRegistry,
    r2: WindowRegistry,
    f1: Option<(String, String)>,
    f2: Option<(String, String)>,
    id1: u64,
    id2: u64,
    a1: Seq<Action>,
    a2: Seq<Action>,
)
    requires
        create_session_post(r0, f1, r1, id1, a1),
        r1.next_id_spec() <= mid.next_id_spec(),
        create_session_post(mid, f2, r2, id2, a2),
    ensures
        id1 < id2,
        id1 != id2,
{
}

/// In a well-formed registry no two live sessions share an identifier.
pub proof fn lemma_live_ids_unique(reg: WindowRegistry)
    requires
        reg.wf(),
    ensures
        forall|i: int, j: int|
            0 <= i < reg.sessions_seq().len() && 0 <= j < reg.sessions_seq().len() && i != j
                ==> #[trigger] reg.sessions_seq()[i].id != #[trigger] reg.sessions_seq()[j].id,
{
    assert forall|i: int, j: int|
        0 <= i < reg.sessions_seq().len() && 0 <= j < reg.sessions_seq().len() && i != j
        implies #[trigger] reg.sessions_seq()[i].id != #[trigger] reg.sessions_seq()[j].id by {
        if i < j {
            assert(reg.sessions_seq()[i].id < reg.sessions_seq()[j].id);
        } else {
            assert(reg.sessions_seq()[j].id < reg.sessions_seq()[i].id);
        }
    }
}

} // verus!
