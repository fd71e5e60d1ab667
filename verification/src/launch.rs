//! The launch coordinator: which files a process activation opens, where
//! they go, and the pending-file handoff to the first ready window.

use vstd::prelude::*;
use crate::events::{Action, UiEvent};
use crate::pending::{offer_post, PendingSlot};
use crate::registry::{
    mark_ready_post, session_open_actions, spec_resolve_target, Session, SessionState,
    WindowRegistry,
};

verus! {

/// One launch argument or platform-supplied path that passed the existence
/// and extension checks.  `content` is the file's text, or nothing when the
/// read failed (an unreadable candidate is logged and skipped, aborting
/// nothing).
pub struct Candidate {
    pub path: String,
    pub content: Option<String>,
}

/// Where one process activation stands.
#[derive(Debug, Clone, Copy, PartialEq, Eq, Structural)]
pub enum LaunchState {
    Idle,
    ArgsInspected,
    Dispatched,
    Buffered,
    Resolved,
}

/// The `(path, content)` pair a readable candidate opens.
pub open spec fn candidate_file(c: Candidate) -> Option<(String, String)> {
    Some((c.path, c.content->0))
}

/// How many of the candidates are readable, and so receive a session each.
pub open spec fn planned_count(cs: Seq<Candidate>) -> nat
    decreases cs.len(),
{
    if cs.len() == 0 {
        0
    } else {
        (if cs[0].content is Some {
            1nat
        } else {
            0nat
        }) + planned_count(cs.skip(1))
    }
}

/// The sessions that opening the readable candidates appends to the registry,
/// with identifiers counted from `base`.
pub open spec fn planned_sessions(base: int, cs: Seq<Candidate>) -> Seq<Session>
    decreases cs.len(),
{
    if cs.len() == 0 {
        Seq::empty()
    } else if cs[0].content is Some {
        seq![(Session { id: base as u64, state: SessionState::Creating })] + planned_sessions(
            base + 1,
            cs.skip(1),
        )
    } else {
        planned_sessions(base, cs.skip(1))
    }
}

/// The runtime steps that open the readable candidates, one fresh session per
/// file, each receiving its own deferred `FileOpened` delivery.
pub open spec fn planned_actions(base: int, cs: Seq<Candidate>) -> Seq<Action>
    decreases cs.len(),
{
    if cs.len() == 0 {
        Seq::empty()
    } else if cs[0].content is Some {
        session_open_actions(base, candidate_file(cs[0])) + planned_actions(base + 1, cs.skip(1))
    } else {
        planned_actions(base, cs.skip(1))
    }
}

/// Whether `f` is the position of the first readable candidate.
pub open spec fn is_first_readable(cs: Seq<Candidate>, f: int) -> bool {
    &&& 0 <= f < cs.len()
    &&& cs[f].content is Some
    &&& forall|j: int| 0 <= j < f ==> (#[trigger] cs[j].content) is None
}

/// Whether no candidate is readable.
pub open spec fn no_readable(cs: Seq<Candidate>) -> bool {
    forall|j: int| 0 <= j < cs.len() ==> (#[trigger] cs[j].content) is None
}

/// Opens every readable candidate at position `from` or later in a fresh
/// session of its own.
#[verifier::loop_isolation(false)]
fn dispatch_new_sessions(
    reg: &mut WindowRegistry,
    candidates: &Vec<Candidate>,
    from: usize,
) -> (actions: Vec<Action>)
    requires
        old(reg).wf(),
        from <= candidates@.len(),
        old(reg).next_id_spec() + candidates@.len() - from <= u64::MAX,
    ensures
        dispatch_post(*old(reg), candidates@.skip(from as int), *final(reg), actions@),
{
    let ghost base = old(reg).next_id_spec() as int;
    let ghost cs = candidates@;
    let mut actions: Vec<Action> = Vec::new();
    let n = candidates.len();
    let mut i: usize = from;
    while i < n
        invariant
            from <= i <= n,
            reg.wf(),
            reg.next_id_spec() + (n - i) <= u64::MAX,
            reg.quits_on_last_close() == old(reg).quits_on_last_close(),
            actions@ + planned_actions(reg.next_id_spec() as int, cs.skip(i as int))
                == planned_actions(base, cs.skip(from as int)),
            reg.sessions_seq() + planned_sessions(reg.next_id_spec() as int, cs.skip(i as int))
                == old(reg).sessions_seq() + planned_sessions(base, cs.skip(from as int)),
            reg.next_id_spec() + planned_count(cs.skip(i as int)) == base + planned_count(
                cs.skip(from as int),
            ),
        decreases n - i,
    {
        let ghost tail = cs.skip(i as int);
        proof {
            assert(tail[0] == cs[i as int]);
            assert(tail.skip(1) =~= cs.skip(i as int + 1));
        }
        let c = &candidates[i];
        match &c.content {
            Some(content) => {
                let ghost pre_reg = *reg;
                let ghost pre_actions = actions@;
                let file = Some((c.path.clone(), content.clone()));
                let (id, mut acts) = reg.create_session(file);
                actions.append(&mut acts);
                proof {
                    assert(candidate_file(tail[0]) == file);
                    assert(actions@ =~= pre_actions + session_open_actions(
                        pre_reg.next_id_spec() as int,
                        file,
                    ));
                    assert(planned_actions(pre_reg.next_id_spec() as int, tail)
                        == session_open_actions(pre_reg.next_id_spec() as int, file)
                        + planned_actions(pre_reg.next_id_spec() as int + 1, tail.skip(1)));
                    assert(actions@ + planned_actions(reg.next_id_spec() as int, tail.skip(1)) =~= (
                    pre_actions + planned_actions(pre_reg.next_id_spec() as int, tail)));
                    assert(reg.sessions_seq() + planned_sessions(
                        reg.next_id_spec() as int,
                        tail.skip(1),
                    ) =~= (pre_reg.sessions_seq() + planned_sessions(
                        pre_reg.next_id_spec() as int,
                        tail,
                    )));
                }
            },
            None => {
                proof {
                    assert(planned_actions(reg.next_id_spec() as int, tail) == planned_actions(
                        reg.next_id_spec() as int,
                        tail.skip(1),
                    ));
                    assert(planned_sessions(reg.next_id_spec() as int, tail) == planned_sessions(
                        reg.next_id_spec() as int,
                        tail.skip(1),
                    ));
                }
            },
        }
        i = i + 1;
    }
    proof {
        assert(cs.skip(n as int) =~= Seq::<Candidate>::empty());
        assert(actions@ + planned_actions(reg.next_id_spec() as int, cs.skip(n as int)) =~= (
        actions@));
        assert(reg.sessions_seq() + planned_sessions(reg.next_id_spec() as int, cs.skip(n as int))
            =~= reg.sessions_seq());
    }
    actions
}

/// What opening a run of candidates into fresh sessions does to the registry.
pub open spec fn dispatch_post(
    pre: WindowRegistry,
    cs: Seq<Candidate>,
    post: WindowRegistry,
    actions: Seq<Action>,
) -> bool {
    &&& post.wf()
    &&& post.quits_on_last_close() == pre.quits_on_last_close()
    &&& post.next_id_spec() == pre.next_id_spec() + planned_count(cs)
    &&& post.sessions_seq() == pre.sessions_seq() + planned_sessions(pre.next_id_spec() as int, cs)
    &&& actions == planned_actions(pre.next_id_spec() as int, cs)
}

/// Resolves the files a process activation opens and the pending-file
/// handoff.  The slot and state are guarded together by the hosting runtime's
/// dispatch context.
pub struct LaunchCoordinator {
    state: LaunchState,
    pending: PendingSlot,
}

impl LaunchCoordinator {
    /// Where this activation stands.
    pub closed spec fn state_spec(self) -> LaunchState {
        self.state
    }

    /// The pending slot itself, for stating offer semantics across a call.
    pub closed spec fn pending_slot(self) -> PendingSlot {
        self.pending
    }

    /// The buffered pending file, if any.
    pub open spec fn pending_spec(self) -> Option<(String, String)> {
        self.pending_slot().buffered()
    }

    /// A coordinator that has inspected nothing yet.
    pub fn new() -> (r: LaunchCoordinator)
        ensures
            r.state_spec() == LaunchState::Idle,
            r.pending_spec() is None,
    {
        LaunchCoordinator { state: LaunchState::Idle, pending: PendingSlot::new() }
    }

    /// Where this activation stands.
    pub fn state(&self) -> (r: LaunchState)
        ensures
            r == self.state_spec(),
    {
        self.state
    }

    /// Whether a pending file is buffered.
    pub fn has_pending(&self) -> (r: bool)
        ensures
            r == (self.pending_spec() is Some),
    {
        !self.pending.is_empty()
    }

    /// Primary process start: every readable candidate among the launch
    /// arguments is opened in a fresh session of its own; unreadable ones are
    /// skipped.  Nothing is buffered here: each created session carries its
    /// own deferred delivery.
    pub fn start(
        &mut self,
        reg: &mut WindowRegistry,
        candidates: &Vec<Candidate>,
    ) -> (actions: Vec<Action>)
        requires
            old(self).state_spec() == LaunchState::Idle,
            old(reg).wf(),
            old(reg).next_id_spec() + candidates@.len() <= u64::MAX,
        ensures
            start_post(
                *old(self),
                *old(reg),
                candidates@,
                *final(self),
                *final(reg),
                actions@,
            ),
    {
        let before = reg.next_session_id();
        let actions = dispatch_new_sessions(reg, candidates, 0);
        proof {
            assert(candidates@.skip(0) =~= candidates@);
        }
        if reg.next_session_id() > before {
            self.state = LaunchState::Dispatched;
        } else {
            self.state = LaunchState::ArgsInspected;
        }
        actions
    }

    /// A platform file-open notification: the first readable candidate reuses
    /// an existing window when there is one and is buffered (first wins) when
    /// there is none; every later readable candidate gets a fresh session.
    pub fn platform_open(
        &mut self,
        reg: &mut WindowRegistry,
        candidates: &Vec<Candidate>,
        focused: Option<u64>,
    ) -> (actions: Vec<Action>)
        requires
            old(reg).wf(),
            old(reg).next_id_spec() + candidates@.len() <= u64::MAX,
        ensures
            platform_open_post(
                *old(self),
                *old(reg),
                candidates@,
                focused,
                *final(self),
                *final(reg),
                actions@,
            ),
    {
        let ghost cs = candidates@;
        let f = match first_readable_index(candidates) {
            None => {
                return Vec::new();
            },
            Some(f) => f,
        };
        let n = candidates.len();
        proof {
            assert(is_first_readable(cs, f as int));
            assert(f < n);
        }
        let c = &candidates[f];
        let content = match &c.content {
            Some(content) => content.clone(),
            None => unreached(),
        };
        let mut actions: Vec<Action> = Vec::new();
        let was_live = reg.len() > 0;
        if was_live {
            let target = match reg.resolve_target(focused) {
                Some(t) => t,
                None => unreached(),
            };
            actions.push(
                Action::Emit {
                    session: target,
                    event: UiEvent::FileOpened { path: c.path.clone(), content },
                    after_grace: false,
                },
            );
        } else {
            let accepted = self.pending.offer(c.path.clone(), content);
            if accepted {
                self.state = LaunchState::Buffered;
            }
        }
        let ghost mid_reg = *reg;
        let ghost head_actions = actions@;
        let mut rest = dispatch_new_sessions(reg, candidates, f + 1);
        let ghost rest_actions = rest@;
        actions.append(&mut rest);
        proof {
            assert forall|g: int| is_first_readable(cs, g) implies g == f as int by {
                if g < f as int {
                    assert(cs[g].content is None);
                } else if g > f as int {
                    assert(cs[f as int].content is None);
                }
            }
            assert(mid_reg == *old(reg));
            if old(reg).live_count() > 0 {
                assert(head_actions.len() == 1);
                assert(actions@.skip(1) =~= rest_actions);
            } else {
                assert(actions@ =~= rest_actions);
            }
        }
        actions
    }

    /// A second process launch signalled by the single-instance activation:
    /// candidates are never buffered.  The first readable one reuses an
    /// existing window when there is one and otherwise opens a fresh session;
    /// every later readable candidate gets a fresh session.
    pub fn secondary_activation(
        &mut self,
        reg: &mut WindowRegistry,
        candidates: &Vec<Candidate>,
        focused: Option<u64>,
    ) -> (actions: Vec<Action>)
        requires
            old(reg).wf(),
            old(reg).next_id_spec() + candidates@.len() <= u64::MAX,
        ensures
            secondary_activation_post(
                *old(self),
                *old(reg),
                candidates@,
                focused,
                *final(self),
                *final(reg),
                actions@,
            ),
    {
        let ghost cs = candidates@;
        let f = match first_readable_index(candidates) {
            None => {
                return Vec::new();
            },
            Some(f) => f,
        };
        let n = candidates.len();
        proof {
            assert(is_first_readable(cs, f as int));
            assert(f < n);
        }
        let mut actions: Vec<Action>;
        let was_live = reg.len() > 0;
        if was_live {
            let c = &candidates[f];
            let content = match &c.content {
                Some(content) => content.clone(),
                None => unreached(),
            };
            let target = match reg.resolve_target(focused) {
                Some(t) => t,
                None => unreached(),
            };
            actions = Vec::new();
            actions.push(
                Action::Emit {
                    session: target,
                    event: UiEvent::FileOpened { path: c.path.clone(), content },
                    after_grace: false,
                },
            );
            let ghost head_actions = actions@;
            let mut rest = dispatch_new_sessions(reg, candidates, f + 1);
            let ghost rest_actions = rest@;
            actions.append(&mut rest);
            proof {
                assert(head_actions.len() == 1);
                assert(actions@.skip(1) =~= rest_actions);
            }
        } else {
            actions = dispatch_new_sessions(reg, candidates, f);
            proof {
                assert(cs.skip(f as int)[0] == cs[f as int]);
            }
        }
        proof {
            assert forall|g: int| is_first_readable(cs, g) implies g == f as int by {
                if g < f as int {
                    assert(cs[g].content is None);
                } else if g > f as int {
                    assert(cs[f as int].content is None);
                }
            }
        }
        actions
    }

    /// A window signalled readiness: the session is marked ready and the
    /// pending file, if any, is taken, cleared, and delivered to exactly that
    /// window after the grace delay.
    pub fn window_ready(&mut self, reg: &mut WindowRegistry, session: u64) -> (actions: Vec<
        Action,
    >)
        requires
            old(reg).wf(),
        ensures
            window_ready_post(
                *old(self),
                *old(reg),
                session,
                *final(self),
                *final(reg),
                actions@,
            ),
    {
        reg.mark_ready(session);
        let mut actions: Vec<Action> = Vec::new();
        match self.pending.take() {
            Some((path, content)) => {
                actions.push(
                    Action::Emit {
                        session,
                        event: UiEvent::FileOpened { path, content },
                        after_grace: true,
                    },
                );
            },
            None => {},
        }
        if matches!(self.state, LaunchState::Dispatched | LaunchState::Buffered) {
            self.state = LaunchState::Resolved;
        }
        actions
    }

    /// The startup grace period elapsed with no window yet: a buffered
    /// pending file is opened in a fresh session, and with nothing buffered a
    /// single default empty session is created, so a plain start never ends
    /// windowless.  With a window already present, nothing happens.
    pub fn startup_grace_elapsed(&mut self, reg: &mut WindowRegistry) -> (actions: Vec<Action>)
        requires
            old(reg).wf(),
            old(reg).next_id_spec() < u64::MAX,
        ensures
            startup_grace_post(*old(self), *old(reg), *final(self), *final(reg), actions@),
    {
        if reg.len() > 0 {
            return Vec::new();
        }
        let file = self.pending.take();
        let (_, actions) = reg.create_session(file);
        self.state = LaunchState::Dispatched;
        actions
    }
}

/// The position of the first readable candidate.
#[verifier::loop_isolation(false)]
fn first_readable_index(candidates: &Vec<Candidate>) -> (r: Option<usize>)
    ensures
        match r {
            Some(f) => is_first_readable(candidates@, f as int),
            None => no_readable(candidates@),
        },
{
    let n = candidates.len();
    let mut i: usize = 0;
    while i < n
        invariant
            i <= n,
            forall|j: int| 0 <= j < i ==> (#[trigger] candidates@[j].content) is None,
        decreases n - i,
    {
        if candidates[i].content.is_some() {
            return Some(i);
        }
        i = i + 1;
    }
    None
}

/// What `start` guarantees: one fresh session per readable candidate, in
/// order, each with its own deferred `FileOpened` delivery; the pending slot
/// is untouched, and the activation stands dispatched exactly when something
/// was opened.
pub open spec fn start_post(
    pre_l: LaunchCoordinator,
    pre_r: WindowRegistry,
    cs: Seq<Candidate>,
    post_l: LaunchCoordinator,
    post_r: WindowRegistry,
    actions: Seq<Action>,
) -> bool {
    &&& dispatch_post(pre_r, cs, post_r, actions)
    &&& post_l.pending_spec() == pre_l.pending_spec()
    &&& post_l.state_spec() == if planned_count(cs) > 0 {
        LaunchState::Dispatched
    } else {
        LaunchState::ArgsInspected
    }
}

/// What `platform_open` guarantees.  With no readable candidate nothing
/// happens.  Otherwise the first readable candidate `cs[f]` is emitted
/// immediately to the resolved target when a window exists, and offered to
/// the pending slot (first wins) when none does; the candidates after `f`
/// are opened in fresh sessions either way.
pub open spec fn platform_open_post(
    pre_l: LaunchCoordinator,
    pre_r: WindowRegistry,
    cs: Seq<Candidate>,
    focused: Option<u64>,
    post_l: LaunchCoordinator,
    post_r: WindowRegistry,
    actions: Seq<Action>,
) -> bool {
    &&& (no_readable(cs) ==> {
        &&& post_l == pre_l
        &&& post_r == pre_r
        &&& actions == Seq::<Action>::empty()
    })
    &&& forall|f: int| #[trigger]
        is_first_readable(cs, f) ==> {
            &&& if pre_r.live_count() > 0 {
                &&& dispatch_post(pre_r, cs.skip(f + 1), post_r, actions.skip(1))
                &&& actions.len() >= 1
                &&& actions[0] == (Action::Emit {
                    session: spec_resolve_target(pre_r, focused)->0,
                    event: UiEvent::FileOpened { path: cs[f].path, content: cs[f].content->0 },
                    after_grace: false,
                })
                &&& post_l.pending_spec() == pre_l.pending_spec()
                &&& post_l.state_spec() == pre_l.state_spec()
            } else {
                &&& dispatch_post(pre_r, cs.skip(f + 1), post_r, actions)
                &&& offer_post(
                    pre_l.pending_slot(),
                    cs[f].path,
                    cs[f].content->0,
                    post_l.pending_slot(),
                    pre_l.pending_spec() is None,
                )
                &&& post_l.state_spec() == if pre_l.pending_spec() is None {
                    LaunchState::Buffered
                } else {
                    pre_l.state_spec()
                }
            }
        }
}

/// What `secondary_activation` guarantees.  With no readable candidate
/// nothing happens.  Otherwise nothing is ever buffered: the first readable
/// candidate is emitted immediately to the resolved target when a window
/// exists and opens a fresh session when none does, and the candidates after
/// it are opened in fresh sessions either way.
pub open spec fn secondary_activation_post(
    pre_l: LaunchCoordinator,
    pre_r: WindowRegistry,
    cs: Seq<Candidate>,
    focused: Option<u64>,
    post_l: LaunchCoordinator,
    post_r: WindowRegistry,
    actions: Seq<Action>,
) -> bool {
    &&& post_l == pre_l
    &&& (no_readable(cs) ==> {
        &&& post_r == pre_r
        &&& actions == Seq::<Action>::empty()
    })
    &&& forall|f: int| #[trigger]
        is_first_readable(cs, f) ==> {
            if pre_r.live_count() > 0 {
                &&& dispatch_post(pre_r, cs.skip(f + 1), post_r, actions.skip(1))
                &&& actions.len() >= 1
                &&& actions[0] == (Action::Emit {
                    session: spec_resolve_target(pre_r, focused)->0,
                    event: UiEvent::FileOpened { path: cs[f].path, content: cs[f].content->0 },
                    after_grace: false,
                })
            } else {
                dispatch_post(pre_r, cs.skip(f), post_r, actions)
            }
        }
}

/// What `window_ready` guarantees: the session is marked ready, the pending
/// slot is left empty, a buffered file goes to exactly the ready session
/// after the grace delay, and a dispatched or buffered activation is
/// resolved.
pub open spec fn window_ready_post(
    pre_l: LaunchCoordinator,
    pre_r: WindowRegistry,
    session: u64,
    post_l: LaunchCoordinator,
    post_r: WindowRegistry,
    actions: Seq<Action>,
) -> bool {
    &&& mark_ready_post(pre_r, session, post_r)
    &&& post_l.pending_spec() is None
    &&& actions == match pre_l.pending_spec() {
        None => Seq::<Action>::empty(),
        Some(file) => seq![
            (Action::Emit {
                session,
                event: UiEvent::FileOpened { path: file.0, content: file.1 },
                after_grace: true,
            }),
        ],
    }
    &&& post_l.state_spec() == if pre_l.state_spec() == LaunchState::Dispatched
        || pre_l.state_spec() == LaunchState::Buffered {
        LaunchState::Resolved
    } else {
        pre_l.state_spec()
    }
}

/// What `startup_grace_elapsed` guarantees: with a window already present
/// nothing happens; otherwise exactly one session is created, opening the
/// buffered file when one waits and an empty document when none does, and
/// the slot is left empty.
pub open spec fn startup_grace_post(
    pre_l: LaunchCoordinator,
    pre_r: WindowRegistry,
    post_l: LaunchCoordinator,
    post_r: WindowRegistry,
    actions: Seq<Action>,
) -> bool {
    if pre_r.live_count() > 0 {
        &&& post_l == pre_l
        &&& post_r == pre_r
        &&& actions == Seq::<Action>::empty()
    } else {
        &&& post_r.wf()
        &&& post_r.quits_on_last_close() == pre_r.quits_on_last_close()
        &&& post_r.next_id_spec() == pre_r.next_id_spec() + 1
        &&& post_r.sessions_seq() == pre_r.sessions_seq().push(
            Session { id: pre_r.next_id_spec(), state: SessionState::Creating },
        )
        &&& actions == session_open_actions(pre_r.next_id_spec() as int, pre_l.pending_spec())
        &&& post_l.pending_spec() is None
        &&& post_l.state_spec() == LaunchState::Dispatched
    }
}

/// Launching with two readable documents opens two sessions with distinct
/// identifiers, each receiving exactly one `FileOpened` delivery carrying its
/// own path and content — never merged, never swapped.
pub proof fn lemma_two_documents_two_sessions(
    pre_l: LaunchCoordinator,
    pre_r: WindowRegistry,
    c1: Candidate,
    c2: Candidate,
    post_l: LaunchCoordinator,
    post_r: WindowRegistry,
    actions: Seq<Action>,
)
    requires
        c1.content is Some,
        c2.content is Some,
        pre_r.next_id_spec() + 2 <= u64::MAX,
        start_post(pre_l, pre_r, seq![c1, c2], post_l, post_r, actions),
    ensures
        post_r.live_count() == pre_r.live_count() + 2,
        actions.len() == 4,
        actions[0] == (Action::CreateWindow { session: pre_r.next_id_spec() }),
        actions[1] == (Action::Emit {
            session: pre_r.next_id_spec(),
            event: UiEvent::FileOpened { path: c1.path, content: c1.content->0 },
            after_grace: true,
        }),
        actions[2] == (Action::CreateWindow { session: (pre_r.next_id_spec() + 1) as u64 }),
        actions[3] == (Action::Emit {
            session: (pre_r.next_id_spec() + 1) as u64,
            event: UiEvent::FileOpened { path: c2.path, content: c2.content->0 },
            after_grace: true,
        }),
        pre_r.next_id_spec() != (pre_r.next_id_spec() + 1) as u64,
{
    let cs = seq![c1, c2];
    let base = pre_r.next_id_spec() as int;
    assert(cs.skip(1) =~= seq![c2]);
    assert(cs.skip(1).skip(1) =~= Seq::<Candidate>::empty());
    assert(planned_actions(base, cs) == session_open_actions(base, candidate_file(c1))
        + planned_actions(base + 1, cs.skip(1)));
    assert(planned_actions(base + 1, cs.skip(1)) == session_open_actions(
        base + 1,
        candidate_file(c2),
    ) + planned_actions(base + 2, cs.skip(1).skip(1)));
    assert(planned_actions(base + 2, cs.skip(1).skip(1)) =~= Seq::<Action>::empty());
    assert(actions =~= session_open_actions(base, candidate_file(c1)) + session_open_actions(
        base + 1,
        candidate_file(c2),
    ));
    assert(planned_sessions(base, cs).len() == 2) by {
        assert(planned_sessions(base + 1, cs.skip(1)).len() == 1) by {
            assert(planned_sessions(base + 2, cs.skip(1).skip(1)).len() == 0);
        }
    }
}

} // verus!
