//! Active-forward accounting.
//!
//! A process-wide counter of in-flight relayed connections, owned by an
//! accounting component and injected into relay tasks rather than read
//! as ambient state. The tracker here holds the counter together with
//! the sessions it counts, so the central invariant is machine-checked:
//! the counter always equals the number of sessions in the relaying
//! state, it never goes negative, and stepping one session never touches
//! any other.

use vstd::prelude::*;

use crate::session::{
    is_relaying, is_terminal, spec_client_step, spec_server_step, SessionAction, SessionEvent,
    SessionState,
};

verus! {

/// How many of the sessions are currently relaying.
pub open spec fn count_relaying(s: Seq<SessionState>) -> nat
    decreases s.len(),
{
    if s.len() == 0 {
        0
    } else {
        count_relaying(s.drop_last()) + if is_relaying(s.last()) {
            1nat
        } else {
            0nat
        }
    }
}

/// The relaying sessions are never more numerous than the sessions.
pub proof fn lemma_count_relaying_le_len(s: Seq<SessionState>)
    ensures
        count_relaying(s) <= s.len(),
    decreases s.len(),
{
    if s.len() > 0 {
        lemma_count_relaying_le_len(s.drop_last());
    }
}

/// Replacing one session changes the count exactly by that session's
/// own contribution, whatever the other sessions hold.
pub proof fn lemma_count_relaying_update(s: Seq<SessionState>, i: int, v: SessionState)
    requires
        0 <= i < s.len(),
    ensures
        count_relaying(s.update(i, v)) + (if is_relaying(s[i]) {
            1nat
        } else {
            0nat
        }) == count_relaying(s) + (if is_relaying(v) {
            1nat
        } else {
            0nat
        }),
    decreases s.len(),
{
    let u = s.update(i, v);
    if i == s.len() - 1 {
        assert(u.drop_last() =~= s.drop_last());
        assert(u.last() == v);
    } else {
        assert(u.drop_last() =~= s.drop_last().update(i, v));
        assert(u.last() == s.last());
        lemma_count_relaying_update(s.drop_last(), i, v);
    }
}

/// A relaying session makes the count positive.
pub proof fn lemma_count_relaying_pos(s: Seq<SessionState>, i: int)
    requires
        0 <= i < s.len(),
        is_relaying(s[i]),
    ensures
        count_relaying(s) >= 1,
    decreases s.len(),
{
    if i < s.len() - 1 {
        lemma_count_relaying_pos(s.drop_last(), i);
    }
}

/// Once every session has ended, the count is back to zero.
pub proof fn lemma_all_terminal_count_zero(s: Seq<SessionState>)
    requires
        forall|i: int| 0 <= i < s.len() ==> is_terminal(#[trigger] s[i]),
    ensures
        count_relaying(s) == 0,
    decreases s.len(),
{
    if s.len() > 0 {
        assert(forall|i: int|
            0 <= i < s.drop_last().len() ==> is_terminal(#[trigger] s.drop_last()[i]));
        lemma_all_terminal_count_zero(s.drop_last());
        assert(is_terminal(s.last()));
    }
}

/// The accounting component: the active-forward counter together with
/// the sessions whose relay phases it brackets.
pub struct ForwardAccounting {
    /// One entry per forwarded connection that was opened, in order of
    /// opening; ended sessions keep their terminal entry.
    sessions: Vec<SessionState>,
    /// The active-forward count: incremented when a session enters the
    /// relaying state, decremented when it leaves it.
    active: usize,
}

impl ForwardAccounting {
    /// The accounting invariant: the counter equals the number of
    /// sessions currently relaying, so it can never go negative.
    pub closed spec fn wf(self) -> bool {
        self.active == count_relaying(self.sessions@)
    }

    /// The sessions under this accounting component's watch.
    pub closed spec fn view(self) -> Seq<SessionState> {
        self.sessions@
    }

    /// A fresh component: no sessions, count zero.
    pub fn new() -> (r: Self)
        ensures
            r.wf(),
            r@ =~= Seq::<SessionState>::empty(),
    {
        ForwardAccounting { sessions: Vec::new(), active: 0 }
    }

    /// Record one newly accepted connection or stream. A session begins
    /// before its header exchange, so it is not yet counted.
    pub fn open_session(&mut self, s: SessionState)
        requires
            old(self).wf(),
            !is_relaying(s),
        ensures
            final(self).wf(),
            final(self)@ == old(self)@.push(s),
    {
        proof {
            assert(old(self).sessions@.push(s).drop_last() =~= old(self).sessions@);
        }
        self.sessions.push(s);
    }

    /// The current active-forward count, equal at any instant to the
    /// number of sessions past header exchange and before teardown.
    pub fn active_count(&self) -> (r: usize)
        requires
            self.wf(),
        ensures
            r == count_relaying(self@),
    {
        self.active
    }

    /// How many sessions were ever opened.
    pub fn session_count(&self) -> (r: usize)
        ensures
            r == self@.len(),
    {
        self.sessions.len()
    }

    /// The state of one session.
    pub fn session_state(&self, i: usize) -> (r: SessionState)
        requires
            i < self@.len(),
        ensures
            r == self@[i as int],
    {
        self.sessions[i]
    }

    /// Apply one transition to session `i` and keep the counter in step
    /// with it. Every other session is left exactly as it was: a failure
    /// on one forwarded connection never crosses into its siblings.
    fn apply_step(&mut self, i: usize, step: (SessionState, SessionAction)) -> (act: SessionAction)
        requires
            old(self).wf(),
            i < old(self)@.len(),
            (step.1 == SessionAction::StartRelay) <==> (!is_relaying(old(self)@[i as int])
                && is_relaying(step.0)),
            (step.1 == SessionAction::Teardown) <==> (is_relaying(old(self)@[i as int])
                && !is_relaying(step.0)),
        ensures
            final(self).wf(),
            final(self)@ == old(self)@.update(i as int, step.0),
            act == step.1,
    {
        let (next, act) = step;
        let n = self.sessions.len();
        proof {
            lemma_count_relaying_update(self.sessions@, i as int, next);
            lemma_count_relaying_le_len(self.sessions@.update(i as int, next));
            assert(self.sessions@.update(i as int, next).len() == n);
            if is_relaying(self.sessions@[i as int]) {
                lemma_count_relaying_pos(self.sessions@, i as int);
            }
        }
        match act {
            SessionAction::StartRelay => {
                proof {
                    assert(count_relaying(self.sessions@.update(i as int, next)) == self.active
                        + 1);
                }
                self.active = self.active + 1;
            },
            SessionAction::Teardown => {
                self.active = self.active - 1;
            },
            _ => {
                proof {
                    assert(is_relaying(self.sessions@[i as int]) == is_relaying(next));
                }
            },
        }
        self.sessions[i] = next;
        act
    }

    /// Step one client-side session by an observed event; the returned
    /// action is what the owning task performs next.
    pub fn step_client(&mut self, i: usize, e: &SessionEvent) -> (act: SessionAction)
        requires
            old(self).wf(),
            i < old(self)@.len(),
        ensures
            final(self).wf(),
            final(self)@.len() == old(self)@.len(),
            final(self)@[i as int] == spec_client_step(old(self)@[i as int], *e).0,
            act == spec_client_step(old(self)@[i as int], *e).1,
            forall|j: int|
                0 <= j < old(self)@.len() && j != i ==> final(self)@[j] == old(self)@[j],
    {
        let s = self.sessions[i];
        let step = crate::session::client_step(&s, e);
        proof {
            crate::session::lemma_client_step_accounting(s, *e);
        }
        self.apply_step(i, step)
    }

    /// Step one server-side session by an observed event; the returned
    /// action is what the owning task performs next.
    pub fn step_server(&mut self, i: usize, e: &SessionEvent) -> (act: SessionAction)
        requires
            old(self).wf(),
            i < old(self)@.len(),
        ensures
            final(self).wf(),
            final(self)@.len() == old(self)@.len(),
            final(self)@[i as int] == spec_server_step(old(self)@[i as int], *e).0,
            act == spec_server_step(old(self)@[i as int], *e).1,
            forall|j: int|
                0 <= j < old(self)@.len() && j != i ==> final(self)@[j] == old(self)@[j],
    {
        let s = self.sessions[i];
        let step = crate::session::server_step(&s, e);
        proof {
            crate::session::lemma_server_step_accounting(s, *e);
        }
        self.apply_step(i, step)
    }
}

} // verus!
