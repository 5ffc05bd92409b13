//! Interactive confirmation session: a bounded-lifetime state machine that
//! waits for the invoking user's answer to a destructive prompt, or for a
//! timeout, and settles on exactly one terminal outcome.
//!
//! A session leaves `Awaiting` at most once and never re-enters it: the
//! first response event that matches both the invoking user and the origin
//! channel decides the outcome, every other event is ignored, and a session
//! that sees no matching event within [`CONFIRM_TIMEOUT_SECS`] seconds of
//! its creation expires.

use vstd::prelude::*;

verus! {

/// How long a session waits for a matching response, in seconds.
pub const CONFIRM_TIMEOUT_SECS: u64 = 30;

#[derive(Clone, Copy, Debug, PartialEq, Eq, Structural)]
pub enum SessionState {
    Awaiting,
    Confirmed,
    Cancelled,
    Expired,
}

/// The answer carried by a response event. `Proceed` and `Abort` are the two
/// accepted tokens; anything else a user might send is `Unrecognized` and
/// never consumed by a session.
#[derive(Clone, Copy, Debug, PartialEq, Eq, Structural)]
pub enum ResponseToken {
    Proceed,
    Abort,
    Unrecognized,
}

/// One incoming response event: who answered, in which channel, with which
/// token, and at which time (seconds on the same clock as the session).
#[derive(Clone, Copy, Debug, PartialEq, Eq, Structural)]
pub struct ResponseEvent {
    pub user: u64,
    pub channel: u64,
    pub token: ResponseToken,
    pub at: u64,
}

/// A live confirmation session. The identity fields never change; only
/// `state` moves, and only away from `Awaiting`.
#[derive(Clone, Debug, PartialEq, Eq)]
pub struct ConfirmationSession {
    pub invoker: u64,
    pub origin: u64,
    pub created_at: u64,
    pub reason: Option<String>,
    pub state: SessionState,
}

impl ConfirmationSession {
    /// The session's clock never wraps inside its window.
    pub open spec fn wf(self) -> bool {
        self.created_at + CONFIRM_TIMEOUT_SECS <= u64::MAX
    }

    /// The instant from which the session counts as expired.
    pub open spec fn deadline(self) -> int {
        self.created_at + CONFIRM_TIMEOUT_SECS
    }

    /// An event is consumed only when its user, its channel and its token
    /// all match the session.
    pub open spec fn event_matches(self, e: ResponseEvent) -> bool {
        &&& e.user == self.invoker
        &&& e.channel == self.origin
        &&& e.token != ResponseToken::Unrecognized
    }

    /// Everything but the state is frozen at creation.
    pub open spec fn same_identity(pre: Self, post: Self) -> bool {
        &&& post.invoker == pre.invoker
        &&& post.origin == pre.origin
        &&& post.created_at == pre.created_at
        &&& post.reason == pre.reason
    }

    /// The state one event moves the session to.
    pub open spec fn stepped_state(self, e: ResponseEvent) -> SessionState {
        if self.state != SessionState::Awaiting {
            self.state
        } else if e.at >= self.deadline() {
            SessionState::Expired
        } else if self.event_matches(e) {
            if e.token == ResponseToken::Proceed {
                SessionState::Confirmed
            } else {
                SessionState::Cancelled
            }
        } else {
            SessionState::Awaiting
        }
    }

    /// The terminal state a session reaches from a whole stream of events:
    /// the first consumed event decides, and a stream with no matching
    /// in-time event leaves the session expired.
    pub open spec fn outcome_of(self, events: Seq<ResponseEvent>) -> SessionState
        decreases events.len(),
    {
        if self.state != SessionState::Awaiting {
            self.state
        } else if events.len() == 0 {
            SessionState::Expired
        } else {
            let stepped = self.stepped_state(events[0]);
            if stepped != SessionState::Awaiting {
                stepped
            } else {
                self.outcome_of(events.skip(1))
            }
        }
    }

    /// Opens a session in `Awaiting` for the given invoker and origin.
    pub fn new(invoker: u64, origin: u64, created_at: u64, reason: Option<String>) -> (s: Self)
        requires
            created_at + CONFIRM_TIMEOUT_SECS <= u64::MAX,
        ensures
            s == (ConfirmationSession {
                invoker,
                origin,
                created_at,
                reason,
                state: SessionState::Awaiting,
            }),
    {
        ConfirmationSession { invoker, origin, created_at, reason, state: SessionState::Awaiting }
    }

    /// Feeds one response event to the session. A session already out of
    /// `Awaiting` ignores every event, so a second matching event can never
    /// re-trigger a transition.
    pub fn on_event(&mut self, e: &ResponseEvent)
        requires
            old(self).wf(),
        ensures
            Self::same_identity(*old(self), *final(self)),
            final(self).state == old(self).stepped_state(*e),
    {
        if self.state != SessionState::Awaiting {
            return ;
        }
        if e.at >= self.created_at + CONFIRM_TIMEOUT_SECS {
            self.state = SessionState::Expired;
        } else if e.user == self.invoker && e.channel == self.origin && e.token
            != ResponseToken::Unrecognized {
            if e.token == ResponseToken::Proceed {
                self.state = SessionState::Confirmed;
            } else {
                self.state = SessionState::Cancelled;
            }
        }
    }

    /// Expires a still-waiting session once the deadline has passed; any
    /// other call leaves the session untouched.
    pub fn on_timeout(&mut self, now: u64)
        requires
            old(self).wf(),
        ensures
            Self::same_identity(*old(self), *final(self)),
            final(self).state == if old(self).state == SessionState::Awaiting && now
                >= old(self).deadline() {
                SessionState::Expired
            } else {
                old(self).state
            },
    {
        if self.state == SessionState::Awaiting && now >= self.created_at + CONFIRM_TIMEOUT_SECS {
            self.state = SessionState::Expired;
        }
    }

    /// Drives the session over a whole recorded stream of events and then
    /// lets the clock run out: the session ends in exactly the terminal
    /// state that `outcome_of` assigns to the stream.
    pub fn resolve_events(&mut self, events: &Vec<ResponseEvent>, now: u64)
        requires
            old(self).wf(),
            now >= old(self).deadline(),
        ensures
            Self::same_identity(*old(self), *final(self)),
            final(self).state == old(self).outcome_of(events@),
            final(self).state != SessionState::Awaiting,
    {
        let ghost orig = *self;
        proof {
            assert(events@.skip(0) =~= events@);
        }
        let mut i: usize = 0;
        while i < events.len()
            invariant
                self.wf(),
                Self::same_identity(orig, *self),
                i <= events@.len(),
                self.state == SessionState::Awaiting ==> *self == orig && orig.outcome_of(events@)
                    == orig.outcome_of(events@.skip(i as int)),
                self.state != SessionState::Awaiting ==> self.state == orig.outcome_of(events@),
            decreases events@.len() - i,
        {
            let ghost before_step = *self;
            self.on_event(&events[i]);
            proof {
                assert(events@.skip(i as int).skip(1) =~= events@.skip(i as int + 1));
                if before_step.state == SessionState::Awaiting {
                    assert(events@.skip(i as int)[0] == events@[i as int]);
                    if self.state == SessionState::Awaiting {
                        assert(*self == before_step);
                    }
                }
            }
            i += 1;
        }
        proof {
            assert(events@.skip(events@.len() as int) =~= Seq::<ResponseEvent>::empty());
        }
        self.on_timeout(now);
    }
}

/// The first event that matches the session and arrives in time decides the
/// whole stream's outcome: `Proceed` confirms, `Abort` cancels, and nothing
/// that follows can change it.
pub proof fn lemma_first_matching_event_decides(
    s: ConfirmationSession,
    events: Seq<ResponseEvent>,
    i: int,
)
    requires
        s.state == SessionState::Awaiting,
        0 <= i < events.len(),
        forall|j: int|
            0 <= j < i ==> events[j].at < s.deadline() && !s.event_matches(#[trigger] events[j]),
        events[i].at < s.deadline(),
        s.event_matches(events[i]),
    ensures
        s.outcome_of(events) == if events[i].token == ResponseToken::Proceed {
            SessionState::Confirmed
        } else {
            SessionState::Cancelled
        },
    decreases i,
{
    if i == 0 {
    } else {
        assert(events[0].at < s.deadline() && !s.event_matches(events[0]));
        assert forall|j: int| 0 <= j < i - 1 implies events.skip(1)[j].at < s.deadline()
            && !s.event_matches(#[trigger] events.skip(1)[j]) by {
            assert(events.skip(1)[j] == events[j + 1]);
        }
        assert(events.skip(1)[i - 1] == events[i]);
        lemma_first_matching_event_decides(s, events.skip(1), i - 1);
    }
}

/// A stream in which no event both matches the session and arrives before
/// the deadline leaves the session expired.
pub proof fn lemma_no_matching_event_expires(s: ConfirmationSession, events: Seq<ResponseEvent>)
    requires
        s.state == SessionState::Awaiting,
        forall|j: int|
            0 <= j < events.len() ==> events[j].at >= s.deadline() || !s.event_matches(
                #[trigger] events[j],
            ),
    ensures
        s.outcome_of(events) == SessionState::Expired,
    decreases events.len(),
{
    if events.len() == 0 {
    } else if s.stepped_state(events[0]) == SessionState::Awaiting {
        assert forall|j: int| 0 <= j < events.skip(1).len() implies events.skip(1)[j].at
            >= s.deadline() || !s.event_matches(#[trigger] events.skip(1)[j]) by {
            assert(events.skip(1)[j] == events[j + 1]);
        }
        lemma_no_matching_event_expires(s, events.skip(1));
    }
}

/// A session that has already reached a terminal state absorbs every later
/// stream of events unchanged: the transition out of `Awaiting` happens at
/// most once.
pub proof fn lemma_terminal_state_is_absorbing(
    s: ConfirmationSession,
    events: Seq<ResponseEvent>,
)
    requires
        s.state != SessionState::Awaiting,
    ensures
        s.outcome_of(events) == s.state,
{
}

} // verus!
