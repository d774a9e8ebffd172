//! One export session, from the answer to the initial query up to the
//! release of its cursor.
//!
//! A session begins when the initial query has handed out a cursor. The
//! caller asks the session what to do next, does it, and tells the session
//! what came of it.

use vstd::prelude::*;

verus! {

/// Where a session stands.
#[derive(Debug, PartialEq, Eq, Clone, Copy, Structural)]
pub enum Phase {
    /// The initial query gave a batch that was not empty.
    Queried,
    /// A continuation gave a batch that was not empty.
    Continuing,
    /// A batch came back empty: nothing is left to fetch.
    Exhausted,
    /// A continuation failed and no retry was left.
    Failed,
    /// The release of the cursor was attempted. Nothing follows.
    Released,
}

/// What the caller does next.
#[derive(Debug, PartialEq, Eq, Clone, Copy, Structural)]
pub enum Step {
    /// Continue the cursor with the session's token.
    Continue,
    /// Release the cursor with the session's token.
    Release,
    /// The session is over.
    Stop,
}

/// What the caller reports back.
#[derive(Debug, PartialEq, Eq)]
pub enum Event {
    /// A continuation succeeded with a new token, a batch of `len`
    /// documents and the reported total.
    Page { token: String, len: usize, total: u64 },
    /// A continuation failed, retries included.
    ContinuationFailed,
    /// The release was attempted, whether or not the backend confirmed it.
    ReleaseAttempted,
}

/// The state of a session.
#[derive(Debug, PartialEq, Eq)]
pub struct Session {
    /// Where the session stands.
    pub phase: Phase,
    /// The latest cursor token: the one to continue or release with.
    pub token: String,
    /// The total that the backend reported last.
    pub total: u64,
    /// The documents received so far, at most `u64::MAX`.
    pub seen: u64,
    /// How often the release was attempted.
    pub releases: u64,
}

/// The sum of `seen` and `len`, held at `u64::MAX`.
pub open spec fn seen_after(seen: u64, len: usize) -> u64 {
    if seen + len > u64::MAX {
        u64::MAX
    } else {
        (seen + len) as u64
    }
}

impl Session {
    /// Whether a continuation may follow.
    pub open spec fn active(self) -> bool {
        self.phase == Phase::Queried || self.phase == Phase::Continuing
    }

    /// Whether the session has ended in exhaustion or failure and its
    /// cursor is still to be released.
    pub open spec fn ended(self) -> bool {
        self.phase == Phase::Exhausted || self.phase == Phase::Failed
    }

    /// The release has been attempted once if the session is released, and
    /// not at all before.
    pub open spec fn wf(self) -> bool {
        self.releases == if self.phase == Phase::Released {
            1u64
        } else {
            0u64
        }
    }

    /// The session that the answer to the initial query opens.
    pub open spec fn opened(token: String, len: usize, total: u64) -> Session {
        Session {
            phase: if len == 0 {
                Phase::Exhausted
            } else {
                Phase::Queried
            },
            token,
            total,
            seen: len as u64,
            releases: 0,
        }
    }

    /// The session after an event. An event that does not apply where the
    /// session stands leaves it as it is.
    pub open spec fn next(self, event: Event) -> Session {
        match event {
            Event::Page { token, len, total } => if self.active() {
                Session {
                    phase: if len == 0 {
                        Phase::Exhausted
                    } else {
                        Phase::Continuing
                    },
                    token,
                    total,
                    seen: seen_after(self.seen, len),
                    releases: self.releases,
                }
            } else {
                self
            },
            Event::ContinuationFailed => if self.active() {
                Session { phase: Phase::Failed, ..self }
            } else {
                self
            },
            Event::ReleaseAttempted => if self.ended() && self.releases < u64::MAX {
                Session { phase: Phase::Released, releases: (self.releases + 1) as u64, ..self }
            } else {
                self
            },
        }
    }

    /// What the caller does next: continue while batches come, release once
    /// they stop or a continuation has failed for good, then stop.
    pub open spec fn step(self) -> Step {
        if self.active() {
            Step::Continue
        } else if self.ended() {
            Step::Release
        } else {
            Step::Stop
        }
    }

    /// The session after a sequence of events.
    pub open spec fn after(self, events: Seq<Event>) -> Session
        decreases events.len(),
    {
        if events.len() == 0 {
            self
        } else {
            self.after(events.drop_last()).next(events.last())
        }
    }

    /// How many of the events were release attempts made when the session
    /// asked for one.
    pub open spec fn releases_made(self, events: Seq<Event>) -> nat
        decreases events.len(),
    {
        if events.len() == 0 {
            0
        } else {
            let before = self.after(events.drop_last());
            let made: nat = if events.last() is ReleaseAttempted && before.step() == Step::Release {
                1
            } else {
                0
            };
            self.releases_made(events.drop_last()) + made
        }
    }

    /// How many documents the pages among the events brought, counting a
    /// page only where the session could take it.
    pub open spec fn documents_in(self, events: Seq<Event>) -> nat
        decreases events.len(),
    {
        if events.len() == 0 {
            0
        } else {
            let before = self.after(events.drop_last());
            let brought: nat = match events.last() {
                Event::Page { len, .. } => if before.active() {
                    len as nat
                } else {
                    0
                },
                _ => 0,
            };
            self.documents_in(events.drop_last()) + brought
        }
    }

    /// Opens a session on the answer to the initial query: the cursor token,
    /// the length of the first batch and the reported total. An empty first
    /// batch exhausts the session at once.
    pub fn open(token: String, len: usize, total: u64) -> (r: Session)
        ensures
            r == Session::opened(token, len, total),
            r.wf(),
    {
        let phase = if len == 0 {
            Phase::Exhausted
        } else {
            Phase::Queried
        };
        Session { phase, token, total, seen: len as u64, releases: 0 }
    }

    /// Tells what the caller does next.
    pub fn next_step(&self) -> (r: Step)
        ensures
            r == self.step(),
    {
        match self.phase {
            Phase::Queried => Step::Continue,
            Phase::Continuing => Step::Continue,
            Phase::Exhausted => Step::Release,
            Phase::Failed => Step::Release,
            Phase::Released => Step::Stop,
        }
    }

    /// Takes in what the caller reports. A page replaces the token and is
    /// counted; an empty one exhausts the session. A failed continuation
    /// keeps the token for the release. A release attempt ends the session.
    pub fn advance(self, event: Event) -> (r: Session)
        ensures
            r == self.next(event),
            self.wf() ==> r.wf(),
    {
        let active = match self.phase {
            Phase::Queried => true,
            Phase::Continuing => true,
            _ => false,
        };
        let ended = match self.phase {
            Phase::Exhausted => true,
            Phase::Failed => true,
            _ => false,
        };
        match event {
            Event::Page { token, len, total } => if active {
                let phase = if len == 0 {
                    Phase::Exhausted
                } else {
                    Phase::Continuing
                };
                let seen = self.seen.saturating_add(len as u64);
                Session { phase, token, total, seen, releases: self.releases }
            } else {
                self
            },
            Event::ContinuationFailed => if active {
                Session {
                    phase: Phase::Failed,
                    token: self.token,
                    total: self.total,
                    seen: self.seen,
                    releases: self.releases,
                }
            } else {
                self
            },
            Event::ReleaseAttempted => if ended && self.releases < u64::MAX {
                Session {
                    phase: Phase::Released,
                    token: self.token,
                    total: self.total,
                    seen: self.seen,
                    releases: self.releases + 1,
                }
            } else {
                self
            },
        }
    }
}

/// Every event keeps a session well-formed, and a released session stays
/// as it is.
pub proof fn lemma_next_keeps_wf(session: Session, event: Event)
    requires
        session.wf(),
    ensures
        session.next(event).wf(),
        session.phase == Phase::Released ==> session.next(event) == session,
{
}

/// Whatever the caller reports, and in whatever order, the release is
/// counted once if the session is released and not at all before; so a
/// session that tells its caller to stop has had exactly one release
/// attempt, whether it ended in exhaustion or in failure.
pub proof fn lemma_released_exactly_once(session: Session, events: Seq<Event>)
    requires
        session.wf(),
    ensures
        session.after(events).wf(),
        session.after(events).step() == Step::Stop <==> session.after(events).releases == 1,
        session.after(events).releases == session.releases + session.releases_made(events),
    decreases events.len(),
{
    if events.len() > 0 {
        lemma_released_exactly_once(session, events.drop_last());
        lemma_next_keeps_wf(session.after(events.drop_last()), events.last());
    }
}

/// The count of documents seen is the sum of the lengths of all batches
/// taken in, held at `u64::MAX`.
pub proof fn lemma_seen_is_sum(session: Session, events: Seq<Event>)
    ensures
        session.after(events).seen == if session.seen + session.documents_in(events) > u64::MAX {
            u64::MAX as int
        } else {
            session.seen + session.documents_in(events)
        },
    decreases events.len(),
{
    if events.len() > 0 {
        lemma_seen_is_sum(session, events.drop_last());
    }
}

/// A session that ended in exhaustion or in failure asks for the release,
/// and the release attempt is the one event that moves it on.
pub proof fn lemma_release_follows_end(session: Session, event: Event)
    requires
        session.wf(),
        session.ended(),
    ensures
        session.step() == Step::Release,
        event is ReleaseAttempted ==> session.next(event).phase == Phase::Released
            && session.next(event).step() == Step::Stop,
        !(event is ReleaseAttempted) ==> session.next(event) == session,
{
}

/// The length of the batch that a store of `documents` documents, which
/// does not change while the session lasts, hands to a session that has seen
/// `seen` of them and asked for batches of `size`.
pub open spec fn static_batch(documents: nat, size: nat, seen: nat) -> nat {
    if seen >= documents {
        0
    } else if documents - seen < size {
        (documents - seen) as nat
    } else {
        size
    }
}

/// Whether the events are the pages that a static store of `documents`
/// documents hands, one after the other, to the session opened on its first
/// batch.
pub open spec fn served_by_static_store(
    opened: Session,
    documents: nat,
    size: nat,
    pages: Seq<Event>,
) -> bool {
    forall|k: int|
        0 <= k < pages.len() ==> (#[trigger] pages[k] matches Event::Page { len, .. } && len
            == static_batch(documents, size, opened.after(pages.take(k)).seen as nat))
}

/// Against a static store, every batch is within the batch size, the count
/// of documents seen never passes what the store holds, and once a batch
/// has come back empty the batches taken in add up to all of them.
pub proof fn lemma_static_store_is_drained(
    token: String,
    first: usize,
    total: u64,
    documents: u64,
    size: usize,
    pages: Seq<Event>,
)
    requires
        size > 0,
        first == static_batch(documents as nat, size as nat, 0),
        served_by_static_store(
            Session::opened(token, first, total),
            documents as nat,
            size as nat,
            pages,
        ),
    ensures
        first <= size,
        forall|k: int|
            0 <= k < pages.len() ==> (#[trigger] pages[k] matches Event::Page { len, .. } && len
                <= size),
        Session::opened(token, first, total).after(pages).seen <= documents,
        Session::opened(token, first, total).after(pages).active() || Session::opened(
            token,
            first,
            total,
        ).after(pages).phase == Phase::Exhausted,
        Session::opened(token, first, total).after(pages).seen == first + Session::opened(
            token,
            first,
            total,
        ).documents_in(pages),
        Session::opened(token, first, total).after(pages).phase == Phase::Exhausted
            ==> Session::opened(token, first, total).after(pages).seen == documents,
    decreases pages.len(),
{
    let opened = Session::opened(token, first, total);
    if pages.len() > 0 {
        let earlier = pages.drop_last();
        assert forall|k: int| 0 <= k < earlier.len() implies (#[trigger] earlier[k] matches Event::Page {
            len,
            ..
        } && len == static_batch(
            documents as nat,
            size as nat,
            opened.after(earlier.take(k)).seen as nat,
        )) by {
            assert(earlier[k] == pages[k]);
            assert(earlier.take(k) =~= pages.take(k));
        }
        lemma_static_store_is_drained(token, first, total, documents, size, earlier);
        assert(pages.take(pages.len() - 1) =~= earlier);
        assert(pages[pages.len() - 1] == pages.last());
    }
}

} // verus!
