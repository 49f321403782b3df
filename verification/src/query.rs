//! The size negotiation of the process-information query.
//!
//! The query is made in rounds. A round first asks how many bytes the answer
//! needs, then asks for the answer with a buffer of exactly that size. The
//! set of processes can change between the two calls, so the second call may
//! report another size than the buffer has; then the round is repeated. The
//! snapshot is stable once a call fills the buffer and reports exactly the
//! buffer's size.
//!
//! The calls themselves are made by the caller, which hands each reply to
//! [`SnapshotQuery::step`] and does what the returned action says.

use vstd::prelude::*;
use crate::status::Outcome;
use crate::win32::status_info_length_mismatch;

verus! {

/// The number of rounds after which a caller may want to tell the user that
/// the process table does not settle. It is advice only: the negotiation
/// never gives up on account of it.
pub const EXCESSIVE_ROUNDS: u32 = 16;

/// The status with which the query reports that the buffer's size does not
/// match the answer's.
pub open spec fn length_mismatch() -> u32 {
    0xC000_0004
}

/// What the operating system replied to one call of the query.
#[derive(Clone, Copy, Debug, PartialEq, Eq, Structural)]
pub struct QueryReply {
    /// How the call ended.
    pub status: Outcome,
    /// The number of bytes that the call reported for the answer.
    pub length: u32,
}

/// Where the negotiation stands.
#[derive(Clone, Copy, Debug, PartialEq, Eq, Structural)]
pub enum QueryPhase {
    /// The sizing call is under way.
    Sizing,
    /// The call with a buffer of `capacity` bytes is under way.
    Filling { capacity: u32 },
    /// The buffer of `length` bytes holds a stable snapshot.
    Stable { length: u32 },
    /// The query failed with this code.
    Failed { code: u32 },
}

/// What the caller is to do next.
#[derive(Clone, Copy, Debug, PartialEq, Eq, Structural)]
pub enum QueryAction {
    /// Make the query with an empty buffer, to learn the size.
    QuerySize,
    /// Make the query with a fresh, zeroed buffer of `capacity` bytes.
    Fill { capacity: u32 },
    /// Decode the buffer just filled: its `length` bytes are a snapshot.
    Decode { length: u32 },
    /// Give up: the query failed with this code.
    Fail { code: u32 },
}

/// The negotiation's state: its phase and the number of rounds begun.
#[derive(Clone, Copy, Debug, PartialEq, Eq, Structural)]
pub struct SnapshotQuery {
    pub phase: QueryPhase,
    pub rounds: u32,
}

/// The phase that follows `phase` on `reply`.
///
/// The sizing call's status is not looked at: with an empty buffer it cannot
/// succeed, and only the size it reports is of interest. A filling call that
/// fails for another reason than a size mismatch ends the negotiation. One
/// that reports another size than the buffer has, or a size mismatch,
/// starts a new round: the process table grew or shrank in between.
pub open spec fn next_phase(phase: QueryPhase, reply: QueryReply) -> QueryPhase {
    match phase {
        QueryPhase::Sizing => QueryPhase::Filling { capacity: reply.length },
        QueryPhase::Filling { capacity } => match reply.status {
            Outcome::Failed(code) => if code == length_mismatch() {
                QueryPhase::Sizing
            } else {
                QueryPhase::Failed { code }
            },
            Outcome::Succeeded => if reply.length == capacity {
                QueryPhase::Stable { length: capacity }
            } else {
                QueryPhase::Sizing
            },
        },
        QueryPhase::Stable { length } => QueryPhase::Stable { length },
        QueryPhase::Failed { code } => QueryPhase::Failed { code },
    }
}

/// The action that a phase asks of the caller.
pub open spec fn action_of(phase: QueryPhase) -> QueryAction {
    match phase {
        QueryPhase::Sizing => QueryAction::QuerySize,
        QueryPhase::Filling { capacity } => QueryAction::Fill { capacity },
        QueryPhase::Stable { length } => QueryAction::Decode { length },
        QueryPhase::Failed { code } => QueryAction::Fail { code },
    }
}

/// The number of rounds begun once `phase` has been left for `next`: a round
/// begins with each sizing call. The count stops at the largest number.
pub open spec fn next_rounds(rounds: u32, phase: QueryPhase, next: QueryPhase) -> u32 {
    if phase is Filling && next is Sizing && rounds < u32::MAX {
        (rounds + 1) as u32
    } else {
        rounds
    }
}

/// The state after the replies `replies`, taken in order from `state`.
pub open spec fn after_replies(state: SnapshotQuery, replies: Seq<QueryReply>) -> SnapshotQuery
    decreases replies.len(),
{
    if replies.len() == 0 {
        state
    } else {
        let next = next_phase(state.phase, replies[0]);
        after_replies(
            SnapshotQuery { phase: next, rounds: next_rounds(state.rounds, state.phase, next) },
            replies.skip(1),
        )
    }
}

impl SnapshotQuery {
    /// The state in which a negotiation begins: the first round's sizing
    /// call is to be made.
    pub open spec fn initial() -> SnapshotQuery {
        SnapshotQuery { phase: QueryPhase::Sizing, rounds: 1 }
    }

    /// Begins a negotiation. The first action is the sizing call.
    pub fn start() -> (begun: (SnapshotQuery, QueryAction))
        ensures
            begun.0 == Self::initial(),
            begun.1 == QueryAction::QuerySize,
    {
        (SnapshotQuery { phase: QueryPhase::Sizing, rounds: 1 }, QueryAction::QuerySize)
    }

    /// Takes the reply to the action last asked for and says what to do
    /// next. The snapshot is declared stable only on a filling call that
    /// succeeded and reported exactly the buffer's size; a changed size is
    /// never a failure. Once stable or failed, the state no longer changes.
    pub fn step(self, reply: QueryReply) -> (stepped: (SnapshotQuery, QueryAction))
        ensures
            stepped.0.phase == next_phase(self.phase, reply),
            stepped.0.rounds == next_rounds(self.rounds, self.phase, stepped.0.phase),
            stepped.1 == action_of(stepped.0.phase),
            stepped.0 == after_replies(self, seq![reply]),
    {
        let phase = match self.phase {
            QueryPhase::Sizing => QueryPhase::Filling { capacity: reply.length },
            QueryPhase::Filling { capacity } => match reply.status {
                Outcome::Failed(code) => {
                    if code == status_info_length_mismatch() {
                        QueryPhase::Sizing
                    } else {
                        QueryPhase::Failed { code }
                    }
                },
                Outcome::Succeeded => {
                    if reply.length == capacity {
                        QueryPhase::Stable { length: capacity }
                    } else {
                        QueryPhase::Sizing
                    }
                },
            },
            QueryPhase::Stable { length } => QueryPhase::Stable { length },
            QueryPhase::Failed { code } => QueryPhase::Failed { code },
        };
        let restarted = match (self.phase, phase) {
            (QueryPhase::Filling { .. }, QueryPhase::Sizing) => true,
            _ => false,
        };
        let rounds = if restarted && self.rounds < u32::MAX {
            self.rounds + 1
        } else {
            self.rounds
        };
        let action = match phase {
            QueryPhase::Sizing => QueryAction::QuerySize,
            QueryPhase::Filling { capacity } => QueryAction::Fill { capacity },
            QueryPhase::Stable { length } => QueryAction::Decode { length },
            QueryPhase::Failed { code } => QueryAction::Fail { code },
        };
        proof {
            let next = SnapshotQuery { phase, rounds };
            assert(seq![reply].skip(1).len() == 0);
            assert(after_replies(next, seq![reply].skip(1)) == next);
        }
        (SnapshotQuery { phase, rounds }, action)
    }

    /// Whether the negotiation is over, one way or the other.
    pub fn is_finished(&self) -> (over: bool)
        ensures
            over == (self.phase is Stable || self.phase is Failed),
    {
        match self.phase {
            QueryPhase::Stable { .. } => true,
            QueryPhase::Failed { .. } => true,
            _ => false,
        }
    }

    /// Whether so many rounds were begun that the user may want to know.
    pub fn is_excessive(&self) -> (many: bool)
        ensures
            many == (self.rounds > EXCESSIVE_ROUNDS),
    {
        self.rounds > EXCESSIVE_ROUNDS
    }
}

/// A negotiation whose calls agree on the size from the start is over after
/// one round trip: the sizing call and one filling call.
pub proof fn lemma_agreeing_calls_take_one_round(length: u32, status: Outcome)
    ensures
        after_replies(
            SnapshotQuery::initial(),
            seq![
                QueryReply { status, length },
                QueryReply { status: Outcome::Succeeded, length },
            ],
        ) == (SnapshotQuery { phase: QueryPhase::Stable { length }, rounds: 1 }),
{
    let first = QueryReply { status, length };
    let second = QueryReply { status: Outcome::Succeeded, length };
    let replies = seq![first, second];
    let middle = SnapshotQuery { phase: QueryPhase::Filling { capacity: length }, rounds: 1 };
    let end = SnapshotQuery { phase: QueryPhase::Stable { length }, rounds: 1 };
    assert(replies.skip(1) == seq![second]);
    assert(seq![second].skip(1).len() == 0);
    assert(after_replies(end, seq![second].skip(1)) == end);
    assert(after_replies(middle, seq![second]) == end);
}

/// A filling call that reports another size than the buffer has never ends
/// the negotiation: it is followed by a new sizing call, in a further round.
pub proof fn lemma_changed_size_starts_new_round(state: SnapshotQuery, reply: QueryReply)
    requires
        state.phase matches QueryPhase::Filling { capacity } && reply.length != capacity,
        reply.status == Outcome::Succeeded || reply.status == Outcome::Failed(length_mismatch()),
    ensures
        next_phase(state.phase, reply) == QueryPhase::Sizing,
        action_of(next_phase(state.phase, reply)) == QueryAction::QuerySize,
        state.rounds < u32::MAX ==> next_rounds(
            state.rounds,
            state.phase,
            next_phase(state.phase, reply),
        ) == state.rounds + 1,
{
}

/// The negotiation ends stable only on a filling call that succeeded and
/// reported exactly the size of its buffer, and it then hands out that size.
pub proof fn lemma_stable_means_sizes_agree(state: SnapshotQuery, reply: QueryReply)
    requires
        !(state.phase is Stable),
        next_phase(state.phase, reply) is Stable,
    ensures
        state.phase == (QueryPhase::Filling { capacity: reply.length }),
        reply.status == Outcome::Succeeded,
        next_phase(state.phase, reply) == (QueryPhase::Stable { length: reply.length }),
{
}

/// Once over, a negotiation stays as it is whatever replies follow.
pub proof fn lemma_finished_is_final(state: SnapshotQuery, replies: Seq<QueryReply>)
    requires
        state.phase is Stable || state.phase is Failed,
    ensures
        after_replies(state, replies) == state,
    decreases replies.len(),
{
    if replies.len() > 0 {
        lemma_finished_is_final(state, replies.skip(1));
    }
}

} // verus!
