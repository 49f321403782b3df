use processdumper::query::{QueryAction, QueryPhase, QueryReply, SnapshotQuery, EXCESSIVE_ROUNDS};
use processdumper::Outcome;
use windows::Win32::Foundation::STATUS_INFO_LENGTH_MISMATCH;

const MISMATCH: u32 = 0xC000_0004;

fn sized(length: u32) -> QueryReply {
    QueryReply { status: Outcome::Failed(MISMATCH), length }
}

fn filled(length: u32) -> QueryReply {
    QueryReply { status: Outcome::Succeeded, length }
}

#[test]
fn identical_sizes_take_a_single_round_trip() {
    let (query, action) = SnapshotQuery::start();
    assert_eq!(action, QueryAction::QuerySize);
    assert_eq!(query.rounds, 1);
    let (query, action) = query.step(sized(4096));
    assert_eq!(action, QueryAction::Fill { capacity: 4096 });
    assert!(!query.is_finished());
    let (query, action) = query.step(filled(4096));
    assert_eq!(action, QueryAction::Decode { length: 4096 });
    assert_eq!(query.phase, QueryPhase::Stable { length: 4096 });
    assert_eq!(query.rounds, 1);
    assert!(query.is_finished());
}

#[test]
fn undercount_by_200_bytes_takes_an_extra_round_trip() {
    let (query, _) = SnapshotQuery::start();
    let (query, action) = query.step(sized(4096));
    assert_eq!(action, QueryAction::Fill { capacity: 4096 });
    // A process was spawned in between: the buffer is 200 bytes short.
    let (query, action) = query.step(QueryReply {
        status: Outcome::Failed(STATUS_INFO_LENGTH_MISMATCH.0 as u32),
        length: 4296,
    });
    assert_eq!(action, QueryAction::QuerySize);
    assert!(!query.is_finished());
    assert_eq!(query.rounds, 2);
    let (query, action) = query.step(sized(4296));
    assert_eq!(action, QueryAction::Fill { capacity: 4296 });
    let (query, action) = query.step(filled(4296));
    assert_eq!(action, QueryAction::Decode { length: 4296 });
    assert_eq!(query.rounds, 2);
    assert!(query.is_finished());
}

#[test]
fn changed_size_on_success_is_retried_too() {
    let (query, _) = SnapshotQuery::start();
    let (query, _) = query.step(sized(4096));
    let (query, action) = query.step(filled(3896));
    assert_eq!(action, QueryAction::QuerySize);
    assert_eq!(query.phase, QueryPhase::Sizing);
    assert_eq!(query.rounds, 2);
}

#[test]
fn sizing_status_is_not_looked_at() {
    let (query, _) = SnapshotQuery::start();
    let (_, action) = query.step(QueryReply { status: Outcome::Succeeded, length: 10 });
    assert_eq!(action, QueryAction::Fill { capacity: 10 });
    let (_, action) = query.step(QueryReply { status: Outcome::Failed(5), length: 11 });
    assert_eq!(action, QueryAction::Fill { capacity: 11 });
}

#[test]
fn other_failure_of_the_filling_call_is_fatal() {
    let (query, _) = SnapshotQuery::start();
    let (query, _) = query.step(sized(4096));
    let (query, action) =
        query.step(QueryReply { status: Outcome::Failed(0xC000_0022), length: 4096 });
    assert_eq!(action, QueryAction::Fail { code: 0xC000_0022 });
    assert!(query.is_finished());
    // Finished for good.
    let (query, action) = query.step(filled(4096));
    assert_eq!(action, QueryAction::Fail { code: 0xC000_0022 });
    assert_eq!(query.phase, QueryPhase::Failed { code: 0xC000_0022 });
}

#[test]
fn growing_table_is_never_fatal() {
    let (mut query, _) = SnapshotQuery::start();
    let mut size = 1000u32;
    for round in 1..=40u32 {
        let (next, action) = query.step(sized(size));
        assert_eq!(action, QueryAction::Fill { capacity: size });
        size += 200;
        let (next, action) =
            next.step(QueryReply { status: Outcome::Failed(MISMATCH), length: size });
        assert_eq!(action, QueryAction::QuerySize);
        assert_eq!(next.rounds, round + 1);
        assert_eq!(next.is_excessive(), round + 1 > EXCESSIVE_ROUNDS);
        assert!(!next.is_finished());
        query = next;
    }
    let (query, _) = query.step(sized(size));
    let (query, action) = query.step(filled(size));
    assert_eq!(action, QueryAction::Decode { length: size });
    assert!(query.is_excessive());
}

#[test]
fn round_count_stops_at_the_largest_number() {
    let query = SnapshotQuery { phase: QueryPhase::Filling { capacity: 8 }, rounds: u32::MAX };
    let (query, action) = query.step(filled(9));
    assert_eq!(action, QueryAction::QuerySize);
    assert_eq!(query.rounds, u32::MAX);
}
