//! The order in which a queue operation does things: what happens under the lock,
//! when a turn is dispatched and what becomes of it, and who is told of a change.
use vstd::prelude::*;

use crate::api::NextTurn;
use crate::api::QueuedTurn;
use crate::course::answers;
use crate::course::awaits;
use crate::course::course;
use crate::course::lemma_course;
use crate::course::lemma_course_step;
use crate::course::lemma_course_step_back;
use crate::course::opened;
use crate::course::replies_left;
use crate::error::RequestError;
use crate::task::Cause;
use crate::task::DrainStage;
use crate::task::Finish;
use crate::task::Operation;
use crate::task::Purpose;
use crate::task::Reply;
use crate::task::Response;
use crate::task::Stage;
use crate::task::StateDb;
use crate::task::first_stage;
use crate::task::next_stage;
use crate::task::stage_after_announcing;
use crate::task::stage_after_drain;
use crate::thread_id::ThreadId;

verus! {

/// What must not run beside another change to the same queue: the changes
/// themselves, all of a drain, and what tells the clients of either.
pub open spec fn needs_lock<P>(stage: Stage<P>) -> bool {
    match stage {
        Stage::Append { .. } | Stage::Delete { .. } | Stage::Reorder { .. } => true,
        Stage::Drain { .. } => true,
        Stage::ReadQueue { purpose: Purpose::Announce(_), .. } => true,
        Stage::GetListener { .. } | Stage::SendChanged { .. } | Stage::NotifyChanged { .. } => true,
        _ => false,
    }
}

/// What sends the queue to the clients, by way of a listener or not.
pub open spec fn tells_clients<P>(stage: Stage<P>) -> bool {
    stage is SendChanged || stage is NotifyChanged || stage is SendSnapshot
        || stage is NotifySnapshot
}

/// The stage starts a turn.
pub open spec fn starts_turn<P>(stage: Stage<P>) -> bool {
    stage matches Stage::Drain { stage: DrainStage::StartTurn { .. }, .. }
}

/// The number of stages in `stages` that start a turn.
pub open spec fn turns_started<P>(stages: Seq<Stage<P>>) -> nat
    decreases stages.len(),
{
    if stages.len() == 0 {
        0
    } else {
        turns_started(stages.drop_first()) + if starts_turn(stages.first()) {
            1nat
        } else {
            0nat
        }
    }
}

/// The stages that only come once the lock is held.
pub open spec fn behind_lock<P>(stage: Stage<P>) -> bool {
    match stage {
        Stage::GetThread { operation } | Stage::FindThreadPath { operation } => !(
        operation is List) && !(operation is Resume),
        Stage::SerializeParams { .. } | Stage::Append { .. } | Stage::Delete { .. }
        | Stage::Reorder { .. } | Stage::Drain { .. } | Stage::GetListener { .. }
        | Stage::SendChanged { .. } | Stage::NotifyChanged { .. } => true,
        Stage::ReadQueue { purpose: Purpose::Announce(_), .. } => true,
        _ => false,
    }
}

proof fn lemma_behind_lock<P>(
    thread_id: ThreadId,
    operation: Operation<P>,
    world: spec_fn(Stage<P>) -> Reply<P>,
    at: int,
) -> (locked_at: int)
    requires
        0 <= at < course(thread_id, first_stage(operation), world).len(),
        behind_lock(course(thread_id, first_stage(operation), world)[at]),
    ensures
        0 <= locked_at < at,
        course(thread_id, first_stage(operation), world)[locked_at] is Lock,
    decreases at,
{
    let first = first_stage::<P>(operation);
    let stages = course(thread_id, first, world);
    lemma_course(thread_id, first, world);
    assert(at > 0);
    lemma_course_step_back(thread_id, first, world, at);
    let before = stages[at - 1];
    if before is Lock {
        at - 1
    } else {
        assert(behind_lock(before));
        lemma_behind_lock(thread_id, operation, world, at - 1)
    }
}

/// No queue is changed or drained, and no change is announced, before the lock on
/// the queue is held.
pub proof fn law_changes_wait_for_the_lock<P>(
    thread_id: ThreadId,
    operation: Operation<P>,
    world: spec_fn(Stage<P>) -> Reply<P>,
    at: int,
)
    requires
        0 <= at < course(thread_id, first_stage(operation), world).len(),
        needs_lock(course(thread_id, first_stage(operation), world)[at]),
    ensures
        exists|locked_at: int|
            0 <= locked_at < at && #[trigger] course(
                thread_id,
                first_stage(operation),
                world,
            )[locked_at] is Lock,
{
    let locked_at = lemma_behind_lock(thread_id, operation, world, at);
}

/// The lock is taken at most once in a course, so a task never waits for a lock
/// that it holds.
pub proof fn law_the_lock_is_taken_once<P>(
    thread_id: ThreadId,
    operation: Operation<P>,
    world: spec_fn(Stage<P>) -> Reply<P>,
    one: int,
    other: int,
)
    requires
        0 <= one < course(thread_id, first_stage(operation), world).len(),
        0 <= other < course(thread_id, first_stage(operation), world).len(),
        course(thread_id, first_stage(operation), world)[one] is Lock,
        course(thread_id, first_stage(operation), world)[other] is Lock,
    ensures
        one == other,
{
    if one < other {
        lemma_locked_once(thread_id, operation, world, one, other);
    } else if other < one {
        lemma_locked_once(thread_id, operation, world, other, one);
    }
}

/// The stages that can come after the lock was taken.
spec fn after_lock<P>(stage: Stage<P>) -> bool {
    behind_lock(stage) || stage is Done
}

proof fn lemma_locked_once<P>(
    thread_id: ThreadId,
    operation: Operation<P>,
    world: spec_fn(Stage<P>) -> Reply<P>,
    locked_at: int,
    at: int,
)
    requires
        0 <= locked_at < at < course(thread_id, first_stage(operation), world).len(),
        course(thread_id, first_stage(operation), world)[locked_at] is Lock,
    ensures
        after_lock(course(thread_id, first_stage(operation), world)[at]),
    decreases at,
{
    let first = first_stage::<P>(operation);
    lemma_course_step_back(thread_id, first, world, at);
    lemma_lock_operation(thread_id, operation, world, locked_at);
    if at > locked_at + 1 {
        lemma_locked_once(thread_id, operation, world, locked_at, at - 1);
    }
}

/// The lock is only taken for what changes or drains the queue.
proof fn lemma_lock_operation<P>(
    thread_id: ThreadId,
    operation: Operation<P>,
    world: spec_fn(Stage<P>) -> Reply<P>,
    at: int,
)
    requires
        0 <= at < course(thread_id, first_stage(operation), world).len(),
    ensures
        course(thread_id, first_stage(operation), world)[at] matches Stage::Lock { operation }
            ==> !(operation is List) && !(operation is Resume),
{
    let first = first_stage::<P>(operation);
    lemma_course(thread_id, first, world);
    if at > 0 {
        lemma_course_step_back(thread_id, first, world, at);
    }
}

/// Listing a queue takes no lock, changes nothing, dispatches nothing and tells
/// the clients nothing.
pub proof fn law_listing_only_reads<P>(
    thread_id: ThreadId,
    world: spec_fn(Stage<P>) -> Reply<P>,
    at: int,
)
    requires
        0 <= at < course(thread_id, first_stage(Operation::List), world).len(),
    ensures
        ({
            let stage = course(thread_id, first_stage(Operation::List), world)[at];
            !(stage is Lock) && !needs_lock(stage) && !tells_clients(stage)
        }),
{
    lemma_listing(thread_id, world, at);
}

proof fn lemma_listing<P>(thread_id: ThreadId, world: spec_fn(Stage<P>) -> Reply<P>, at: int)
    requires
        0 <= at < course(thread_id, first_stage(Operation::List), world).len(),
    ensures
        match course(thread_id, first_stage(Operation::List), world)[at] {
            Stage::GetThread { operation } | Stage::FindThreadPath { operation } =>
                operation is List,
            Stage::ReadQueue { purpose, .. } => purpose is Answer,
            Stage::Done { .. } => true,
            _ => false,
        },
    decreases at,
{
    let first = first_stage::<P>(Operation::List);
    lemma_course(thread_id, first, world);
    if at > 0 {
        lemma_listing(thread_id, world, at - 1);
        lemma_course_step_back(thread_id, first, world, at);
    }
}

/// A request on a thread that has no queue changes nothing, dispatches nothing and
/// tells the clients nothing.
pub proof fn law_refused_requests_change_nothing<P>(
    thread_id: ThreadId,
    operation: Operation<P>,
    world: spec_fn(Stage<P>) -> Reply<P>,
    at: int,
)
    requires
        !(operation is Resume),
        opened(thread_id, operation, world) is Err,
        0 <= at < course(thread_id, first_stage(operation), world).len(),
    ensures
        ({
            let stage = course(thread_id, first_stage(operation), world)[at];
            !needs_lock(stage) && !tells_clients(stage)
        }),
{
    lemma_refused(thread_id, operation, world, at);
}

proof fn lemma_refused<P>(
    thread_id: ThreadId,
    operation: Operation<P>,
    world: spec_fn(Stage<P>) -> Reply<P>,
    at: int,
)
    requires
        !(operation is Resume),
        opened(thread_id, operation, world) is Err,
        0 <= at < course(thread_id, first_stage(operation), world).len(),
    ensures
        ({
            let stage = course(thread_id, first_stage(operation), world)[at];
            ||| stage == Stage::<P>::Lock { operation }
            ||| stage == Stage::<P>::GetThread { operation }
            ||| stage == Stage::<P>::FindThreadPath { operation } && world(
                Stage::GetThread { operation },
            ) == Reply::<P>::Thread(None)
            ||| stage is Done
        }),
    decreases at,
{
    let first = first_stage::<P>(operation);
    lemma_course(thread_id, first, world);
    if at > 0 {
        lemma_refused(thread_id, operation, world, at - 1);
        lemma_course_step_back(thread_id, first, world, at);
    }
}

/// A turn is dispatched only in a thread that is loaded, whose agent is not
/// running and which has no turn in progress; and it is the turn that the queue
/// named as the next.
pub proof fn law_only_idle_threads_are_drained<P>(
    thread_id: ThreadId,
    operation: Operation<P>,
    world: spec_fn(Stage<P>) -> Reply<P>,
    at: int,
)
    requires
        0 <= at < course(thread_id, first_stage(operation), world).len(),
        starts_turn(course(thread_id, first_stage(operation), world)[at]),
    ensures
        ({
            let stages = course(thread_id, first_stage(operation), world);
            &&& at >= 4
            &&& stages[at - 4] matches Stage::Drain { stage: DrainStage::GetThread, .. }
            &&& world(stages[at - 4]) matches Reply::Thread(Some(_))
            &&& stages[at - 3] matches Stage::Drain { stage: DrainStage::GetAgentStatus, .. }
            &&& world(stages[at - 3]) == Reply::<P>::AgentRunning(false)
            &&& stages[at - 2] matches Stage::Drain { stage: DrainStage::GetActiveTurn, .. }
            &&& world(stages[at - 2]) == Reply::<P>::ActiveTurn(false)
            &&& stages[at - 1] matches Stage::Drain { stage: DrainStage::GetNextTurn, .. }
            &&& stages[at] matches Stage::Drain {
                stage: DrainStage::StartTurn { queued_turn_id, turn_start_params },
                ..
            }
            &&& world(stages[at - 1]) == Reply::NextTurn(
                NextTurn::Ready { queued_turn_id, turn_start_params },
            )
        }),
{
    let first = first_stage::<P>(operation);
    lemma_course(thread_id, first, world);
    lemma_course_step_back(thread_id, first, world, at);
    lemma_course_step_back(thread_id, first, world, at - 1);
    lemma_course_step_back(thread_id, first, world, at - 2);
    lemma_course_step_back(thread_id, first, world, at - 3);
}

/// A turn leaves the queue by a drain only after it was started, and it is the
/// turn that was started.
pub proof fn law_only_started_turns_are_removed<P>(
    thread_id: ThreadId,
    operation: Operation<P>,
    world: spec_fn(Stage<P>) -> Reply<P>,
    at: int,
    removed: String,
)
    requires
        0 <= at < course(thread_id, first_stage(operation), world).len(),
        course(thread_id, first_stage(operation), world)[at] matches Stage::Drain {
            stage: DrainStage::RemoveTurn { queued_turn_id },
            ..
        } && queued_turn_id == removed,
    ensures
        ({
            let stages = course(thread_id, first_stage(operation), world);
            &&& at > 0
            &&& stages[at - 1] matches Stage::Drain {
                stage: DrainStage::StartTurn { queued_turn_id, .. },
                ..
            }
            &&& queued_turn_id == removed
            &&& world(stages[at - 1]) matches Reply::Started(Ok(_))
        }),
{
    let first = first_stage::<P>(operation);
    lemma_course(thread_id, first, world);
    lemma_course_step_back(thread_id, first, world, at);
}

/// A turn that did not start stays in the queue: what the drain does next is to
/// record the error with that turn, word for word.
pub proof fn law_turns_that_fail_to_start_are_kept<P>(
    thread_id: ThreadId,
    operation: Operation<P>,
    world: spec_fn(Stage<P>) -> Reply<P>,
    at: int,
    message: String,
)
    requires
        0 <= at < course(thread_id, first_stage(operation), world).len(),
        starts_turn(course(thread_id, first_stage(operation), world)[at]),
        world(course(thread_id, first_stage(operation), world)[at]) == Reply::<P>::Started(
            Err(message),
        ),
    ensures
        ({
            let stages = course(thread_id, first_stage(operation), world);
            let started = stages[at]->Drain_stage->StartTurn_queued_turn_id;
            &&& at + 1 < stages.len()
            &&& stages[at + 1] matches Stage::Drain {
                stage: DrainStage::RecordError { queued_turn_id, message: recorded },
                ..
            }
            &&& queued_turn_id == started
            &&& recorded == message
            &&& forall|i: int|
                at < i < stages.len() ==> !(#[trigger] stages[i] matches Stage::Drain {
                    stage: DrainStage::RemoveTurn { .. },
                    ..
                })
        }),
{
    let first = first_stage::<P>(operation);
    let stages = course(thread_id, first, world);
    lemma_course_step(thread_id, first, world, at);
    assert forall|i: int| at < i < stages.len() implies !(#[trigger] stages[i] matches Stage::Drain {
        stage: DrainStage::RemoveTurn { .. },
        ..
    }) by {
        lemma_course_step_back(thread_id, first, world, i);
        if i > at + 1 {
            lemma_no_start_after(thread_id, first, world, at + 1, i - 1);
        }
    }
}

/// No turn is started any more.
spec fn past_start<P>(stage: Stage<P>) -> bool {
    match stage {
        Stage::Drain { stage: DrainStage::RemoveTurn { .. }, .. } => true,
        Stage::Drain { stage: DrainStage::RecordError { .. }, .. } => true,
        Stage::ReadQueue { purpose: Purpose::Announce(Cause::Drained { .. }), .. } => true,
        Stage::GetListener { cause: Cause::Drained { .. }, .. } => true,
        Stage::SendChanged { cause: Cause::Drained { .. }, .. } => true,
        Stage::NotifyChanged { cause: Cause::Drained { .. }, .. } => true,
        Stage::Done { .. } => true,
        _ => false,
    }
}

proof fn lemma_no_start_after<P>(
    thread_id: ThreadId,
    first: Stage<P>,
    world: spec_fn(Stage<P>) -> Reply<P>,
    past_at: int,
    at: int,
)
    requires
        0 <= past_at <= at < course(thread_id, first, world).len(),
        past_start(course(thread_id, first, world)[past_at]),
    ensures
        past_start(course(thread_id, first, world)[at]),
    decreases at,
{
    if at > past_at {
        lemma_no_start_after(thread_id, first, world, past_at, at - 1);
        lemma_course_step_back(thread_id, first, world, at);
    }
}

/// An operation dispatches at most one turn.
pub proof fn law_at_most_one_turn_is_dispatched<P>(
    thread_id: ThreadId,
    operation: Operation<P>,
    world: spec_fn(Stage<P>) -> Reply<P>,
)
    ensures
        turns_started(course(thread_id, first_stage(operation), world)) <= 1,
{
    lemma_turns_started(thread_id, first_stage::<P>(operation), world);
}

proof fn lemma_turns_started<P>(
    thread_id: ThreadId,
    stage: Stage<P>,
    world: spec_fn(Stage<P>) -> Reply<P>,
)
    ensures
        turns_started(course(thread_id, stage, world)) <= 1,
        past_start(stage) ==> turns_started(course(thread_id, stage, world)) == 0,
    decreases replies_left(stage),
{
    let stages = course(thread_id, stage, world);
    lemma_course(thread_id, stage, world);
    if awaits(stage, world(stage)) {
        let next = next_stage(thread_id, stage, world(stage));
        lemma_turns_started(thread_id, next, world);
        assert(stages == seq![stage] + course(thread_id, next, world));
        assert(stages.drop_first() == course(thread_id, next, world));
        assert(starts_turn(stage) ==> past_start(next));
        assert(past_start(stage) ==> past_start(next));
    } else {
        assert(stages.drop_first() == Seq::<Stage<P>>::empty());
        assert(turns_started(stages.drop_first()) == 0);
    }
}

/// The clients are told of the queue that was read, once: the listener takes it,
/// or, where there is none or it takes nothing any more, the clients are sent it.
/// Only then does the task go on.
pub proof fn law_the_queue_is_announced_once<P>(
    thread_id: ThreadId,
    operation: Operation<P>,
    world: spec_fn(Stage<P>) -> Reply<P>,
    at: int,
)
    requires
        answers(world),
        0 <= at < course(thread_id, first_stage(operation), world).len(),
        announces(course(thread_id, first_stage(operation), world)[at]),
        world(course(thread_id, first_stage(operation), world)[at]) matches Reply::Queue(Ok(_)),
    ensures
        ({
            let stages = course(thread_id, first_stage(operation), world);
            let db = stages[at]->ReadQueue_db;
            let cause = stages[at]->ReadQueue_purpose->Announce_0;
            let queued_turns = world(stages[at])->Queue_0->Ok_0;
            let asked = Stage::GetListener { db, queued_turns, cause };
            let sent = Stage::SendChanged { db, queued_turns, cause };
            let notified = Stage::NotifyChanged { db, queued_turns, cause };
            let after = stage_after_announcing(db, queued_turns, cause);
            &&& at + 3 < stages.len()
            &&& stages[at + 1] == asked
            &&& if world(asked) == Reply::<P>::Listener(false) {
                stages[at + 2] == notified && stages[at + 3] == after
            } else if world(sent) == Reply::<P>::Sent(true) {
                stages[at + 2] == sent && stages[at + 3] == after
            } else {
                &&& at + 4 < stages.len()
                &&& stages[at + 2] == sent
                &&& stages[at + 3] == notified
                &&& stages[at + 4] == after
            }
        }),
{
    let first = first_stage::<P>(operation);
    let stages = course(thread_id, first, world);
    lemma_course_step(thread_id, first, world, at);
    assert(awaits(stages[at + 1], world(stages[at + 1])));
    lemma_course_step(thread_id, first, world, at + 1);
    assert(awaits(stages[at + 2], world(stages[at + 2])));
    lemma_course_step(thread_id, first, world, at + 2);
    if stages[at + 3] is NotifyChanged {
        assert(awaits(stages[at + 3], world(stages[at + 3])));
        lemma_course_step(thread_id, first, world, at + 3);
    }
}

/// The change that `reply` reports to have been made, where it reports one.
pub open spec fn change_made<P>(stage: Stage<P>, reply: Reply<P>) -> bool {
    match (stage, reply) {
        (Stage::Append { .. }, Reply::Appended(Ok(_))) => true,
        (Stage::Delete { .. }, Reply::Deleted(Ok(true))) => true,
        (Stage::Reorder { .. }, Reply::Reordered(Ok(_))) => true,
        (Stage::Drain { stage: DrainStage::RemoveTurn { .. }, .. }, Reply::Deleted(Ok(_))) => true,
        (
            Stage::Drain { stage: DrainStage::RecordError { .. }, .. },
            Reply::ErrorRecorded(Ok(_)),
        ) => true,
        _ => false,
    }
}

/// The queue is read to tell the clients what it has become.
pub open spec fn announces<P>(stage: Stage<P>) -> bool {
    stage matches Stage::ReadQueue { purpose: Purpose::Announce(_), .. }
}

/// After every change that was made the queue is read again, from the database
/// that was changed, to tell the clients; and it is read for them at no other time
/// than after a change.
pub proof fn law_every_change_is_announced<P>(
    thread_id: ThreadId,
    operation: Operation<P>,
    world: spec_fn(Stage<P>) -> Reply<P>,
    at: int,
)
    requires
        0 <= at < course(thread_id, first_stage(operation), world).len() - 1,
    ensures
        ({
            let stages = course(thread_id, first_stage(operation), world);
            &&& change_made(stages[at], world(stages[at])) <==> announces(stages[at + 1])
            &&& change_made(stages[at], world(stages[at])) ==> stages[at + 1]->ReadQueue_db
                == match stages[at] {
                Stage::Append { db, .. } => db,
                Stage::Delete { db, .. } => db,
                Stage::Reorder { db, .. } => db,
                Stage::Drain { db, .. } => db,
                _ => arbitrary(),
            }
        }),
{
    let first = first_stage::<P>(operation);
    lemma_course(thread_id, first, world);
    lemma_course_step_back(thread_id, first, world, at + 1);
}

/// A request drains the queue only once the clients were told of its change.
pub proof fn law_clients_are_told_before_the_drain<P>(
    thread_id: ThreadId,
    operation: Operation<P>,
    world: spec_fn(Stage<P>) -> Reply<P>,
    at: int,
)
    requires
        !(operation is Drain),
        !(operation is Resume),
        0 <= at < course(thread_id, first_stage(operation), world).len(),
        course(thread_id, first_stage(operation), world)[at] matches Stage::Drain {
            stage: DrainStage::GetThread,
            ..
        },
    ensures
        ({
            let stages = course(thread_id, first_stage(operation), world);
            &&& at > 0
            &&& match stages[at - 1] {
                Stage::SendChanged { .. } => world(stages[at - 1]) == Reply::<P>::Sent(true),
                Stage::NotifyChanged { .. } => world(stages[at - 1]) == Reply::<P>::Notified,
                _ => false,
            }
        }),
{
    let first = first_stage::<P>(operation);
    lemma_course(thread_id, first, world);
    lemma_course_step_back(thread_id, first, world, at);
    lemma_operation_kept(thread_id, operation, world, at - 1);
}

/// Up to the opened database, a request stays what it is.
proof fn lemma_operation_kept<P>(
    thread_id: ThreadId,
    operation: Operation<P>,
    world: spec_fn(Stage<P>) -> Reply<P>,
    at: int,
)
    requires
        !(operation is Resume),
        0 <= at < course(thread_id, first_stage(operation), world).len(),
    ensures
        match course(thread_id, first_stage(operation), world)[at] {
            Stage::Lock { operation: kept } => kept == operation,
            Stage::GetThread { operation: kept } => kept == operation,
            Stage::FindThreadPath { operation: kept } => kept == operation,
            Stage::GetSnapshotListener { .. } => false,
            Stage::SendSnapshot { .. } => false,
            Stage::NotifySnapshot { .. } => false,
            Stage::ReadQueue { purpose, .. } => !(purpose is Snapshot),
            _ => true,
        },
    decreases at,
{
    let first = first_stage::<P>(operation);
    lemma_course(thread_id, first, world);
    if at > 0 {
        lemma_operation_kept(thread_id, operation, world, at - 1);
        lemma_course_step_back(thread_id, first, world, at);
    }
}

/// A client that resumes a thread is sent the queue at most once: the listener
/// sends it, or, where there is none or it takes no order any more, the queue is
/// read and sent as it was read. A queue that cannot be read is not sent.
pub proof fn law_the_snapshot_is_sent_once<P>(
    thread_id: ThreadId,
    world: spec_fn(Stage<P>) -> Reply<P>,
    at: int,
)
    requires
        answers(world),
        0 <= at < course(thread_id, first_stage(Operation::Resume), world).len(),
        course(thread_id, first_stage(Operation::Resume), world)[at] is GetSnapshotListener,
    ensures
        ({
            let stages = course(thread_id, first_stage(Operation::Resume), world);
            let db = stages[at]->GetSnapshotListener_db;
            let sent = Stage::<P>::SendSnapshot { db };
            let read = Stage::<P>::ReadQueue { db, purpose: Purpose::Snapshot };
            let listens = world(stages[at]) == Reply::<P>::Listener(true);
            let read_at = if listens {
                at + 2
            } else {
                at + 1
            };
            &&& at + 2 < stages.len()
            &&& listens ==> stages[at + 1] == sent
            &&& if listens && world(sent) == Reply::<P>::Sent(true) {
                stages[at + 2] == first_stage::<P>(Operation::Drain)
            } else {
                &&& read_at + 1 < stages.len()
                &&& stages[read_at] == read
                &&& match world(read)->Queue_0 {
                    Ok(queued_turns) => {
                        &&& read_at + 2 < stages.len()
                        &&& stages[read_at + 1] == (Stage::NotifySnapshot { queued_turns })
                        &&& stages[read_at + 2] == first_stage::<P>(Operation::Drain)
                    },
                    Err(_) => stages[read_at + 1] == first_stage::<P>(Operation::Drain),
                }
            }
        }),
{
    let first = first_stage::<P>(Operation::Resume);
    let stages = course(thread_id, first, world);
    assert(awaits(stages[at], world(stages[at])));
    lemma_course_step(thread_id, first, world, at);
    assert(awaits(stages[at + 1], world(stages[at + 1])));
    lemma_course_step(thread_id, first, world, at + 1);
    assert(awaits(stages[at + 2], world(stages[at + 2])));
    lemma_course_step(thread_id, first, world, at + 2);
    if stages[at + 3] is NotifySnapshot {
        assert(awaits(stages[at + 3], world(stages[at + 3])));
        lemma_course_step(thread_id, first, world, at + 3);
    }
}

/// Whatever becomes of the snapshot, a client that resumes a thread is followed by
/// a drain of its queue.
pub proof fn law_resuming_ends_in_a_drain<P>(
    thread_id: ThreadId,
    world: spec_fn(Stage<P>) -> Reply<P>,
)
    requires
        answers(world),
    ensures
        ({
            let stages = course(thread_id, first_stage(Operation::Resume), world);
            exists|at: int|
                0 <= at < stages.len() && #[trigger] stages.skip(at) == course(
                    thread_id,
                    first_stage(Operation::Drain),
                    world,
                )
        }),
{
    let at = lemma_reaches_drain(thread_id, first_stage::<P>(Operation::Resume), world);
}

/// The stages of a resumed thread before its drain.
spec fn before_resumed_drain<P>(stage: Stage<P>) -> bool {
    match stage {
        Stage::GetThread { operation } | Stage::FindThreadPath { operation } =>
            operation is Resume,
        Stage::GetSnapshotListener { .. } | Stage::SendSnapshot { .. }
        | Stage::NotifySnapshot { .. } => true,
        Stage::ReadQueue { purpose, .. } => purpose is Snapshot,
        _ => false,
    }
}

proof fn lemma_reaches_drain<P>(
    thread_id: ThreadId,
    stage: Stage<P>,
    world: spec_fn(Stage<P>) -> Reply<P>,
) -> (at: int)
    requires
        answers(world),
        before_resumed_drain(stage) || stage == first_stage::<P>(Operation::Drain),
    ensures
        0 <= at < course(thread_id, stage, world).len(),
        course(thread_id, stage, world).skip(at) == course(
            thread_id,
            first_stage(Operation::Drain),
            world,
        ),
    decreases replies_left(stage),
{
    let stages = course(thread_id, stage, world);
    lemma_course(thread_id, stage, world);
    if stage == first_stage::<P>(Operation::Drain) {
        assert(stages.skip(0) == stages);
        0
    } else {
        assert(awaits(stage, world(stage)));
        let next = next_stage(thread_id, stage, world(stage));
        let rest = course(thread_id, next, world);
        let at = lemma_reaches_drain(thread_id, next, world);
        assert(stages == seq![stage] + rest);
        assert(stages.skip(at + 1) == rest.skip(at));
        at + 1
    }
}

/// Drains make progress: in any thread that is loaded and idle, the turn that the
/// queue names as the next is started, with its parameters.
pub proof fn law_an_idle_thread_starts_its_next_turn<P>(
    thread_id: ThreadId,
    from: Stage<P>,
    world: spec_fn(Stage<P>) -> Reply<P>,
    at: int,
    db: StateDb,
    finish: Finish<P>,
    queued_turn_id: String,
    turn_start_params: P,
)
    requires
        0 <= at < course(thread_id, from, world).len(),
        course(thread_id, from, world)[at] == (Stage::Drain {
            db,
            stage: DrainStage::GetThread,
            finish,
        }),
        world(
            Stage::Drain { db, stage: DrainStage::GetThread, finish },
        ) matches Reply::Thread(Some(_)),
        world(Stage::Drain { db, stage: DrainStage::GetAgentStatus, finish })
            == Reply::<P>::AgentRunning(false),
        world(Stage::Drain { db, stage: DrainStage::GetActiveTurn, finish })
            == Reply::<P>::ActiveTurn(false),
        world(Stage::Drain { db, stage: DrainStage::GetNextTurn, finish }) == Reply::NextTurn(
            NextTurn::Ready { queued_turn_id, turn_start_params },
        ),
    ensures
        at + 4 < course(thread_id, from, world).len(),
        course(thread_id, from, world)[at + 1] == (Stage::Drain {
            db,
            stage: DrainStage::GetAgentStatus,
            finish,
        }),
        course(thread_id, from, world)[at + 2] == (Stage::Drain {
            db,
            stage: DrainStage::GetActiveTurn,
            finish,
        }),
        course(thread_id, from, world)[at + 3] == (Stage::Drain {
            db,
            stage: DrainStage::GetNextTurn,
            finish,
        }),
        course(thread_id, from, world)[at + 4] == (Stage::Drain {
            db,
            stage: DrainStage::StartTurn { queued_turn_id, turn_start_params },
            finish,
        }),
{
    lemma_course_step(thread_id, from, world, at);
    lemma_course_step(thread_id, from, world, at + 1);
    lemma_course_step(thread_id, from, world, at + 2);
    lemma_course_step(thread_id, from, world, at + 3);
}

/// A drain gives up where the thread is not loaded, where its agent is running,
/// where a turn is in progress, where no turn can be had from the queue, and where
/// the queue cannot be written to; and for no other reason. The task then ends as
/// it was going to end.
pub proof fn law_drains_give_up_only_for_a_reason<P>(
    thread_id: ThreadId,
    from: Stage<P>,
    world: spec_fn(Stage<P>) -> Reply<P>,
    at: int,
    db: StateDb,
    stage: DrainStage<P>,
    finish: Finish<P>,
)
    requires
        0 <= at < course(thread_id, from, world).len(),
        course(thread_id, from, world)[at] == (Stage::Drain { db, stage, finish }),
        awaits(Stage::Drain { db, stage, finish }, world(Stage::Drain { db, stage, finish })),
    ensures
        ({
            let stages = course(thread_id, from, world);
            let reply = world(stages[at]);
            let reason = match stage {
                DrainStage::GetThread => reply == Reply::<P>::Thread(None),
                DrainStage::GetAgentStatus => reply == Reply::<P>::AgentRunning(true),
                DrainStage::GetActiveTurn => reply == Reply::<P>::ActiveTurn(true),
                DrainStage::GetNextTurn => !(reply matches Reply::NextTurn(NextTurn::Ready { .. })),
                DrainStage::StartTurn { .. } => false,
                DrainStage::RemoveTurn { .. } => reply matches Reply::Deleted(Err(_)),
                DrainStage::RecordError { .. } => reply matches Reply::ErrorRecorded(Err(_)),
            };
            &&& at + 1 < stages.len()
            &&& if reason {
                stages[at + 1] == (Stage::Done { finish })
            } else {
                !(stages[at + 1] is Done)
            }
        }),
{
    lemma_course_step(thread_id, from, world, at);
}

/// A turn that was started is taken out of the queue that it came from, so that it
/// runs once; and once it is out, the queue is read again to tell the clients.
pub proof fn law_started_turns_are_removed<P>(
    thread_id: ThreadId,
    from: Stage<P>,
    world: spec_fn(Stage<P>) -> Reply<P>,
    at: int,
    db: StateDb,
    finish: Finish<P>,
    queued_turn_id: String,
    turn_start_params: P,
)
    requires
        0 <= at < course(thread_id, from, world).len(),
        course(thread_id, from, world)[at] == (Stage::Drain {
            db,
            stage: DrainStage::StartTurn { queued_turn_id, turn_start_params },
            finish,
        }),
        world(course(thread_id, from, world)[at]) matches Reply::Started(Ok(_)),
    ensures
        ({
            let stages = course(thread_id, from, world);
            let remove = Stage::Drain {
                db,
                stage: DrainStage::RemoveTurn { queued_turn_id },
                finish,
            };
            &&& at + 1 < stages.len()
            &&& stages[at + 1] == remove
            &&& world(remove) matches Reply::Deleted(Ok(_)) ==> at + 2 < stages.len() && stages[at
                + 2] == (Stage::ReadQueue {
                db,
                purpose: Purpose::Announce(Cause::Drained { finish }),
            })
        }),
{
    lemma_course_step(thread_id, from, world, at);
    lemma_course_step(thread_id, from, world, at + 1);
}

/// A turn that was not started gets the message of the error recorded with it, in
/// the queue that it came from; and once that is done, the queue is read again to
/// tell the clients.
pub proof fn law_dispatch_errors_are_recorded<P>(
    thread_id: ThreadId,
    from: Stage<P>,
    world: spec_fn(Stage<P>) -> Reply<P>,
    at: int,
    db: StateDb,
    finish: Finish<P>,
    queued_turn_id: String,
    turn_start_params: P,
    message: String,
)
    requires
        0 <= at < course(thread_id, from, world).len(),
        course(thread_id, from, world)[at] == (Stage::Drain {
            db,
            stage: DrainStage::StartTurn { queued_turn_id, turn_start_params },
            finish,
        }),
        world(course(thread_id, from, world)[at]) == Reply::<P>::Started(Err(message)),
    ensures
        ({
            let stages = course(thread_id, from, world);
            let record = Stage::Drain {
                db,
                stage: DrainStage::RecordError { queued_turn_id, message },
                finish,
            };
            &&& at + 1 < stages.len()
            &&& stages[at + 1] == record
            &&& world(record) matches Reply::ErrorRecorded(Ok(_)) ==> at + 2 < stages.len()
                && stages[at + 2] == (Stage::ReadQueue {
                db,
                purpose: Purpose::Announce(Cause::Drained { finish }),
            })
        }),
{
    lemma_course_step(thread_id, from, world, at);
    lemma_course_step(thread_id, from, world, at + 1);
}

/// A drain moved on by itself goes where a task that drains goes.
pub proof fn law_drains_move_as_their_tasks_do<P>(
    thread_id: ThreadId,
    db: StateDb,
    stage: DrainStage<P>,
    finish: Finish<P>,
    reply: Reply<P>,
)
    ensures
        stage_after_drain(db, stage, finish, reply) == next_stage(
            thread_id,
            Stage::Drain { db, stage, finish },
            reply,
        ),
{
}

/// Once the clients were told of the change that a request made, the queue is
/// drained, in the database that was changed, and what the drain is to end with is
/// the answer to the request: the turn that was added, that a turn was deleted, or
/// the queue in its new order. Once they were told of what a drain did, the task
/// ends as it was going to end.
pub proof fn law_every_change_is_followed_by_a_drain<P>(
    thread_id: ThreadId,
    from: Stage<P>,
    world: spec_fn(Stage<P>) -> Reply<P>,
    at: int,
    db: StateDb,
    queued_turns: Vec<QueuedTurn<P>>,
    cause: Cause<P>,
)
    requires
        0 <= at < course(thread_id, from, world).len(),
        ({
            let stage = course(thread_id, from, world)[at];
            ||| stage == (Stage::SendChanged { db, queued_turns, cause }) && world(stage)
                == Reply::<P>::Sent(true)
            ||| stage == (Stage::NotifyChanged { db, queued_turns, cause }) && world(stage)
                == Reply::<P>::Notified
        }),
    ensures
        at + 1 < course(thread_id, from, world).len(),
        match cause {
            Cause::Drained { finish } => course(thread_id, from, world)[at + 1] == (Stage::Done {
                finish,
            }),
            _ => course(thread_id, from, world)[at + 1] == (Stage::Drain {
                db,
                stage: DrainStage::GetThread,
                finish: Finish::Answer(
                    Ok(
                        match cause {
                            Cause::Added { queued_turn } => Response::Added { queued_turn },
                            Cause::Deleted => Response::Deleted { deleted: true },
                            _ => Response::Reordered { queued_turns },
                        },
                    ),
                ),
            }),
        },
{
    lemma_course_step(thread_id, from, world, at);
}

/// A queue that was read to tell the clients is handed to the listener of the
/// thread, and to the clients themselves where there is no listener or it takes
/// nothing any more: the same queue, read from the same database, for the same
/// cause.
pub proof fn law_the_queue_that_was_read_is_announced<P>(
    thread_id: ThreadId,
    from: Stage<P>,
    world: spec_fn(Stage<P>) -> Reply<P>,
    at: int,
    db: StateDb,
    queued_turns: Vec<QueuedTurn<P>>,
    cause: Cause<P>,
)
    requires
        0 <= at < course(thread_id, from, world).len(),
    ensures
        ({
            let stages = course(thread_id, from, world);
            let read = Stage::ReadQueue { db, purpose: Purpose::Announce(cause) };
            let ask = Stage::GetListener { db, queued_turns, cause };
            let send = Stage::SendChanged { db, queued_turns, cause };
            let notify = Stage::NotifyChanged { db, queued_turns, cause };
            &&& stages[at] == read && world(read) == Reply::Queue(Ok(queued_turns)) ==> at + 1
                < stages.len() && stages[at + 1] == ask
            &&& stages[at] == ask && world(ask) == Reply::<P>::Listener(true) ==> at + 1
                < stages.len() && stages[at + 1] == send
            &&& stages[at] == ask && world(ask) == Reply::<P>::Listener(false) ==> at + 1
                < stages.len() && stages[at + 1] == notify
            &&& stages[at] == send && world(send) == Reply::<P>::Sent(false) ==> at + 1
                < stages.len() && stages[at + 1] == notify
        }),
{
    lemma_course_step(thread_id, from, world, at);
}

/// Where a queue that was changed cannot be read, the request that changed it is
/// refused for that reason; where a drain changed it, the task ends as it was
/// going to end. Either way no client is told.
pub proof fn law_an_unreadable_queue_is_not_announced<P>(
    thread_id: ThreadId,
    from: Stage<P>,
    world: spec_fn(Stage<P>) -> Reply<P>,
    at: int,
    db: StateDb,
    cause: Cause<P>,
    error: RequestError,
)
    requires
        0 <= at < course(thread_id, from, world).len(),
        course(thread_id, from, world)[at] == (Stage::ReadQueue {
            db,
            purpose: Purpose::Announce(cause),
        }),
        world(course(thread_id, from, world)[at]) == Reply::<P>::Queue(Err(error)),
    ensures
        at + 1 < course(thread_id, from, world).len(),
        course(thread_id, from, world)[at + 1] == (Stage::Done {
            finish: match cause {
                Cause::Drained { finish } => finish,
                _ => Finish::Answer(Err(error)),
            },
        }),
{
    lemma_course_step(thread_id, from, world, at);
}

/// The snapshot for a client that resumes a thread goes by way of the listener
/// and, where there is none or it takes no order any more, is read and sent. Once
/// it was sent one way or the other, or could not be read, the lock is taken for a
/// drain.
pub proof fn law_snapshots_are_followed_by_a_drain<P>(
    thread_id: ThreadId,
    from: Stage<P>,
    world: spec_fn(Stage<P>) -> Reply<P>,
    at: int,
    db: StateDb,
    queued_turns: Vec<QueuedTurn<P>>,
)
    requires
        0 <= at < course(thread_id, from, world).len(),
    ensures
        ({
            let stages = course(thread_id, from, world);
            let ask = Stage::<P>::GetSnapshotListener { db };
            let send = Stage::<P>::SendSnapshot { db };
            let read = Stage::<P>::ReadQueue { db, purpose: Purpose::Snapshot };
            let notify = Stage::NotifySnapshot { queued_turns };
            let drain = Stage::<P>::Lock { operation: Operation::Drain };
            &&& stages[at] == ask && world(ask) == Reply::<P>::Listener(true) ==> at + 1
                < stages.len() && stages[at + 1] == send
            &&& stages[at] == ask && world(ask) == Reply::<P>::Listener(false) ==> at + 1
                < stages.len() && stages[at + 1] == read
            &&& stages[at] == send && world(send) == Reply::<P>::Sent(true) ==> at + 1
                < stages.len() && stages[at + 1] == drain
            &&& stages[at] == send && world(send) == Reply::<P>::Sent(false) ==> at + 1
                < stages.len() && stages[at + 1] == read
            &&& stages[at] == read && world(read) == Reply::Queue(Ok(queued_turns)) ==> at + 1
                < stages.len() && stages[at + 1] == notify
            &&& stages[at] == read && (world(read) matches Reply::Queue(Err(_))) ==> at + 1
                < stages.len() && stages[at + 1] == drain
            &&& stages[at] == notify && world(notify) == Reply::<P>::Notified ==> at + 1
                < stages.len() && stages[at + 1] == drain
        }),
{
    lemma_course_step(thread_id, from, world, at);
}

/// When a turn has ended, the queue of the thread is drained, wherever it is kept:
/// right after its database was found.
pub proof fn law_a_drain_reaches_the_queue<P>(
    thread_id: ThreadId,
    world: spec_fn(Stage<P>) -> Reply<P>,
    db: StateDb,
)
    requires
        answers(world),
        opened(thread_id, Operation::Drain, world) == Ok::<StateDb, RequestError>(db),
    ensures
        ({
            let stages = course(thread_id, first_stage(Operation::Drain), world);
            let get = Stage::<P>::GetThread { operation: Operation::Drain };
            let at: int = if world(get) == Reply::<P>::Thread(None) {
                3
            } else {
                2
            };
            &&& at < stages.len()
            &&& stages[at] == (Stage::Drain {
                db,
                stage: DrainStage::<P>::GetThread,
                finish: Finish::Silent,
            })
        }),
{
    let lock = Stage::<P>::Lock { operation: Operation::Drain };
    let get = Stage::<P>::GetThread { operation: Operation::Drain };
    let find = Stage::<P>::FindThreadPath { operation: Operation::Drain };
    assert(awaits(lock, world(lock)));
    assert(awaits(get, world(get)));
    assert(awaits(find, world(find)));
    lemma_course(thread_id, lock, world);
    lemma_course_step(thread_id, lock, world, 0);
    lemma_course_step(thread_id, lock, world, 1);
    if world(get) == Reply::<P>::Thread(None) {
        lemma_course_step(thread_id, lock, world, 2);
    }
}

/// When a client resumes a thread that has a queue, the queue is drained, whatever
/// became of the snapshot.
pub proof fn law_resuming_reaches_the_queue<P>(
    thread_id: ThreadId,
    world: spec_fn(Stage<P>) -> Reply<P>,
    db: StateDb,
)
    requires
        answers(world),
        opened(thread_id, Operation::Drain, world) == Ok::<StateDb, RequestError>(db),
    ensures
        ({
            let stages = course(thread_id, first_stage(Operation::Resume), world);
            exists|at: int|
                0 <= at < stages.len() && #[trigger] stages[at] == (Stage::Drain {
                    db,
                    stage: DrainStage::<P>::GetThread,
                    finish: Finish::Silent,
                })
        }),
{
    let stages = course(thread_id, first_stage(Operation::Resume), world);
    let drained = course(thread_id, first_stage(Operation::Drain), world);
    let start = lemma_reaches_drain(thread_id, first_stage::<P>(Operation::Resume), world);
    law_a_drain_reaches_the_queue(thread_id, world, db);
    let get = Stage::<P>::GetThread { operation: Operation::Drain };
    let at: int = if world(get) == Reply::<P>::Thread(None) {
        3
    } else {
        2
    };
    assert(stages.skip(start)[at] == drained[at]);
    assert(stages[start + at] == drained[at]);
}

/// A request that changed the queue of an idle thread sets the thread to work: once
/// the changed queue could be read, the next turn is started, from the database
/// that was changed, and what is left to do then is to answer the request.
pub proof fn law_a_change_sets_an_idle_thread_to_work<P>(
    thread_id: ThreadId,
    from: Stage<P>,
    world: spec_fn(Stage<P>) -> Reply<P>,
    at: int,
    db: StateDb,
    cause: Cause<P>,
    queued_turns: Vec<QueuedTurn<P>>,
    response: Response<P>,
    queued_turn_id: String,
    turn_start_params: P,
)
    requires
        answers(world),
        0 <= at < course(thread_id, from, world).len(),
        course(thread_id, from, world)[at] == (Stage::ReadQueue {
            db,
            purpose: Purpose::Announce(cause),
        }),
        world(course(thread_id, from, world)[at]) == Reply::Queue(Ok(queued_turns)),
        match cause {
            Cause::Added { queued_turn } => response == (Response::Added { queued_turn }),
            Cause::Deleted => response == (Response::<P>::Deleted { deleted: true }),
            Cause::Reordered => response == (Response::Reordered { queued_turns }),
            Cause::Drained { .. } => false,
        },
        ({
            let finish = Finish::Answer(Ok(response));
            &&& world(
                Stage::Drain { db, stage: DrainStage::GetThread, finish },
            ) matches Reply::Thread(Some(_))
            &&& world(Stage::Drain { db, stage: DrainStage::GetAgentStatus, finish })
                == Reply::<P>::AgentRunning(false)
            &&& world(Stage::Drain { db, stage: DrainStage::GetActiveTurn, finish })
                == Reply::<P>::ActiveTurn(false)
            &&& world(Stage::Drain { db, stage: DrainStage::GetNextTurn, finish })
                == Reply::NextTurn(NextTurn::Ready { queued_turn_id, turn_start_params })
        }),
    ensures
        ({
            let stages = course(thread_id, from, world);
            exists|started: int|
                at < started < stages.len() && #[trigger] stages[started] == (Stage::Drain {
                    db,
                    stage: DrainStage::StartTurn { queued_turn_id, turn_start_params },
                    finish: Finish::Answer(Ok(response)),
                })
        }),
{
    let stages = course(thread_id, from, world);
    lemma_course_step(thread_id, from, world, at);
    assert(awaits(stages[at + 1], world(stages[at + 1])));
    lemma_course_step(thread_id, from, world, at + 1);
    assert(awaits(stages[at + 2], world(stages[at + 2])));
    lemma_course_step(thread_id, from, world, at + 2);
    let drained = if stages[at + 3] is NotifyChanged {
        assert(awaits(stages[at + 3], world(stages[at + 3])));
        lemma_course_step(thread_id, from, world, at + 3);
        at + 4
    } else {
        at + 3
    };
    law_an_idle_thread_starts_its_next_turn(
        thread_id,
        from,
        world,
        drained,
        db,
        Finish::Answer(Ok(response)),
        queued_turn_id,
        turn_start_params,
    );
    assert(stages[drained + 4] is Drain);
}

} // verus!
