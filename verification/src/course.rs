//! What holds of a queue operation as a whole.
//!
//! A world is what the outside answers at each stage. In a given world a task
//! runs one course: the stages that it passes through. The laws here are on
//! every course, whatever the world.
use vstd::prelude::*;

use crate::api::QueuedTurn;
use crate::error::RequestError;
use crate::task::Cause;
use crate::task::DrainStage;
use crate::task::Finish;
use crate::task::LoadedThread;
use crate::task::Operation;
use crate::task::Purpose;
use crate::task::Reply;
use crate::task::Response;
use crate::task::Stage;
use crate::task::StateDb;
use crate::task::first_stage;
use crate::task::next_stage;
use crate::task::stage_after_opening;
use crate::task::state_db_of_loaded;
use crate::task::state_db_of_located;
use crate::thread_id::ThreadId;

verus! {

/// `reply` is an answer to what `stage` waits for.
pub open spec fn awaits<P>(stage: Stage<P>, reply: Reply<P>) -> bool {
    match stage {
        Stage::Lock { .. } => reply is Locked,
        Stage::GetThread { .. } => reply is Thread,
        Stage::FindThreadPath { .. } => reply is ThreadPath,
        Stage::SerializeParams { .. } => reply is Serialized,
        Stage::Append { .. } => reply is Appended,
        Stage::Delete { .. } => reply is Deleted,
        Stage::Reorder { .. } => reply is Reordered,
        Stage::ReadQueue { .. } => reply is Queue,
        Stage::GetListener { .. } => reply is Listener,
        Stage::SendChanged { .. } => reply is Sent,
        Stage::NotifyChanged { .. } => reply is Notified,
        Stage::GetSnapshotListener { .. } => reply is Listener,
        Stage::SendSnapshot { .. } => reply is Sent,
        Stage::NotifySnapshot { .. } => reply is Notified,
        Stage::Drain { stage, .. } => match stage {
            DrainStage::GetThread => reply is Thread,
            DrainStage::GetAgentStatus => reply is AgentRunning,
            DrainStage::GetActiveTurn => reply is ActiveTurn,
            DrainStage::GetNextTurn => reply is NextTurn,
            DrainStage::StartTurn { .. } => reply is Started,
            DrainStage::RemoveTurn { .. } => reply is Deleted,
            DrainStage::RecordError { .. } => reply is ErrorRecorded,
        },
        Stage::Done { .. } => false,
    }
}

/// The world answers every stage that waits.
pub open spec fn answers<P>(world: spec_fn(Stage<P>) -> Reply<P>) -> bool {
    forall|stage: Stage<P>| stage is Done || #[trigger] awaits(stage, world(stage))
}

/// How many replies can still be needed, at most, before the task is done.
pub open spec fn replies_left<P>(stage: Stage<P>) -> nat {
    match stage {
        Stage::Done { .. } => 0,
        Stage::NotifyChanged { cause: Cause::Drained { .. }, .. } => 1,
        Stage::SendChanged { cause: Cause::Drained { .. }, .. } => 2,
        Stage::GetListener { cause: Cause::Drained { .. }, .. } => 3,
        Stage::ReadQueue { purpose: Purpose::Announce(Cause::Drained { .. }), .. } => 4,
        Stage::Drain { stage, .. } => match stage {
            DrainStage::RemoveTurn { .. } | DrainStage::RecordError { .. } => 5,
            DrainStage::StartTurn { .. } => 6,
            DrainStage::GetNextTurn => 7,
            DrainStage::GetActiveTurn => 8,
            DrainStage::GetAgentStatus => 9,
            DrainStage::GetThread => 10,
        },
        Stage::NotifyChanged { .. } => 11,
        Stage::SendChanged { .. } => 12,
        Stage::GetListener { .. } => 13,
        Stage::ReadQueue { purpose: Purpose::Announce(_), .. } => 14,
        Stage::ReadQueue { purpose: Purpose::Answer, .. } => 1,
        Stage::Append { .. } | Stage::Delete { .. } | Stage::Reorder { .. } => 15,
        Stage::SerializeParams { .. } => 16,
        Stage::FindThreadPath { operation: Operation::Resume } => 24,
        Stage::FindThreadPath { .. } => 17,
        Stage::GetThread { operation: Operation::Resume } => 25,
        Stage::GetThread { .. } => 18,
        Stage::Lock { operation: Operation::Resume } => 26,
        Stage::Lock { .. } => 19,
        Stage::NotifySnapshot { .. } => 20,
        Stage::ReadQueue { purpose: Purpose::Snapshot, .. } => 21,
        Stage::SendSnapshot { .. } => 22,
        Stage::GetSnapshotListener { .. } => 23,
    }
}

/// The stages that a task passes through, from `stage` on.
pub open spec fn course<P>(
    thread_id: ThreadId,
    stage: Stage<P>,
    world: spec_fn(Stage<P>) -> Reply<P>,
) -> Seq<Stage<P>>
    decreases replies_left(stage),
{
    if awaits(stage, world(stage)) {
        seq![stage] + course(thread_id, next_stage(thread_id, stage, world(stage)), world)
    } else {
        seq![stage]
    }
}

/// How a task ends that goes on from `stage`.
pub open spec fn ending<P>(
    thread_id: ThreadId,
    stage: Stage<P>,
    world: spec_fn(Stage<P>) -> Reply<P>,
) -> Stage<P> {
    course(thread_id, stage, world).last()
}

/// Every reply that a task waits for brings it nearer to its end, and no other
/// reply changes it.
pub proof fn law_replies_bring_the_end_nearer<P>(
    thread_id: ThreadId,
    stage: Stage<P>,
    reply: Reply<P>,
)
    ensures
        awaits(stage, reply) ==> replies_left(next_stage(thread_id, stage, reply)) < replies_left(
            stage,
        ),
        !awaits(stage, reply) ==> next_stage(thread_id, stage, reply) == stage,
{
}

pub(crate) proof fn lemma_course<P>(
    thread_id: ThreadId,
    stage: Stage<P>,
    world: spec_fn(Stage<P>) -> Reply<P>,
)
    ensures
        course(thread_id, stage, world).len() > 0,
        course(thread_id, stage, world).len() <= replies_left(stage) + 1,
        course(thread_id, stage, world).first() == stage,
        answers(world) ==> ending(thread_id, stage, world) is Done,
        awaits(stage, world(stage)) ==> ending(thread_id, stage, world) == ending(
            thread_id,
            next_stage(thread_id, stage, world(stage)),
            world,
        ),
        !awaits(stage, world(stage)) ==> ending(thread_id, stage, world) == stage,
    decreases replies_left(stage),
{
    if awaits(stage, world(stage)) {
        let next = next_stage(thread_id, stage, world(stage));
        lemma_course(thread_id, next, world);
        let rest = course(thread_id, next, world);
        assert(course(thread_id, stage, world) == seq![stage] + rest);
        assert((seq![stage] + rest).last() == rest.last());
    } else {
        assert(course(thread_id, stage, world) == seq![stage]);
    }
}

/// Each stage of a course is the one that follows from the stage before it.
pub(crate) proof fn lemma_course_step<P>(
    thread_id: ThreadId,
    stage: Stage<P>,
    world: spec_fn(Stage<P>) -> Reply<P>,
    at: int,
)
    requires
        0 <= at < course(thread_id, stage, world).len(),
    ensures
        ({
            let stages = course(thread_id, stage, world);
            if awaits(stages[at], world(stages[at])) {
                &&& at + 1 < stages.len()
                &&& stages[at + 1] == next_stage(thread_id, stages[at], world(stages[at]))
            } else {
                at + 1 == stages.len()
            }
        }),
    decreases replies_left(stage),
{
    lemma_course(thread_id, stage, world);
    if awaits(stage, world(stage)) {
        let next = next_stage(thread_id, stage, world(stage));
        lemma_course(thread_id, next, world);
        let rest = course(thread_id, next, world);
        assert(course(thread_id, stage, world) == seq![stage] + rest);
        if at > 0 {
            lemma_course_step(thread_id, next, world, at - 1);
            assert((seq![stage] + rest)[at] == rest[at - 1]);
            if awaits(rest[at - 1], world(rest[at - 1])) {
                assert((seq![stage] + rest)[at + 1] == rest[at]);
            }
        }
    }
}

/// The stage before `at`, and that it was answered.
pub(crate) proof fn lemma_course_step_back<P>(
    thread_id: ThreadId,
    stage: Stage<P>,
    world: spec_fn(Stage<P>) -> Reply<P>,
    at: int,
)
    requires
        0 < at < course(thread_id, stage, world).len(),
    ensures
        ({
            let before = course(thread_id, stage, world)[at - 1];
            &&& awaits(before, world(before))
            &&& course(thread_id, stage, world)[at] == next_stage(thread_id, before, world(before))
        }),
{
    lemma_course_step(thread_id, stage, world, at - 1);
}

/// Every task comes to its end, after no more replies than are left to its first
/// stage.
pub proof fn law_every_task_ends<P>(
    thread_id: ThreadId,
    operation: Operation<P>,
    world: spec_fn(Stage<P>) -> Reply<P>,
)
    requires
        answers(world),
    ensures
        ending(thread_id, first_stage(operation), world) is Done,
        course(thread_id, first_stage(operation), world).len() <= replies_left(
            first_stage::<P>(operation),
        ) + 1,
{
    lemma_course(thread_id, first_stage(operation), world);
}

/// A drain ends the task as it was going to end: neither a turn that is
/// dispatched nor one that is not makes a difference to the answer.
pub proof fn law_drains_keep_the_answer<P>(
    thread_id: ThreadId,
    db: StateDb,
    stage: DrainStage<P>,
    finish: Finish<P>,
    world: spec_fn(Stage<P>) -> Reply<P>,
)
    requires
        answers(world),
    ensures
        ending(thread_id, Stage::Drain { db, stage, finish }, world) == (Stage::Done { finish }),
{
    lemma_promised_ending(thread_id, Stage::Drain { db, stage, finish }, world);
}

/// How the task will end, where that is settled.
spec fn promised<P>(stage: Stage<P>) -> Option<Finish<P>> {
    match stage {
        Stage::Done { finish } => Some(finish),
        Stage::Drain { finish, .. } => Some(finish),
        Stage::ReadQueue { purpose: Purpose::Announce(Cause::Drained { finish }), .. } => Some(
            finish,
        ),
        Stage::GetListener { queued_turns, cause, .. }
        | Stage::SendChanged { queued_turns, cause, .. }
        | Stage::NotifyChanged { queued_turns, cause, .. } => Some(
            match cause {
                Cause::Added { queued_turn } => Finish::Answer(Ok(Response::Added { queued_turn })),
                Cause::Deleted => Finish::Answer(Ok(Response::Deleted { deleted: true })),
                Cause::Reordered => Finish::Answer(Ok(Response::Reordered { queued_turns })),
                Cause::Drained { finish } => finish,
            },
        ),
        _ => None,
    }
}

proof fn lemma_promised_ending<P>(
    thread_id: ThreadId,
    stage: Stage<P>,
    world: spec_fn(Stage<P>) -> Reply<P>,
)
    requires
        answers(world),
        promised(stage) is Some,
    ensures
        ending(thread_id, stage, world) == (Stage::Done { finish: promised(stage)->Some_0 }),
    decreases replies_left(stage),
{
    lemma_course(thread_id, stage, world);
    if !(stage is Done) {
        assert(awaits(stage, world(stage)));
        lemma_promised_ending(thread_id, next_stage(thread_id, stage, world(stage)), world);
    }
}

/// The database that an operation finds in the world, or what it is refused with.
pub open spec fn opened<P>(
    thread_id: ThreadId,
    operation: Operation<P>,
    world: spec_fn(Stage<P>) -> Reply<P>,
) -> Result<StateDb, RequestError> {
    match world(Stage::GetThread { operation }) {
        Reply::Thread(Some(thread)) => state_db_of_loaded(thread_id, thread),
        _ => state_db_of_located(
            thread_id,
            world(Stage::FindThreadPath { operation })->ThreadPath_0,
        ),
    }
}

/// The answer once a change has been made: the queue has to be readable.
pub open spec fn answer_after_change<P>(
    db: StateDb,
    cause: Cause<P>,
    response: spec_fn(Vec<QueuedTurn<P>>) -> Response<P>,
    world: spec_fn(Stage<P>) -> Reply<P>,
) -> Result<Response<P>, RequestError> {
    match world(Stage::ReadQueue { db, purpose: Purpose::Announce(cause) })->Queue_0 {
        Ok(queued_turns) => Ok(response(queued_turns)),
        Err(error) => Err(error),
    }
}

/// The steps up to the opened database.
proof fn lemma_opening<P>(
    thread_id: ThreadId,
    operation: Operation<P>,
    world: spec_fn(Stage<P>) -> Reply<P>,
)
    requires
        answers(world),
    ensures
        ending(thread_id, first_stage(operation), world) == ending(
            thread_id,
            stage_after_opening::<P>(operation, opened(thread_id, operation, world)),
            world,
        ),
{
    let lock = Stage::<P>::Lock { operation };
    let get = Stage::<P>::GetThread { operation };
    let find = Stage::<P>::FindThreadPath { operation };
    assert(awaits(lock, world(lock)));
    assert(awaits(get, world(get)));
    assert(awaits(find, world(find)));
    lemma_course(thread_id, lock, world);
    lemma_course(thread_id, get, world);
    lemma_course(thread_id, find, world);
}

/// What a request to add a turn is answered: the turn as it was stored, unless
/// the thread has no queue, the parameters do not serialize, the turn cannot be
/// stored or read back, or the queue cannot be read afterwards.
pub proof fn law_add_is_answered<P>(
    thread_id: ThreadId,
    turn_start_params: P,
    world: spec_fn(Stage<P>) -> Reply<P>,
)
    requires
        answers(world),
    ensures
        ending(thread_id, first_stage(Operation::Add { turn_start_params }), world) == (
        Stage::Done {
            finish: Finish::Answer(
                match opened(thread_id, Operation::Add { turn_start_params }, world) {
                    Err(error) => Err(error),
                    Ok(db) => match world(
                        Stage::SerializeParams { db, turn_start_params },
                    )->Serialized_0 {
                        Err(reason) => Err(RequestError::SerializeParams { reason }),
                        Ok(params_json) => match world(
                            Stage::Append { db, params_json },
                        )->Appended_0 {
                            Err(error) => Err(error),
                            Ok(queued_turn) => answer_after_change(
                                db,
                                Cause::Added { queued_turn },
                                |queued_turns: Vec<QueuedTurn<P>>| Response::Added { queued_turn },
                                world,
                            ),
                        },
                    },
                },
            ),
        }),
{
    lemma_opening(thread_id, Operation::Add { turn_start_params }, world);
    match opened(thread_id, Operation::Add { turn_start_params }, world) {
        Err(error) => {
            lemma_course(
                thread_id,
                Stage::Done { finish: Finish::Answer(Err(error)) },
                world,
            );
        },
        Ok(db) => {
            let serialize = Stage::<P>::SerializeParams { db, turn_start_params };
            assert(awaits(serialize, world(serialize)));
            lemma_course(thread_id, serialize, world);
            match world(serialize)->Serialized_0 {
                Err(reason) => {
                    lemma_promised_ending(
                        thread_id,
                        next_stage(thread_id, serialize, world(serialize)),
                        world,
                    );
                },
                Ok(params_json) => {
                    let append = Stage::<P>::Append { db, params_json };
                    assert(awaits(append, world(append)));
                    lemma_course(thread_id, append, world);
                    lemma_change(thread_id, append, world);
                },
            }
        },
    }
}

/// The steps from a change on.
proof fn lemma_change<P>(
    thread_id: ThreadId,
    stage: Stage<P>,
    world: spec_fn(Stage<P>) -> Reply<P>,
)
    requires
        answers(world),
        stage is Append || stage is Delete || stage is Reorder,
    ensures
        ({
            let next = next_stage(thread_id, stage, world(stage));
            let after = next_stage(thread_id, next, world(next));
            if next is Done {
                ending(thread_id, stage, world) == next
            } else {
                &&& next is ReadQueue
                &&& awaits(next, world(next))
                &&& ending(thread_id, stage, world) == (Stage::Done {
                    finish: promised(after)->Some_0,
                })
            }
        }),
{
    lemma_course(thread_id, stage, world);
    assert(awaits(stage, world(stage)));
    let next = next_stage(thread_id, stage, world(stage));
    lemma_course(thread_id, next, world);
    if !(next is Done) {
        assert(awaits(next, world(next)));
        let after = next_stage(thread_id, next, world(next));
        lemma_promised_ending(thread_id, after, world);
    }
}

/// What no client asked for ends without an answer.
pub proof fn law_background_work_is_silent<P>(
    thread_id: ThreadId,
    operation: Operation<P>,
    world: spec_fn(Stage<P>) -> Reply<P>,
)
    requires
        answers(world),
        operation is Resume || operation is Drain,
    ensures
        ending(thread_id, first_stage(operation), world) == (Stage::Done {
            finish: Finish::<P>::Silent,
        }),
{
    lemma_silent(thread_id, first_stage(operation), world);
}

/// The stages that a task without a client can be at.
spec fn unasked<P>(stage: Stage<P>) -> bool {
    match stage {
        Stage::Lock { operation } | Stage::GetThread { operation }
        | Stage::FindThreadPath { operation } => operation is Resume || operation is Drain,
        Stage::GetSnapshotListener { .. } | Stage::SendSnapshot { .. }
        | Stage::NotifySnapshot { .. } => true,
        Stage::ReadQueue { purpose: Purpose::Snapshot, .. } => true,
        _ => promised(stage) == Some(Finish::<P>::Silent),
    }
}

proof fn lemma_silent<P>(
    thread_id: ThreadId,
    stage: Stage<P>,
    world: spec_fn(Stage<P>) -> Reply<P>,
)
    requires
        answers(world),
        unasked(stage),
    ensures
        ending(thread_id, stage, world) == (Stage::Done { finish: Finish::<P>::Silent }),
    decreases replies_left(stage),
{
    lemma_course(thread_id, stage, world);
    if !(stage is Done) {
        assert(awaits(stage, world(stage)));
        lemma_silent(thread_id, next_stage(thread_id, stage, world(stage)), world);
    }
}

/// What a request for the queue is answered: the queue, unless the thread has
/// none or it cannot be read.
pub proof fn law_list_is_answered<P>(thread_id: ThreadId, world: spec_fn(Stage<P>) -> Reply<P>)
    requires
        answers(world),
    ensures
        ending(thread_id, first_stage(Operation::List), world) == (Stage::Done {
            finish: Finish::Answer(
                match opened(thread_id, Operation::List, world) {
                    Err(error) => Err(error),
                    Ok(db) => match world(
                        Stage::ReadQueue { db, purpose: Purpose::Answer },
                    )->Queue_0 {
                        Err(error) => Err(error),
                        Ok(queued_turns) => Ok(Response::Listed { queued_turns }),
                    },
                },
            ),
        }),
{
    lemma_opening(thread_id, Operation::List, world);
    match opened(thread_id, Operation::List, world) {
        Err(error) => {
            lemma_course(
                thread_id,
                Stage::Done { finish: Finish::Answer(Err(error)) },
                world,
            );
        },
        Ok(db) => {
            let read = Stage::ReadQueue { db, purpose: Purpose::<P>::Answer };
            assert(awaits(read, world(read)));
            lemma_course(thread_id, read, world);
            lemma_promised_ending(thread_id, next_stage(thread_id, read, world(read)), world);
        },
    }
}

/// What a request to delete a turn is answered: whether there was such a turn,
/// unless the thread has no queue, deleting fails, or a turn was deleted and the
/// queue cannot be read afterwards.
pub proof fn law_delete_is_answered<P>(
    thread_id: ThreadId,
    queued_turn_id: String,
    world: spec_fn(Stage<P>) -> Reply<P>,
)
    requires
        answers(world),
    ensures
        ending(thread_id, first_stage(Operation::Delete { queued_turn_id }), world) == (
        Stage::Done {
            finish: Finish::Answer(
                match opened(thread_id, Operation::Delete { queued_turn_id }, world) {
                    Err(error) => Err(error),
                    Ok(db) => match world(Stage::Delete { db, queued_turn_id })->Deleted_0 {
                        Err(reason) => Err(RequestError::DeleteTurn { reason }),
                        Ok(false) => Ok(Response::Deleted { deleted: false }),
                        Ok(true) => answer_after_change(
                            db,
                            Cause::Deleted,
                            |queued_turns: Vec<QueuedTurn<P>>| Response::Deleted { deleted: true },
                            world,
                        ),
                    },
                },
            ),
        }),
{
    let operation = Operation::Delete { queued_turn_id };
    lemma_opening(thread_id, operation, world);
    match opened(thread_id, operation, world) {
        Err(error) => {
            lemma_course(
                thread_id,
                Stage::Done { finish: Finish::Answer(Err(error)) },
                world,
            );
        },
        Ok(db) => {
            let delete = Stage::<P>::Delete { db, queued_turn_id };
            assert(awaits(delete, world(delete)));
            lemma_change(thread_id, delete, world);
        },
    }
}

/// What a request to reorder the queue is answered: the queue as it was read
/// after the change and before the drain, unless the thread has no queue, the
/// order is refused, or the queue cannot be read afterwards.
pub proof fn law_reorder_is_answered<P>(
    thread_id: ThreadId,
    queued_turn_ids: Vec<String>,
    world: spec_fn(Stage<P>) -> Reply<P>,
)
    requires
        answers(world),
    ensures
        ending(thread_id, first_stage(Operation::Reorder { queued_turn_ids }), world) == (
        Stage::Done {
            finish: Finish::Answer(
                match opened(thread_id, Operation::Reorder { queued_turn_ids }, world) {
                    Err(error) => Err(error),
                    Ok(db) => match world(Stage::Reorder { db, queued_turn_ids })->Reordered_0 {
                        Err(reason) => Err(RequestError::ReorderTurns { reason }),
                        Ok(_) => answer_after_change(
                            db,
                            Cause::Reordered,
                            |queued_turns: Vec<QueuedTurn<P>>| Response::Reordered { queued_turns },
                            world,
                        ),
                    },
                },
            ),
        }),
{
    let operation = Operation::Reorder { queued_turn_ids };
    lemma_opening(thread_id, operation, world);
    match opened(thread_id, operation, world) {
        Err(error) => {
            lemma_course(
                thread_id,
                Stage::Done { finish: Finish::Answer(Err(error)) },
                world,
            );
        },
        Ok(db) => {
            let reorder = Stage::<P>::Reorder { db, queued_turn_ids };
            assert(awaits(reorder, world(reorder)));
            lemma_change(thread_id, reorder, world);
        },
    }
}

/// Whatever changes or drains a queue begins by waiting for its lock; listing a
/// queue and resuming a thread do not. Once the lock is held, the operation looks
/// for its thread, first among those that are loaded, then on disk.
pub proof fn law_the_lock_comes_first<P>(
    thread_id: ThreadId,
    operation: Operation<P>,
    world: spec_fn(Stage<P>) -> Reply<P>,
)
    requires
        answers(world),
    ensures
        ({
            let stages = course(thread_id, first_stage(operation), world);
            let at: int = if operation is List || operation is Resume {
                0
            } else {
                1
            };
            &&& at == 1 ==> stages[0] == (Stage::Lock { operation })
            &&& at + 1 < stages.len()
            &&& stages[at] == (Stage::GetThread { operation })
            &&& stages[at + 1] == (Stage::FindThreadPath { operation }) <==> world(stages[at])
                == Reply::<P>::Thread(None)
        }),
{
    let first = first_stage(operation);
    lemma_course(thread_id, first, world);
    assert(awaits(first, world(first)));
    lemma_course_step(thread_id, first, world, 0);
    let get = Stage::<P>::GetThread { operation };
    assert(awaits(get, world(get)));
    if first is Lock {
        lemma_course_step(thread_id, first, world, 1);
    }
}

/// A task that holds the lock looks for its thread and, where the thread is not
/// loaded, looks for it on disk, for the sake of the same operation.
pub proof fn law_threads_are_looked_for<P>(
    thread_id: ThreadId,
    from: Stage<P>,
    world: spec_fn(Stage<P>) -> Reply<P>,
    at: int,
    operation: Operation<P>,
)
    requires
        0 <= at < course(thread_id, from, world).len(),
    ensures
        ({
            let stages = course(thread_id, from, world);
            &&& stages[at] == (Stage::Lock { operation }) && world(stages[at])
                == Reply::<P>::Locked ==> at + 1 < stages.len() && stages[at + 1] == (
            Stage::GetThread { operation })
            &&& stages[at] == (Stage::GetThread { operation }) && world(stages[at])
                == Reply::<P>::Thread(None) ==> at + 1 < stages.len() && stages[at + 1] == (
            Stage::FindThreadPath { operation })
        }),
{
    lemma_course_step(thread_id, from, world, at);
}

/// A thread that is written to disk has a queue: the one in its own database if it
/// is loaded and carries one, else the one in the database of the process. Once
/// the queue is found, every operation gets to its work on that database, with
/// what was asked for.
pub proof fn law_a_queue_that_is_found_is_worked_on<P>(
    thread_id: ThreadId,
    from: Stage<P>,
    world: spec_fn(Stage<P>) -> Reply<P>,
    at: int,
    operation: Operation<P>,
    db: StateDb,
)
    requires
        0 <= at < course(thread_id, from, world).len(),
        ({
            let stage = course(thread_id, from, world)[at];
            ||| stage == (Stage::GetThread { operation }) && db is OfThread && world(stage)
                == Reply::<P>::Thread(
                Some(LoadedThread { has_rollout_path: true, has_state_db: true }),
            )
            ||| stage == (Stage::GetThread { operation }) && db is OfProcess && world(stage)
                == Reply::<P>::Thread(
                Some(LoadedThread { has_rollout_path: true, has_state_db: false }),
            )
            ||| stage == (Stage::FindThreadPath { operation }) && db is OfProcess && world(stage)
                == Reply::<P>::ThreadPath(Ok(true))
        }),
    ensures
        at + 1 < course(thread_id, from, world).len(),
        course(thread_id, from, world)[at + 1] == match operation {
            Operation::Add { turn_start_params } => Stage::SerializeParams {
                db,
                turn_start_params,
            },
            Operation::List => Stage::ReadQueue { db, purpose: Purpose::Answer },
            Operation::Delete { queued_turn_id } => Stage::Delete { db, queued_turn_id },
            Operation::Reorder { queued_turn_ids } => Stage::Reorder { db, queued_turn_ids },
            Operation::Resume => Stage::GetSnapshotListener { db },
            Operation::Drain => Stage::Drain {
                db,
                stage: DrainStage::GetThread,
                finish: Finish::Silent,
            },
        },
{
    lemma_course_step(thread_id, from, world, at);
}

/// A loaded thread that is not written to disk, a thread that is nowhere and one
/// that could not be looked for have no queue. A request on such a thread is
/// refused at once, and for that reason; a drain ends; and a client that resumes
/// the thread is sent nothing before the drain.
pub proof fn law_a_thread_without_a_queue_is_refused<P>(
    thread_id: ThreadId,
    from: Stage<P>,
    world: spec_fn(Stage<P>) -> Reply<P>,
    at: int,
    operation: Operation<P>,
    error: RequestError,
)
    requires
        0 <= at < course(thread_id, from, world).len(),
        ({
            let stage = course(thread_id, from, world)[at];
            match error {
                RequestError::EphemeralThread { thread_id: refused } => refused == thread_id
                    && stage == (Stage::GetThread { operation }) && (world(
                    stage,
                ) matches Reply::Thread(Some(thread)) && !thread.has_rollout_path),
                RequestError::ThreadNotFound { thread_id: refused } => refused == thread_id
                    && stage == (Stage::FindThreadPath { operation }) && world(stage)
                    == Reply::<P>::ThreadPath(Ok(false)),
                RequestError::LocateThread { thread_id: refused, reason } => refused == thread_id
                    && stage == (Stage::FindThreadPath { operation }) && world(stage)
                    == Reply::<P>::ThreadPath(Err(reason)),
                _ => false,
            }
        }),
    ensures
        at + 1 < course(thread_id, from, world).len(),
        course(thread_id, from, world)[at + 1] == match operation {
            Operation::Resume => Stage::Lock { operation: Operation::<P>::Drain },
            Operation::Drain => Stage::Done { finish: Finish::Silent },
            _ => Stage::Done { finish: Finish::Answer(Err(error)) },
        },
{
    lemma_course_step(thread_id, from, world, at);
}

/// The turn that is asked for is encoded and appended, to the same database. Where
/// either fails the request is refused, for that reason.
pub proof fn law_what_is_asked_for_is_appended<P>(
    thread_id: ThreadId,
    from: Stage<P>,
    world: spec_fn(Stage<P>) -> Reply<P>,
    at: int,
    db: StateDb,
    turn_start_params: P,
    params_json: String,
)
    requires
        0 <= at < course(thread_id, from, world).len(),
    ensures
        ({
            let stages = course(thread_id, from, world);
            let encode = Stage::SerializeParams { db, turn_start_params };
            let append = Stage::<P>::Append { db, params_json };
            &&& stages[at] == encode && world(encode) == Reply::<P>::Serialized(Ok(params_json))
                ==> at + 1 < stages.len() && stages[at + 1] == append
            &&& stages[at] == encode ==> (world(encode) matches Reply::Serialized(Err(reason))
                ==> at + 1 < stages.len() && stages[at + 1] == (Stage::Done {
                finish: Finish::<P>::Answer(Err(RequestError::SerializeParams { reason })),
            }))
            &&& stages[at] == append ==> (world(append) matches Reply::Appended(Ok(queued_turn))
                ==> at + 1 < stages.len() && stages[at + 1] == (Stage::ReadQueue {
                db,
                purpose: Purpose::Announce(Cause::Added { queued_turn }),
            }))
            &&& stages[at] == append ==> (world(append) matches Reply::Appended(Err(error)) ==> at
                + 1 < stages.len() && stages[at + 1] == (Stage::Done {
                finish: Finish::<P>::Answer(Err(error)),
            }))
        }),
{
    lemma_course_step(thread_id, from, world, at);
}

/// A turn that was deleted makes the queue be read again, in the same database. A
/// turn that was not there is answered as such at once, and a failure refuses the
/// request.
pub proof fn law_a_deletion_is_followed_up<P>(
    thread_id: ThreadId,
    from: Stage<P>,
    world: spec_fn(Stage<P>) -> Reply<P>,
    at: int,
    db: StateDb,
    queued_turn_id: String,
    deleted: Result<bool, String>,
)
    requires
        0 <= at < course(thread_id, from, world).len(),
        course(thread_id, from, world)[at] == (Stage::<P>::Delete { db, queued_turn_id }),
        world(Stage::Delete { db, queued_turn_id }) == Reply::<P>::Deleted(deleted),
    ensures
        at + 1 < course(thread_id, from, world).len(),
        course(thread_id, from, world)[at + 1] == match deleted {
            Ok(there) => if there {
                Stage::ReadQueue { db, purpose: Purpose::Announce(Cause::<P>::Deleted) }
            } else {
                Stage::Done { finish: Finish::Answer(Ok(Response::Deleted { deleted: false })) }
            },
            Err(reason) => Stage::Done {
                finish: Finish::Answer(Err(RequestError::DeleteTurn { reason })),
            },
        },
{
    lemma_course_step(thread_id, from, world, at);
}

/// A new order makes the queue be read again, in the same database; an order that
/// is not taken refuses the request.
pub proof fn law_a_new_order_is_followed_up<P>(
    thread_id: ThreadId,
    from: Stage<P>,
    world: spec_fn(Stage<P>) -> Reply<P>,
    at: int,
    db: StateDb,
    queued_turn_ids: Vec<String>,
)
    requires
        0 <= at < course(thread_id, from, world).len(),
        course(thread_id, from, world)[at] == (Stage::<P>::Reorder { db, queued_turn_ids }),
        world(Stage::Reorder { db, queued_turn_ids }) is Reordered,
    ensures
        at + 1 < course(thread_id, from, world).len(),
        course(thread_id, from, world)[at + 1] == match world(
            Stage::Reorder { db, queued_turn_ids },
        )->Reordered_0 {
            Ok(_) => Stage::ReadQueue { db, purpose: Purpose::Announce(Cause::<P>::Reordered) },
            Err(reason) => Stage::Done {
                finish: Finish::Answer(Err(RequestError::ReorderTurns { reason })),
            },
        },
{
    lemma_course_step(thread_id, from, world, at);
}

/// A queue that was asked for is answered as it was read, and a queue that could
/// not be read refuses the request.
pub proof fn law_the_queue_that_was_read_is_listed<P>(
    thread_id: ThreadId,
    from: Stage<P>,
    world: spec_fn(Stage<P>) -> Reply<P>,
    at: int,
    db: StateDb,
    queue: Result<Vec<QueuedTurn<P>>, RequestError>,
)
    requires
        0 <= at < course(thread_id, from, world).len(),
        course(thread_id, from, world)[at] == (Stage::ReadQueue {
            db,
            purpose: Purpose::<P>::Answer,
        }),
        world(Stage::ReadQueue { db, purpose: Purpose::Answer }) == Reply::Queue(queue),
    ensures
        at + 1 < course(thread_id, from, world).len(),
        course(thread_id, from, world)[at + 1] == (Stage::Done {
            finish: Finish::Answer(
                match queue {
                    Ok(queued_turns) => Ok(Response::Listed { queued_turns }),
                    Err(error) => Err(error),
                },
            ),
        }),
{
    lemma_course_step(thread_id, from, world, at);
}

/// Only the work that a task waits for moves it on. Until the lock is granted, the
/// thread found, the turn started and so on, nothing else that is reported does;
/// and a task that is done stays done.
pub proof fn law_nothing_else_moves_a_task<P>(
    thread_id: ThreadId,
    stage: Stage<P>,
    reply: Reply<P>,
)
    requires
        match reply {
            Reply::Locked => !(stage is Lock),
            Reply::Thread(_) => !(stage is GetThread) && !(stage matches Stage::Drain {
                stage: DrainStage::GetThread,
                ..
            }),
            Reply::ThreadPath(_) => !(stage is FindThreadPath),
            Reply::Serialized(_) => !(stage is SerializeParams),
            Reply::Appended(_) => !(stage is Append),
            Reply::Deleted(_) => !(stage is Delete) && !(stage matches Stage::Drain {
                stage: DrainStage::RemoveTurn { .. },
                ..
            }),
            Reply::Reordered(_) => !(stage is Reorder),
            Reply::Queue(_) => !(stage is ReadQueue),
            Reply::Listener(_) => !(stage is GetListener) && !(stage is GetSnapshotListener),
            Reply::Sent(_) => !(stage is SendChanged) && !(stage is SendSnapshot),
            Reply::Notified => !(stage is NotifyChanged) && !(stage is NotifySnapshot),
            Reply::AgentRunning(_) => !(stage matches Stage::Drain {
                stage: DrainStage::GetAgentStatus,
                ..
            }),
            Reply::ActiveTurn(_) => !(stage matches Stage::Drain {
                stage: DrainStage::GetActiveTurn,
                ..
            }),
            Reply::NextTurn(_) => !(stage matches Stage::Drain {
                stage: DrainStage::GetNextTurn,
                ..
            }),
            Reply::Started(_) => !(stage matches Stage::Drain {
                stage: DrainStage::StartTurn { .. },
                ..
            }),
            Reply::ErrorRecorded(_) => !(stage matches Stage::Drain {
                stage: DrainStage::RecordError { .. },
                ..
            }),
        },
    ensures
        next_stage(thread_id, stage, reply) == stage,
        !awaits(stage, reply),
{
}

/// Where the queue of a thread is kept: with a loaded thread that is written to
/// disk and carries a database, else with the process. A loaded thread that is not
/// written to disk has none, and neither has one that is not found on disk.
pub proof fn law_where_queues_are_kept(
    thread_id: ThreadId,
    has_rollout_path: bool,
    has_state_db: bool,
    reason: String,
)
    ensures
        ({
            let thread = LoadedThread { has_rollout_path, has_state_db };
            let loaded = state_db_of_loaded(thread_id, thread);
            &&& has_rollout_path && has_state_db ==> loaded == Ok::<StateDb, RequestError>(
                StateDb::OfThread,
            )
            &&& has_rollout_path && !has_state_db ==> loaded == Ok::<StateDb, RequestError>(
                StateDb::OfProcess,
            )
            &&& !has_rollout_path ==> loaded == Err::<StateDb, RequestError>(
                RequestError::EphemeralThread { thread_id },
            )
        }),
        state_db_of_located(thread_id, Ok(true)) == Ok::<StateDb, RequestError>(StateDb::OfProcess),
        state_db_of_located(thread_id, Ok(false)) == Err::<StateDb, RequestError>(
            RequestError::ThreadNotFound { thread_id },
        ),
        state_db_of_located(thread_id, Err(reason)) == Err::<StateDb, RequestError>(
            RequestError::LocateThread { thread_id, reason },
        ),
{
}

} // verus!
