//! Several tasks on the queue of one thread, side by side.
//!
//! The tasks move in any order. The one rule is that of the lock: it is granted
//! when no task holds it, and the task that got it holds it until it is done.
use vstd::prelude::*;

use crate::course::awaits;
use crate::discipline::behind_lock;
use crate::discipline::needs_lock;
use crate::task::Operation;
use crate::task::Reply;
use crate::task::Stage;
use crate::task::first_stage;
use crate::task::next_stage;
use crate::thread_id::ThreadId;

verus! {

/// The tasks on one thread, and which of them holds the lock.
pub struct Tasks<P> {
    pub stages: Seq<Stage<P>>,
    pub holder: Option<int>,
}

/// What can happen next.
pub enum Move<P> {
    /// Another task begins.
    Begin { operation: Operation<P> },
    /// A task gets the reply that it waits for.
    Answer { task: int, reply: Reply<P> },
}

/// The move can happen: the task waits for the reply, and the lock is free where
/// it is granted.
pub open spec fn possible<P>(tasks: Tasks<P>, step: Move<P>) -> bool {
    match step {
        Move::Begin { .. } => true,
        Move::Answer { task, reply } => {
            &&& 0 <= task < tasks.stages.len()
            &&& awaits(tasks.stages[task], reply)
            &&& tasks.stages[task] is Lock ==> tasks.holder is None
        },
    }
}

/// The tasks after the move.
pub open spec fn moved<P>(thread_id: ThreadId, tasks: Tasks<P>, step: Move<P>) -> Tasks<P> {
    match step {
        Move::Begin { operation } => Tasks {
            stages: tasks.stages.push(first_stage(operation)),
            holder: tasks.holder,
        },
        Move::Answer { task, reply } => {
            let next = next_stage(thread_id, tasks.stages[task], reply);
            Tasks {
                stages: tasks.stages.update(task, next),
                holder: if tasks.stages[task] is Lock {
                    Some(task)
                } else if tasks.holder == Some(task) && next is Done {
                    None
                } else {
                    tasks.holder
                },
            }
        },
    }
}

/// The tasks after all the moves, from none on.
pub open spec fn reached<P>(thread_id: ThreadId, moves: Seq<Move<P>>) -> Tasks<P>
    decreases moves.len(),
{
    if moves.len() == 0 {
        Tasks { stages: Seq::empty(), holder: None }
    } else {
        moved(thread_id, reached(thread_id, moves.drop_last()), moves.last())
    }
}

/// Each of the moves can happen when its turn comes.
pub open spec fn all_possible<P>(thread_id: ThreadId, moves: Seq<Move<P>>) -> bool
    decreases moves.len(),
{
    moves.len() > 0 ==> all_possible(thread_id, moves.drop_last()) && possible(
        reached(thread_id, moves.drop_last()),
        moves.last(),
    )
}

/// The lock is only asked for by what changes or drains the queue, and the task
/// that holds it is the one that has come past it.
spec fn orderly<P>(tasks: Tasks<P>) -> bool {
    &&& tasks.holder matches Some(holder) ==> 0 <= holder < tasks.stages.len() && behind_lock(
        tasks.stages[holder],
    )
    &&& forall|task: int|
        0 <= task < tasks.stages.len() && behind_lock(#[trigger] tasks.stages[task])
            ==> tasks.holder == Some(task)
    &&& forall|task: int|
        0 <= task < tasks.stages.len() ==> (#[trigger] tasks.stages[task] matches Stage::Lock {
            operation,
        } ==> !(operation is List) && !(operation is Resume))
}

proof fn lemma_orderly<P>(thread_id: ThreadId, moves: Seq<Move<P>>)
    requires
        all_possible(thread_id, moves),
    ensures
        orderly(reached(thread_id, moves)),
    decreases moves.len(),
{
    if moves.len() > 0 {
        lemma_orderly(thread_id, moves.drop_last());
        lemma_orderly_move(thread_id, reached(thread_id, moves.drop_last()), moves.last());
    }
}

proof fn lemma_orderly_move<P>(thread_id: ThreadId, tasks: Tasks<P>, step: Move<P>)
    requires
        orderly(tasks),
        possible(tasks, step),
    ensures
        orderly(moved(thread_id, tasks, step)),
{
    match step {
        Move::Begin { operation } => {
            let after = moved(thread_id, tasks, step);
            assert forall|task: int| 0 <= task < after.stages.len() && behind_lock(
                #[trigger] after.stages[task],
            ) implies after.holder == Some(task) by {
                assert(task < tasks.stages.len());
            }
        },
        Move::Answer { task, reply } => {
            let stage = tasks.stages[task];
            let next = next_stage(thread_id, stage, reply);
            assert(behind_lock(next) ==> behind_lock(stage) || stage is Lock);
            assert(stage is Lock ==> behind_lock(next));
            assert(behind_lock(stage) ==> behind_lock(next) || next is Done);
        },
    }
}

/// Of all the tasks on a thread, at most one at a time is past the lock. So no two
/// of them change, announce or drain the queue side by side.
pub proof fn law_changes_and_drains_take_turns<P>(
    thread_id: ThreadId,
    moves: Seq<Move<P>>,
    one: int,
    other: int,
)
    requires
        all_possible(thread_id, moves),
        0 <= one < reached(thread_id, moves).stages.len(),
        0 <= other < reached(thread_id, moves).stages.len(),
        behind_lock(reached(thread_id, moves).stages[one]),
        behind_lock(reached(thread_id, moves).stages[other]),
    ensures
        one == other,
{
    lemma_orderly(thread_id, moves);
}

/// A task that is past the lock stays so until it is done: whatever it waits for
/// next, it waits for under the same lock. What changes, announces or drains the
/// queue is past the lock.
pub proof fn law_the_lock_is_kept_to_the_end<P>(
    thread_id: ThreadId,
    stage: Stage<P>,
    reply: Reply<P>,
)
    ensures
        behind_lock(stage) ==> behind_lock(next_stage(thread_id, stage, reply)) || next_stage(
            thread_id,
            stage,
            reply,
        ) is Done,
        needs_lock(stage) ==> behind_lock(stage),
{
}

/// A change, its announcement and its drain are one: from the moment a task is
/// past the lock until it is done, it holds the lock and no other task is past it.
/// So what one task announces cannot be overtaken by what another one does.
pub proof fn law_no_task_comes_between<P>(
    thread_id: ThreadId,
    moves: Seq<Move<P>>,
    more: Seq<Move<P>>,
    task: int,
    other: int,
)
    requires
        all_possible(thread_id, moves + more),
        0 <= task < reached(thread_id, moves).stages.len(),
        behind_lock(reached(thread_id, moves).stages[task]),
        !(reached(thread_id, moves + more).stages[task] is Done),
        0 <= other < reached(thread_id, moves + more).stages.len(),
        other != task,
    ensures
        reached(thread_id, moves + more).holder == Some(task),
        behind_lock(reached(thread_id, moves + more).stages[task]),
        !behind_lock(reached(thread_id, moves + more).stages[other]),
{
    lemma_past_the_lock(thread_id, moves, more, task);
    lemma_orderly(thread_id, moves + more);
}

proof fn lemma_past_the_lock<P>(
    thread_id: ThreadId,
    moves: Seq<Move<P>>,
    more: Seq<Move<P>>,
    task: int,
)
    requires
        all_possible(thread_id, moves + more),
        0 <= task < reached(thread_id, moves).stages.len(),
        behind_lock(reached(thread_id, moves).stages[task]),
    ensures
        task < reached(thread_id, moves + more).stages.len(),
        behind_lock(reached(thread_id, moves + more).stages[task]) || reached(
            thread_id,
            moves + more,
        ).stages[task] is Done,
    decreases more.len(),
{
    if more.len() == 0 {
        assert(moves + more == moves);
    } else {
        assert((moves + more).drop_last() == moves + more.drop_last());
        lemma_past_the_lock(thread_id, moves, more.drop_last(), task);
    }
}

/// A task that is done does not hold the lock, so the lock is free once all tasks
/// are done.
pub proof fn law_the_lock_comes_free<P>(thread_id: ThreadId, moves: Seq<Move<P>>)
    requires
        all_possible(thread_id, moves),
        forall|task: int|
            0 <= task < reached(thread_id, moves).stages.len() ==> (#[trigger] reached(
                thread_id,
                moves,
            ).stages[task]) is Done,
    ensures
        reached(thread_id, moves).holder is None,
{
    lemma_orderly(thread_id, moves);
}

/// Some task can always move on, as long as not all are done: tasks do not wait
/// for each other in a circle.
pub proof fn law_tasks_do_not_block_each_other<P>(
    thread_id: ThreadId,
    moves: Seq<Move<P>>,
    waiting: int,
)
    requires
        all_possible(thread_id, moves),
        0 <= waiting < reached(thread_id, moves).stages.len(),
        !(reached(thread_id, moves).stages[waiting] is Done),
    ensures
        exists|task: int|
            0 <= task < reached(thread_id, moves).stages.len() && can_move(
                reached(thread_id, moves),
                task,
            ),
{
    let tasks = reached(thread_id, moves);
    lemma_orderly(thread_id, moves);
    match tasks.holder {
        Some(holder) => {
            assert(can_move(tasks, holder));
        },
        None => {
            assert(can_move(tasks, waiting));
        },
    }
}

/// Any reply to what the task waits for can come.
pub open spec fn can_move<P>(tasks: Tasks<P>, task: int) -> bool {
    &&& !(tasks.stages[task] is Done)
    &&& forall|reply: Reply<P>|
        awaits(tasks.stages[task], reply) ==> #[trigger] possible(
            tasks,
            Move::Answer { task, reply },
        )
}

} // verus!
