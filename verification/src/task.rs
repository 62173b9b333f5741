//! The course of a queue operation, from one piece of outside work to the next.
//!
//! A [`Task`] is one operation on the queue of one thread. Its [`Stage`] names
//! the outside work that it waits for, with all that the work is to be done on.
//! Whoever does the work tells the task what came back, as a [`Reply`], and the
//! task moves to its next stage. At [`Stage::Done`] nothing is left to do.
use vstd::prelude::*;

use crate::api::NextTurn;
use crate::api::QueuedTurn;
use crate::error::RequestError;
use crate::thread_id::ThreadId;

verus! {

/// Which database holds the queue of a thread.
#[derive(Debug, Clone, Copy, PartialEq, Eq, Structural)]
pub enum StateDb {
    /// The one that the loaded thread carries.
    OfThread,
    /// The one that the process opened.
    OfProcess,
}

/// What matters of a thread that is loaded.
#[derive(Debug, Clone, Copy, PartialEq, Eq, Structural)]
pub struct LoadedThread {
    /// The thread is written to disk.
    pub has_rollout_path: bool,
    /// The thread carries a database of its own.
    pub has_state_db: bool,
}

/// What is to be done to a queue.
#[derive(Debug, PartialEq)]
pub enum Operation<P> {
    /// Append a turn with these parameters.
    Add { turn_start_params: P },
    /// Return the queue.
    List,
    /// Take a turn out.
    Delete { queued_turn_id: String },
    /// Put the turns into this order.
    Reorder { queued_turn_ids: Vec<String> },
    /// Send a client that resumes the thread the queue, then drain it.
    Resume,
    /// Dispatch the next turn, if the thread is idle.
    Drain,
}

/// What a request is answered when it is granted.
#[derive(Debug, PartialEq)]
pub enum Response<P> {
    Added { queued_turn: QueuedTurn<P> },
    Listed { queued_turns: Vec<QueuedTurn<P>> },
    Deleted { deleted: bool },
    Reordered { queued_turns: Vec<QueuedTurn<P>> },
}

/// How a task ends.
#[derive(Debug, PartialEq)]
pub enum Finish<P> {
    /// With an answer to the client that made the request.
    Answer(Result<Response<P>, RequestError>),
    /// With nothing to say: no client asked.
    Silent,
}

/// Why the clients are told what the queue has become.
#[derive(Debug, PartialEq)]
pub enum Cause<P> {
    Added { queued_turn: QueuedTurn<P> },
    Deleted,
    Reordered,
    /// A drain took a turn out or marked it; the task then ends like this.
    Drained { finish: Finish<P> },
}

/// What a queue is read for.
#[derive(Debug, PartialEq)]
pub enum Purpose<P> {
    /// To be the answer.
    Answer,
    /// To be sent to a client that resumes the thread.
    Snapshot,
    /// To tell the clients what it has become.
    Announce(Cause<P>),
}

/// How far a drain has come.
#[derive(Debug, PartialEq)]
pub enum DrainStage<P> {
    /// Waits for the thread, if it is loaded.
    GetThread,
    /// Waits for whether the agent of the thread is running.
    GetAgentStatus,
    /// Waits for whether a turn is in progress.
    GetActiveTurn,
    /// Waits for the first turn of the queue that can be dispatched.
    GetNextTurn,
    /// Waits for this turn to be started.
    StartTurn { queued_turn_id: String, turn_start_params: P },
    /// Waits for this turn, now started, to be taken out of the queue.
    RemoveTurn { queued_turn_id: String },
    /// Waits for the message to be recorded with this turn, which did not start.
    RecordError { queued_turn_id: String, message: String },
}

/// The outside work that a task waits for.
#[derive(Debug, PartialEq)]
pub enum Stage<P> {
    /// The lock on the queue of the thread.
    Lock { operation: Operation<P> },
    /// The thread, if it is loaded.
    GetThread { operation: Operation<P> },
    /// The place on disk of a thread that is not loaded.
    FindThreadPath { operation: Operation<P> },
    /// The parameters of the turn to add, as JSON.
    SerializeParams { db: StateDb, turn_start_params: P },
    /// The turn to be appended.
    Append { db: StateDb, params_json: String },
    /// The turn to be deleted.
    Delete { db: StateDb, queued_turn_id: String },
    /// The turns to be reordered.
    Reorder { db: StateDb, queued_turn_ids: Vec<String> },
    /// The queue.
    ReadQueue { db: StateDb, purpose: Purpose<P> },
    /// Whether the thread has a listener.
    GetListener { db: StateDb, queued_turns: Vec<QueuedTurn<P>>, cause: Cause<P> },
    /// The listener to take the changed queue.
    SendChanged { db: StateDb, queued_turns: Vec<QueuedTurn<P>>, cause: Cause<P> },
    /// The clients to be sent the changed queue.
    NotifyChanged { db: StateDb, queued_turns: Vec<QueuedTurn<P>>, cause: Cause<P> },
    /// Whether the thread has a listener that can send the snapshot.
    GetSnapshotListener { db: StateDb },
    /// The listener to take the order to send the snapshot.
    SendSnapshot { db: StateDb },
    /// The clients to be sent the snapshot.
    NotifySnapshot { queued_turns: Vec<QueuedTurn<P>> },
    /// What the drain waits for. The task then ends like this.
    Drain { db: StateDb, stage: DrainStage<P>, finish: Finish<P> },
    /// Nothing.
    Done { finish: Finish<P> },
}

/// What came back from outside work.
#[derive(Debug, PartialEq)]
pub enum Reply<P> {
    /// The lock is held.
    Locked,
    /// The thread, or nothing where it is not loaded.
    Thread(Option<LoadedThread>),
    /// Whether the thread was found on disk.
    ThreadPath(Result<bool, String>),
    Serialized(Result<String, String>),
    Appended(Result<QueuedTurn<P>, RequestError>),
    /// Whether there was such a turn.
    Deleted(Result<bool, String>),
    Reordered(Result<(), String>),
    Queue(Result<Vec<QueuedTurn<P>>, RequestError>),
    /// Whether there is a listener.
    Listener(bool),
    /// Whether the listener took what it was sent.
    Sent(bool),
    /// The clients have been notified.
    Notified,
    /// Whether the agent is running.
    AgentRunning(bool),
    /// Whether a turn is in progress.
    ActiveTurn(bool),
    NextTurn(NextTurn<P>),
    /// Started, or the message of the error.
    Started(Result<(), String>),
    ErrorRecorded(Result<(), String>),
}

/// The database for the queue of a thread that is loaded. A thread that is not
/// written to disk has none.
pub open spec fn state_db_of_loaded(thread_id: ThreadId, thread: LoadedThread) -> Result<
    StateDb,
    RequestError,
> {
    if !thread.has_rollout_path {
        Err(RequestError::EphemeralThread { thread_id })
    } else if thread.has_state_db {
        Ok(StateDb::OfThread)
    } else {
        Ok(StateDb::OfProcess)
    }
}

/// The database for the queue of a thread that is not loaded and was looked for
/// on disk.
pub open spec fn state_db_of_located(thread_id: ThreadId, located: Result<bool, String>) -> Result<
    StateDb,
    RequestError,
> {
    match located {
        Ok(true) => Ok(StateDb::OfProcess),
        Ok(false) => Err(RequestError::ThreadNotFound { thread_id }),
        Err(reason) => Err(RequestError::LocateThread { thread_id, reason }),
    }
}

/// The stage that an operation begins with. What changes the queue waits for its
/// lock first.
pub open spec fn first_stage<P>(operation: Operation<P>) -> Stage<P> {
    match operation {
        Operation::List | Operation::Resume => Stage::GetThread { operation },
        _ => Stage::Lock { operation },
    }
}

/// The beginning of a drain.
pub open spec fn drain_stage<P>(db: StateDb, finish: Finish<P>) -> Stage<P> {
    Stage::Drain { db, stage: DrainStage::GetThread, finish }
}

/// The stage after the database was opened, or was not.
pub open spec fn stage_after_opening<P>(
    operation: Operation<P>,
    opened: Result<StateDb, RequestError>,
) -> Stage<P> {
    match (opened, operation) {
        (Ok(db), Operation::Add { turn_start_params }) => Stage::SerializeParams {
            db,
            turn_start_params,
        },
        (Ok(db), Operation::List) => Stage::ReadQueue { db, purpose: Purpose::Answer },
        (Ok(db), Operation::Delete { queued_turn_id }) => Stage::Delete { db, queued_turn_id },
        (Ok(db), Operation::Reorder { queued_turn_ids }) => Stage::Reorder { db, queued_turn_ids },
        (Ok(db), Operation::Resume) => Stage::GetSnapshotListener { db },
        (Ok(db), Operation::Drain) => drain_stage(db, Finish::Silent),
        (Err(_), Operation::Resume) => first_stage(Operation::Drain),
        (Err(_), Operation::Drain) => Stage::Done { finish: Finish::Silent },
        (Err(error), _) => Stage::Done { finish: Finish::Answer(Err(error)) },
    }
}

/// The stage after the queue was read, or was not.
pub open spec fn stage_after_reading<P>(
    db: StateDb,
    purpose: Purpose<P>,
    queue: Result<Vec<QueuedTurn<P>>, RequestError>,
) -> Stage<P> {
    match (queue, purpose) {
        (Ok(queued_turns), Purpose::Answer) => Stage::Done {
            finish: Finish::Answer(Ok(Response::Listed { queued_turns })),
        },
        (Ok(queued_turns), Purpose::Snapshot) => Stage::NotifySnapshot { queued_turns },
        (Ok(queued_turns), Purpose::Announce(cause)) => Stage::GetListener {
            db,
            queued_turns,
            cause,
        },
        (Err(_), Purpose::Snapshot) => first_stage(Operation::Drain),
        (Err(_), Purpose::Announce(Cause::Drained { finish })) => Stage::Done { finish },
        (Err(error), _) => Stage::Done { finish: Finish::Answer(Err(error)) },
    }
}

/// The stage after the clients were told of a change. Whatever changed the queue
/// is followed by a drain, which is not followed by another.
pub open spec fn stage_after_announcing<P>(
    db: StateDb,
    queued_turns: Vec<QueuedTurn<P>>,
    cause: Cause<P>,
) -> Stage<P> {
    match cause {
        Cause::Added { queued_turn } => drain_stage(
            db,
            Finish::Answer(Ok(Response::Added { queued_turn })),
        ),
        Cause::Deleted => drain_stage(db, Finish::Answer(Ok(Response::Deleted { deleted: true }))),
        Cause::Reordered => drain_stage(
            db,
            Finish::Answer(Ok(Response::Reordered { queued_turns })),
        ),
        Cause::Drained { finish } => Stage::Done { finish },
    }
}

/// The stage of a drain after `reply`. The drain gives up where the thread is not
/// loaded or is busy, where no turn can be dispatched, and where its own changes
/// to the queue fail.
pub open spec fn stage_after_drain<P>(
    db: StateDb,
    stage: DrainStage<P>,
    finish: Finish<P>,
    reply: Reply<P>,
) -> Stage<P> {
    match (stage, reply) {
        (DrainStage::GetThread, Reply::Thread(Some(_))) => Stage::Drain {
            db,
            stage: DrainStage::GetAgentStatus,
            finish,
        },
        (DrainStage::GetThread, Reply::Thread(None)) => Stage::Done { finish },
        (DrainStage::GetAgentStatus, Reply::AgentRunning(running)) => if running {
            Stage::Done { finish }
        } else {
            Stage::Drain { db, stage: DrainStage::GetActiveTurn, finish }
        },
        (DrainStage::GetActiveTurn, Reply::ActiveTurn(active)) => if active {
            Stage::Done { finish }
        } else {
            Stage::Drain { db, stage: DrainStage::GetNextTurn, finish }
        },
        (DrainStage::GetNextTurn, Reply::NextTurn(next)) => match next {
            NextTurn::Ready { queued_turn_id, turn_start_params } => Stage::Drain {
                db,
                stage: DrainStage::StartTurn { queued_turn_id, turn_start_params },
                finish,
            },
            _ => Stage::Done { finish },
        },
        (DrainStage::StartTurn { queued_turn_id, .. }, Reply::Started(started)) => match started {
            Ok(_) => Stage::Drain { db, stage: DrainStage::RemoveTurn { queued_turn_id }, finish },
            Err(message) => Stage::Drain {
                db,
                stage: DrainStage::RecordError { queued_turn_id, message },
                finish,
            },
        },
        (DrainStage::RemoveTurn { .. }, Reply::Deleted(removed)) => match removed {
            Ok(_) => Stage::ReadQueue { db, purpose: Purpose::Announce(Cause::Drained { finish }) },
            Err(_) => Stage::Done { finish },
        },
        (DrainStage::RecordError { .. }, Reply::ErrorRecorded(recorded)) => match recorded {
            Ok(_) => Stage::ReadQueue { db, purpose: Purpose::Announce(Cause::Drained { finish }) },
            Err(_) => Stage::Done { finish },
        },
        (stage, _) => Stage::Drain { db, stage, finish },
    }
}

/// The stage after `reply`. A reply that the stage does not wait for changes
/// nothing.
pub open spec fn next_stage<P>(thread_id: ThreadId, stage: Stage<P>, reply: Reply<P>) -> Stage<P> {
    match (stage, reply) {
        (Stage::Lock { operation }, Reply::Locked) => Stage::GetThread { operation },
        (Stage::GetThread { operation }, Reply::Thread(thread)) => match thread {
            Some(thread) => stage_after_opening(operation, state_db_of_loaded(thread_id, thread)),
            None => Stage::FindThreadPath { operation },
        },
        (Stage::FindThreadPath { operation }, Reply::ThreadPath(located)) => stage_after_opening(
            operation,
            state_db_of_located(thread_id, located),
        ),
        (Stage::SerializeParams { db, .. }, Reply::Serialized(serialized)) => match serialized {
            Ok(params_json) => Stage::Append { db, params_json },
            Err(reason) => Stage::Done {
                finish: Finish::Answer(Err(RequestError::SerializeParams { reason })),
            },
        },
        (Stage::Append { db, .. }, Reply::Appended(appended)) => match appended {
            Ok(queued_turn) => Stage::ReadQueue {
                db,
                purpose: Purpose::Announce(Cause::Added { queued_turn }),
            },
            Err(error) => Stage::Done { finish: Finish::Answer(Err(error)) },
        },
        (Stage::Delete { db, .. }, Reply::Deleted(deleted)) => match deleted {
            Ok(true) => Stage::ReadQueue { db, purpose: Purpose::Announce(Cause::Deleted) },
            Ok(false) => Stage::Done {
                finish: Finish::Answer(Ok(Response::Deleted { deleted: false })),
            },
            Err(reason) => Stage::Done {
                finish: Finish::Answer(Err(RequestError::DeleteTurn { reason })),
            },
        },
        (Stage::Reorder { db, .. }, Reply::Reordered(reordered)) => match reordered {
            Ok(_) => Stage::ReadQueue { db, purpose: Purpose::Announce(Cause::Reordered) },
            Err(reason) => Stage::Done {
                finish: Finish::Answer(Err(RequestError::ReorderTurns { reason })),
            },
        },
        (Stage::ReadQueue { db, purpose }, Reply::Queue(queue)) => stage_after_reading(
            db,
            purpose,
            queue,
        ),
        (Stage::GetListener { db, queued_turns, cause }, Reply::Listener(listens)) => if listens {
            Stage::SendChanged { db, queued_turns, cause }
        } else {
            Stage::NotifyChanged { db, queued_turns, cause }
        },
        (Stage::SendChanged { db, queued_turns, cause }, Reply::Sent(taken)) => if taken {
            stage_after_announcing(db, queued_turns, cause)
        } else {
            Stage::NotifyChanged { db, queued_turns, cause }
        },
        (Stage::NotifyChanged { db, queued_turns, cause }, Reply::Notified) =>
            stage_after_announcing(db, queued_turns, cause),
        (Stage::GetSnapshotListener { db }, Reply::Listener(listens)) => if listens {
            Stage::SendSnapshot { db }
        } else {
            Stage::ReadQueue { db, purpose: Purpose::Snapshot }
        },
        (Stage::SendSnapshot { db }, Reply::Sent(taken)) => if taken {
            first_stage(Operation::Drain)
        } else {
            Stage::ReadQueue { db, purpose: Purpose::Snapshot }
        },
        (Stage::NotifySnapshot { .. }, Reply::Notified) => first_stage(Operation::Drain),
        (Stage::Drain { db, stage, finish }, reply) => stage_after_drain(db, stage, finish, reply),
        (stage, _) => stage,
    }
}

/// The database for the queue of a thread that is loaded.
pub fn state_db_for_loaded_thread(thread_id: &ThreadId, thread: LoadedThread) -> (db: Result<
    StateDb,
    RequestError,
>)
    ensures
        db == state_db_of_loaded(*thread_id, thread),
{
    if !thread.has_rollout_path {
        Err(RequestError::EphemeralThread { thread_id: thread_id.clone() })
    } else if thread.has_state_db {
        Ok(StateDb::OfThread)
    } else {
        Ok(StateDb::OfProcess)
    }
}

/// The database for the queue of a thread that is not loaded: `located` says
/// whether it was found on disk.
pub fn state_db_for_located_thread(thread_id: &ThreadId, located: Result<bool, String>) -> (db:
    Result<StateDb, RequestError>)
    ensures
        db == state_db_of_located(*thread_id, located),
{
    match located {
        Ok(true) => Ok(StateDb::OfProcess),
        Ok(false) => Err(RequestError::ThreadNotFound { thread_id: thread_id.clone() }),
        Err(reason) => Err(RequestError::LocateThread { thread_id: thread_id.clone(), reason }),
    }
}

/// One operation on the queue of one thread.
#[derive(Debug, PartialEq)]
pub struct Task<P> {
    pub thread_id: ThreadId,
    pub stage: Stage<P>,
}

impl<P> Task<P> {
    /// A task that has not begun to wait.
    pub fn begin(thread_id: ThreadId, operation: Operation<P>) -> (task: Self)
        ensures
            task == (Task { thread_id, stage: first_stage::<P>(operation) }),
    {
        let stage = match operation {
            Operation::List | Operation::Resume => Stage::GetThread { operation },
            _ => Stage::Lock { operation },
        };
        Task { thread_id, stage }
    }

    fn after_opening(operation: Operation<P>, opened: Result<StateDb, RequestError>) -> (stage: Stage<
        P,
    >)
        ensures
            stage == stage_after_opening::<P>(operation, opened),
    {
        match (opened, operation) {
            (Ok(db), Operation::Add { turn_start_params }) => Stage::SerializeParams {
                db,
                turn_start_params,
            },
            (Ok(db), Operation::List) => Stage::ReadQueue { db, purpose: Purpose::Answer },
            (Ok(db), Operation::Delete { queued_turn_id }) => Stage::Delete { db, queued_turn_id },
            (Ok(db), Operation::Reorder { queued_turn_ids }) => Stage::Reorder {
                db,
                queued_turn_ids,
            },
            (Ok(db), Operation::Resume) => Stage::GetSnapshotListener { db },
            (Ok(db), Operation::Drain) => Stage::Drain {
                db,
                stage: DrainStage::GetThread,
                finish: Finish::Silent,
            },
            (Err(_), Operation::Resume) => Stage::Lock { operation: Operation::Drain },
            (Err(_), Operation::Drain) => Stage::Done { finish: Finish::Silent },
            (Err(error), _) => Stage::Done { finish: Finish::Answer(Err(error)) },
        }
    }

    fn after_reading(
        db: StateDb,
        purpose: Purpose<P>,
        queue: Result<Vec<QueuedTurn<P>>, RequestError>,
    ) -> (stage: Stage<P>)
        ensures
            stage == stage_after_reading(db, purpose, queue),
    {
        match (queue, purpose) {
            (Ok(queued_turns), Purpose::Answer) => Stage::Done {
                finish: Finish::Answer(Ok(Response::Listed { queued_turns })),
            },
            (Ok(queued_turns), Purpose::Snapshot) => Stage::NotifySnapshot { queued_turns },
            (Ok(queued_turns), Purpose::Announce(cause)) => Stage::GetListener {
                db,
                queued_turns,
                cause,
            },
            (Err(_), Purpose::Snapshot) => Stage::Lock { operation: Operation::Drain },
            (Err(_), Purpose::Announce(Cause::Drained { finish })) => Stage::Done { finish },
            (Err(error), _) => Stage::Done { finish: Finish::Answer(Err(error)) },
        }
    }

    fn after_announcing(db: StateDb, queued_turns: Vec<QueuedTurn<P>>, cause: Cause<P>) -> (stage:
        Stage<P>)
        ensures
            stage == stage_after_announcing(db, queued_turns, cause),
    {
        let response = match cause {
            Cause::Added { queued_turn } => Response::Added { queued_turn },
            Cause::Deleted => Response::Deleted { deleted: true },
            Cause::Reordered => Response::Reordered { queued_turns },
            Cause::Drained { finish } => return Stage::Done { finish },
        };
        Stage::Drain { db, stage: DrainStage::GetThread, finish: Finish::Answer(Ok(response)) }
    }

    /// Moves a drain on. It dispatches at most one turn, and only where the
    /// thread is loaded and idle.
    pub fn drain_thread_queue_if_idle_locked(
        db: StateDb,
        stage: DrainStage<P>,
        finish: Finish<P>,
        reply: Reply<P>,
    ) -> (next: Stage<P>)
        ensures
            next == stage_after_drain(db, stage, finish, reply),
    {
        let stage = match (stage, reply) {
            (DrainStage::GetThread, Reply::Thread(thread)) => match thread {
                Some(_) => DrainStage::GetAgentStatus,
                None => return Stage::Done { finish },
            },
            (DrainStage::GetAgentStatus, Reply::AgentRunning(running)) => if running {
                return Stage::Done { finish };
            } else {
                DrainStage::GetActiveTurn
            },
            (DrainStage::GetActiveTurn, Reply::ActiveTurn(active)) => if active {
                return Stage::Done { finish };
            } else {
                DrainStage::GetNextTurn
            },
            (DrainStage::GetNextTurn, Reply::NextTurn(next)) => match next {
                NextTurn::Ready { queued_turn_id, turn_start_params } => DrainStage::StartTurn {
                    queued_turn_id,
                    turn_start_params,
                },
                _ => return Stage::Done { finish },
            },
            (DrainStage::StartTurn { queued_turn_id, .. }, Reply::Started(started)) =>
                match started {
                    Ok(_) => DrainStage::RemoveTurn { queued_turn_id },
                    Err(message) => DrainStage::RecordError { queued_turn_id, message },
                },
            (DrainStage::RemoveTurn { .. }, Reply::Deleted(removed)) => match removed {
                Ok(_) => return Stage::ReadQueue {
                    db,
                    purpose: Purpose::Announce(Cause::Drained { finish }),
                },
                Err(_) => return Stage::Done { finish },
            },
            (DrainStage::RecordError { .. }, Reply::ErrorRecorded(recorded)) => match recorded {
                Ok(_) => return Stage::ReadQueue {
                    db,
                    purpose: Purpose::Announce(Cause::Drained { finish }),
                },
                Err(_) => return Stage::Done { finish },
            },
            (stage, _) => stage,
        };
        Stage::Drain { db, stage, finish }
    }

    /// Moves the task on: `reply` is what came back from the work that the task
    /// waits for.
    pub fn step(self, reply: Reply<P>) -> (next: Self)
        ensures
            next.thread_id == self.thread_id,
            next.stage == next_stage(self.thread_id, self.stage, reply),
    {
        let thread_id = self.thread_id;
        let stage = match (self.stage, reply) {
            (Stage::Lock { operation }, Reply::Locked) => Stage::GetThread { operation },
            (Stage::GetThread { operation }, Reply::Thread(thread)) => match thread {
                Some(thread) => Self::after_opening(
                    operation,
                    state_db_for_loaded_thread(&thread_id, thread),
                ),
                None => Stage::FindThreadPath { operation },
            },
            (Stage::FindThreadPath { operation }, Reply::ThreadPath(located)) =>
                Self::after_opening(operation, state_db_for_located_thread(&thread_id, located)),
            (Stage::SerializeParams { db, .. }, Reply::Serialized(serialized)) => match serialized {
                Ok(params_json) => Stage::Append { db, params_json },
                Err(reason) => Stage::Done {
                    finish: Finish::Answer(Err(RequestError::SerializeParams { reason })),
                },
            },
            (Stage::Append { db, .. }, Reply::Appended(appended)) => match appended {
                Ok(queued_turn) => Stage::ReadQueue {
                    db,
                    purpose: Purpose::Announce(Cause::Added { queued_turn }),
                },
                Err(error) => Stage::Done { finish: Finish::Answer(Err(error)) },
            },
            (Stage::Delete { db, .. }, Reply::Deleted(deleted)) => match deleted {
                Ok(true) => Stage::ReadQueue { db, purpose: Purpose::Announce(Cause::Deleted) },
                Ok(false) => Stage::Done {
                    finish: Finish::Answer(Ok(Response::Deleted { deleted: false })),
                },
                Err(reason) => Stage::Done {
                    finish: Finish::Answer(Err(RequestError::DeleteTurn { reason })),
                },
            },
            (Stage::Reorder { db, .. }, Reply::Reordered(reordered)) => match reordered {
                Ok(_) => Stage::ReadQueue { db, purpose: Purpose::Announce(Cause::Reordered) },
                Err(reason) => Stage::Done {
                    finish: Finish::Answer(Err(RequestError::ReorderTurns { reason })),
                },
            },
            (Stage::ReadQueue { db, purpose }, Reply::Queue(queue)) => Self::after_reading(
                db,
                purpose,
                queue,
            ),
            (Stage::GetListener { db, queued_turns, cause }, Reply::Listener(listens)) =>
                if listens {
                    Stage::SendChanged { db, queued_turns, cause }
                } else {
                    Stage::NotifyChanged { db, queued_turns, cause }
                },
            (Stage::SendChanged { db, queued_turns, cause }, Reply::Sent(taken)) => if taken {
                Self::after_announcing(db, queued_turns, cause)
            } else {
                Stage::NotifyChanged { db, queued_turns, cause }
            },
            (Stage::NotifyChanged { db, queued_turns, cause }, Reply::Notified) =>
                Self::after_announcing(db, queued_turns, cause),
            (Stage::GetSnapshotListener { db }, Reply::Listener(listens)) => if listens {
                Stage::SendSnapshot { db }
            } else {
                Stage::ReadQueue { db, purpose: Purpose::Snapshot }
            },
            (Stage::SendSnapshot { db }, Reply::Sent(taken)) => if taken {
                Stage::Lock { operation: Operation::Drain }
            } else {
                Stage::ReadQueue { db, purpose: Purpose::Snapshot }
            },
            (Stage::NotifySnapshot { .. }, Reply::Notified) => Stage::Lock {
                operation: Operation::Drain,
            },
            (Stage::Drain { db, stage, finish }, reply) => Self::drain_thread_queue_if_idle_locked(
                db,
                stage,
                finish,
                reply,
            ),
            (stage, _) => stage,
        };
        Task { thread_id, stage }
    }
}

} // verus!
