//! What is logged on the way of a queue operation.
//!
//! A failure that ends a request is the answer to it and is not logged. A failure
//! that no client hears of is.
use vstd::prelude::*;
use vstd::string::*;

use crate::api::NextTurn;
use crate::api::QueuedTurn;
use crate::course::course;
use crate::course::lemma_course;
use crate::course::lemma_course_step_back;
use crate::error::RequestError;
use crate::task::Cause;
use crate::task::DrainStage;
use crate::task::Finish;
use crate::task::LoadedThread;
use crate::task::Operation;
use crate::task::Purpose;
use crate::task::Reply;
use crate::task::Stage;
use crate::task::StateDb;
use crate::task::Task;
use crate::task::first_stage;
use crate::task::state_db_for_loaded_thread;
use crate::task::state_db_for_located_thread;
use crate::task::state_db_of_loaded;
use crate::task::state_db_of_located;
use crate::thread_id::ThreadId;

verus! {

/// The text of a warning, where there is one.
pub open spec fn text_of(warning: Option<String>) -> Option<Seq<char>> {
    match warning {
        Some(warning) => Some(warning@),
        None => None,
    }
}

/// What is logged once the database was opened, or was not. Only work that no
/// client asked for logs a database that could not be opened.
pub open spec fn opening_warning_text<P>(
    thread_id: ThreadId,
    operation: Operation<P>,
    opened: Result<StateDb, RequestError>,
) -> Option<Seq<char>> {
    match (opened, operation) {
        (Err(error), Operation::Resume) => Some(
            "failed to open state db before emitting thread queue resume snapshot for "@
                + thread_id@ + ": "@ + error.message_text(),
        ),
        (Err(error), Operation::Drain) => Some(
            "failed to open state db before draining thread queue for "@ + thread_id@ + ": "@
                + error.message_text(),
        ),
        _ => None,
    }
}

/// What is logged in a drain.
pub open spec fn drain_warning_text<P>(
    thread_id: ThreadId,
    stage: DrainStage<P>,
    reply: Reply<P>,
) -> Option<Seq<char>> {
    match (stage, reply) {
        (DrainStage::GetNextTurn, Reply::NextTurn(NextTurn::ReadFailed { reason })) => Some(
            "failed to read next queued turn for "@ + thread_id@ + ": "@ + reason@,
        ),
        (DrainStage::GetNextTurn, Reply::NextTurn(NextTurn::DecodeFailed { reason })) => Some(
            "failed to decode next queued turn for "@ + thread_id@ + ": "@ + reason@,
        ),
        (DrainStage::RemoveTurn { queued_turn_id }, Reply::Deleted(Err(reason))) => Some(
            "failed to remove dispatched queued turn "@ + queued_turn_id@ + " for "@ + thread_id@
                + ": "@ + reason@,
        ),
        (DrainStage::RecordError { queued_turn_id, .. }, Reply::ErrorRecorded(Err(reason))) => Some(
            "failed to record dispatch error for queued turn "@ + queued_turn_id@ + " on "@
                + thread_id@ + ": "@ + reason@,
        ),
        _ => None,
    }
}

/// What is logged when `reply` comes back from what `stage` waits for.
pub open spec fn warning_text<P>(
    thread_id: ThreadId,
    stage: Stage<P>,
    reply: Reply<P>,
) -> Option<Seq<char>> {
    match (stage, reply) {
        (Stage::GetThread { operation }, Reply::Thread(Some(thread))) => opening_warning_text(
            thread_id,
            operation,
            state_db_of_loaded(thread_id, thread),
        ),
        (Stage::FindThreadPath { operation }, Reply::ThreadPath(located)) => opening_warning_text(
            thread_id,
            operation,
            state_db_of_located(thread_id, located),
        ),
        (Stage::ReadQueue { purpose: Purpose::Snapshot, .. }, Reply::Queue(Err(error))) => Some(
            error.message_text(),
        ),
        (
            Stage::ReadQueue { purpose: Purpose::Announce(Cause::Drained { .. }), .. },
            Reply::Queue(Err(error)),
        ) => Some(error.message_text()),
        (Stage::SendChanged { .. }, Reply::Sent(false)) => Some(
            "failed to enqueue thread queue update for "@ + thread_id@
                + ": listener command channel is closed"@,
        ),
        (Stage::SendSnapshot { .. }, Reply::Sent(false)) => Some(
            "failed to enqueue thread queue snapshot for "@ + thread_id@
                + ": listener command channel is closed"@,
        ),
        (Stage::Drain { stage, .. }, reply) => drain_warning_text(thread_id, stage, reply),
        _ => None,
    }
}

/// A message that names a thread.
fn about_thread(before: &str, thread_id: &ThreadId, after: &str) -> (message: String)
    ensures
        message@ == before@ + thread_id@ + after@,
{
    String::from_str(before).concat(thread_id.text.as_str()).concat(after)
}

fn opening_warning<P>(
    thread_id: &ThreadId,
    operation: &Operation<P>,
    opened: Result<StateDb, RequestError>,
) -> (warning: Option<String>)
    ensures
        text_of(warning) == opening_warning_text(*thread_id, *operation, opened),
{
    let error = match opened {
        Ok(_) => return None,
        Err(error) => error,
    };
    match operation {
        Operation::Resume => Some(
            about_thread(
                "failed to open state db before emitting thread queue resume snapshot for ",
                thread_id,
                ": ",
            ).concat(error.message().as_str()),
        ),
        Operation::Drain => Some(
            about_thread(
                "failed to open state db before draining thread queue for ",
                thread_id,
                ": ",
            ).concat(error.message().as_str()),
        ),
        _ => None,
    }
}

fn drain_warning<P>(thread_id: &ThreadId, stage: &DrainStage<P>, reply: &Reply<P>) -> (warning:
    Option<String>)
    ensures
        text_of(warning) == drain_warning_text(*thread_id, *stage, *reply),
{
    match (stage, reply) {
        (DrainStage::GetNextTurn, Reply::NextTurn(NextTurn::ReadFailed { reason })) => Some(
            about_thread("failed to read next queued turn for ", thread_id, ": ").concat(
                reason.as_str(),
            ),
        ),
        (DrainStage::GetNextTurn, Reply::NextTurn(NextTurn::DecodeFailed { reason })) => Some(
            about_thread("failed to decode next queued turn for ", thread_id, ": ").concat(
                reason.as_str(),
            ),
        ),
        (DrainStage::RemoveTurn { queued_turn_id }, Reply::Deleted(Err(reason))) => Some(
            String::from_str("failed to remove dispatched queued turn ").concat(
                queued_turn_id.as_str(),
            ).concat(" for ").concat(thread_id.text.as_str()).concat(": ").concat(reason.as_str()),
        ),
        (DrainStage::RecordError { queued_turn_id, .. }, Reply::ErrorRecorded(Err(reason))) => Some(
            String::from_str("failed to record dispatch error for queued turn ").concat(
                queued_turn_id.as_str(),
            ).concat(" on ").concat(thread_id.text.as_str()).concat(": ").concat(reason.as_str()),
        ),
        _ => None,
    }
}

impl<P> Task<P> {
    /// What is to be logged when `reply` comes back from the work that the task
    /// waits for.
    pub fn warning(&self, reply: &Reply<P>) -> (warning: Option<String>)
        ensures
            text_of(warning) == warning_text(self.thread_id, self.stage, *reply),
    {
        let thread_id = &self.thread_id;
        match (&self.stage, reply) {
            (Stage::GetThread { operation }, Reply::Thread(Some(thread))) => opening_warning(
                thread_id,
                operation,
                state_db_for_loaded_thread(thread_id, *thread),
            ),
            (Stage::FindThreadPath { operation }, Reply::ThreadPath(located)) => {
                let located = match located {
                    Ok(found) => Ok(*found),
                    Err(reason) => Err(reason.clone()),
                };
                opening_warning(
                    thread_id,
                    operation,
                    state_db_for_located_thread(thread_id, located),
                )
            },
            (Stage::ReadQueue { purpose: Purpose::Snapshot, .. }, Reply::Queue(Err(error))) => Some(
                error.message(),
            ),
            (
                Stage::ReadQueue { purpose: Purpose::Announce(Cause::Drained { .. }), .. },
                Reply::Queue(Err(error)),
            ) => Some(error.message()),
            (Stage::SendChanged { .. }, Reply::Sent(false)) => Some(
                about_thread(
                    "failed to enqueue thread queue update for ",
                    thread_id,
                    ": listener command channel is closed",
                ),
            ),
            (Stage::SendSnapshot { .. }, Reply::Sent(false)) => Some(
                about_thread(
                    "failed to enqueue thread queue snapshot for ",
                    thread_id,
                    ": listener command channel is closed",
                ),
            ),
            (Stage::Drain { stage, .. }, reply) => drain_warning(thread_id, stage, reply),
            _ => None,
        }
    }
}

/// `reply` reports that what `stage` waits for could not be done. That a turn
/// could not be started is recorded with the turn and counts as done.
pub open spec fn failure<P>(thread_id: ThreadId, stage: Stage<P>, reply: Reply<P>) -> bool {
    match (stage, reply) {
        (Stage::GetThread { .. }, Reply::Thread(Some(thread))) => state_db_of_loaded(
            thread_id,
            thread,
        ) is Err,
        (Stage::FindThreadPath { .. }, Reply::ThreadPath(located)) => state_db_of_located(
            thread_id,
            located,
        ) is Err,
        (_, Reply::Serialized(serialized)) => serialized is Err,
        (_, Reply::Appended(appended)) => appended is Err,
        (_, Reply::Deleted(deleted)) => deleted is Err,
        (_, Reply::Reordered(reordered)) => reordered is Err,
        (_, Reply::Queue(queue)) => queue is Err,
        (_, Reply::Sent(taken)) => !taken,
        (_, Reply::NextTurn(next)) => next is ReadFailed || next is DecodeFailed,
        (_, Reply::ErrorRecorded(recorded)) => recorded is Err,
        _ => false,
    }
}

/// The task ends with a refusal.
pub open spec fn refuses<P>(stage: Stage<P>) -> bool {
    stage matches Stage::Done { finish: Finish::Answer(Err(_)) }
}

/// Of every failure either the client that asked is told or a warning is logged,
/// and never both; and nothing is logged where nothing failed.
pub proof fn law_failures_are_answered_or_logged<P>(
    thread_id: ThreadId,
    operation: Operation<P>,
    world: spec_fn(Stage<P>) -> Reply<P>,
    at: int,
)
    requires
        0 <= at < course(thread_id, first_stage(operation), world).len() - 1,
    ensures
        ({
            let stages = course(thread_id, first_stage(operation), world);
            let reply = world(stages[at]);
            &&& warning_text(thread_id, stages[at], reply) is Some <==> failure(
                thread_id,
                stages[at],
                reply,
            ) && !refuses(stages[at + 1])
            &&& refuses(stages[at + 1]) ==> failure(thread_id, stages[at], reply)
        }),
{
    lemma_drains_do_not_refuse(thread_id, operation, world, at);
    lemma_course_step_back(thread_id, first_stage(operation), world, at + 1);
}

/// What a drain will end the task with is no refusal.
spec fn carries_no_refusal<P>(stage: Stage<P>) -> bool {
    match stage {
        Stage::Drain { finish, .. } => !refuses(Stage::Done { finish }),
        Stage::ReadQueue { purpose: Purpose::Announce(Cause::Drained { finish }), .. } => !refuses(
            Stage::Done { finish },
        ),
        Stage::GetListener { cause: Cause::Drained { finish }, .. } => !refuses(
            Stage::Done { finish },
        ),
        Stage::SendChanged { cause: Cause::Drained { finish }, .. } => !refuses(
            Stage::Done { finish },
        ),
        Stage::NotifyChanged { cause: Cause::Drained { finish }, .. } => !refuses(
            Stage::Done { finish },
        ),
        _ => true,
    }
}

proof fn lemma_drains_do_not_refuse<P>(
    thread_id: ThreadId,
    operation: Operation<P>,
    world: spec_fn(Stage<P>) -> Reply<P>,
    at: int,
)
    requires
        0 <= at < course(thread_id, first_stage(operation), world).len(),
    ensures
        carries_no_refusal(course(thread_id, first_stage(operation), world)[at]),
    decreases at,
{
    lemma_course(thread_id, first_stage(operation), world);
    if at > 0 {
        lemma_drains_do_not_refuse(thread_id, operation, world, at - 1);
        lemma_course_step_back(thread_id, first_stage(operation), world, at);
    }
}

/// The text of a warning is the warning itself.
pub proof fn law_warnings_are_their_text(warning: String)
    ensures
        text_of(Some(warning)) == Some(warning@),
        text_of(None) is None,
{
}

/// Where the database of a thread could not be opened for work that no client
/// asked for, what is logged names the work, the thread and the refusal.
pub proof fn law_unopened_databases_are_logged<P>(
    thread_id: ThreadId,
    operation: Operation<P>,
    thread: LoadedThread,
    reason: String,
)
    ensures
        ({
            let get = Stage::GetThread { operation };
            let find = Stage::FindThreadPath { operation };
            let ephemeral = RequestError::EphemeralThread { thread_id };
            let missing = RequestError::ThreadNotFound { thread_id };
            let unlocated = RequestError::LocateThread { thread_id, reason };
            let loaded = warning_text(thread_id, get, Reply::Thread(Some(thread)));
            let nowhere = warning_text(thread_id, find, Reply::ThreadPath(Ok(false)));
            let failed = warning_text(thread_id, find, Reply::ThreadPath(Err(reason)));
            let resuming =
                "failed to open state db before emitting thread queue resume snapshot for "@
                + thread_id.text@ + ": "@;
            let draining = "failed to open state db before draining thread queue for "@
                + thread_id.text@ + ": "@;
            &&& thread.has_rollout_path ==> loaded is None
            &&& operation is Resume ==> {
                &&& !thread.has_rollout_path ==> loaded == Some(resuming + ephemeral.message_text())
                &&& nowhere == Some(resuming + missing.message_text())
                &&& failed == Some(resuming + unlocated.message_text())
            }
            &&& operation is Drain ==> {
                &&& !thread.has_rollout_path ==> loaded == Some(draining + ephemeral.message_text())
                &&& nowhere == Some(draining + missing.message_text())
                &&& failed == Some(draining + unlocated.message_text())
            }
            &&& !(operation is Resume) && !(operation is Drain) ==> loaded is None && nowhere
                is None && failed is None
            &&& warning_text(thread_id, get, Reply::Thread(None)) is None
            &&& warning_text(thread_id, find, Reply::ThreadPath(Ok(true))) is None
        }),
{
}

/// Where a drain fails, what is logged names the step, the turn where there is one,
/// the thread and the reason. A turn that was started, or was not and had its error
/// recorded, is not logged, and neither is an empty queue or a busy thread.
pub proof fn law_failed_drains_are_logged<P>(
    thread_id: ThreadId,
    db: StateDb,
    finish: Finish<P>,
    queued_turn_id: String,
    message: String,
    reason: String,
)
    ensures
        ({
            let next = Stage::Drain { db, stage: DrainStage::<P>::GetNextTurn, finish };
            let remove = Stage::Drain {
                db,
                stage: DrainStage::<P>::RemoveTurn { queued_turn_id },
                finish,
            };
            let record = Stage::Drain {
                db,
                stage: DrainStage::<P>::RecordError { queued_turn_id, message },
                finish,
            };
            &&& warning_text(thread_id, next, Reply::NextTurn(NextTurn::ReadFailed { reason }))
                == Some("failed to read next queued turn for "@ + thread_id.text@ + ": "@ + reason@)
            &&& warning_text(thread_id, next, Reply::NextTurn(NextTurn::DecodeFailed { reason }))
                == Some(
                "failed to decode next queued turn for "@ + thread_id.text@ + ": "@ + reason@,
            )
            &&& warning_text(thread_id, remove, Reply::Deleted(Err(reason))) == Some(
                "failed to remove dispatched queued turn "@ + queued_turn_id@ + " for "@
                    + thread_id.text@ + ": "@ + reason@,
            )
            &&& warning_text(thread_id, record, Reply::ErrorRecorded(Err(reason))) == Some(
                "failed to record dispatch error for queued turn "@ + queued_turn_id@ + " on "@
                    + thread_id.text@ + ": "@ + reason@,
            )
        }),
{
}

/// Where a listener takes nothing any more, or a queue that no request waits for
/// cannot be read, what is logged says so.
pub proof fn law_undelivered_queues_are_logged<P>(
    thread_id: ThreadId,
    db: StateDb,
    queued_turns: Vec<QueuedTurn<P>>,
    cause: Cause<P>,
    finish: Finish<P>,
    error: RequestError,
)
    ensures
        ({
            let send = Stage::SendChanged { db, queued_turns, cause };
            let snapshot = Stage::ReadQueue { db, purpose: Purpose::<P>::Snapshot };
            let drained = Stage::ReadQueue {
                db,
                purpose: Purpose::Announce(Cause::Drained { finish }),
            };
            let closed = ": listener command channel is closed"@;
            &&& warning_text(thread_id, send, Reply::Sent(false)) == Some(
                "failed to enqueue thread queue update for "@ + thread_id.text@ + closed,
            )
            &&& warning_text(thread_id, Stage::<P>::SendSnapshot { db }, Reply::Sent(false))
                == Some("failed to enqueue thread queue snapshot for "@ + thread_id.text@ + closed)
            &&& warning_text(thread_id, snapshot, Reply::Queue(Err(error))) == Some(
                error.message_text(),
            )
            &&& warning_text(thread_id, drained, Reply::Queue(Err(error))) == Some(
                error.message_text(),
            )
        }),
{
}

/// Nothing is logged where all went well, and nothing where the request is about to
/// be refused.
pub proof fn law_nothing_else_is_logged<P>(thread_id: ThreadId, stage: Stage<P>, reply: Reply<P>)
    requires
        match reply {
            Reply::Thread(_) | Reply::ThreadPath(_) => !(stage is GetThread) && !(
            stage is FindThreadPath),
            Reply::Queue(Err(_)) => match stage {
                Stage::ReadQueue { purpose: Purpose::Snapshot, .. } => false,
                Stage::ReadQueue { purpose: Purpose::Announce(Cause::Drained { .. }), .. } => false,
                _ => true,
            },
            Reply::Sent(false) => !(stage is SendChanged) && !(stage is SendSnapshot),
            Reply::Deleted(Err(_)) | Reply::ErrorRecorded(Err(_)) => !(stage is Drain),
            Reply::NextTurn(next) => next is Empty || next is Ready || !(stage is Drain),
            _ => true,
        },
    ensures
        warning_text(thread_id, stage, reply) is None,
{
}

} // verus!
