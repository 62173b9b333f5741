//! Steps that take what the outside holds as text: the parameters of a turn are
//! encoded on their way into the database and decoded on their way out of it.
use vstd::prelude::*;

use crate::api::NextTurn;
use crate::api::QueuedTurn;
use crate::api::added_turn_of;
use crate::api::appended_turn;
use crate::api::can_decode;
use crate::api::can_decode_all;
use crate::api::decodes_to;
use crate::api::next_turn;
use crate::api::next_turn_of;
use crate::api::read_api_thread_queue;
use crate::api::reads_as;
use crate::api::seen_by_clients;
use crate::course::answers;
use crate::course::ending;
use crate::course::law_add_is_answered;
use crate::course::opened;
use crate::error::RequestError;
use crate::task::Cause;
use crate::task::DrainStage;
use crate::task::Finish;
use crate::task::Operation;
use crate::task::Purpose;
use crate::task::Reply;
use crate::task::Response;
use crate::task::Stage;
use crate::task::StateDb;
use crate::task::Task;
use crate::task::first_stage;
use crate::task::next_stage;
use crate::thread_id::ThreadId;
use crate::thread_queued_turn::ThreadQueuedTurn;
use crate::warning::text_of;
use crate::warning::warning_text;

verus! {

/// `moved` is the task after `reply`, with what is logged on the way.
pub open spec fn moved_on<P>(
    task: Task<P>,
    reply: Reply<P>,
    moved: (Task<P>, Option<String>),
) -> bool {
    &&& moved.0.thread_id == task.thread_id
    &&& moved.0.stage == next_stage(task.thread_id, task.stage, reply)
    &&& text_of(moved.1) == warning_text(task.thread_id, task.stage, reply)
}

impl<P> Task<P> {
    /// Moves on a task that waits for the parameters of its turn as JSON: `encode`
    /// is given the parameters that were asked for. At any other stage nothing is
    /// encoded and nothing changes.
    pub fn step_serialized<F: FnOnce(&P) -> Result<String, String>>(self, encode: F) -> (next: Self)
        requires
            self.stage matches Stage::SerializeParams { turn_start_params, .. } ==> call_requires(
                encode,
                (&turn_start_params,),
            ),
        ensures
            next.thread_id == self.thread_id,
            match self.stage {
                Stage::SerializeParams { turn_start_params, .. } => exists|
                    json: Result<String, String>,
                | #[trigger]
                    call_ensures(encode, (&turn_start_params,), json) && next.stage == next_stage(
                        self.thread_id,
                        self.stage,
                        Reply::Serialized(json),
                    ),
                _ => next.stage == self.stage,
            },
    {
        let json = match &self.stage {
            Stage::SerializeParams { turn_start_params, .. } => encode(turn_start_params),
            _ => return self,
        };
        self.step(Reply::Serialized(json))
    }

    /// Moves on a task that waits for a turn to be appended: `appended` is what the
    /// database answered.
    pub fn step_appended<F: Fn(&str) -> Result<P, String>>(
        self,
        appended: Result<ThreadQueuedTurn, String>,
        decode: &F,
    ) -> (next: Self)
        requires
            appended matches Ok(stored) ==> can_decode(*decode, stored),
        ensures
            next.thread_id == self.thread_id,
            match appended {
                Err(reason) => next.stage == next_stage(
                    self.thread_id,
                    self.stage,
                    Reply::Appended(Err(RequestError::AddTurn { reason })),
                ),
                Ok(stored) => exists|decoded: Result<P, String>| #[trigger]
                    decodes_to(*decode, stored, decoded) && next.stage == next_stage(
                        self.thread_id,
                        self.stage,
                        Reply::Appended(added_turn_of(stored, decoded)),
                    ),
            },
    {
        self.step(Reply::Appended(appended_turn(appended, decode)))
    }

    /// Moves on a task that waits for the queue: `listed` is what the database
    /// answered. With the task comes what is to be logged.
    pub fn step_queue<F: Fn(&str) -> Result<P, String>>(
        self,
        listed: Result<Vec<ThreadQueuedTurn>, String>,
        decode: &F,
    ) -> (moved: (Self, Option<String>))
        requires
            can_decode_all(*decode, listed),
        ensures
            exists|queue: Result<Vec<QueuedTurn<P>>, RequestError>| #[trigger]
                reads_as(*decode, listed, queue) && moved_on(self, Reply::Queue(queue), moved),
    {
        let queue = read_api_thread_queue(listed, decode);
        assert(reads_as(*decode, listed, queue));
        let reply = Reply::Queue(queue);
        let warning = self.warning(&reply);
        (self.step(reply), warning)
    }

    /// Moves on a drain that waits for the turn to dispatch: `first` is what the
    /// database answered. With the task comes what is to be logged.
    pub fn step_next_turn<F: Fn(&str) -> Result<P, String>>(
        self,
        first: Result<Option<ThreadQueuedTurn>, String>,
        decode: &F,
    ) -> (moved: (Self, Option<String>))
        requires
            first matches Ok(Some(stored)) ==> can_decode(*decode, stored),
        ensures
            match first {
                Err(reason) => moved_on(
                    self,
                    Reply::NextTurn(NextTurn::ReadFailed { reason }),
                    moved,
                ),
                Ok(None) => moved_on(self, Reply::NextTurn(NextTurn::Empty), moved),
                Ok(Some(stored)) => exists|decoded: Result<P, String>| #[trigger]
                    decodes_to(*decode, stored, decoded) && moved_on(
                        self,
                        Reply::NextTurn(next_turn_of(stored, decoded)),
                        moved,
                    ),
            },
    {
        let reply = Reply::NextTurn(next_turn(first, decode));
        let warning = self.warning(&reply);
        (self.step(reply), warning)
    }
}

/// Where adding succeeds, the answer is the turn as the database stored it, with
/// its parameters decoded: the JSON that the parameters asked for were encoded to
/// is what the database is handed, and nothing that happens afterwards changes the
/// answer.
pub proof fn law_the_stored_turn_is_answered<P>(
    thread_id: ThreadId,
    asked: P,
    world: spec_fn(Stage<P>) -> Reply<P>,
    stored: ThreadQueuedTurn,
    decoded: P,
)
    requires
        answers(world),
        opened(thread_id, Operation::Add { turn_start_params: asked }, world) is Ok,
        ({
            let db = opened(thread_id, Operation::Add { turn_start_params: asked }, world)->Ok_0;
            let encoded = world(Stage::SerializeParams { db, turn_start_params: asked });
            let queued_turn = seen_by_clients(stored, decoded);
            &&& encoded->Serialized_0 is Ok
            &&& world(Stage::Append { db, params_json: encoded->Serialized_0->Ok_0 })
                == Reply::Appended(added_turn_of(stored, Ok(decoded)))
            &&& world(
                Stage::ReadQueue { db, purpose: Purpose::Announce(Cause::Added { queued_turn }) },
            )->Queue_0 is Ok
        }),
    ensures
        ending(thread_id, first_stage(Operation::Add { turn_start_params: asked }), world) == (
        Stage::Done {
            finish: Finish::Answer(
                Ok(Response::Added { queued_turn: seen_by_clients(stored, decoded) }),
            ),
        }),
{
    law_add_is_answered(thread_id, asked, world);
}

/// The turn that a drain starts is the first one of the queue, with the parameters
/// that it was stored with; a turn that does not decode is not started.
pub proof fn law_the_stored_turn_is_dispatched<P>(
    thread_id: ThreadId,
    db: StateDb,
    finish: Finish<P>,
    stored: ThreadQueuedTurn,
    decoded: Result<P, String>,
)
    ensures
        next_stage(
            thread_id,
            Stage::Drain { db, stage: DrainStage::GetNextTurn, finish },
            Reply::NextTurn(next_turn_of(stored, decoded)),
        ) == match decoded {
            Ok(turn_start_params) => Stage::Drain {
                db,
                stage: DrainStage::StartTurn {
                    queued_turn_id: stored.queued_turn_id,
                    turn_start_params,
                },
                finish,
            },
            Err(_) => Stage::Done { finish },
        },
{
}

/// A task that was moved on stays on its thread, is where the reply takes it, and
/// brings a warning exactly where something is to be logged.
pub proof fn law_tasks_move_on_with_their_warning<P>(
    task: Task<P>,
    reply: Reply<P>,
    moved: (Task<P>, Option<String>),
)
    requires
        moved_on(task, reply, moved),
    ensures
        moved.0.thread_id == task.thread_id,
        moved.0.stage == next_stage(task.thread_id, task.stage, reply),
        match (moved.1, warning_text(task.thread_id, task.stage, reply)) {
            (Some(warning), Some(text)) => warning@ == text,
            (None, None) => true,
            _ => false,
        },
{
}

} // verus!
