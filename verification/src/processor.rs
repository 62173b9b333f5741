//! Where the requests on thread queues come in.
use vstd::hash_map::StringHashMap;
use vstd::prelude::*;

use crate::api::parse_thread_id_for_request;
use crate::api::thread_id_for_request;
use crate::error::ForeignError;
use crate::error::RequestError;
use crate::task::Operation;
use crate::task::Stage;
use crate::task::Task;
use crate::task::first_stage;
use crate::thread_id::ThreadId;

verus! {

/// Takes the requests on thread queues and keeps the locks on the queues apart.
///
/// A lock is known by its number. The numbers are handed out from zero on, one
/// for each thread, and are never taken back. A copy would hand out numbers of its
/// own, so those who serve the same queues share one processor.
pub struct ThreadQueueRequestProcessor {
    thread_queue_locks: StringHashMap<usize>,
}

/// What a request becomes once its thread id has been parsed: a task that is
/// about to begin, or a refusal.
pub open spec fn begun<P>(parsed: Result<ThreadId, String>, operation: Operation<P>) -> Result<
    Task<P>,
    RequestError,
> {
    match thread_id_for_request(parsed) {
        Ok(thread_id) => Ok(Task { thread_id, stage: first_stage::<P>(operation) }),
        Err(error) => Err(error),
    }
}

impl ThreadQueueRequestProcessor {
    /// The numbers of the locks by the text of the thread id.
    pub closed spec fn locks(&self) -> Map<Seq<char>, usize> {
        self.thread_queue_locks@
    }

    /// No two threads share a lock, and the numbers given out are those below the
    /// number of threads.
    pub closed spec fn wf(&self) -> bool {
        &&& self.locks().dom().finite()
        &&& forall|thread: Seq<char>| #[trigger]
            self.locks().contains_key(thread) ==> self.locks()[thread] < self.locks().len()
        &&& forall|one: Seq<char>, other: Seq<char>|
            self.locks().contains_key(one) && self.locks().contains_key(other)
                && #[trigger] self.locks()[one] == #[trigger] self.locks()[other] ==> one == other
    }

    /// A processor that knows of no lock.
    pub fn new() -> (processor: Self)
        ensures
            processor.wf(),
            processor.locks() == Map::<Seq<char>, usize>::empty(),
    {
        ThreadQueueRequestProcessor { thread_queue_locks: StringHashMap::new() }
    }

    /// The number of the lock on the queue of a thread. A thread that has none yet
    /// gets the next number; no other lock changes.
    pub fn thread_queue_lock(&mut self, thread_id: &ThreadId) -> (lock: usize)
        requires
            old(self).wf(),
        ensures
            final(self).wf(),
            if old(self).locks().contains_key(thread_id@) {
                &&& final(self).locks() == old(self).locks()
                &&& lock == old(self).locks()[thread_id@]
            } else {
                &&& final(self).locks() == old(self).locks().insert(thread_id@, lock)
                &&& lock == old(self).locks().len()
            },
    {
        let known = match self.thread_queue_locks.get(thread_id.text.as_str()) {
            Some(lock) => Some(*lock),
            None => None,
        };
        match known {
            Some(lock) => lock,
            None => {
                let lock: usize = self.thread_queue_locks.len();
                self.thread_queue_locks.insert(thread_id.to_text(), lock);
                lock
            },
        }
    }

    fn begin<P, F: FnOnce(&str) -> Result<ThreadId, String>>(
        thread_id: &str,
        parse: F,
        operation: Operation<P>,
    ) -> (begin: Result<Task<P>, RequestError>)
        requires
            call_requires(parse, (thread_id,)),
        ensures
            exists|parsed: Result<ThreadId, String>| #[trigger]
                call_ensures(parse, (thread_id,), parsed) && begin == begun::<P>(parsed, operation),
    {
        match parse_thread_id_for_request(thread_id, parse) {
            Ok(thread_id) => Ok(Task::begin(thread_id, operation)),
            Err(error) => Err(error),
        }
    }

    /// Takes a request to add a turn. `validate` passes or rejects the parameters
    /// of the turn before anything else is looked at: `parse` is not asked where
    /// it rejects them.
    pub fn thread_queue_add<
        P,
        V: FnOnce(&P) -> Result<(), ForeignError>,
        F: FnOnce(&str) -> Result<ThreadId, String>,
    >(&self, thread_id: &str, turn_start_params: P, validate: V, parse: F) -> (begin: Result<
        Task<P>,
        RequestError,
    >)
        requires
            call_requires(validate, (&turn_start_params,)),
            forall|valid: Result<(), ForeignError>| #[trigger]
                call_ensures(validate, (&turn_start_params,), valid) && valid is Ok
                    ==> call_requires(parse, (thread_id,)),
        ensures
            exists|valid: Result<(), ForeignError>| #[trigger]
                call_ensures(validate, (&turn_start_params,), valid) && match valid {
                    Err(error) => begin == Err::<Task<P>, RequestError>(
                        RequestError::InputRejected { error },
                    ),
                    Ok(_) => exists|parsed: Result<ThreadId, String>| #[trigger]
                        call_ensures(parse, (thread_id,), parsed) && begin == begun::<P>(
                            parsed,
                            Operation::Add { turn_start_params },
                        ),
                },
    {
        match validate(&turn_start_params) {
            Ok(_) => Self::begin(thread_id, parse, Operation::Add { turn_start_params }),
            Err(error) => Err(RequestError::InputRejected { error }),
        }
    }

    /// Takes a request for the queue.
    pub fn thread_queue_list<P, F: FnOnce(&str) -> Result<ThreadId, String>>(
        &self,
        thread_id: &str,
        parse: F,
    ) -> (begin: Result<Task<P>, RequestError>)
        requires
            call_requires(parse, (thread_id,)),
        ensures
            exists|parsed: Result<ThreadId, String>| #[trigger]
                call_ensures(parse, (thread_id,), parsed) && begin == begun::<P>(
                    parsed,
                    Operation::List,
                ),
    {
        Self::begin(thread_id, parse, Operation::List)
    }

    /// Takes a request to delete a turn.
    pub fn thread_queue_delete<P, F: FnOnce(&str) -> Result<ThreadId, String>>(
        &self,
        thread_id: &str,
        queued_turn_id: String,
        parse: F,
    ) -> (begin: Result<Task<P>, RequestError>)
        requires
            call_requires(parse, (thread_id,)),
        ensures
            exists|parsed: Result<ThreadId, String>| #[trigger]
                call_ensures(parse, (thread_id,), parsed) && begin == begun::<P>(
                    parsed,
                    Operation::Delete { queued_turn_id },
                ),
    {
        Self::begin(thread_id, parse, Operation::Delete { queued_turn_id })
    }

    /// Takes a request to reorder the queue.
    pub fn thread_queue_reorder<P, F: FnOnce(&str) -> Result<ThreadId, String>>(
        &self,
        thread_id: &str,
        queued_turn_ids: Vec<String>,
        parse: F,
    ) -> (begin: Result<Task<P>, RequestError>)
        requires
            call_requires(parse, (thread_id,)),
        ensures
            exists|parsed: Result<ThreadId, String>| #[trigger]
                call_ensures(parse, (thread_id,), parsed) && begin == begun::<P>(
                    parsed,
                    Operation::Reorder { queued_turn_ids },
                ),
    {
        Self::begin(thread_id, parse, Operation::Reorder { queued_turn_ids })
    }

    /// What follows when a client resumes a thread: it is sent the queue, and the
    /// queue is drained.
    pub fn emit_resume_queue_snapshot_and_drain<P>(&self, thread_id: ThreadId) -> (task: Task<P>)
        ensures
            task == (Task { thread_id, stage: first_stage::<P>(Operation::Resume) }),
    {
        Task::begin(thread_id, Operation::Resume)
    }

    /// What follows when a turn has come to its end: the queue is drained.
    pub fn drain_thread_queue_after_terminal_turn<P>(&self, thread_id: ThreadId) -> (task: Task<P>)
        ensures
            task == (Task { thread_id, stage: first_stage::<P>(Operation::Drain) }),
    {
        Task::begin(thread_id, Operation::Drain)
    }
}

/// Two threads have the same lock only if they are the same thread.
pub proof fn law_locks_are_not_shared(
    processor: ThreadQueueRequestProcessor,
    one: Seq<char>,
    other: Seq<char>,
)
    requires
        processor.wf(),
        processor.locks().contains_key(one),
        processor.locks().contains_key(other),
    ensures
        processor.locks()[one] == processor.locks()[other] <==> one == other,
{
}

/// A request whose thread id parses becomes a task on that thread which is about to
/// do what was asked for: to wait for the lock, or, where it only reads, to look
/// for its thread. A request whose thread id does not parse is refused for that
/// reason.
pub proof fn law_requests_become_tasks<P>(
    thread_id: ThreadId,
    reason: String,
    operation: Operation<P>,
)
    ensures
        begun(Ok(thread_id), operation) matches Ok(task) && task.thread_id == thread_id
            && if operation is List || operation is Resume {
            task.stage == (Stage::GetThread { operation })
        } else {
            task.stage == (Stage::Lock { operation })
        },
        begun(Err(reason), operation) == Err::<Task<P>, RequestError>(
            RequestError::InvalidThreadId { reason },
        ),
{
}

} // verus!
