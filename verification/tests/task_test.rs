use thread_queue::api::NextTurn;
use thread_queue::api::QueuedTurn;
use thread_queue::error::ErrorKind;
use thread_queue::error::ForeignError;
use thread_queue::error::RequestError;
use thread_queue::processor::ThreadQueueRequestProcessor;
use thread_queue::task::Cause;
use thread_queue::task::DrainStage;
use thread_queue::task::Finish;
use thread_queue::task::LoadedThread;
use thread_queue::task::Operation;
use thread_queue::task::Purpose;
use thread_queue::task::Reply;
use thread_queue::task::Response;
use thread_queue::task::Stage;
use thread_queue::task::StateDb;
use thread_queue::task::Task;
use thread_queue::task::state_db_for_loaded_thread;
use thread_queue::task::state_db_for_located_thread;
use thread_queue::thread_id::ThreadId;
use thread_queue::thread_queued_turn::ThreadQueuedTurn;
use thread_queue::utc_time::UtcTime;

type Params = u8;

fn thread(text: &str) -> ThreadId {
    ThreadId {
        text: text.to_string(),
    }
}

fn parse(text: &str) -> Result<ThreadId, String> {
    match text {
        "" => Err("empty".to_string()),
        text => Ok(thread(text)),
    }
}

fn text(text: &str) -> String {
    text.to_string()
}

fn turn(id: &str) -> QueuedTurn<Params> {
    QueuedTurn {
        id: text(id),
        turn_start_params: 1,
        created_at: 2,
        queue_order: 3,
        last_dispatch_error: None,
    }
}

fn begin(operation: Operation<Params>) -> Task<Params> {
    Task::begin(thread("a"), operation)
}

fn loaded(has_state_db: bool) -> Reply<Params> {
    Reply::Thread(Some(LoadedThread {
        has_rollout_path: true,
        has_state_db,
    }))
}

fn after(task: Task<Params>, replies: Vec<Reply<Params>>) -> Task<Params> {
    let mut task = task;
    for reply in replies {
        task = task.step(reply);
    }
    task
}

fn add() -> Operation<Params> {
    Operation::Add {
        turn_start_params: 7,
    }
}

fn delete(id: &str) -> Operation<Params> {
    Operation::Delete {
        queued_turn_id: text(id),
    }
}

fn done(finish: Finish<Params>) -> Stage<Params> {
    Stage::Done { finish }
}

fn refused(error: RequestError) -> Stage<Params> {
    done(Finish::Answer(Err(error)))
}

fn granted(response: Response<Params>) -> Stage<Params> {
    done(Finish::Answer(Ok(response)))
}

#[test]
fn every_request_that_changes_the_queue_begins_at_the_lock() {
    for operation in [
        add(),
        delete("t"),
        Operation::Reorder {
            queued_turn_ids: vec![text("t")],
        },
        Operation::Drain,
    ] {
        assert!(matches!(begin(operation).stage, Stage::Lock { .. }));
    }
    assert!(matches!(
        begin(Operation::List).stage,
        Stage::GetThread {
            operation: Operation::List
        }
    ));
    assert!(matches!(
        begin(Operation::Resume).stage,
        Stage::GetThread {
            operation: Operation::Resume
        }
    ));
}

#[test]
fn the_database_depends_on_the_thread() {
    let id = thread("a");
    let ephemeral = LoadedThread {
        has_rollout_path: false,
        has_state_db: true,
    };
    let error = state_db_for_loaded_thread(&id, ephemeral).expect_err("ephemeral");
    assert_eq!(error.kind(), ErrorKind::InvalidRequest);
    assert_eq!(
        error.message(),
        "ephemeral thread does not support persistent app-server state: a"
    );
    assert_eq!(
        state_db_for_loaded_thread(
            &id,
            LoadedThread {
                has_rollout_path: true,
                has_state_db: true
            }
        ),
        Ok(StateDb::OfThread)
    );
    assert_eq!(
        state_db_for_loaded_thread(
            &id,
            LoadedThread {
                has_rollout_path: true,
                has_state_db: false
            }
        ),
        Ok(StateDb::OfProcess)
    );
    assert_eq!(
        state_db_for_located_thread(&id, Ok(true)),
        Ok(StateDb::OfProcess)
    );
    let error = state_db_for_located_thread(&id, Ok(false)).expect_err("nowhere");
    assert_eq!(error.kind(), ErrorKind::InvalidRequest);
    assert_eq!(error.message(), "thread not found: a");
    let error = state_db_for_located_thread(&id, Err(text("io"))).expect_err("io");
    assert_eq!(error.kind(), ErrorKind::Internal);
    assert_eq!(error.message(), "failed to locate thread id a: io");
}

#[test]
fn a_turn_is_added_announced_and_drained_before_the_answer() {
    let task = after(begin(add()), vec![Reply::Locked, loaded(true)]);
    assert_eq!(
        task.stage,
        Stage::SerializeParams {
            db: StateDb::OfThread,
            turn_start_params: 7
        }
    );
    let task = task.step(Reply::Serialized(Ok(text("{}"))));
    assert_eq!(
        task.stage,
        Stage::Append {
            db: StateDb::OfThread,
            params_json: text("{}")
        }
    );
    let task = task.step(Reply::Appended(Ok(turn("new"))));
    assert_eq!(
        task.stage,
        Stage::ReadQueue {
            db: StateDb::OfThread,
            purpose: Purpose::Announce(Cause::Added {
                queued_turn: turn("new")
            })
        }
    );
    let task = after(
        task,
        vec![
            Reply::Queue(Ok(vec![turn("old"), turn("new")])),
            Reply::Listener(true),
        ],
    );
    assert_eq!(
        task.stage,
        Stage::SendChanged {
            db: StateDb::OfThread,
            queued_turns: vec![turn("old"), turn("new")],
            cause: Cause::Added {
                queued_turn: turn("new")
            }
        }
    );
    let task = after(
        task,
        vec![
            Reply::Sent(true),
            loaded(true),
            Reply::AgentRunning(false),
            Reply::ActiveTurn(false),
            Reply::NextTurn(NextTurn::Ready {
                queued_turn_id: text("old"),
                turn_start_params: 9,
            }),
        ],
    );
    let finish = || {
        Finish::Answer(Ok(Response::Added {
            queued_turn: turn("new"),
        }))
    };
    assert_eq!(
        task.stage,
        Stage::Drain {
            db: StateDb::OfThread,
            stage: DrainStage::StartTurn {
                queued_turn_id: text("old"),
                turn_start_params: 9
            },
            finish: finish()
        }
    );
    let task = task.step(Reply::Started(Ok(())));
    assert_eq!(
        task.stage,
        Stage::Drain {
            db: StateDb::OfThread,
            stage: DrainStage::RemoveTurn {
                queued_turn_id: text("old")
            },
            finish: finish()
        }
    );
    let task = after(
        task,
        vec![
            Reply::Deleted(Ok(true)),
            Reply::Queue(Ok(vec![turn("new")])),
            Reply::Listener(false),
        ],
    );
    assert_eq!(
        task.stage,
        Stage::NotifyChanged {
            db: StateDb::OfThread,
            queued_turns: vec![turn("new")],
            cause: Cause::Drained { finish: finish() }
        }
    );
    let task = task.step(Reply::Notified);
    assert_eq!(task.stage, done(finish()));
    assert_eq!(task.thread_id, thread("a"));
}

#[test]
fn adding_is_refused_where_any_step_before_the_drain_fails() {
    let opened = || after(begin(add()), vec![Reply::Locked, loaded(false)]);
    let task = opened().step(Reply::Serialized(Err(text("cycle"))));
    let error = || RequestError::SerializeParams {
        reason: text("cycle"),
    };
    assert_eq!(task.stage, refused(error()));
    assert_eq!(error().kind(), ErrorKind::Internal);
    assert_eq!(
        error().message(),
        "failed to serialize queued turn params: cycle"
    );

    let error = || RequestError::AddTurn {
        reason: text("full"),
    };
    let task = after(
        opened(),
        vec![
            Reply::Serialized(Ok(text("{}"))),
            Reply::Appended(Err(error())),
        ],
    );
    assert_eq!(task.stage, refused(error()));
    assert_eq!(error().message(), "failed to add queued turn: full");
    assert_eq!(error().kind(), ErrorKind::Internal);

    let error = || RequestError::DecodeParams {
        reason: text("eof"),
    };
    let task = after(
        opened(),
        vec![
            Reply::Serialized(Ok(text("{}"))),
            Reply::Appended(Ok(turn("new"))),
            Reply::Queue(Err(error())),
        ],
    );
    assert_eq!(task.stage, refused(error()));
    assert_eq!(
        error().message(),
        "failed to decode queued turn params: eof"
    );
    assert_eq!(error().kind(), ErrorKind::Internal);
}

#[test]
fn input_that_is_rejected_comes_before_everything_else() {
    let processor = ThreadQueueRequestProcessor::new();
    let rejected = ForeignError {
        code: -7,
        message: text("too long"),
        data: Some(text("{\"max\":1}")),
    };
    let error = processor
        .thread_queue_add("", 7u8, |_| Err(rejected), |_| panic!("not asked"))
        .expect_err("rejected");
    assert_eq!(error.kind(), ErrorKind::Code(-7));
    assert_eq!(error.message(), "too long");
    assert_eq!(
        error,
        RequestError::InputRejected {
            error: ForeignError {
                code: -7,
                message: text("too long"),
                data: Some(text("{\"max\":1}")),
            }
        }
    );
}

fn only_seven(params: &Params) -> Result<(), ForeignError> {
    match params {
        7 => Ok(()),
        _ => Err(limit()),
    }
}

fn limit() -> ForeignError {
    ForeignError {
        code: -7,
        message: text("too long"),
        data: None,
    }
}

#[test]
fn requests_become_tasks_on_their_thread() {
    let processor = ThreadQueueRequestProcessor::new();
    assert_eq!(
        processor.thread_queue_add("a", 7, only_seven, parse),
        Ok(begin(add()))
    );
    assert_eq!(
        processor.thread_queue_add("a", 8, only_seven, parse),
        Err(RequestError::InputRejected { error: limit() })
    );
    assert_eq!(
        processor.thread_queue_add("", 7, |_| Ok(()), parse),
        Err(RequestError::InvalidThreadId {
            reason: text("empty")
        })
    );
    assert_eq!(
        processor.thread_queue_list::<Params, _>("a", parse),
        Ok(begin(Operation::List))
    );
    assert_eq!(
        processor.thread_queue_delete::<Params, _>("a", text("t"), parse),
        Ok(begin(delete("t")))
    );
    assert_eq!(
        processor.thread_queue_reorder::<Params, _>("a", vec![text("t")], parse),
        Ok(begin(Operation::Reorder {
            queued_turn_ids: vec![text("t")]
        }))
    );
    assert_eq!(
        processor.emit_resume_queue_snapshot_and_drain::<Params>(thread("a")),
        begin(Operation::Resume)
    );
    assert_eq!(
        processor.drain_thread_queue_after_terminal_turn::<Params>(thread("a")),
        begin(Operation::Drain)
    );
    assert_eq!(
        processor.thread_queue_list::<Params, _>("", parse),
        Err(RequestError::InvalidThreadId {
            reason: text("empty")
        })
    );
}

#[test]
fn each_thread_has_a_lock_of_its_own() {
    let mut processor = ThreadQueueRequestProcessor::new();
    assert_eq!(processor.thread_queue_lock(&thread("a")), 0);
    assert_eq!(processor.thread_queue_lock(&thread("b")), 1);
    assert_eq!(processor.thread_queue_lock(&thread("a")), 0);
    assert_eq!(processor.thread_queue_lock(&thread("c")), 2);
    assert_eq!(processor.thread_queue_lock(&thread("b")), 1);
}

#[test]
fn listing_reads_without_a_lock() {
    let task = after(
        begin(Operation::List),
        vec![Reply::Thread(None), Reply::ThreadPath(Ok(true))],
    );
    assert_eq!(
        task.stage,
        Stage::ReadQueue {
            db: StateDb::OfProcess,
            purpose: Purpose::Answer
        }
    );
    let task = task.step(Reply::Queue(Ok(vec![turn("x"), turn("y")])));
    assert_eq!(
        task.stage,
        granted(Response::Listed {
            queued_turns: vec![turn("x"), turn("y")]
        })
    );

    let error = || RequestError::ReadQueue {
        reason: text("locked"),
    };
    let task = after(
        begin(Operation::List),
        vec![loaded(false), Reply::Queue(Err(error()))],
    );
    assert_eq!(task.stage, refused(error()));
    assert_eq!(error().message(), "failed to read thread queue: locked");
    assert_eq!(error().kind(), ErrorKind::Internal);
}

#[test]
fn a_thread_that_is_not_there_has_no_queue() {
    let task = after(
        begin(delete("t")),
        vec![Reply::Locked, Reply::Thread(None), Reply::ThreadPath(Ok(false))],
    );
    assert_eq!(
        task.stage,
        refused(RequestError::ThreadNotFound {
            thread_id: thread("a")
        })
    );
    let task = after(
        begin(Operation::Drain),
        vec![Reply::Locked, Reply::Thread(None), Reply::ThreadPath(Ok(false))],
    );
    assert_eq!(task.stage, done(Finish::Silent));
}

#[test]
fn deleting_what_is_not_there_tells_no_one() {
    let opened = || after(begin(delete("t")), vec![Reply::Locked, loaded(true)]);
    assert_eq!(
        opened().stage,
        Stage::Delete {
            db: StateDb::OfThread,
            queued_turn_id: text("t")
        }
    );
    assert_eq!(
        opened().step(Reply::Deleted(Ok(false))).stage,
        granted(Response::Deleted { deleted: false })
    );
    let error = || RequestError::DeleteTurn {
        reason: text("locked"),
    };
    assert_eq!(
        opened().step(Reply::Deleted(Err(text("locked")))).stage,
        refused(error())
    );
    assert_eq!(error().message(), "failed to delete queued turn: locked");
    assert_eq!(error().kind(), ErrorKind::Internal);
}

#[test]
fn deleting_a_turn_is_announced_and_drained() {
    let task = after(
        begin(delete("t")),
        vec![
            Reply::Locked,
            loaded(true),
            Reply::Deleted(Ok(true)),
            Reply::Queue(Ok(vec![])),
            Reply::Listener(true),
            Reply::Sent(false),
        ],
    );
    assert_eq!(
        task.stage,
        Stage::NotifyChanged {
            db: StateDb::OfThread,
            queued_turns: vec![],
            cause: Cause::Deleted
        }
    );
    let task = after(task, vec![Reply::Notified, Reply::Thread(None)]);
    assert_eq!(
        task.stage,
        granted(Response::Deleted { deleted: true })
    );
}

#[test]
fn reordering_answers_the_queue_from_before_the_drain() {
    let opened = || {
        after(
            begin(Operation::Reorder {
                queued_turn_ids: vec![text("y"), text("x")],
            }),
            vec![Reply::Locked, loaded(true)],
        )
    };
    assert_eq!(
        opened().stage,
        Stage::Reorder {
            db: StateDb::OfThread,
            queued_turn_ids: vec![text("y"), text("x")]
        }
    );
    let task = after(
        opened(),
        vec![
            Reply::Reordered(Ok(())),
            Reply::Queue(Ok(vec![turn("y"), turn("x")])),
            Reply::Listener(false),
            Reply::Notified,
            loaded(true),
            Reply::AgentRunning(false),
            Reply::ActiveTurn(false),
            Reply::NextTurn(NextTurn::Ready {
                queued_turn_id: text("y"),
                turn_start_params: 1,
            }),
            Reply::Started(Ok(())),
            Reply::Deleted(Ok(true)),
            Reply::Queue(Ok(vec![turn("x")])),
            Reply::Listener(true),
            Reply::Sent(true),
        ],
    );
    assert_eq!(
        task.stage,
        granted(Response::Reordered {
            queued_turns: vec![turn("y"), turn("x")]
        })
    );

    let error = || RequestError::ReorderTurns {
        reason: text("unknown turn z"),
    };
    let task = opened().step(Reply::Reordered(Err(text("unknown turn z"))));
    assert_eq!(task.stage, refused(error()));
    assert_eq!(error().kind(), ErrorKind::InvalidRequest);
    assert_eq!(error().message(), "unknown turn z");
}

fn draining() -> Task<Params> {
    after(begin(Operation::Drain), vec![Reply::Locked, loaded(false)])
}

#[test]
fn a_busy_thread_is_not_drained() {
    assert_eq!(
        draining().stage,
        Stage::Drain {
            db: StateDb::OfProcess,
            stage: DrainStage::GetThread,
            finish: Finish::Silent
        }
    );
    let quiet = || done(Finish::Silent);
    assert_eq!(draining().step(Reply::Thread(None)).stage, quiet());
    assert_eq!(
        after(draining(), vec![loaded(true), Reply::AgentRunning(true)]).stage,
        quiet()
    );
    assert_eq!(
        after(
            draining(),
            vec![
                loaded(true),
                Reply::AgentRunning(false),
                Reply::ActiveTurn(true)
            ]
        )
        .stage,
        quiet()
    );
}

fn idle() -> Task<Params> {
    after(
        draining(),
        vec![
            loaded(true),
            Reply::AgentRunning(false),
            Reply::ActiveTurn(false),
        ],
    )
}

#[test]
fn a_drain_without_a_turn_ends() {
    for next in [
        NextTurn::Empty,
        NextTurn::ReadFailed {
            reason: text("locked"),
        },
        NextTurn::DecodeFailed {
            reason: text("eof"),
        },
    ] {
        assert_eq!(
            idle().step(Reply::NextTurn(next)).stage,
            done(Finish::Silent)
        );
    }
}

fn starting() -> Task<Params> {
    idle().step(Reply::NextTurn(NextTurn::Ready {
        queued_turn_id: text("t"),
        turn_start_params: 1,
    }))
}

#[test]
fn a_turn_that_fails_to_start_keeps_its_place_and_its_error() {
    let task = starting().step(Reply::Started(Err(text("no model"))));
    assert_eq!(
        task.stage,
        Stage::Drain {
            db: StateDb::OfProcess,
            stage: DrainStage::RecordError {
                queued_turn_id: text("t"),
                message: text("no model")
            },
            finish: Finish::Silent
        }
    );
    let task = task.step(Reply::ErrorRecorded(Ok(())));
    assert_eq!(
        task.stage,
        Stage::ReadQueue {
            db: StateDb::OfProcess,
            purpose: Purpose::Announce(Cause::Drained {
                finish: Finish::Silent
            })
        }
    );
    let task = task.step(Reply::Queue(Err(RequestError::ReadQueue {
        reason: text("locked"),
    })));
    assert_eq!(task.stage, done(Finish::Silent));
}

#[test]
fn a_drain_that_cannot_write_ends() {
    let task = after(
        starting(),
        vec![Reply::Started(Ok(())), Reply::Deleted(Err(text("locked")))],
    );
    assert_eq!(task.stage, done(Finish::Silent));
    let task = after(
        starting(),
        vec![
            Reply::Started(Err(text("no model"))),
            Reply::ErrorRecorded(Err(text("locked"))),
        ],
    );
    assert_eq!(task.stage, done(Finish::Silent));
}

#[test]
fn a_started_turn_that_was_gone_already_is_announced_all_the_same() {
    let task = after(
        starting(),
        vec![Reply::Started(Ok(())), Reply::Deleted(Ok(false))],
    );
    assert!(matches!(
        task.stage,
        Stage::ReadQueue {
            purpose: Purpose::Announce(Cause::Drained { .. }),
            ..
        }
    ));
}

fn lock_for_drain() -> Stage<Params> {
    Stage::Lock {
        operation: Operation::Drain,
    }
}

#[test]
fn resuming_sends_the_queue_and_then_drains() {
    let opened = || after(begin(Operation::Resume), vec![loaded(true)]);
    assert_eq!(
        opened().stage,
        Stage::GetSnapshotListener {
            db: StateDb::OfThread
        }
    );
    let by_listener = after(opened(), vec![Reply::Listener(true), Reply::Sent(true)]);
    assert_eq!(by_listener.stage, lock_for_drain());

    let directly = after(
        opened(),
        vec![
            Reply::Listener(true),
            Reply::Sent(false),
            Reply::Queue(Ok(vec![turn("x")])),
        ],
    );
    assert_eq!(
        directly.stage,
        Stage::NotifySnapshot {
            queued_turns: vec![turn("x")]
        }
    );
    assert_eq!(directly.step(Reply::Notified).stage, lock_for_drain());

    let unreadable = after(
        opened(),
        vec![
            Reply::Listener(false),
            Reply::Queue(Err(RequestError::ReadQueue {
                reason: text("locked"),
            })),
        ],
    );
    assert_eq!(unreadable.stage, lock_for_drain());
}

#[test]
fn resuming_a_thread_without_a_queue_still_asks_for_a_drain() {
    let task = begin(Operation::Resume).step(Reply::Thread(Some(LoadedThread {
        has_rollout_path: false,
        has_state_db: false,
    })));
    assert_eq!(task.stage, lock_for_drain());
    let task = after(
        task,
        vec![
            Reply::Locked,
            Reply::Thread(Some(LoadedThread {
                has_rollout_path: false,
                has_state_db: false,
            })),
        ],
    );
    assert_eq!(task.stage, done(Finish::Silent));
}

#[test]
fn a_reply_that_was_not_waited_for_changes_nothing() {
    let task = begin(add()).step(Reply::Notified);
    assert_eq!(task, begin(add()));
    let task = starting().step(Reply::Locked);
    assert_eq!(task, starting());
    let task = draining().step(Reply::Thread(None));
    assert_eq!(task.step(Reply::Locked).stage, done(Finish::Silent));
}

/// A world in which everything is there and listeners have gone away.
fn obliging(stage: &Stage<Params>) -> Reply<Params> {
    match stage {
        Stage::Lock { .. } => Reply::Locked,
        Stage::GetThread { .. } => Reply::Thread(None),
        Stage::FindThreadPath { .. } => Reply::ThreadPath(Ok(true)),
        Stage::SerializeParams { .. } => Reply::Serialized(Ok(text("{}"))),
        Stage::Append { .. } => Reply::Appended(Ok(turn("new"))),
        Stage::Delete { .. } => Reply::Deleted(Ok(true)),
        Stage::Reorder { .. } => Reply::Reordered(Ok(())),
        Stage::ReadQueue { .. } => Reply::Queue(Ok(vec![turn("new")])),
        Stage::GetListener { .. } | Stage::GetSnapshotListener { .. } => Reply::Listener(true),
        Stage::SendChanged { .. } | Stage::SendSnapshot { .. } => Reply::Sent(false),
        Stage::NotifyChanged { .. } | Stage::NotifySnapshot { .. } => Reply::Notified,
        Stage::Drain { stage, .. } => match stage {
            DrainStage::GetThread => loaded(true),
            DrainStage::GetAgentStatus => Reply::AgentRunning(false),
            DrainStage::GetActiveTurn => Reply::ActiveTurn(false),
            DrainStage::GetNextTurn => Reply::NextTurn(NextTurn::Ready {
                queued_turn_id: text("new"),
                turn_start_params: 1,
            }),
            DrainStage::StartTurn { .. } => Reply::Started(Ok(())),
            DrainStage::RemoveTurn { .. } => Reply::Deleted(Ok(true)),
            DrainStage::RecordError { .. } => Reply::ErrorRecorded(Ok(())),
        },
        Stage::Done { .. } => panic!("nothing is left to do"),
    }
}

struct Passed {
    replies: usize,
    locks: usize,
    starts: usize,
    notifications: usize,
    finish: Finish<Params>,
}

fn pass(operation: Operation<Params>) -> Passed {
    let mut task = begin(operation);
    let (mut replies, mut locks, mut starts, mut notifications) = (0, 0, 0, 0);
    loop {
        match &task.stage {
            Stage::Lock { .. } => locks += 1,
            Stage::Drain {
                stage: DrainStage::StartTurn { .. },
                ..
            } => starts += 1,
            Stage::NotifyChanged { .. } | Stage::NotifySnapshot { .. } => notifications += 1,
            _ => {}
        }
        if matches!(task.stage, Stage::Done { .. }) {
            break;
        }
        let reply = obliging(&task.stage);
        task = task.step(reply);
        replies += 1;
    }
    match task.stage {
        Stage::Done { finish } => Passed {
            replies,
            locks,
            starts,
            notifications,
            finish,
        },
        _ => panic!("not done"),
    }
}

#[test]
fn every_operation_ends_and_dispatches_at_most_one_turn() {
    let add = pass(add());
    assert_eq!((add.replies, add.locks, add.starts), (19, 1, 1));
    assert_eq!(add.notifications, 2);
    assert_eq!(
        add.finish,
        Finish::Answer(Ok(Response::Added {
            queued_turn: turn("new")
        }))
    );

    let delete = pass(delete("t"));
    assert_eq!((delete.replies, delete.locks, delete.starts), (18, 1, 1));

    let list = pass(Operation::List);
    assert_eq!((list.replies, list.locks, list.starts), (3, 0, 0));
    assert_eq!(list.notifications, 0);

    let resume = pass(Operation::Resume);
    assert_eq!((resume.replies, resume.locks, resume.starts), (19, 1, 1));
    assert_eq!(resume.notifications, 2);
    assert_eq!(resume.finish, Finish::Silent);

    let drain = pass(Operation::Drain);
    assert_eq!((drain.replies, drain.locks, drain.starts), (13, 1, 1));
    assert_eq!(drain.finish, Finish::Silent);
}

#[test]
fn a_task_waits_until_the_lock_is_granted() {
    let first = begin(Operation::Drain).step(Reply::Locked);
    let second = begin(add());
    let second = after(second, vec![loaded(true), Reply::Sent(true), Reply::Notified]);
    assert_eq!(second, begin(add()));
    assert!(!matches!(first.stage, Stage::Lock { .. }));
    let first = first.step(Reply::Thread(None)).step(Reply::ThreadPath(Ok(false)));
    assert_eq!(first.stage, done(Finish::Silent));
    assert!(matches!(
        second.step(Reply::Locked).stage,
        Stage::GetThread {
            operation: Operation::Add { .. }
        }
    ));
}

fn ephemeral() -> Reply<Params> {
    Reply::Thread(Some(LoadedThread {
        has_rollout_path: false,
        has_state_db: false,
    }))
}

fn locked_db() -> RequestError {
    RequestError::ReadQueue {
        reason: text("locked"),
    }
}

#[test]
fn work_that_no_client_asked_for_logs_a_database_that_does_not_open() {
    assert_eq!(
        begin(Operation::Resume).warning(&ephemeral()),
        Some(text(
            "failed to open state db before emitting thread queue resume snapshot for a: \
             ephemeral thread does not support persistent app-server state: a"
        ))
    );
    let drain = begin(Operation::Drain).step(Reply::Locked);
    assert_eq!(
        drain.warning(&ephemeral()),
        Some(text(
            "failed to open state db before draining thread queue for a: \
             ephemeral thread does not support persistent app-server state: a"
        ))
    );
    assert_eq!(drain.warning(&loaded(true)), None);
    let drain = drain.step(Reply::Thread(None));
    assert_eq!(
        drain.warning(&Reply::ThreadPath(Ok(false))),
        Some(text(
            "failed to open state db before draining thread queue for a: thread not found: a"
        ))
    );
    assert_eq!(
        drain.warning(&Reply::ThreadPath(Err(text("io")))),
        Some(text(
            "failed to open state db before draining thread queue for a: \
             failed to locate thread id a: io"
        ))
    );
    assert_eq!(drain.warning(&Reply::ThreadPath(Ok(true))), None);
    assert_eq!(begin(Operation::List).warning(&ephemeral()), None);
    assert_eq!(
        begin(add()).step(Reply::Locked).warning(&ephemeral()),
        None
    );
}

#[test]
fn a_listener_that_takes_nothing_is_logged() {
    let resumed = after(
        begin(Operation::Resume),
        vec![loaded(true), Reply::Listener(true)],
    );
    assert_eq!(
        resumed.warning(&Reply::Sent(false)),
        Some(text(
            "failed to enqueue thread queue snapshot for a: listener command channel is closed"
        ))
    );
    assert_eq!(resumed.warning(&Reply::Sent(true)), None);
    let deleted = after(
        begin(delete("t")),
        vec![
            Reply::Locked,
            loaded(true),
            Reply::Deleted(Ok(true)),
            Reply::Queue(Ok(vec![])),
            Reply::Listener(true),
        ],
    );
    assert_eq!(
        deleted.warning(&Reply::Sent(false)),
        Some(text(
            "failed to enqueue thread queue update for a: listener command channel is closed"
        ))
    );
    assert_eq!(deleted.warning(&Reply::Sent(true)), None);
}

#[test]
fn a_drain_logs_what_it_gives_up_over() {
    let warnings = [
        (
            idle(),
            Reply::NextTurn(NextTurn::ReadFailed {
                reason: text("locked"),
            }),
            "failed to read next queued turn for a: locked",
        ),
        (
            idle(),
            Reply::NextTurn(NextTurn::DecodeFailed {
                reason: text("eof"),
            }),
            "failed to decode next queued turn for a: eof",
        ),
        (
            starting().step(Reply::Started(Ok(()))),
            Reply::Deleted(Err(text("locked"))),
            "failed to remove dispatched queued turn t for a: locked",
        ),
        (
            starting().step(Reply::Started(Err(text("no model")))),
            Reply::ErrorRecorded(Err(text("locked"))),
            "failed to record dispatch error for queued turn t on a: locked",
        ),
        (
            after(
                starting(),
                vec![Reply::Started(Ok(())), Reply::Deleted(Ok(true))],
            ),
            Reply::Queue(Err(locked_db())),
            "failed to read thread queue: locked",
        ),
    ];
    for (task, reply, warning) in warnings {
        assert_eq!(task.warning(&reply), Some(text(warning)));
    }
    assert_eq!(idle().warning(&Reply::NextTurn(NextTurn::Empty)), None);
    assert_eq!(starting().warning(&Reply::Started(Err(text("x")))), None);
    assert_eq!(starting().warning(&Reply::Notified), None);
}

#[test]
fn a_failure_that_is_answered_is_not_logged() {
    let listing = || begin(Operation::List).step(loaded(true));
    assert_eq!(listing().warning(&Reply::Queue(Err(locked_db()))), None);
    assert_eq!(
        listing().step(Reply::Queue(Err(locked_db()))).stage,
        refused(locked_db())
    );
    let deleted = after(
        begin(delete("t")),
        vec![Reply::Locked, loaded(true), Reply::Deleted(Ok(true))],
    );
    assert_eq!(deleted.warning(&Reply::Queue(Err(locked_db()))), None);
    let snapshot = after(
        begin(Operation::Resume),
        vec![loaded(true), Reply::Listener(false)],
    );
    assert_eq!(
        snapshot.warning(&Reply::Queue(Err(locked_db()))),
        Some(text("failed to read thread queue: locked"))
    );
}

fn decode(json: &str) -> Result<Params, String> {
    json.parse().map_err(|_| format!("{json} is no number"))
}

fn stored(id: &str, json: &str) -> ThreadQueuedTurn {
    ThreadQueuedTurn {
        queued_turn_id: text(id),
        thread_id: thread("a"),
        turn_start_params_json: text(json),
        queue_order: 3,
        last_dispatch_error: None,
        created_at: UtcTime {
            seconds: 2,
            nanos: 5,
        },
    }
}

#[test]
fn what_is_stored_is_the_encoding_of_what_was_asked() {
    let task = after(begin(add()), vec![Reply::Locked, loaded(true)]);
    let task = task.step_serialized(|params| Ok(format!("{}", params + 1)));
    assert_eq!(
        task.stage,
        Stage::Append {
            db: StateDb::OfThread,
            params_json: text("8")
        }
    );
    let task = task.step_serialized(|_| panic!("nothing to encode"));
    assert!(matches!(task.stage, Stage::Append { .. }));

    let failed = after(begin(add()), vec![Reply::Locked, loaded(true)])
        .step_serialized(|_| Err(text("cycle")));
    assert_eq!(
        failed.stage,
        refused(RequestError::SerializeParams {
            reason: text("cycle")
        })
    );
}

#[test]
fn what_is_answered_announced_and_dispatched_is_what_was_stored() {
    let appending = || {
        after(begin(add()), vec![Reply::Locked, loaded(true)])
            .step_serialized(|params| Ok(params.to_string()))
    };
    assert_eq!(
        appending().step_appended(Err(text("full")), &decode).stage,
        refused(RequestError::AddTurn {
            reason: text("full")
        })
    );
    assert_eq!(
        appending()
            .step_appended(Ok(stored("new", "x")), &decode)
            .stage,
        refused(RequestError::DecodeParams {
            reason: text("x is no number")
        })
    );
    let task = appending().step_appended(Ok(stored("new", "1")), &decode);
    let (task, warning) = task.step_queue(
        Ok(vec![stored("old", "1"), stored("new", "1")]),
        &decode,
    );
    assert_eq!(warning, None);
    assert_eq!(
        task.stage,
        Stage::GetListener {
            db: StateDb::OfThread,
            queued_turns: vec![turn("old"), turn("new")],
            cause: Cause::Added {
                queued_turn: turn("new")
            }
        }
    );
    let task = after(
        task,
        vec![
            Reply::Listener(false),
            Reply::Notified,
            loaded(true),
            Reply::AgentRunning(false),
            Reply::ActiveTurn(false),
        ],
    );
    let (task, warning) = task.step_next_turn(Ok(Some(stored("old", "9"))), &decode);
    assert_eq!(warning, None);
    assert_eq!(
        task.stage,
        Stage::Drain {
            db: StateDb::OfThread,
            stage: DrainStage::StartTurn {
                queued_turn_id: text("old"),
                turn_start_params: 9
            },
            finish: Finish::Answer(Ok(Response::Added {
                queued_turn: turn("new")
            }))
        }
    );
}

#[test]
fn a_drain_logs_a_turn_that_it_cannot_read() {
    let (task, warning) = idle().step_next_turn(Ok(Some(stored("t", "x"))), &decode);
    assert_eq!(
        warning,
        Some(text("failed to decode next queued turn for a: x is no number"))
    );
    assert_eq!(task.stage, done(Finish::Silent));
    let (task, warning) = idle().step_next_turn(Err(text("locked")), &decode);
    assert_eq!(
        warning,
        Some(text("failed to read next queued turn for a: locked"))
    );
    assert_eq!(task.stage, done(Finish::Silent));
    let (task, warning) = idle().step_next_turn(Ok(None), &decode);
    assert_eq!(warning, None);
    assert_eq!(task.stage, done(Finish::Silent));

    let drained = after(
        starting(),
        vec![Reply::Started(Ok(())), Reply::Deleted(Ok(true))],
    );
    let (task, warning) = drained.step_queue(Ok(vec![stored("t", "x")]), &decode);
    assert_eq!(
        warning,
        Some(text("failed to decode queued turn params: x is no number"))
    );
    assert_eq!(task.stage, done(Finish::Silent));
}

#[test]
fn a_change_its_announcement_and_its_drain_come_in_one_piece() {
    let mut task = begin(add());
    let mut names = Vec::new();
    while !matches!(task.stage, Stage::Done { .. }) {
        names.push(match &task.stage {
            Stage::Lock { .. } => "lock",
            Stage::Append { .. } => "append",
            Stage::NotifyChanged {
                cause: Cause::Drained { .. },
                ..
            } => "announce drain",
            Stage::NotifyChanged { .. } => "announce add",
            Stage::Drain {
                stage: DrainStage::StartTurn { .. },
                ..
            } => "start",
            Stage::Drain {
                stage: DrainStage::RemoveTurn { .. },
                ..
            } => "remove",
            _ => "",
        });
        let reply = obliging(&task.stage);
        task = task.step(reply);
    }
    names.retain(|name| !name.is_empty());
    assert_eq!(
        names,
        vec![
            "lock",
            "append",
            "announce add",
            "start",
            "remove",
            "announce drain"
        ]
    );
}
