use sqlx::Connection;
use sqlx::sqlite::SqliteConnection;
use sqlx::sqlite::SqliteRow;
use thread_queue::api::NextTurn;
use thread_queue::api::QueuedTurn;
use thread_queue::api::api_queued_turn_from_state;
use thread_queue::api::appended_turn;
use thread_queue::api::next_turn;
use thread_queue::api::parse_thread_id_for_request;
use thread_queue::api::queued_turn_from_decoded;
use thread_queue::api::read_api_thread_queue;
use thread_queue::api::send_thread_queue_snapshot_notification;
use thread_queue::api::thread_queue_changed;
use thread_queue::api::thread_queue_snapshot_notification;
use thread_queue::error::ErrorKind;
use thread_queue::error::RequestError;
use thread_queue::thread_id::ThreadId;
use thread_queue::thread_queued_turn::ThreadQueuedTurn;
use thread_queue::thread_queued_turn::ThreadQueuedTurnRow;
use thread_queue::thread_queued_turn::TurnRowError;
use thread_queue::utc_time::FIRST_MILLI;
use thread_queue::utc_time::LAST_MILLI;
use thread_queue::utc_time::UtcTime;

fn sqlite_row(sql: &str) -> SqliteRow {
    let runtime = tokio::runtime::Builder::new_current_thread()
        .enable_all()
        .build()
        .expect("runtime");
    runtime.block_on(async {
        let mut connection = SqliteConnection::connect("sqlite::memory:")
            .await
            .expect("database");
        sqlx::query(sql)
            .fetch_one(&mut connection)
            .await
            .expect("row")
    })
}

fn thread(text: &str) -> ThreadId {
    ThreadId {
        text: text.to_string(),
    }
}

fn parse(text: &str) -> Result<ThreadId, String> {
    if text.starts_with("thread-") {
        Ok(thread(text))
    } else {
        Err(format!("{text:?} is no thread"))
    }
}

fn decode(json: &str) -> Result<i64, String> {
    json.parse::<i64>().map_err(|_| format!("{json} is no number"))
}

fn stored(id: &str, json: &str) -> ThreadQueuedTurn {
    ThreadQueuedTurn {
        queued_turn_id: id.to_string(),
        thread_id: thread("thread-a"),
        turn_start_params_json: json.to_string(),
        queue_order: 4,
        last_dispatch_error: Some("busy".to_string()),
        created_at: UtcTime {
            seconds: 12,
            nanos: 999_000_000,
        },
    }
}

fn seen(id: &str, params: i64) -> QueuedTurn<i64> {
    QueuedTurn {
        id: id.to_string(),
        turn_start_params: params,
        created_at: 12,
        queue_order: 4,
        last_dispatch_error: Some("busy".to_string()),
    }
}

fn row(thread_id: &str, created_at_ms: i64) -> ThreadQueuedTurnRow {
    ThreadQueuedTurnRow {
        queued_turn_id: "turn-1".to_string(),
        thread_id: thread_id.to_string(),
        turn_start_params_json: "5".to_string(),
        queue_order: -3,
        last_dispatch_error: None,
        created_at_ms,
    }
}

#[test]
fn a_row_gives_its_columns() {
    let row = sqlite_row(
        "select 'turn-1' as queued_turn_id, 'thread-a' as thread_id, \
         '{\"n\":1}' as turn_start_params_json, 7 as queue_order, \
         'busy' as last_dispatch_error, 1500 as created_at_ms",
    );
    let taken = ThreadQueuedTurnRow::try_from_row(&row).expect("columns");
    assert_eq!(
        taken,
        ThreadQueuedTurnRow {
            queued_turn_id: "turn-1".to_string(),
            thread_id: "thread-a".to_string(),
            turn_start_params_json: "{\"n\":1}".to_string(),
            queue_order: 7,
            last_dispatch_error: Some("busy".to_string()),
            created_at_ms: 1500,
        }
    );
}

#[test]
fn nulls_read_as_empty_text_as_zero_and_as_nothing() {
    let row = sqlite_row(
        "select null as queued_turn_id, null as thread_id, null as turn_start_params_json, \
         null as queue_order, null as last_dispatch_error, null as created_at_ms",
    );
    let taken = ThreadQueuedTurnRow::try_from_row(&row).expect("columns");
    assert_eq!(
        taken,
        ThreadQueuedTurnRow {
            queued_turn_id: String::new(),
            thread_id: String::new(),
            turn_start_params_json: String::new(),
            queue_order: 0,
            last_dispatch_error: None,
            created_at_ms: 0,
        }
    );
}

#[test]
fn the_first_column_that_does_not_fit_is_reported() {
    let missing = sqlite_row("select 'turn-1' as queued_turn_id, 1 as queue_order");
    let error = ThreadQueuedTurnRow::try_from_row(&missing).expect_err("no thread id");
    assert_eq!(error.column, "thread_id");

    let wrong_text = sqlite_row("select 5 as queued_turn_id");
    let error = ThreadQueuedTurnRow::try_from_row(&wrong_text).expect_err("no text");
    assert_eq!(error.column, "queued_turn_id");

    let wrong_number = sqlite_row(
        "select 'turn-1' as queued_turn_id, 'thread-a' as thread_id, \
         '1' as turn_start_params_json, 1.5 as queue_order, 2 as last_dispatch_error, \
         'late' as created_at_ms",
    );
    let error = ThreadQueuedTurnRow::try_from_row(&wrong_number).expect_err("no integer");
    assert_eq!(error.column, "queue_order");

    let wrong_option = sqlite_row(
        "select 'turn-1' as queued_turn_id, 'thread-a' as thread_id, \
         '1' as turn_start_params_json, 1 as queue_order, 2 as last_dispatch_error, \
         'late' as created_at_ms",
    );
    let error = ThreadQueuedTurnRow::try_from_row(&wrong_option).expect_err("no text");
    assert_eq!(error.column, "last_dispatch_error");

    let not_utf8 = sqlite_row("select cast(x'ff' as text) as queued_turn_id");
    let error = ThreadQueuedTurnRow::try_from_row(&not_utf8).expect_err("no text");
    assert_eq!(error.column, "queued_turn_id");
}

#[test]
fn a_row_becomes_a_turn() {
    let turn = ThreadQueuedTurn::try_from(row("thread-a", -1), parse).expect("turn");
    assert_eq!(
        turn,
        ThreadQueuedTurn {
            queued_turn_id: "turn-1".to_string(),
            thread_id: thread("thread-a"),
            turn_start_params_json: "5".to_string(),
            queue_order: -3,
            last_dispatch_error: None,
            created_at: UtcTime {
                seconds: -1,
                nanos: 999_000_000,
            },
        }
    );
}

#[test]
fn a_thread_id_that_does_not_parse_is_reported_before_a_time_that_does_not_exist() {
    assert_eq!(
        ThreadQueuedTurn::try_from(row("nobody", i64::MAX), parse),
        Err(TurnRowError::ThreadId {
            reason: "\"nobody\" is no thread".to_string()
        })
    );
    assert_eq!(
        ThreadQueuedTurn::try_from(row("thread-a", i64::MAX), parse),
        Err(TurnRowError::CreatedAt { millis: i64::MAX })
    );
    assert_eq!(
        ThreadQueuedTurn::try_from_parsed(row("", 0), Err("bad".to_string())),
        Err(TurnRowError::ThreadId {
            reason: "bad".to_string()
        })
    );
}

#[test]
fn times_reach_from_the_first_to_the_last_millisecond() {
    assert_eq!(
        UtcTime::from_millis(1500),
        Some(UtcTime {
            seconds: 1,
            nanos: 500_000_000
        })
    );
    assert_eq!(
        UtcTime::from_millis(-1500),
        Some(UtcTime {
            seconds: -2,
            nanos: 500_000_000
        })
    );
    assert_eq!(
        UtcTime::from_millis(FIRST_MILLI),
        Some(UtcTime {
            seconds: -8_334_601_228_800,
            nanos: 0
        })
    );
    assert_eq!(UtcTime::from_millis(FIRST_MILLI - 1), None);
    assert_eq!(
        UtcTime::from_millis(LAST_MILLI),
        Some(UtcTime {
            seconds: 8_210_266_876_799,
            nanos: 999_000_000
        })
    );
    assert_eq!(UtcTime::from_millis(LAST_MILLI + 1), None);
    assert_eq!(UtcTime::from_millis(i64::MIN), None);
    assert_eq!(
        chrono::DateTime::<chrono::Utc>::MIN_UTC.timestamp_millis(),
        FIRST_MILLI
    );
    assert_eq!(
        chrono::DateTime::<chrono::Utc>::MAX_UTC.timestamp_millis(),
        LAST_MILLI
    );
}

#[test]
fn clients_see_the_turn_with_its_parameters_decoded() {
    assert_eq!(
        api_queued_turn_from_state(stored("one", "5"), &decode),
        Ok(seen("one", 5))
    );
    assert_eq!(
        api_queued_turn_from_state(stored("one", "x"), &decode),
        Err("x is no number".to_string())
    );
    assert_eq!(
        queued_turn_from_decoded(stored("one", "ignored"), Ok(9)),
        Ok(seen("one", 9))
    );
}

#[test]
fn a_queue_keeps_its_order() {
    assert_eq!(read_api_thread_queue(Ok(vec![]), &decode), Ok(vec![]));
    assert_eq!(
        read_api_thread_queue(
            Ok(vec![stored("b", "2"), stored("a", "1"), stored("b", "3")]),
            &decode
        ),
        Ok(vec![seen("b", 2), seen("a", 1), seen("b", 3)])
    );
}

#[test]
fn the_first_turn_that_does_not_decode_makes_the_queue_unreadable() {
    let queue = read_api_thread_queue(
        Ok(vec![stored("a", "1"), stored("b", "x"), stored("c", "y")]),
        &decode,
    );
    assert_eq!(
        queue,
        Err(RequestError::DecodeParams {
            reason: "x is no number".to_string()
        })
    );
    assert_eq!(
        read_api_thread_queue(Err("locked".to_string()), &decode),
        Err(RequestError::ReadQueue {
            reason: "locked".to_string()
        })
    );
}

#[test]
fn what_was_appended_is_what_clients_see() {
    assert_eq!(
        appended_turn(Ok(stored("a", "1")), &decode),
        Ok(seen("a", 1))
    );
    assert_eq!(
        appended_turn(Ok(stored("a", "x")), &decode),
        Err(RequestError::DecodeParams {
            reason: "x is no number".to_string()
        })
    );
    assert_eq!(
        appended_turn(Err("full".to_string()), &decode),
        Err(RequestError::AddTurn {
            reason: "full".to_string()
        })
    );
}

#[test]
fn the_next_turn_is_the_first_one_that_decodes() {
    assert_eq!(
        next_turn(Ok(Some(stored("a", "1"))), &decode),
        NextTurn::Ready {
            queued_turn_id: "a".to_string(),
            turn_start_params: 1
        }
    );
    assert_eq!(
        next_turn(Ok(Some(stored("a", "x"))), &decode),
        NextTurn::DecodeFailed {
            reason: "x is no number".to_string()
        }
    );
    assert_eq!(next_turn(Ok(None), &decode), NextTurn::Empty);
    assert_eq!(
        next_turn(Err("locked".to_string()), &decode),
        NextTurn::ReadFailed {
            reason: "locked".to_string()
        }
    );
}

#[test]
fn a_thread_id_that_does_not_parse_makes_the_request_invalid() {
    assert_eq!(
        parse_thread_id_for_request("thread-a", parse),
        Ok(thread("thread-a"))
    );
    let error = parse_thread_id_for_request("nobody", parse).expect_err("no thread");
    assert_eq!(error.kind(), ErrorKind::InvalidRequest);
    assert_eq!(
        error.message(),
        "invalid thread id: \"nobody\" is no thread"
    );
}

#[test]
fn notifications_carry_the_thread_and_its_queue() {
    let changed = thread_queue_changed(&thread("thread-a"), vec![seen("a", 1)]);
    assert_eq!(changed.thread_id, "thread-a");
    assert_eq!(changed.queued_turns, vec![seen("a", 1)]);
    assert_eq!(
        thread_queue_snapshot_notification(&thread("thread-a"), Ok(vec![seen("a", 1)])),
        Ok(changed.clone())
    );
    assert_eq!(
        thread_queue_snapshot_notification::<i64>(
            &thread("thread-a"),
            Err(RequestError::ReadQueue {
                reason: "locked".to_string()
            })
        ),
        Err("failed to read thread queue: locked".to_string())
    );
    assert_eq!(
        send_thread_queue_snapshot_notification(
            &thread("thread-a"),
            Ok(vec![stored("a", "1")]),
            &decode
        ),
        Ok(changed)
    );
    assert_eq!(
        send_thread_queue_snapshot_notification(
            &thread("thread-a"),
            Ok(vec![stored("a", "x")]),
            &decode
        ),
        Err("failed to decode queued turn params: x is no number".to_string())
    );
}
