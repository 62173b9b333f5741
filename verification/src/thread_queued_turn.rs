//! A queued turn as it is stored, and the database row that it is stored in.
use vstd::prelude::*;

use crate::thread_id::ThreadId;
use crate::utc_time::FIRST_MILLI;
use crate::utc_time::LAST_MILLI;
use crate::utc_time::UtcTime;

verus! {

/// A turn that waits in the queue of its thread.
#[derive(Debug, Clone, PartialEq, Eq)]
pub struct ThreadQueuedTurn {
    pub queued_turn_id: String,
    pub thread_id: ThreadId,
    /// The parameters that the turn will be started with, as JSON text.
    pub turn_start_params_json: String,
    pub queue_order: i64,
    /// What went wrong when the turn was last dispatched, if anything did.
    pub last_dispatch_error: Option<String>,
    pub created_at: UtcTime,
}

/// The columns of a stored turn, taken out of the database and not yet looked at.
#[derive(Debug, PartialEq, Eq)]
pub struct ThreadQueuedTurnRow {
    pub queued_turn_id: String,
    pub thread_id: String,
    pub turn_start_params_json: String,
    pub queue_order: i64,
    pub last_dispatch_error: Option<String>,
    pub created_at_ms: i64,
}

/// Why a row is not a queued turn.
#[derive(Debug, PartialEq, Eq)]
pub enum TurnRowError {
    /// The text of the thread id does not parse.
    ThreadId { reason: String },
    /// The calendar does not reach the time of creation.
    CreatedAt { millis: i64 },
}

/// Why a column could not be taken out of a database row.
#[derive(Debug)]
pub struct ColumnError {
    pub column: String,
    pub source: sqlx::Error,
}

/// A row that SQLite returned, as `sqlx` hands it out.
#[verifier::external_type_specification]
#[verifier::external_body]
pub struct ExSqliteRow(sqlx::sqlite::SqliteRow);

/// The error type of `sqlx`.
#[verifier::external_type_specification]
#[verifier::external_body]
pub struct ExSqlxError(sqlx::Error);

/// What a column of a row can hold, as far as reading it goes.
pub enum ColumnValue {
    Null,
    Integer(i64),
    /// Text that is valid UTF-8.
    Text(Seq<char>),
    /// A floating-point number, a blob, or text that is not valid UTF-8.
    Other,
}

/// The columns of a row by name.
pub uninterp spec fn row_columns(row: sqlx::sqlite::SqliteRow) -> Map<Seq<char>, ColumnValue>;

/// What a row gives for a column that is read as text. A null reads as the
/// empty text.
pub open spec fn text_column(
    columns: Map<Seq<char>, ColumnValue>,
    column: Seq<char>,
) -> Option<Seq<char>> {
    if columns.contains_key(column) {
        match columns[column] {
            ColumnValue::Null => Some(Seq::empty()),
            ColumnValue::Text(text) => Some(text),
            _ => None,
        }
    } else {
        None
    }
}

/// What a row gives for a column that is read as text or nothing.
pub open spec fn optional_text_column(
    columns: Map<Seq<char>, ColumnValue>,
    column: Seq<char>,
) -> Option<Option<Seq<char>>> {
    if columns.contains_key(column) {
        match columns[column] {
            ColumnValue::Null => Some(None),
            ColumnValue::Text(text) => Some(Some(text)),
            _ => None,
        }
    } else {
        None
    }
}

/// What a row gives for a column that is read as an integer. A null reads as
/// zero.
pub open spec fn integer_column(
    columns: Map<Seq<char>, ColumnValue>,
    column: Seq<char>,
) -> Option<i64> {
    if columns.contains_key(column) {
        match columns[column] {
            ColumnValue::Null => Some(0),
            ColumnValue::Integer(value) => Some(value),
            _ => None,
        }
    } else {
        None
    }
}

/// The view of a text that may be absent.
pub open spec fn optional_text(text: Option<String>) -> Option<Seq<char>> {
    match text {
        Some(text) => Some(text@),
        None => None,
    }
}

/// Calls `sqlx::Row::try_get::<String, &str>`. Claimed of it: it gives the text
/// of a column that holds text, the empty text of one that holds null, and an
/// error for every other column and for one that the row does not have.
#[verifier::external_body]
fn get_text(row: &sqlx::sqlite::SqliteRow, column: &str) -> (value: Result<String, sqlx::Error>)
    ensures
        match value {
            Ok(text) => text_column(row_columns(*row), column@) == Some(text@),
            Err(_) => text_column(row_columns(*row), column@) is None,
        },
{
    sqlx::Row::try_get::<String, &str>(row, column)
}

/// Calls `sqlx::Row::try_get::<Option<String>, &str>`. Claimed of it: it gives
/// the text of a column that holds text, nothing for one that holds null, and
/// an error for every other column and for one that the row does not have.
#[verifier::external_body]
fn get_optional_text(row: &sqlx::sqlite::SqliteRow, column: &str) -> (value: Result<
    Option<String>,
    sqlx::Error,
>)
    ensures
        match value {
            Ok(text) => optional_text_column(row_columns(*row), column@) == Some(
                optional_text(text),
            ),
            Err(_) => optional_text_column(row_columns(*row), column@) is None,
        },
{
    sqlx::Row::try_get::<Option<String>, &str>(row, column)
}

/// Calls `sqlx::Row::try_get::<i64, &str>`. Claimed of it: it gives the integer
/// of a column that holds one, zero for one that holds null, and an error for
/// every other column and for one that the row does not have.
#[verifier::external_body]
fn get_integer(row: &sqlx::sqlite::SqliteRow, column: &str) -> (value: Result<i64, sqlx::Error>)
    ensures
        match value {
            Ok(number) => integer_column(row_columns(*row), column@) == Some(number),
            Err(_) => integer_column(row_columns(*row), column@) is None,
        },
{
    sqlx::Row::try_get::<i64, &str>(row, column)
}

/// The first of the columns of a stored turn, in the order in which they are
/// read, that the row does not give; nothing where it gives them all.
pub open spec fn first_missing_column(columns: Map<Seq<char>, ColumnValue>) -> Option<Seq<char>> {
    if text_column(columns, "queued_turn_id"@) is None {
        Some("queued_turn_id"@)
    } else if text_column(columns, "thread_id"@) is None {
        Some("thread_id"@)
    } else if text_column(columns, "turn_start_params_json"@) is None {
        Some("turn_start_params_json"@)
    } else if integer_column(columns, "queue_order"@) is None {
        Some("queue_order"@)
    } else if optional_text_column(columns, "last_dispatch_error"@) is None {
        Some("last_dispatch_error"@)
    } else if integer_column(columns, "created_at_ms"@) is None {
        Some("created_at_ms"@)
    } else {
        None
    }
}

/// Names the column that could not be read.
fn column_error(column: &str, source: sqlx::Error) -> (error: ColumnError)
    ensures
        error.column@ == column@,
        error.source == source,
{
    ColumnError { column: column.to_owned(), source }
}

impl ThreadQueuedTurnRow {
    /// The row holds what the columns give, each under its own name.
    pub open spec fn holds(&self, columns: Map<Seq<char>, ColumnValue>) -> bool {
        &&& text_column(columns, "queued_turn_id"@) == Some(self.queued_turn_id@)
        &&& text_column(columns, "thread_id"@) == Some(self.thread_id@)
        &&& text_column(columns, "turn_start_params_json"@) == Some(self.turn_start_params_json@)
        &&& integer_column(columns, "queue_order"@) == Some(self.queue_order)
        &&& optional_text_column(columns, "last_dispatch_error"@) == Some(
            optional_text(self.last_dispatch_error),
        )
        &&& integer_column(columns, "created_at_ms"@) == Some(self.created_at_ms)
    }

    /// Takes the columns of a stored turn out of a database row. Fails on the
    /// first column that the row does not have or that holds something else.
    pub fn try_from_row(row: &sqlx::sqlite::SqliteRow) -> (taken: Result<Self, ColumnError>)
        ensures
            match taken {
                Ok(taken) => taken.holds(row_columns(*row)),
                Err(error) => first_missing_column(row_columns(*row)) == Some(error.column@),
            },
            taken is Ok <==> first_missing_column(row_columns(*row)) is None,
    {
        let queued_turn_id = match get_text(row, "queued_turn_id") {
            Ok(text) => text,
            Err(source) => return Err(column_error("queued_turn_id", source)),
        };
        let thread_id = match get_text(row, "thread_id") {
            Ok(text) => text,
            Err(source) => return Err(column_error("thread_id", source)),
        };
        let turn_start_params_json = match get_text(row, "turn_start_params_json") {
            Ok(text) => text,
            Err(source) => return Err(column_error("turn_start_params_json", source)),
        };
        let queue_order: i64 = match get_integer(row, "queue_order") {
            Ok(number) => number,
            Err(source) => return Err(column_error("queue_order", source)),
        };
        let last_dispatch_error = match get_optional_text(row, "last_dispatch_error") {
            Ok(text) => text,
            Err(source) => return Err(column_error("last_dispatch_error", source)),
        };
        let created_at_ms: i64 = match get_integer(row, "created_at_ms") {
            Ok(number) => number,
            Err(source) => return Err(column_error("created_at_ms", source)),
        };
        Ok(
            ThreadQueuedTurnRow {
                queued_turn_id,
                thread_id,
                turn_start_params_json,
                queue_order,
                last_dispatch_error,
                created_at_ms,
            },
        )
    }
}

impl ThreadQueuedTurn {
    /// What a row comes to once its thread id has been parsed.
    pub open spec fn from_parsed(
        row: ThreadQueuedTurnRow,
        thread_id: Result<ThreadId, String>,
    ) -> Result<ThreadQueuedTurn, TurnRowError> {
        match (thread_id, UtcTime::spec_from_millis(row.created_at_ms)) {
            (Err(reason), _) => Err(TurnRowError::ThreadId { reason }),
            (Ok(_), None) => Err(TurnRowError::CreatedAt { millis: row.created_at_ms }),
            (Ok(thread_id), Some(created_at)) => Ok(
                ThreadQueuedTurn {
                    queued_turn_id: row.queued_turn_id,
                    thread_id,
                    turn_start_params_json: row.turn_start_params_json,
                    queue_order: row.queue_order,
                    last_dispatch_error: row.last_dispatch_error,
                    created_at,
                },
            ),
        }
    }

    /// Makes a queued turn of a row whose thread id has been parsed. A thread id
    /// that did not parse is reported before a time that does not exist.
    pub fn try_from_parsed(
        row: ThreadQueuedTurnRow,
        thread_id: Result<ThreadId, String>,
    ) -> (turn: Result<Self, TurnRowError>)
        ensures
            turn == ThreadQueuedTurn::from_parsed(row, thread_id),
    {
        let thread_id = match thread_id {
            Ok(thread_id) => thread_id,
            Err(reason) => return Err(TurnRowError::ThreadId { reason }),
        };
        let created_at = match UtcTime::from_millis(row.created_at_ms) {
            Some(created_at) => created_at,
            None => return Err(TurnRowError::CreatedAt { millis: row.created_at_ms }),
        };
        Ok(
            ThreadQueuedTurn {
                queued_turn_id: row.queued_turn_id,
                thread_id,
                turn_start_params_json: row.turn_start_params_json,
                queue_order: row.queue_order,
                last_dispatch_error: row.last_dispatch_error,
                created_at,
            },
        )
    }

    /// Makes a queued turn of a row; `parse` reads its thread id.
    pub fn try_from<F: FnOnce(&str) -> Result<ThreadId, String>>(
        row: ThreadQueuedTurnRow,
        parse: F,
    ) -> (turn: Result<Self, TurnRowError>)
        requires
            forall|text: &str| text@ == row.thread_id@ ==> call_requires(parse, (text,)),
        ensures
            exists|text: &str, parsed: Result<ThreadId, String>|
                text@ == row.thread_id@ && #[trigger] call_ensures(parse, (text,), parsed) && turn
                    == ThreadQueuedTurn::from_parsed(row, parsed),
    {
        let parsed = parse(row.thread_id.as_str());
        ThreadQueuedTurn::try_from_parsed(row, parsed)
    }
}

/// Every row whose thread id parses and whose time of creation the calendar
/// reaches is a queued turn: of that thread, created in that millisecond, with the
/// id, the parameters, the place in the queue and the last error of the row.
pub proof fn law_rows_are_read_back(row: ThreadQueuedTurnRow, thread_id: ThreadId)
    requires
        FIRST_MILLI <= row.created_at_ms <= LAST_MILLI,
    ensures
        ThreadQueuedTurn::from_parsed(row, Ok(thread_id)) matches Ok(turn) && turn.thread_id
            == thread_id && turn.queued_turn_id == row.queued_turn_id
            && turn.turn_start_params_json == row.turn_start_params_json && turn.queue_order
            == row.queue_order && turn.last_dispatch_error == row.last_dispatch_error
            && turn.created_at.seconds * 1000 + turn.created_at.nanos / 1_000_000
            == row.created_at_ms && turn.created_at.nanos % 1_000_000 == 0
            && turn.created_at.nanos < 1_000_000_000,
{
}

/// A row is no queued turn only where its thread id does not parse, for that
/// reason, or else where the calendar does not reach its time of creation.
pub proof fn law_rows_are_refused_only_for_a_reason(
    row: ThreadQueuedTurnRow,
    parsed: Result<ThreadId, String>,
    error: TurnRowError,
)
    ensures
        ThreadQueuedTurn::from_parsed(row, parsed) == Err::<ThreadQueuedTurn, TurnRowError>(error)
            <==> match error {
            TurnRowError::ThreadId { reason } => parsed == Err::<ThreadId, String>(reason),
            TurnRowError::CreatedAt { millis } => parsed is Ok && millis == row.created_at_ms && !(
            FIRST_MILLI <= row.created_at_ms <= LAST_MILLI),
        },
{
}

/// A column is read as what it holds. Read as text, a null is empty; read as an
/// integer, it is zero; and only where nothing may stand, it is nothing. What holds
/// something else, or is not there, is not read.
pub proof fn law_columns_are_read_as_what_they_hold(
    columns: Map<Seq<char>, ColumnValue>,
    column: Seq<char>,
)
    ensures
        ({
            let text = text_column(columns, column);
            let optional = optional_text_column(columns, column);
            let integer = integer_column(columns, column);
            if columns.contains_key(column) {
                match columns[column] {
                    ColumnValue::Null => text == Some(Seq::<char>::empty()) && optional == Some(
                        None::<Seq<char>>,
                    ) && integer == Some(0i64),
                    ColumnValue::Integer(value) => text is None && optional is None && integer
                        == Some(value),
                    ColumnValue::Text(value) => text == Some(value) && optional == Some(Some(value))
                        && integer is None,
                    ColumnValue::Other => text is None && optional is None && integer is None,
                }
            } else {
                text is None && optional is None && integer is None
            }
        }),
{
}

/// What is taken out of a row is what stands in its columns, each under its own
/// name.
pub proof fn law_each_column_is_taken_under_its_name(
    row: ThreadQueuedTurnRow,
    columns: Map<Seq<char>, ColumnValue>,
)
    requires
        row.holds(columns),
    ensures
        columns["queued_turn_id"@] matches ColumnValue::Text(text) ==> row.queued_turn_id@ == text,
        columns["thread_id"@] matches ColumnValue::Text(text) ==> row.thread_id@ == text,
        columns["turn_start_params_json"@] matches ColumnValue::Text(text)
            ==> row.turn_start_params_json@ == text,
        columns["queue_order"@] matches ColumnValue::Integer(value) ==> row.queue_order == value,
        columns["last_dispatch_error"@] matches ColumnValue::Text(text)
            ==> row.last_dispatch_error is Some && row.last_dispatch_error->Some_0@ == text,
        columns["created_at_ms"@] matches ColumnValue::Integer(value) ==> row.created_at_ms
            == value,
        columns["queued_turn_id"@] is Null ==> row.queued_turn_id@.len() == 0,
        columns["thread_id"@] is Null ==> row.thread_id@.len() == 0,
        columns["turn_start_params_json"@] is Null ==> row.turn_start_params_json@.len() == 0,
        columns["queue_order"@] is Null ==> row.queue_order == 0,
        columns["last_dispatch_error"@] is Null ==> row.last_dispatch_error is None,
        columns["created_at_ms"@] is Null ==> row.created_at_ms == 0,
        first_missing_column(columns) is None,
{
}

/// A row is taken out where each of its six columns is there and holds a null or
/// what the column is for. Where some are not, the first of them is reported.
pub proof fn law_the_first_column_that_does_not_fit_is_reported(
    columns: Map<Seq<char>, ColumnValue>,
)
    ensures
        ({
            let id = columns.contains_key("queued_turn_id"@) && (columns["queued_turn_id"@] is Null
                || columns["queued_turn_id"@] is Text);
            let thread = columns.contains_key("thread_id"@) && (columns["thread_id"@] is Null
                || columns["thread_id"@] is Text);
            let params = columns.contains_key("turn_start_params_json"@) && (
            columns["turn_start_params_json"@] is Null || columns["turn_start_params_json"@]
                is Text);
            let order = columns.contains_key("queue_order"@) && (columns["queue_order"@] is Null
                || columns["queue_order"@] is Integer);
            let error = columns.contains_key("last_dispatch_error"@) && (
            columns["last_dispatch_error"@] is Null || columns["last_dispatch_error"@] is Text);
            let created = columns.contains_key("created_at_ms"@) && (
            columns["created_at_ms"@] is Null || columns["created_at_ms"@] is Integer);
            let missing = first_missing_column(columns);
            &&& !id ==> missing == Some("queued_turn_id"@)
            &&& id && !thread ==> missing == Some("thread_id"@)
            &&& id && thread && !params ==> missing == Some("turn_start_params_json"@)
            &&& id && thread && params && !order ==> missing == Some("queue_order"@)
            &&& id && thread && params && order && !error ==> missing == Some(
                "last_dispatch_error"@,
            )
            &&& id && thread && params && order && error && !created ==> missing == Some(
                "created_at_ms"@,
            )
            &&& id && thread && params && order && error && created ==> missing is None
        }),
{
}

} // verus!
