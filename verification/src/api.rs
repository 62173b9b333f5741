//! Queued turns as clients see them.
use vstd::prelude::*;

use crate::error::RequestError;
use crate::thread_id::ThreadId;
use crate::thread_queued_turn::ThreadQueuedTurn;
use crate::thread_queued_turn::ThreadQueuedTurnRow;
use crate::utc_time::FIRST_MILLI;
use crate::utc_time::LAST_MILLI;

verus! {

/// A queued turn as clients see it. `P` is what the stored parameters decode to.
#[derive(Debug, Clone, PartialEq)]
pub struct QueuedTurn<P> {
    pub id: String,
    pub turn_start_params: P,
    /// The whole seconds since the Unix epoch.
    pub created_at: i64,
    pub queue_order: i64,
    pub last_dispatch_error: Option<String>,
}

/// The turn that a drain dispatches next.
#[derive(Debug, PartialEq)]
pub enum NextTurn<P> {
    /// The queue could not be asked.
    ReadFailed { reason: String },
    /// No turn can be dispatched.
    Empty,
    /// The parameters of the turn could not be read back.
    DecodeFailed { reason: String },
    /// This turn is to be started.
    Ready { queued_turn_id: String, turn_start_params: P },
}

/// Tells the clients what the queue of a thread holds.
#[derive(Debug, Clone, PartialEq)]
pub struct ThreadQueueChangedNotification<P> {
    pub thread_id: String,
    pub queued_turns: Vec<QueuedTurn<P>>,
}

/// What a thread id given as text comes to, once it has been parsed.
pub open spec fn thread_id_for_request(parsed: Result<ThreadId, String>) -> Result<
    ThreadId,
    RequestError,
> {
    match parsed {
        Ok(thread_id) => Ok(thread_id),
        Err(reason) => Err(RequestError::InvalidThreadId { reason }),
    }
}

/// Reads the thread id of a request. Text that `parse` rejects makes the request
/// invalid.
pub fn parse_thread_id_for_request<F: FnOnce(&str) -> Result<ThreadId, String>>(
    thread_id: &str,
    parse: F,
) -> (id: Result<ThreadId, RequestError>)
    requires
        call_requires(parse, (thread_id,)),
    ensures
        exists|parsed: Result<ThreadId, String>| #[trigger]
            call_ensures(parse, (thread_id,), parsed) && id == thread_id_for_request(parsed),
{
    match parse(thread_id) {
        Ok(thread_id) => Ok(thread_id),
        Err(reason) => Err(RequestError::InvalidThreadId { reason }),
    }
}

/// `decode` can be asked for the stored parameters of `turn`.
pub open spec fn can_decode<P, F: Fn(&str) -> Result<P, String>>(
    decode: F,
    turn: ThreadQueuedTurn,
) -> bool {
    forall|json: &str|
        json@ == turn.turn_start_params_json@ ==> #[trigger] call_requires(decode, (json,))
}

/// `decoded` is something that `decode` can return for the stored parameters of
/// `turn`.
pub open spec fn decodes_to<P, F: Fn(&str) -> Result<P, String>>(
    decode: F,
    turn: ThreadQueuedTurn,
    decoded: Result<P, String>,
) -> bool {
    exists|json: &str|
        json@ == turn.turn_start_params_json@ && #[trigger] call_ensures(decode, (json,), decoded)
}

/// The turn as clients see it, with its parameters decoded.
pub open spec fn seen_by_clients<P>(turn: ThreadQueuedTurn, turn_start_params: P) -> QueuedTurn<P> {
    QueuedTurn {
        id: turn.queued_turn_id,
        turn_start_params,
        created_at: turn.created_at.seconds,
        queue_order: turn.queue_order,
        last_dispatch_error: turn.last_dispatch_error,
    }
}

/// What a stored turn comes to once its parameters have been decoded.
pub open spec fn queued_turn_of<P>(turn: ThreadQueuedTurn, decoded: Result<P, String>) -> Result<
    QueuedTurn<P>,
    String,
> {
    match decoded {
        Ok(turn_start_params) => Ok(seen_by_clients(turn, turn_start_params)),
        Err(reason) => Err(reason),
    }
}

/// Turns a stored turn whose parameters have been decoded into what clients see.
pub fn queued_turn_from_decoded<P>(
    queued_turn: ThreadQueuedTurn,
    decoded: Result<P, String>,
) -> (seen: Result<QueuedTurn<P>, String>)
    ensures
        seen == queued_turn_of(queued_turn, decoded),
{
    match decoded {
        Ok(turn_start_params) => Ok(
            QueuedTurn {
                id: queued_turn.queued_turn_id,
                turn_start_params,
                created_at: queued_turn.created_at.timestamp(),
                queue_order: queued_turn.queue_order,
                last_dispatch_error: queued_turn.last_dispatch_error,
            },
        ),
        Err(reason) => Err(reason),
    }
}

/// Turns a stored turn into what clients see; `decode` reads its parameters.
pub fn api_queued_turn_from_state<P, F: Fn(&str) -> Result<P, String>>(
    queued_turn: ThreadQueuedTurn,
    decode: &F,
) -> (seen: Result<QueuedTurn<P>, String>)
    requires
        can_decode(*decode, queued_turn),
    ensures
        exists|decoded: Result<P, String>| #[trigger]
            decodes_to(*decode, queued_turn, decoded) && seen == queued_turn_of(
                queued_turn,
                decoded,
            ),
{
    let decoded = decode(queued_turn.turn_start_params_json.as_str());
    assert(decodes_to(*decode, queued_turn, decoded));
    queued_turn_from_decoded(queued_turn, decoded)
}

/// Each of the first `count` turns has been decoded into the turn at its place.
pub open spec fn decoded_up_to<P, F: Fn(&str) -> Result<P, String>>(
    decode: F,
    turns: Seq<ThreadQueuedTurn>,
    seen: Seq<QueuedTurn<P>>,
    count: int,
) -> bool {
    forall|i: int|
        #![trigger seen[i]]
        0 <= i < count ==> decodes_to(decode, turns[i], Ok(seen[i].turn_start_params)) && seen[i]
            == seen_by_clients(turns[i], seen[i].turn_start_params)
}

/// Some turn does not decode, for `reason`, and all those before it do.
pub open spec fn first_failure<P, F: Fn(&str) -> Result<P, String>>(
    decode: F,
    turns: Seq<ThreadQueuedTurn>,
    reason: String,
) -> bool {
    exists|at: int, seen: Seq<QueuedTurn<P>>|
        0 <= at < turns.len() && seen.len() == at && #[trigger] decoded_up_to(
            decode,
            turns,
            seen,
            at,
        ) && decodes_to(decode, turns[at], Err::<P, String>(reason))
}

/// What the database answered comes to `queue`, with each turn decoded. The turns
/// keep their order. Where some turn does not decode, the first such turn makes the
/// whole queue unreadable.
pub open spec fn reads_as<P, F: Fn(&str) -> Result<P, String>>(
    decode: F,
    listed: Result<Vec<ThreadQueuedTurn>, String>,
    queue: Result<Vec<QueuedTurn<P>>, RequestError>,
) -> bool {
    match listed {
        Err(reason) => queue == Err::<Vec<QueuedTurn<P>>, RequestError>(
            RequestError::ReadQueue { reason },
        ),
        Ok(turns) => match queue {
            Ok(seen) => seen@.len() == turns@.len() && decoded_up_to(
                decode,
                turns@,
                seen@,
                turns@.len() as int,
            ),
            Err(error) => error matches RequestError::DecodeParams { reason } && first_failure(
                decode,
                turns@,
                reason,
            ),
        },
    }
}

/// `decode` can be asked for each of the turns that the database answered.
pub open spec fn can_decode_all<P, F: Fn(&str) -> Result<P, String>>(
    decode: F,
    listed: Result<Vec<ThreadQueuedTurn>, String>,
) -> bool {
    listed matches Ok(turns) ==> forall|i: int|
        0 <= i < turns@.len() ==> can_decode(decode, #[trigger] turns@[i])
}

/// The queue of a thread as clients see it, from what the database answered.
/// The turns keep their order. Where some turn does not decode, the first such
/// turn makes the whole queue unreadable.
pub fn read_api_thread_queue<P, F: Fn(&str) -> Result<P, String>>(
    listed: Result<Vec<ThreadQueuedTurn>, String>,
    decode: &F,
) -> (queue: Result<Vec<QueuedTurn<P>>, RequestError>)
    requires
        can_decode_all(*decode, listed),
    ensures
        reads_as(*decode, listed, queue),
{
    let turns = match listed {
        Ok(turns) => turns,
        Err(reason) => return Err(RequestError::ReadQueue { reason }),
    };
    let ghost all = turns@;
    let mut seen: Vec<QueuedTurn<P>> = Vec::new();
    for turn in rest: turns.into_iter()
        invariant
            forall|i: int| 0 <= i < all.len() ==> can_decode(*decode, #[trigger] all[i]),
            rest.seq() == all,
            turns@ == all,
            listed == Ok::<Vec<ThreadQueuedTurn>, String>(turns),
            seen@.len() == rest.index(),
            decoded_up_to(*decode, all, seen@, rest.index() as int),
    {
        let ghost at = rest.index() as int;
        match api_queued_turn_from_state(turn, decode) {
            Ok(decoded) => {
                let ghost before = seen@;
                seen.push(decoded);
                assert forall|i: int| #![trigger seen@[i]] 0 <= i < at + 1 implies decodes_to(
                    *decode,
                    all[i],
                    Ok(seen@[i].turn_start_params),
                ) && seen@[i] == seen_by_clients(all[i], seen@[i].turn_start_params) by {
                    if i < at {
                        assert(seen@[i] == before[i]);
                    }
                }
            },
            Err(reason) => {
                assert(decoded_up_to(*decode, turns@, seen@, at));
                return Err(RequestError::DecodeParams { reason });
            },
        }
    }
    Ok(seen)
}

/// What a turn that was added comes to once its parameters have been decoded.
pub open spec fn added_turn_of<P>(stored: ThreadQueuedTurn, decoded: Result<P, String>) -> Result<
    QueuedTurn<P>,
    RequestError,
> {
    match decoded {
        Ok(turn_start_params) => Ok(seen_by_clients(stored, turn_start_params)),
        Err(reason) => Err(RequestError::DecodeParams { reason }),
    }
}

/// The turn that was added, from what the database answered.
pub fn appended_turn<P, F: Fn(&str) -> Result<P, String>>(
    appended: Result<ThreadQueuedTurn, String>,
    decode: &F,
) -> (turn: Result<QueuedTurn<P>, RequestError>)
    requires
        appended matches Ok(stored) ==> can_decode(*decode, stored),
    ensures
        match appended {
            Err(reason) => turn == Err::<QueuedTurn<P>, RequestError>(
                RequestError::AddTurn { reason },
            ),
            Ok(stored) => exists|decoded: Result<P, String>| #[trigger]
                decodes_to(*decode, stored, decoded) && turn == added_turn_of(stored, decoded),
        },
{
    match appended {
        Ok(stored) => match api_queued_turn_from_state(stored, decode) {
            Ok(turn) => Ok(turn),
            Err(reason) => Err(RequestError::DecodeParams { reason }),
        },
        Err(reason) => Err(RequestError::AddTurn { reason }),
    }
}

/// What the first turn of a queue comes to once its parameters have been decoded.
pub open spec fn next_turn_of<P>(stored: ThreadQueuedTurn, decoded: Result<P, String>) -> NextTurn<
    P,
> {
    match decoded {
        Ok(turn_start_params) => NextTurn::Ready {
            queued_turn_id: stored.queued_turn_id,
            turn_start_params,
        },
        Err(reason) => NextTurn::DecodeFailed { reason },
    }
}

/// The turn to dispatch next, from what the database answered.
pub fn next_turn<P, F: Fn(&str) -> Result<P, String>>(
    first: Result<Option<ThreadQueuedTurn>, String>,
    decode: &F,
) -> (next: NextTurn<P>)
    requires
        first matches Ok(Some(stored)) ==> can_decode(*decode, stored),
    ensures
        match first {
            Err(reason) => next == (NextTurn::<P>::ReadFailed { reason }),
            Ok(None) => next == NextTurn::<P>::Empty,
            Ok(Some(stored)) => exists|decoded: Result<P, String>| #[trigger]
                decodes_to(*decode, stored, decoded) && next == next_turn_of(stored, decoded),
        },
{
    match first {
        Ok(Some(stored)) => match api_queued_turn_from_state(stored, decode) {
            Ok(turn) => NextTurn::Ready {
                queued_turn_id: turn.id,
                turn_start_params: turn.turn_start_params,
            },
            Err(reason) => NextTurn::DecodeFailed { reason },
        },
        Ok(None) => NextTurn::Empty,
        Err(reason) => NextTurn::ReadFailed { reason },
    }
}

/// The notification that tells the clients what the queue of a thread holds.
pub fn thread_queue_changed<P>(thread_id: &ThreadId, queued_turns: Vec<QueuedTurn<P>>) -> (
    notification: ThreadQueueChangedNotification<P>)
    ensures
        notification.thread_id@ == thread_id@,
        notification.queued_turns == queued_turns,
{
    ThreadQueueChangedNotification { thread_id: thread_id.to_text(), queued_turns }
}

/// `sent` is the notification with the queue of the thread or, where the queue
/// could not be read, the message to log in its place.
pub open spec fn snapshot_of<P>(
    thread_id: ThreadId,
    queue: Result<Vec<QueuedTurn<P>>, RequestError>,
    sent: Result<ThreadQueueChangedNotification<P>, String>,
) -> bool {
    match (queue, sent) {
        (Ok(queued_turns), Ok(notification)) => notification.thread_id@ == thread_id@
            && notification.queued_turns == queued_turns,
        (Err(error), Err(warning)) => warning@ == error.message_text(),
        _ => false,
    }
}

/// The notification that sends the clients a snapshot of a queue. A queue that
/// could not be read is not sent: there is a message to log instead.
pub fn thread_queue_snapshot_notification<P>(
    thread_id: &ThreadId,
    queue: Result<Vec<QueuedTurn<P>>, RequestError>,
) -> (sent: Result<ThreadQueueChangedNotification<P>, String>)
    ensures
        snapshot_of(*thread_id, queue, sent),
{
    match queue {
        Ok(queued_turns) => Ok(thread_queue_changed(thread_id, queued_turns)),
        Err(error) => Err(error.message()),
    }
}

/// What a listener that was told to send a snapshot sends or logs, from what the
/// database answered.
pub fn send_thread_queue_snapshot_notification<P, F: Fn(&str) -> Result<P, String>>(
    thread_id: &ThreadId,
    listed: Result<Vec<ThreadQueuedTurn>, String>,
    decode: &F,
) -> (sent: Result<ThreadQueueChangedNotification<P>, String>)
    requires
        can_decode_all(*decode, listed),
    ensures
        exists|queue: Result<Vec<QueuedTurn<P>>, RequestError>| #[trigger]
            reads_as(*decode, listed, queue) && snapshot_of(*thread_id, queue, sent),
{
    let queue = read_api_thread_queue(listed, decode);
    assert(reads_as(*decode, listed, queue));
    thread_queue_snapshot_notification(thread_id, queue)
}

/// Clients see every turn whose time of creation the calendar reaches, and what
/// they see of it is what its row holds: the same id, place in the queue and last
/// error, and the second that the time of creation falls into.
pub proof fn law_clients_see_what_is_stored<P>(
    row: ThreadQueuedTurnRow,
    thread_id: ThreadId,
    turn_start_params: P,
)
    requires
        FIRST_MILLI <= row.created_at_ms <= LAST_MILLI,
    ensures
        ThreadQueuedTurn::from_parsed(row, Ok(thread_id)) is Ok,
        ({
            let turn = ThreadQueuedTurn::from_parsed(row, Ok(thread_id))->Ok_0;
            let seen = seen_by_clients(turn, turn_start_params);
            &&& turn.turn_start_params_json == row.turn_start_params_json
            &&& seen.id == row.queued_turn_id
            &&& seen.turn_start_params == turn_start_params
            &&& seen.queue_order == row.queue_order
            &&& seen.last_dispatch_error == row.last_dispatch_error
            &&& seen.created_at * 1000 <= row.created_at_ms < (seen.created_at + 1) * 1000
        }),
{
}

/// A thread id that parses is the thread id of the request, and one that does not
/// makes the request invalid for that reason.
pub proof fn law_thread_ids_that_parse_are_taken(thread_id: ThreadId, reason: String)
    ensures
        thread_id_for_request(Ok(thread_id)) == Ok::<ThreadId, RequestError>(thread_id),
        thread_id_for_request(Err(reason)) == Err::<ThreadId, RequestError>(
            RequestError::InvalidThreadId { reason },
        ),
{
}

/// Every stored turn whose parameters decode is seen by clients, with all that was
/// stored: as a turn of a queue, as a turn that was added, and as the turn that is
/// started next. A turn whose parameters do not decode is seen as none of these,
/// for the reason that the decoder gives.
pub proof fn law_turns_that_decode_are_seen<P>(
    turn: ThreadQueuedTurn,
    turn_start_params: P,
    reason: String,
)
    ensures
        ({
            let seen = seen_by_clients(turn, turn_start_params);
            &&& seen.id == turn.queued_turn_id
            &&& seen.turn_start_params == turn_start_params
            &&& seen.created_at == turn.created_at.seconds
            &&& seen.queue_order == turn.queue_order
            &&& seen.last_dispatch_error == turn.last_dispatch_error
            &&& queued_turn_of(turn, Ok(turn_start_params)) == Ok::<QueuedTurn<P>, String>(seen)
            &&& added_turn_of(turn, Ok(turn_start_params)) == Ok::<QueuedTurn<P>, RequestError>(
                seen,
            )
            &&& next_turn_of(turn, Ok(turn_start_params)) == (NextTurn::Ready {
                queued_turn_id: turn.queued_turn_id,
                turn_start_params,
            })
        }),
        queued_turn_of(turn, Err::<P, String>(reason)) == Err::<QueuedTurn<P>, String>(reason),
        added_turn_of(turn, Err::<P, String>(reason)) == Err::<QueuedTurn<P>, RequestError>(
            RequestError::DecodeParams { reason },
        ),
        next_turn_of(turn, Err::<P, String>(reason)) == (NextTurn::<P>::DecodeFailed { reason }),
{
}

/// `decode` reads every text as `meaning` says.
pub open spec fn decodes_by<P, F: Fn(&str) -> Result<P, String>>(
    decode: F,
    meaning: spec_fn(Seq<char>) -> Result<P, String>,
) -> bool {
    forall|json: &str, decoded: Result<P, String>|
        #[trigger] call_ensures(decode, (json,), decoded) ==> decoded == meaning(json@)
}

/// What a turn decodes to is what its own stored text means.
pub proof fn law_turns_decode_to_what_they_store<P, F: Fn(&str) -> Result<P, String>>(
    decode: F,
    meaning: spec_fn(Seq<char>) -> Result<P, String>,
    turn: ThreadQueuedTurn,
    decoded: Result<P, String>,
)
    requires
        decodes_by(decode, meaning),
        decodes_to(decode, turn, decoded),
    ensures
        decoded == meaning(turn.turn_start_params_json@),
{
}

/// A decoder that takes any text can be asked for every turn and every queue.
pub proof fn law_decoders_of_any_text_can_be_asked<P, F: Fn(&str) -> Result<P, String>>(
    decode: F,
    turn: ThreadQueuedTurn,
    listed: Result<Vec<ThreadQueuedTurn>, String>,
)
    requires
        forall|json: &str| #[trigger] call_requires(decode, (json,)),
    ensures
        can_decode(decode, turn),
        can_decode_all(decode, listed),
{
}

/// A queue in which every turn decodes is read whole and in its order: as many
/// turns as are stored, each with its own id, place, error, time and parameters.
/// A queue in which some turn does not decode is not read, for the reason that the
/// first such turn gives.
pub proof fn law_queues_are_read_as_they_are_stored<P, F: Fn(&str) -> Result<P, String>>(
    decode: F,
    meaning: spec_fn(Seq<char>) -> Result<P, String>,
    turns: Vec<ThreadQueuedTurn>,
    queue: Result<Vec<QueuedTurn<P>>, RequestError>,
)
    requires
        decodes_by(decode, meaning),
        reads_as(decode, Ok(turns), queue),
    ensures
        match queue {
            Ok(seen) => seen@.len() == turns@.len() && forall|i: int|
                #![trigger seen@[i]]
                0 <= i < turns@.len() ==> {
                    &&& meaning(turns@[i].turn_start_params_json@) == Ok::<P, String>(
                        seen@[i].turn_start_params,
                    )
                    &&& seen@[i].id == turns@[i].queued_turn_id
                    &&& seen@[i].created_at == turns@[i].created_at.seconds
                    &&& seen@[i].queue_order == turns@[i].queue_order
                    &&& seen@[i].last_dispatch_error == turns@[i].last_dispatch_error
                },
            Err(error) => exists|at: int|
                #![trigger turns@[at]]
                0 <= at < turns@.len() && meaning(turns@[at].turn_start_params_json@) is Err
                    && error == (RequestError::DecodeParams {
                    reason: meaning(turns@[at].turn_start_params_json@)->Err_0,
                }) && forall|before: int|
                    #![trigger turns@[before]]
                    0 <= before < at ==> meaning(turns@[before].turn_start_params_json@) is Ok,
        },
        (forall|i: int|
            #![trigger turns@[i]]
            0 <= i < turns@.len() ==> meaning(turns@[i].turn_start_params_json@) is Ok) ==> queue
            is Ok,
{
    match queue {
        Ok(seen) => {
            assert forall|i: int| #![trigger seen@[i]] 0 <= i < turns@.len() implies meaning(
                turns@[i].turn_start_params_json@,
            ) == Ok::<P, String>(seen@[i].turn_start_params) by {
                law_turns_decode_to_what_they_store(
                    decode,
                    meaning,
                    turns@[i],
                    Ok(seen@[i].turn_start_params),
                );
            }
        },
        Err(error) => {
            let reason = error->DecodeParams_reason;
            let (at, seen) = choose|at: int, seen: Seq<QueuedTurn<P>>|
                0 <= at < turns@.len() && seen.len() == at && #[trigger] decoded_up_to(
                    decode,
                    turns@,
                    seen,
                    at,
                ) && decodes_to(decode, turns@[at], Err::<P, String>(reason));
            law_turns_decode_to_what_they_store(
                decode,
                meaning,
                turns@[at],
                Err::<P, String>(reason),
            );
            assert forall|before: int|
                #![trigger turns@[before]]
                0 <= before < at implies meaning(turns@[before].turn_start_params_json@) is Ok by {
                law_turns_decode_to_what_they_store(
                    decode,
                    meaning,
                    turns@[before],
                    Ok(seen[before].turn_start_params),
                );
            }
        },
    }
}

/// A queue that the database does not give is not read, for the reason that the
/// database gives.
pub proof fn law_queues_that_are_not_given_are_not_read<P, F: Fn(&str) -> Result<P, String>>(
    decode: F,
    reason: String,
    queue: Result<Vec<QueuedTurn<P>>, RequestError>,
)
    requires
        reads_as(decode, Err(reason), queue),
    ensures
        queue == Err::<Vec<QueuedTurn<P>>, RequestError>(RequestError::ReadQueue { reason }),
{
}

/// A snapshot sends the queue that was read, whole, under the id of its thread. A
/// queue that could not be read is not sent, and what is logged is the message of
/// the refusal.
pub proof fn law_snapshots_send_what_was_read<P>(
    thread_id: ThreadId,
    queue: Result<Vec<QueuedTurn<P>>, RequestError>,
    sent: Result<ThreadQueueChangedNotification<P>, String>,
)
    requires
        snapshot_of(thread_id, queue, sent),
    ensures
        queue is Ok <==> sent is Ok,
        queue is Ok ==> sent->Ok_0.queued_turns == queue->Ok_0 && sent->Ok_0.thread_id@
            == thread_id.text@,
        queue is Err ==> sent->Err_0@ == queue->Err_0.message_text(),
{
}

} // verus!
