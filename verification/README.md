# thread_queue

The queue of turns that wait in a thread until it falls idle, and the metrics
that the process shares.

`src/` is the library. It is verified with Verus, and it does no I/O:

- `thread_queued_turn`: the stored turn and the SQLite row that it is read from
- `utc_time`, `thread_id`: points in time and thread identifiers
- `api`: what clients see of a turn and of a queue
- `error`: what a request is refused with
- `processor`: where requests come in, and the locks on the queues
- `task`: the course of a request or of a drain, from one piece of outside work
  to the next
- `decoding`: the steps that encode and decode the parameters of a turn
- `warning`: what is logged on the way
- `course`, `discipline`: what holds of every such course
- `contention`: what holds of several tasks on one thread
- `metrics`, `sqlite_metrics`: the shared metrics client and the count of
  process starts

`tests/` runs the library. `app/` does the outside work that the tasks wait for.
