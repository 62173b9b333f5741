//! The metrics of the state database, recorded through the client of the process.
use vstd::prelude::*;

use crate::metrics::OnceSlot;
use crate::metrics::clone_of_held;

verus! {

/// A metrics client that records for the state database. What goes wrong while it
/// records is dropped.
#[derive(Debug)]
pub struct OtelDbMetrics<C> {
    pub client: C,
}

impl<C> OtelDbMetrics<C> {
    /// Hands an increment to the client; `counter` is the client's own counter.
    pub fn counter<E, F: FnOnce(&C, &str, i64, &[(&str, &str)]) -> Result<(), E>>(
        &self,
        name: &str,
        inc: i64,
        tags: &[(&str, &str)],
        counter: F,
    )
        requires
            call_requires(counter, (&self.client, name, inc, tags)),
        ensures
            exists|counted: Result<(), E>|
                call_ensures(counter, (&self.client, name, inc, tags), counted),
    {
        let _ = counter(&self.client, name, inc, tags);
    }

    /// Hands a duration to the client; `record` is the client's own recorder.
    pub fn record_duration<
        E,
        F: FnOnce(&C, &str, std::time::Duration, &[(&str, &str)]) -> Result<(), E>,
    >(&self, name: &str, duration: std::time::Duration, tags: &[(&str, &str)], record: F)
        requires
            call_requires(record, (&self.client, name, duration, tags)),
        ensures
            exists|recorded: Result<(), E>|
                call_ensures(record, (&self.client, name, duration, tags), recorded),
    {
        let _ = record(&self.client, name, duration, tags);
    }
}

/// The client that a recorder records through.
pub open spec fn client_of<C>(metrics: Option<OtelDbMetrics<C>>) -> Option<C> {
    match metrics {
        Some(metrics) => Some(metrics.client),
        None => None,
    }
}

/// The recorder for the state database, if the process has a metrics client.
pub fn global<C: Clone>(global_metrics: &OnceSlot<C>) -> (metrics: Option<OtelDbMetrics<C>>)
    ensures
        clone_of_held(global_metrics@, client_of(metrics)),
{
    match crate::metrics::global(global_metrics) {
        Some(client) => Some(OtelDbMetrics { client }),
        None => None,
    }
}

/// Records that the state database was passed over; `record` is told by whom and
/// why, with the recorder of the process if there is one.
pub fn record_fallback<C: Clone, R, F: FnOnce(Option<&OtelDbMetrics<C>>, &str, &str) -> R>(
    global_metrics: &OnceSlot<C>,
    caller: &str,
    reason: &str,
    record: F,
) -> (recorded: R)
    requires
        forall|metrics: Option<&OtelDbMetrics<C>>|
            call_requires(record, (metrics, caller, reason)),
    ensures
        exists|metrics: Option<&OtelDbMetrics<C>>|
            clone_of_held(
                global_metrics@,
                match metrics {
                    Some(metrics) => Some(metrics.client),
                    None => None,
                },
            ) && #[trigger] call_ensures(record, (metrics, caller, reason), recorded),
{
    let metrics = global(global_metrics);
    record(metrics.as_ref(), caller, reason)
}

/// A recorder records through the client that it was made with, and where there is
/// no recorder there is no client.
pub proof fn law_recorders_keep_their_client<C>(client: C)
    ensures
        client_of(Some(OtelDbMetrics { client })) == Some(client),
        client_of(None::<OtelDbMetrics<C>>) is None,
{
}

} // verus!
