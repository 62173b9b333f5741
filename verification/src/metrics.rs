//! The metrics of the process: the client that everyone shares, and the count of
//! process starts.
use vstd::prelude::*;

verus! {

/// A place that is filled at most once. What comes later is dropped.
#[derive(Debug)]
pub struct OnceSlot<T> {
    value: Option<T>,
}

/// What the place holds after it was offered `value`.
pub open spec fn filled<T>(held: Option<T>, value: T) -> Option<T> {
    match held {
        Some(held) => Some(held),
        None => Some(value),
    }
}

/// What the place holds after it was offered `values`, one after the other.
pub open spec fn filled_in_turn<T>(held: Option<T>, values: Seq<T>) -> Option<T>
    decreases values.len(),
{
    if values.len() == 0 {
        held
    } else {
        filled(filled_in_turn(held, values.drop_last()), values.last())
    }
}

/// `taken` is a clone of what is held, or nothing where nothing is.
pub open spec fn clone_of_held<T: Clone>(held: Option<T>, taken: Option<T>) -> bool {
    match (held, taken) {
        (Some(held), Some(taken)) => cloned(held, taken),
        (None, None) => true,
        _ => false,
    }
}

impl<T> OnceSlot<T> {
    /// What the place holds.
    pub closed spec fn view(&self) -> Option<T> {
        self.value
    }

    /// An empty place.
    pub fn new() -> (slot: Self)
        ensures
            slot@ == None::<T>,
    {
        OnceSlot { value: None }
    }

    /// Fills the place, or hands the value back where it is filled.
    pub fn set(&mut self, value: T) -> (set: Result<(), T>)
        ensures
            final(self)@ == filled(old(self)@, value),
            match set {
                Ok(_) => old(self)@ is None,
                Err(refused) => old(self)@ is Some && refused == value,
            },
    {
        if self.value.is_some() {
            Err(value)
        } else {
            self.value = Some(value);
            Ok(())
        }
    }

    /// What the place holds.
    pub fn get(&self) -> (held: Option<&T>)
        ensures
            match held {
                Some(held) => self@ == Some(*held),
                None => self@ is None,
            },
    {
        self.value.as_ref()
    }
}

/// Installs the metrics client of the process. The first one stays.
pub fn install_global<C>(global_metrics: &mut OnceSlot<C>, metrics: C)
    ensures
        final(global_metrics)@ == filled(old(global_metrics)@, metrics),
{
    let _ = global_metrics.set(metrics);
}

/// The metrics client of the process, if one was installed.
pub fn global<C: Clone>(global_metrics: &OnceSlot<C>) -> (metrics: Option<C>)
    ensures
        clone_of_held(global_metrics@, metrics),
{
    global_metrics.get().cloned()
}

/// Installs the settings of the metrics service. The first ones stay.
pub fn install_global_statsig_settings<S>(global_settings: &mut OnceSlot<S>, settings: S)
    ensures
        final(global_settings)@ == filled(old(global_settings)@, settings),
{
    let _ = global_settings.set(settings);
}

/// The settings of the metrics service, if any were installed.
pub fn global_statsig_settings<S: Clone>(global_settings: &OnceSlot<S>) -> (settings: Option<S>)
    ensures
        clone_of_held(global_settings@, settings),
{
    global_settings.get().cloned()
}

/// An amount to be added to a counter.
#[derive(Debug, PartialEq, Eq)]
pub struct CounterIncrement {
    pub metric: String,
    pub inc: i64,
    /// Names and values of the tags.
    pub tags: Vec<(String, String)>,
}

/// What the count of process starts is called.
#[derive(Debug)]
pub struct ProcessStartLabels {
    /// The name of the counter.
    pub metric: String,
    /// The name of the tag that says who started the process.
    pub originator_tag: String,
}

impl CounterIncrement {
    /// One start, with the tag value `originator`.
    pub open spec fn is_process_start(
        &self,
        labels: ProcessStartLabels,
        originator: Seq<char>,
    ) -> bool {
        &&& self.metric@ == labels.metric@
        &&& self.inc == 1
        &&& self.tags@.len() == 1
        &&& self.tags@[0].0@ == labels.originator_tag@
        &&& self.tags@[0].1@ == originator
    }
}

/// What a claim to record the start comes to: whether it is granted, and whether
/// the start counts as recorded from then on.
pub open spec fn claimed(recorded: bool) -> (bool, bool) {
    (!recorded, true)
}

/// Whether the start of this process has been recorded.
#[derive(Debug)]
pub struct ProcessStart {
    recorded: bool,
}

impl ProcessStart {
    /// Whether the start has been recorded.
    pub closed spec fn recorded(&self) -> bool {
        self.recorded
    }

    /// A start that has not been recorded.
    pub fn new() -> (start: Self)
        ensures
            !start.recorded(),
    {
        ProcessStart { recorded: false }
    }

    /// Claims the right to record the start. The first claim gets it.
    pub fn claim(&mut self) -> (first: bool)
        ensures
            (first, final(self).recorded()) == claimed(old(self).recorded()),
    {
        let first = !self.recorded;
        self.recorded = true;
        first
    }

    /// Takes the start out as it is and leaves one that counts as recorded. So a
    /// start that several callers share is claimed the moment it is taken, and no
    /// one has to wait until the one who took it has recorded it.
    pub fn take(&mut self) -> (taken: Self)
        ensures
            taken.recorded() == old(self).recorded(),
            (!taken.recorded(), final(self).recorded()) == claimed(old(self).recorded()),
    {
        let first = self.claim();
        ProcessStart { recorded: !first }
    }
}

/// What one call comes to, from what the counter answered.
pub open spec fn start_result<E>(counted: Result<(), E>) -> Result<bool, E> {
    match counted {
        Ok(_) => Ok(true),
        Err(error) => Err(error),
    }
}

/// Record the process start counter at most once for this process.
///
/// `bound` maps an originator to one of a bounded number of tag values, and
/// `counter` adds to the counter. Neither is called once the start has been
/// recorded. A counter that fails is not tried again: the start counts as
/// recorded all the same.
pub fn record_process_start_once<
    E,
    B: FnOnce(&str) -> String,
    C: FnOnce(CounterIncrement) -> Result<(), E>,
>(
    start: &mut ProcessStart,
    labels: &ProcessStartLabels,
    bound: B,
    counter: C,
    originator: &str,
) -> (recorded: Result<bool, E>)
    requires
        claimed(old(start).recorded()).0 ==> call_requires(bound, (originator,)),
        claimed(old(start).recorded()).0 ==> forall|value: String, increment: CounterIncrement|
            call_ensures(bound, (originator,), value) && #[trigger] increment.is_process_start(
                *labels,
                value@,
            ) ==> call_requires(counter, (increment,)),
    ensures
        final(start).recorded() == claimed(old(start).recorded()).1,
        if claimed(old(start).recorded()).0 {
            exists|value: String, increment: CounterIncrement, counted: Result<(), E>|
                call_ensures(bound, (originator,), value) && #[trigger] increment.is_process_start(
                    *labels,
                    value@,
                ) && #[trigger] call_ensures(counter, (increment,), counted) && recorded
                    == start_result(counted)
        } else {
            recorded == Ok::<bool, E>(false)
        },
{
    if !start.claim() {
        return Ok(false);
    }
    let value = bound(originator);
    let ghost bounded = value;
    let mut tags: Vec<(String, String)> = Vec::new();
    tags.push((labels.originator_tag.clone(), value));
    let increment = CounterIncrement { metric: labels.metric.clone(), inc: 1, tags };
    assert(increment.is_process_start(*labels, bounded@));
    let counted = counter(increment);
    assert(call_ensures(counter, (increment,), counted));
    match counted {
        Ok(_) => Ok(true),
        Err(error) => Err(error),
    }
}

/// Whichever client or settings were offered first are there to stay, whatever is
/// offered later.
pub proof fn law_the_first_one_stays<T>(values: Seq<T>)
    requires
        values.len() > 0,
    ensures
        filled_in_turn(None, values) == Some(values[0]),
    decreases values.len(),
{
    if values.len() > 1 {
        law_the_first_one_stays(values.drop_last());
    } else {
        assert(filled_in_turn(None::<T>, values.drop_last()) == None::<T>);
    }
}

/// A place that is filled does not change any more.
pub proof fn law_what_is_held_stays<T>(held: T, values: Seq<T>)
    ensures
        filled_in_turn(Some(held), values) == Some(held),
    decreases values.len(),
{
    if values.len() > 0 {
        law_what_is_held_stays(held, values.drop_last());
    }
}

/// Whether each of `calls` calls in a row gets to record the start.
pub open spec fn claims(recorded: bool, calls: nat) -> Seq<bool>
    decreases calls,
{
    if calls == 0 {
        Seq::empty()
    } else {
        let (granted, recorded) = claimed(recorded);
        seq![granted] + claims(recorded, (calls - 1) as nat)
    }
}

/// However often it is asked for, the start of a process is recorded by the first
/// call and by no other.
pub proof fn law_a_start_is_recorded_once(calls: nat, call: int)
    requires
        0 <= call < calls,
    ensures
        claims(false, calls).len() == calls,
        claims(false, calls)[call] <==> call == 0,
{
    lemma_claims(false, calls, call);
}

proof fn lemma_claims(recorded: bool, calls: nat, call: int)
    requires
        0 <= call < calls,
    ensures
        claims(recorded, calls).len() == calls,
        claims(recorded, calls)[call] <==> (call == 0 && !recorded),
    decreases calls,
{
    if calls > 1 {
        lemma_claims(true, (calls - 1) as nat, if call > 0 { call - 1 } else { 0 });
    } else {
        assert(claims(true, 0).len() == 0);
    }
}

/// An empty place takes what it is offered, and a filled one keeps what it holds.
pub proof fn law_places_are_filled_once<T>(held: T, value: T)
    ensures
        filled(None, value) == Some(value),
        filled(Some(held), value) == Some(held),
{
}

/// Whoever asks for what a place holds gets a clone of it, and gets nothing only
/// where it holds nothing.
pub proof fn law_what_is_held_is_handed_out<T: Clone>(held: Option<T>, taken: Option<T>)
    requires
        clone_of_held(held, taken),
    ensures
        held is Some <==> taken is Some,
        held is Some ==> cloned(held->Some_0, taken->Some_0),
{
}

/// A claim is granted exactly where the start has not been recorded, and from then
/// on it counts as recorded.
pub proof fn law_claims_are_granted_once(recorded: bool)
    ensures
        claimed(recorded).0 <==> !recorded,
        claimed(recorded).1,
{
}

/// What is counted is one start, under the name of the counter, with one tag and
/// no other: who started the process, as a tag value that is bounded.
pub proof fn law_one_start_is_counted(
    increment: CounterIncrement,
    labels: ProcessStartLabels,
    originator: Seq<char>,
)
    ensures
        increment.is_process_start(labels, originator) <==> increment.inc == 1
            && increment.metric@ == labels.metric@ && increment.tags@.len() == 1
            && increment.tags@[0].0@ == labels.originator_tag@ && increment.tags@[0].1@
            == originator,
{
}

/// A start that was counted is reported as recorded, and a counter that fails is
/// reported with its own error.
pub proof fn law_the_counter_decides_the_report<E>(error: E)
    ensures
        start_result(Ok::<(), E>(())) == Ok::<bool, E>(true),
        start_result(Err::<(), E>(error)) == Err::<bool, E>(error),
{
}

} // verus!
