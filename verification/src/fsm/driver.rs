//! A whole run of the machine, as mathematics: the states it publishes
//! when its jobs end as a script says.
use vstd::prelude::*;
use vstd::string::*;
use crate::fsm::dispatch::{
    event_from_outcome, event_from_state, job_for, Job, JobView, Outcome, OutcomeView,
};
use crate::fsm::transition::{is_legal, next_state};
use crate::fsm::{EventView, State, StateView};
use crate::time::Timestamp;

verus! {

/// How every kind of job ends in a rehearsed run, and what the clock reads
/// while it lasts.
#[derive(Clone, Debug, PartialEq)]
pub struct Script {
    /// The reading of the wall clock, at every transition.
    pub now: Timestamp,
    /// How the download ends.
    pub download: Outcome,
    /// How the processing step ends.
    pub process: Outcome,
    /// How the indexing step ends.
    pub index: Outcome,
    /// How the validation ends.
    pub validate: Outcome,
}

/// The mathematical value of a [`Script`].
pub struct ScriptView {
    pub now: Timestamp,
    pub download: OutcomeView,
    pub process: OutcomeView,
    pub index: OutcomeView,
    pub validate: OutcomeView,
}

impl View for Script {
    type V = ScriptView;

    open spec fn view(&self) -> ScriptView {
        ScriptView {
            now: self.now,
            download: self.download@,
            process: self.process@,
            index: self.index@,
            validate: self.validate@,
        }
    }
}

impl ScriptView {
    /// How `job` ends.
    pub open spec fn outcome_for(self, job: JobView) -> OutcomeView {
        match job {
            JobView::DownloadOsm => self.download,
            JobView::DownloadBano => self.download,
            JobView::DownloadNtfs => self.download,
            JobView::GenerateCosmogony { .. } => self.process,
            JobView::IndexBano { .. } => self.index,
            JobView::IndexOsm { .. } => self.index,
            JobView::IndexCosmogony { .. } => self.index,
            JobView::IndexNtfs { .. } => self.index,
            JobView::Validate => self.validate,
        }
    }
}

impl Outcome {
    /// A copy of the outcome, text for text.
    pub fn duplicate(&self) -> (r: Outcome)
        ensures
            r@ == self@,
    {
        match self {
            Outcome::Done { file_path, elapsed } => Outcome::Done {
                file_path: file_path.clone(),
                elapsed: *elapsed,
            },
            Outcome::Failed { reason } => Outcome::Failed { reason: reason.clone() },
        }
    }
}

impl Script {
    /// How `job` ends.
    pub fn outcome(&self, job: &Job) -> (r: Outcome)
        ensures
            r@ == self@.outcome_for(job@),
    {
        match job {
            Job::DownloadOsm => self.download.duplicate(),
            Job::DownloadBano => self.download.duplicate(),
            Job::DownloadNtfs => self.download.duplicate(),
            Job::GenerateCosmogony { .. } => self.process.duplicate(),
            Job::IndexBano { .. } => self.index.duplicate(),
            Job::IndexOsm { .. } => self.index.duplicate(),
            Job::IndexCosmogony { .. } => self.index.duplicate(),
            Job::IndexNtfs { .. } => self.index.duplicate(),
            Job::Validate => self.validate.duplicate(),
        }
    }
}

/// The mathematical values of a list of states.
pub open spec fn views(states: Seq<State>) -> Seq<StateView> {
    states.map_values(|s: State| s@)
}

/// How far a state is from the end of the longest run: every transition
/// of the table but a reset leads to a state of lower rank.
pub open spec fn rank(state: StateView) -> nat {
    match state {
        StateView::NotAvailable => 10,
        StateView::DownloadingInProgress { .. } => 9,
        StateView::DownloadingError { .. } => 8,
        StateView::Downloaded { .. } => 8,
        StateView::ProcessingInProgress { .. } => 7,
        StateView::ProcessingError { .. } => 6,
        StateView::Processed { .. } => 6,
        StateView::IndexingInProgress { .. } => 5,
        StateView::IndexingError { .. } => 4,
        StateView::Indexed { .. } => 4,
        StateView::ValidationInProgress => 3,
        StateView::ValidationError { .. } => 2,
        StateView::Available => 2,
        StateView::Failure { .. } => 0,
    }
}

/// The event that the dispatch on `state` enqueues, with the jobs played by
/// `script`: the report of the job that the state waits for, or the event
/// that follows from the state alone, or none.
pub open spec fn follow_up(
    state: StateView,
    data_source: Seq<char>,
    index_type: Seq<char>,
    script: ScriptView,
) -> Option<EventView> {
    match job_for(state, data_source, index_type) {
        Some(j) => Some(event_from_outcome(j, script.outcome_for(j))),
        None => event_from_state(state, data_source, index_type),
    }
}

/// The events that wait after the oldest of `queue` was taken, `reached`
/// was published and the dispatch on it was done.
pub open spec fn queue_after(
    reached: StateView,
    queue: Seq<EventView>,
    data_source: Seq<char>,
    index_type: Seq<char>,
    script: ScriptView,
) -> Seq<EventView> {
    let rest = queue.subrange(1, queue.len() as int);
    match follow_up(reached, data_source, index_type, script) {
        Some(e) => rest.push(e),
        None => rest,
    }
}

/// The states that a machine in `state` publishes while it works off
/// `queue`, one for each event it takes, until it reaches `Available` or
/// `Failure` or no event is left.
pub open spec fn trace(
    state: StateView,
    queue: Seq<EventView>,
    data_source: Seq<char>,
    index_type: Seq<char>,
    script: ScriptView,
) -> Seq<StateView>
    decreases queue.len(), rank(state),
{
    if queue.len() == 0 {
        Seq::empty()
    } else {
        let reached = next_state(state, queue[0], script.now);
        if reached.is_absorbing() {
            seq![reached]
        } else {
            seq![reached] + trace(
                reached,
                queue_after(reached, queue, data_source, index_type, script),
                data_source,
                index_type,
                script,
            )
        }
    }
}

/// Nothing is enqueued after `NotAvailable`, `Available` and `Failure`, and
/// something is after every other state.
pub proof fn lemma_follow_up(
    state: StateView,
    data_source: Seq<char>,
    index_type: Seq<char>,
    script: ScriptView,
)
    ensures
        follow_up(state, data_source, index_type, script) is None <==> (state is NotAvailable
            || state is Available || state is Failure),
{
}

/// Where the dispatch on the state that an event leads to enqueues
/// something, that state is of lower rank than the one before.
pub proof fn lemma_rank_falls(
    state: StateView,
    event: EventView,
    data_source: Seq<char>,
    index_type: Seq<char>,
    script: ScriptView,
)
    ensures
        ({
            let reached = next_state(state, event, script.now);
            !reached.is_absorbing() && follow_up(reached, data_source, index_type, script)
                is Some ==> rank(reached) < rank(state)
        }),
{
}

/// A run that has an event to take publishes at least one state, and the
/// last state it publishes is `Available`, `Failure` or `NotAvailable`.
pub proof fn lemma_trace_ends(
    state: StateView,
    queue: Seq<EventView>,
    data_source: Seq<char>,
    index_type: Seq<char>,
    script: ScriptView,
)
    requires
        queue.len() > 0,
    ensures
        trace(state, queue, data_source, index_type, script).len() > 0,
        ({
            let last = trace(state, queue, data_source, index_type, script).last();
            last is Available || last is Failure || last is NotAvailable
        }),
    decreases queue.len(), rank(state),
{
    let reached = next_state(state, queue[0], script.now);
    if !reached.is_absorbing() {
        let queue1 = queue_after(reached, queue, data_source, index_type, script);
        lemma_follow_up(reached, data_source, index_type, script);
        lemma_rank_falls(state, queue[0], data_source, index_type, script);
        let rest = trace(reached, queue1, data_source, index_type, script);
        if queue1.len() > 0 {
            lemma_trace_ends(reached, queue1, data_source, index_type, script);
            assert((seq![reached] + rest).last() == rest.last());
        } else {
            assert(rest.len() == 0);
            assert(seq![reached] + rest =~= seq![reached]);
        }
    }
}

/// `NotAvailable` is only ever reached by the reset of an error state.
pub proof fn lemma_not_available_after_reset(state: StateView, event: EventView, now: Timestamp)
    requires
        next_state(state, event, now) is NotAvailable,
    ensures
        event is Reset,
        state.is_error(),
{
}

/// No transition leaves `Available` or `Failure`: whatever the event, the
/// machine ends in `Failure`.
pub proof fn lemma_absorbing(state: StateView, event: EventView, now: Timestamp)
    requires
        state.is_absorbing(),
    ensures
        !is_legal(state, event),
        next_state(state, event, now) is Failure,
{
}

/// The table decides every pair of a state and an event: the pairs it
/// lists lead to a state that is no `Failure`, and all others to `Failure`.
pub proof fn lemma_next_total(state: StateView, event: EventView, now: Timestamp)
    ensures
        is_legal(state, event) <==> !(next_state(state, event, now) is Failure),
{
}

impl EventView {
    /// The interval that the event carries, if it carries one, has less
    /// than a second's worth of nanoseconds.
    pub open spec fn wf(self) -> bool {
        match self {
            EventView::DownloadingComplete(_, d) => d.wf(),
            EventView::ProcessingComplete(_, d) => d.wf(),
            EventView::IndexingComplete(d) => d.wf(),
            _ => true,
        }
    }
}

impl OutcomeView {
    /// The time that the job took has less than a second's worth of
    /// nanoseconds.
    pub open spec fn wf(self) -> bool {
        match self {
            OutcomeView::Done { elapsed, .. } => elapsed.wf(),
            OutcomeView::Failed { .. } => true,
        }
    }
}

impl ScriptView {
    /// The clock's reading and every outcome are well formed.
    pub open spec fn wf(self) -> bool {
        &&& self.now.wf()
        &&& self.download.wf()
        &&& self.process.wf()
        &&& self.index.wf()
        &&& self.validate.wf()
    }
}

/// A well-formed event at a well-formed instant leads to a well-formed
/// state.
pub proof fn lemma_next_wf(state: StateView, event: EventView, now: Timestamp)
    requires
        event.wf(),
        now.wf(),
    ensures
        next_state(state, event, now).wf(),
{
}

/// Every state of a run is well formed, where the script and the events
/// that wait at its start are.
pub proof fn lemma_trace_wf(
    state: StateView,
    queue: Seq<EventView>,
    data_source: Seq<char>,
    index_type: Seq<char>,
    script: ScriptView,
)
    requires
        script.wf(),
        forall|i: int| 0 <= i < queue.len() ==> (#[trigger] queue[i]).wf(),
    ensures
        forall|i: int|
            0 <= i < trace(state, queue, data_source, index_type, script).len() ==> (
            #[trigger] trace(state, queue, data_source, index_type, script)[i]).wf(),
    decreases queue.len(), rank(state),
{
    if queue.len() > 0 {
        let reached = next_state(state, queue[0], script.now);
        lemma_next_wf(state, queue[0], script.now);
        if !reached.is_absorbing() {
            let queue1 = queue_after(reached, queue, data_source, index_type, script);
            lemma_rank_falls(state, queue[0], data_source, index_type, script);
            assert forall|i: int| 0 <= i < queue1.len() implies (#[trigger] queue1[i]).wf() by {
                if i < queue.len() - 1 {
                    assert(queue1[i] == queue[i + 1]);
                } else {
                    let e = follow_up(reached, data_source, index_type, script)->Some_0;
                    assert(queue1[i] == e);
                    assert(e.wf());
                }
            }
            lemma_trace_wf(reached, queue1, data_source, index_type, script);
            let rest = trace(reached, queue1, data_source, index_type, script);
            let whole = trace(state, queue, data_source, index_type, script);
            assert(whole == seq![reached] + rest);
            assert forall|i: int| 0 <= i < whole.len() implies (#[trigger] whole[i]).wf() by {
                if i > 0 {
                    assert(whole[i] == rest[i - 1]);
                }
            }
        }
    }
}

/// Whether a run goes on after it has published `state`: it does not after
/// `Available` and `Failure`, and after `NotAvailable` no event follows.
pub open spec fn goes_on(state: StateView) -> bool {
    !(state is Available || state is Failure || state is NotAvailable)
}

/// A run that starts with a single event never has more than one event
/// waiting, and it goes on after every state but the last.
pub proof fn lemma_single_file(
    state: StateView,
    queue: Seq<EventView>,
    data_source: Seq<char>,
    index_type: Seq<char>,
    script: ScriptView,
)
    requires
        queue.len() == 1,
    ensures
        forall|i: int|
            0 <= i < trace(state, queue, data_source, index_type, script).len() - 1 ==> goes_on(
                #[trigger] trace(state, queue, data_source, index_type, script)[i],
            ),
    decreases queue.len(), rank(state),
{
    let reached = next_state(state, queue[0], script.now);
    if !reached.is_absorbing() {
        let queue1 = queue_after(reached, queue, data_source, index_type, script);
        lemma_follow_up(reached, data_source, index_type, script);
        lemma_rank_falls(state, queue[0], data_source, index_type, script);
        let rest = trace(reached, queue1, data_source, index_type, script);
        let whole = trace(state, queue, data_source, index_type, script);
        assert(whole == seq![reached] + rest);
        assert(queue.subrange(1, 1) =~= Seq::<EventView>::empty());
        if queue1.len() == 1 {
            lemma_single_file(reached, queue1, data_source, index_type, script);
            assert forall|i: int| 0 <= i < whole.len() - 1 implies goes_on(
                #[trigger] whole[i],
            ) by {
                if i > 0 {
                    assert(whole[i] == rest[i - 1]);
                }
            }
        } else {
            assert(queue1.len() == 0);
            assert(rest.len() == 0);
        }
    }
}

} // verus!
