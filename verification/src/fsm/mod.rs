//! The per-index state machine: its states, its events and its transitions.
use std::collections::VecDeque;
use vstd::prelude::*;
use vstd::string::*;
use crate::address::{parse_error_text, parse_url, url_as_str, url_of_text, url_text};
use crate::error::{Error, ErrorKind};
use crate::fsm::codec::{state_json, state_of_text};
use crate::fsm::dispatch::{
    event_from_outcome, event_from_state, event_of_outcome, event_of_state, job, job_for, Job,
    Outcome,
};
use crate::fsm::driver::{
    goes_on, lemma_rank_falls, lemma_single_file, lemma_trace_ends, lemma_trace_wf, rank, trace,
    views, Script,
};
use crate::fsm::transition::{is_legal, next, next_state};
use crate::json::json_of_text;
use crate::settings::{endpoint, Settings};
use crate::text::{decimal, i32_to_string};
use crate::time::{Elapsed, Timestamp};

pub mod transition;
pub mod codec;
pub mod dispatch;
pub mod driver;

verus! {

/// Where an index stands on its way into the search cluster.
#[derive(Clone, Debug, PartialEq)]
pub enum State {
    NotAvailable,
    DownloadingInProgress { started_at: Timestamp },
    DownloadingError { details: String },
    Downloaded { file_path: String, duration: Elapsed },
    ProcessingInProgress { file_path: String, started_at: Timestamp },
    ProcessingError { details: String },
    Processed { file_path: String, duration: Elapsed },
    IndexingInProgress { file_path: String, started_at: Timestamp },
    IndexingError { details: String },
    Indexed { duration: Elapsed },
    ValidationInProgress,
    ValidationError { details: String },
    Available,
    Failure { message: String },
}

/// What moves the machine from one state to the next.
#[derive(Clone, Debug, PartialEq)]
pub enum Event {
    Download,
    DownloadingError(String),
    DownloadingComplete(String, Elapsed),
    Process(String),
    ProcessingError(String),
    ProcessingComplete(String, Elapsed),
    Index(String),
    IndexingError(String),
    IndexingComplete(Elapsed),
    Validate,
    ValidationError(String),
    ValidationComplete,
    Reset,
}

/// The mathematical value of a [`State`]: texts are sequences of characters.
pub enum StateView {
    NotAvailable,
    DownloadingInProgress { started_at: Timestamp },
    DownloadingError { details: Seq<char> },
    Downloaded { file_path: Seq<char>, duration: Elapsed },
    ProcessingInProgress { file_path: Seq<char>, started_at: Timestamp },
    ProcessingError { details: Seq<char> },
    Processed { file_path: Seq<char>, duration: Elapsed },
    IndexingInProgress { file_path: Seq<char>, started_at: Timestamp },
    IndexingError { details: Seq<char> },
    Indexed { duration: Elapsed },
    ValidationInProgress,
    ValidationError { details: Seq<char> },
    Available,
    Failure { message: Seq<char> },
}

/// The mathematical value of an [`Event`].
pub enum EventView {
    Download,
    DownloadingError(Seq<char>),
    DownloadingComplete(Seq<char>, Elapsed),
    Process(Seq<char>),
    ProcessingError(Seq<char>),
    ProcessingComplete(Seq<char>, Elapsed),
    Index(Seq<char>),
    IndexingError(Seq<char>),
    IndexingComplete(Elapsed),
    Validate,
    ValidationError(Seq<char>),
    ValidationComplete,
    Reset,
}

impl View for State {
    type V = StateView;

    open spec fn view(&self) -> StateView {
        match *self {
            State::NotAvailable => StateView::NotAvailable,
            State::DownloadingInProgress { started_at } => StateView::DownloadingInProgress {
                started_at,
            },
            State::DownloadingError { details } => StateView::DownloadingError {
                details: details@,
            },
            State::Downloaded { file_path, duration } => StateView::Downloaded {
                file_path: file_path@,
                duration,
            },
            State::ProcessingInProgress { file_path, started_at } => {
                StateView::ProcessingInProgress { file_path: file_path@, started_at }
            },
            State::ProcessingError { details } => StateView::ProcessingError {
                details: details@,
            },
            State::Processed { file_path, duration } => StateView::Processed {
                file_path: file_path@,
                duration,
            },
            State::IndexingInProgress { file_path, started_at } => {
                StateView::IndexingInProgress { file_path: file_path@, started_at }
            },
            State::IndexingError { details } => StateView::IndexingError { details: details@ },
            State::Indexed { duration } => StateView::Indexed { duration },
            State::ValidationInProgress => StateView::ValidationInProgress,
            State::ValidationError { details } => StateView::ValidationError {
                details: details@,
            },
            State::Available => StateView::Available,
            State::Failure { message } => StateView::Failure { message: message@ },
        }
    }
}

impl View for Event {
    type V = EventView;

    open spec fn view(&self) -> EventView {
        match *self {
            Event::Download => EventView::Download,
            Event::DownloadingError(m) => EventView::DownloadingError(m@),
            Event::DownloadingComplete(p, d) => EventView::DownloadingComplete(p@, d),
            Event::Process(p) => EventView::Process(p@),
            Event::ProcessingError(m) => EventView::ProcessingError(m@),
            Event::ProcessingComplete(p, d) => EventView::ProcessingComplete(p@, d),
            Event::Index(p) => EventView::Index(p@),
            Event::IndexingError(m) => EventView::IndexingError(m@),
            Event::IndexingComplete(d) => EventView::IndexingComplete(d),
            Event::Validate => EventView::Validate,
            Event::ValidationError(m) => EventView::ValidationError(m@),
            Event::ValidationComplete => EventView::ValidationComplete,
            Event::Reset => EventView::Reset,
        }
    }
}

impl StateView {
    /// The variant's name, which is also its `type` tag on the wire.
    pub open spec fn name(self) -> Seq<char> {
        match self {
            StateView::NotAvailable => "NotAvailable"@,
            StateView::DownloadingInProgress { .. } => "DownloadingInProgress"@,
            StateView::DownloadingError { .. } => "DownloadingError"@,
            StateView::Downloaded { .. } => "Downloaded"@,
            StateView::ProcessingInProgress { .. } => "ProcessingInProgress"@,
            StateView::ProcessingError { .. } => "ProcessingError"@,
            StateView::Processed { .. } => "Processed"@,
            StateView::IndexingInProgress { .. } => "IndexingInProgress"@,
            StateView::IndexingError { .. } => "IndexingError"@,
            StateView::Indexed { .. } => "Indexed"@,
            StateView::ValidationInProgress => "ValidationInProgress"@,
            StateView::ValidationError { .. } => "ValidationError"@,
            StateView::Available => "Available"@,
            StateView::Failure { .. } => "Failure"@,
        }
    }

    /// No transition leaves the state: the index is in the cluster, or the
    /// machine was handed an event it has no use for.
    pub open spec fn is_absorbing(self) -> bool {
        self is Available || self is Failure
    }

    /// One of the four states that record a failed job.
    pub open spec fn is_error(self) -> bool {
        self is DownloadingError || self is ProcessingError || self is IndexingError
            || self is ValidationError
    }
}

impl EventView {
    /// The variant's name.
    pub open spec fn name(self) -> Seq<char> {
        match self {
            EventView::Download => "Download"@,
            EventView::DownloadingError(_) => "DownloadingError"@,
            EventView::DownloadingComplete(_, _) => "DownloadingComplete"@,
            EventView::Process(_) => "Process"@,
            EventView::ProcessingError(_) => "ProcessingError"@,
            EventView::ProcessingComplete(_, _) => "ProcessingComplete"@,
            EventView::Index(_) => "Index"@,
            EventView::IndexingError(_) => "IndexingError"@,
            EventView::IndexingComplete(_) => "IndexingComplete"@,
            EventView::Validate => "Validate"@,
            EventView::ValidationError(_) => "ValidationError"@,
            EventView::ValidationComplete => "ValidationComplete"@,
            EventView::Reset => "Reset"@,
        }
    }
}

impl State {
    /// The variant's name.
    pub fn name(&self) -> (r: &'static str)
        ensures
            r@ == self@.name(),
    {
        match self {
            State::NotAvailable => "NotAvailable",
            State::DownloadingInProgress { .. } => "DownloadingInProgress",
            State::DownloadingError { .. } => "DownloadingError",
            State::Downloaded { .. } => "Downloaded",
            State::ProcessingInProgress { .. } => "ProcessingInProgress",
            State::ProcessingError { .. } => "ProcessingError",
            State::Processed { .. } => "Processed",
            State::IndexingInProgress { .. } => "IndexingInProgress",
            State::IndexingError { .. } => "IndexingError",
            State::Indexed { .. } => "Indexed",
            State::ValidationInProgress => "ValidationInProgress",
            State::ValidationError { .. } => "ValidationError",
            State::Available => "Available",
            State::Failure { .. } => "Failure",
        }
    }

    /// Whether no transition leaves the state.
    pub fn is_absorbing(&self) -> (r: bool)
        ensures
            r == self@.is_absorbing(),
    {
        match self {
            State::Available => true,
            State::Failure { .. } => true,
            _ => false,
        }
    }

    /// A copy of the state, text for text.
    pub fn duplicate(&self) -> (r: State)
        ensures
            r@ == self@,
    {
        match self {
            State::NotAvailable => State::NotAvailable,
            State::DownloadingInProgress { started_at } => State::DownloadingInProgress {
                started_at: *started_at,
            },
            State::DownloadingError { details } => State::DownloadingError {
                details: details.clone(),
            },
            State::Downloaded { file_path, duration } => State::Downloaded {
                file_path: file_path.clone(),
                duration: *duration,
            },
            State::ProcessingInProgress { file_path, started_at } => State::ProcessingInProgress {
                file_path: file_path.clone(),
                started_at: *started_at,
            },
            State::ProcessingError { details } => State::ProcessingError {
                details: details.clone(),
            },
            State::Processed { file_path, duration } => State::Processed {
                file_path: file_path.clone(),
                duration: *duration,
            },
            State::IndexingInProgress { file_path, started_at } => State::IndexingInProgress {
                file_path: file_path.clone(),
                started_at: *started_at,
            },
            State::IndexingError { details } => State::IndexingError { details: details.clone() },
            State::Indexed { duration } => State::Indexed { duration: *duration },
            State::ValidationInProgress => State::ValidationInProgress,
            State::ValidationError { details } => State::ValidationError {
                details: details.clone(),
            },
            State::Available => State::Available,
            State::Failure { message } => State::Failure { message: message.clone() },
        }
    }
}

impl Event {
    /// The variant's name.
    pub fn name(&self) -> (r: &'static str)
        ensures
            r@ == self@.name(),
    {
        match self {
            Event::Download => "Download",
            Event::DownloadingError(_) => "DownloadingError",
            Event::DownloadingComplete(_, _) => "DownloadingComplete",
            Event::Process(_) => "Process",
            Event::ProcessingError(_) => "ProcessingError",
            Event::ProcessingComplete(_, _) => "ProcessingComplete",
            Event::Index(_) => "Index",
            Event::IndexingError(_) => "IndexingError",
            Event::IndexingComplete(_) => "IndexingComplete",
            Event::Validate => "Validate",
            Event::ValidationError(_) => "ValidationError",
            Event::ValidationComplete => "ValidationComplete",
            Event::Reset => "Reset",
        }
    }
}

/// The three frames of the message that announces a state: the topic, the
/// index's key in decimal, and the state as JSON text.
pub open spec fn is_announcement(
    frames: Seq<Seq<char>>,
    topic: Seq<char>,
    id: int,
    state: StateView,
) -> bool {
    &&& frames.len() == 3
    &&& frames[0] == topic
    &&& frames[1] == decimal(id)
    &&& json_of_text(frames[2]) == Some(state_json(state))
}

/// The texts of a list of frames.
pub open spec fn frame_texts(frames: Seq<String>) -> Seq<Seq<char>> {
    frames.map_values(|f: String| f@)
}

/// Frames the message that announces `state` for the index `id` under
/// `topic`.
///
/// A message always comes back, with the three frames in their order.
pub fn announce(topic: &str, id: i32, state: &State) -> (r: Result<Vec<String>, Error>)
    ensures
        r matches Ok(frames) && is_announcement(frame_texts(frames@), topic@, id as int, state@)
            && (state@.wf() ==> state_of_text(frames@[2]@) == Some(state@)),
{
    match state.serialize() {
        Ok(status) => {
            let mut frames: Vec<String> = Vec::new();
            frames.push(String::from_str(topic));
            frames.push(i32_to_string(id));
            frames.push(status);
            Ok(frames)
        },
        Err(e) => Err(e),
    }
}

/// The state machine of one index, with what its jobs need to know.
pub struct FSM {
    /// The key of the index, which marks the messages about it.
    pub id: i32,
    /// Where the index stands.
    pub state: State,
    /// Where downloaded and processed files go.
    pub working_dir: String,
    /// Where the programs that load the search cluster are found.
    pub mimirs_dir: String,
    /// Where the program that makes cosmogonies is found.
    pub cosmogony_dir: String,
    /// The events that wait for their turn, oldest first.
    pub events: VecDeque<Event>,
    /// The address of the search cluster.
    pub es: url::Url,
    /// What is indexed: `admins`, `streets`, ...
    pub index_type: String,
    /// Where the data comes from: `osm`, `bano`, `cosmogony`, `ntfs`.
    pub data_source: String,
    /// The region that is indexed.
    pub region: String,
    /// The topic under which state changes are published.
    pub topic: String,
}

/// The message of the error that a search cluster address which is no URL
/// is refused with.
pub open spec fn bad_address(address: Seq<char>) -> Seq<char> {
    "Could not parse elasticsearch URL '"@ + address + "'"@
}

impl FSM {
    /// The events that wait for their turn, as mathematical values.
    pub open spec fn pending(&self) -> Seq<EventView> {
        self.events@.map_values(|e: Event| e@)
    }

    /// `self` is the machine of the index `index_id`, set up from the
    /// request and the settings, in its first state and with nothing to do
    /// yet.
    pub open spec fn is_fresh(
        &self,
        index_id: i32,
        index_type: Seq<char>,
        data_source: Seq<char>,
        region: Seq<char>,
        settings: &Settings,
        topic: Seq<char>,
    ) -> bool {
        &&& self.id == index_id
        &&& self.state@ == StateView::NotAvailable
        &&& self.working_dir@ == settings.work.working_dir@
        &&& self.mimirs_dir@ == settings.work.mimirsbrunn_dir@
        &&& self.cosmogony_dir@ == settings.work.cosmogony_dir@
        &&& self.events@.len() == 0
        &&& self.index_type@ == index_type
        &&& self.data_source@ == data_source
        &&& self.region@ == region
        &&& self.topic@ == topic
    }

    /// Whether `other` is set up as `self` is: everything agrees but the
    /// state and the events.
    pub open spec fn same_setup(&self, other: &FSM) -> bool {
        &&& self.id == other.id
        &&& self.working_dir == other.working_dir
        &&& self.mimirs_dir == other.mimirs_dir
        &&& self.cosmogony_dir == other.cosmogony_dir
        &&& self.es == other.es
        &&& self.index_type == other.index_type
        &&& self.data_source == other.data_source
        &&& self.region == other.region
        &&& self.topic == other.topic
    }

    /// The machine of the index `index_id`, for a search cluster at `es`.
    pub fn with_url(
        index_id: i32,
        index_type: String,
        data_source: String,
        region: String,
        settings: &Settings,
        topic: String,
        es: url::Url,
    ) -> (fsm: FSM)
        ensures
            fsm.is_fresh(index_id, index_type@, data_source@, region@, settings, topic@),
            fsm.es == es,
    {
        FSM {
            id: index_id,
            state: State::NotAvailable,
            working_dir: settings.work.working_dir.clone(),
            mimirs_dir: settings.work.mimirsbrunn_dir.clone(),
            cosmogony_dir: settings.work.cosmogony_dir.clone(),
            events: VecDeque::new(),
            es,
            index_type,
            data_source,
            region,
            topic,
        }
    }

    /// The machine of the index `index_id`.
    ///
    /// The search cluster's address is `http://host:port`, from the
    /// settings. The machine is made exactly when that text is a URL;
    /// otherwise the text is refused with a URL error that quotes it.
    pub fn new(
        index_id: i32,
        index_type: String,
        data_source: String,
        region: String,
        settings: &Settings,
        topic: String,
    ) -> (r: Result<FSM, Error>)
        ensures
            ({
                let address = endpoint(
                    "http://"@,
                    settings.elasticsearch.host@,
                    settings.elasticsearch.port,
                );
                match r {
                    Ok(fsm) => {
                        &&& fsm.is_fresh(
                            index_id,
                            index_type@,
                            data_source@,
                            region@,
                            settings,
                            topic@,
                        )
                        &&& url_of_text(address) == Some(url_text(fsm.es))
                    },
                    Err(e) => {
                        &&& url_of_text(address) is None
                        &&& e@.kind == ErrorKind::URL
                        &&& e@.details == bad_address(address)
                    },
                }
            }),
    {
        let address = settings.elasticsearch.endpoint();
        match parse_url(address.as_str()) {
            Ok(es) => Ok(
                FSM::with_url(index_id, index_type, data_source, region, settings, topic, es),
            ),
            Err(e) => Err(
                Error::URLError {
                    details: String::from_str("Could not parse elasticsearch URL '").concat(
                        address.as_str(),
                    ).concat("'"),
                    source: parse_error_text(&e),
                },
            ),
        }
    }

    /// The address of the search cluster, as the jobs are handed it.
    pub fn elasticsearch(&self) -> (r: &str)
        ensures
            r@ == url_text(self.es),
    {
        url_as_str(&self.es)
    }

    /// Takes `event`: the machine moves to the state that the transition
    /// table gives, with `now` as the reading of the wall clock.
    pub fn next(&mut self, event: Event, now: Timestamp)
        ensures
            final(self).state@ == next_state(old(self).state@, event@, now),
            final(self).state@ is Failure <==> !is_legal(old(self).state@, event@),
            final(self).events == old(self).events,
            final(self).same_setup(old(self)),
    {
        let reached = next(&self.state, event, now);
        self.state = reached;
    }

    /// Dispatches on the current state.
    ///
    /// Where the state waits for outside work, that job is returned and
    /// nothing is enqueued: the caller runs the job and reports its outcome
    /// with [`FSM::finish`]. Where an event follows from the state alone, it
    /// is enqueued. The state itself never changes here.
    pub fn run(&mut self) -> (r: Option<Job>)
        ensures
            match r {
                Some(j) => job_for(
                    old(self).state@,
                    old(self).data_source@,
                    old(self).index_type@,
                ) == Some(j@),
                None => job_for(old(self).state@, old(self).data_source@, old(self).index_type@)
                    is None,
            },
            final(self).pending() == match event_from_state(
                old(self).state@,
                old(self).data_source@,
                old(self).index_type@,
            ) {
                Some(e) => old(self).pending().push(e),
                None => old(self).pending(),
            },
            final(self).state == old(self).state,
            final(self).same_setup(old(self)),
    {
        let wanted = job(&self.state, self.data_source.as_str(), self.index_type.as_str());
        let follows = event_of_state(
            &self.state,
            self.data_source.as_str(),
            self.index_type.as_str(),
        );
        match follows {
            Some(e) => {
                let ghost before = self.events@;
                self.events.push_back(e);
                assert(self.pending() =~= before.map_values(|e: Event| e@).push(e@));
            },
            None => {},
        }
        wanted
    }

    /// Reports how `job` ended: the event that says so is enqueued.
    pub fn finish(&mut self, job: &Job, outcome: Outcome)
        ensures
            final(self).pending() == old(self).pending().push(
                event_from_outcome(job@, outcome@),
            ),
            final(self).state == old(self).state,
            final(self).same_setup(old(self)),
    {
        let e = event_of_outcome(job, outcome);
        let ghost before = self.events@;
        self.events.push_back(e);
        assert(self.pending() =~= before.map_values(|e: Event| e@).push(e@));
    }

    /// The message that announces the current state. It always comes back.
    pub fn message(&self) -> (r: Result<Vec<String>, Error>)
        ensures
            r matches Ok(frames) && is_announcement(
                frame_texts(frames@),
                self.topic@,
                self.id as int,
                self.state@,
            ) && (self.state@.wf() ==> state_of_text(frames@[2]@) == Some(self.state@)),
    {
        announce(self.topic.as_str(), self.id, &self.state)
    }
}

/// What a run published: the states, and the message that announced each.
#[derive(Debug, PartialEq)]
pub struct Run {
    /// The published states, one for each transition, in order.
    pub states: Vec<State>,
    /// The messages that announced the states, one for one.
    pub messages: Vec<Vec<String>>,
}

/// `messages` announce `states` one for one, for the index `id` under
/// `topic`: each has the three frames, and its status reads back as its
/// state where the state is well formed.
pub open spec fn announces(
    messages: Seq<Vec<String>>,
    topic: Seq<char>,
    id: int,
    states: Seq<State>,
) -> bool {
    &&& messages.len() == states.len()
    &&& forall|k: int|
        0 <= k < messages.len() ==> {
            &&& is_announcement(frame_texts((#[trigger] messages[k])@), topic, id, states[k]@)
            &&& states[k]@.wf() ==> state_of_text(messages[k]@[2]@) == Some(states[k]@)
        }
}

/// Drives `fsm` to the end of its run, with the jobs played by `script`.
///
/// `Download` is enqueued; then, for as long as an event waits, the oldest
/// one is taken, the state it leads to is published, and what the state
/// calls for is dispatched. The run ends after `Available` or `Failure`, or
/// when no event is left. What comes back are the published states, one
/// for each transition, in order, and the message that announced each under
/// the machine's topic and key. There is at least one state, and the last
/// is `Available`, `Failure` or `NotAvailable`. Where no event waited at
/// the start, none of these three is published before the last state.
pub fn exec(fsm: FSM, script: &Script) -> (run: Run)
    ensures
        views(run.states@) == trace(
            fsm.state@,
            fsm.pending().push(EventView::Download),
            fsm.data_source@,
            fsm.index_type@,
            script@,
        ),
        announces(run.messages@, fsm.topic@, fsm.id as int, run.states@),
        run.states@.len() > 0,
        ({
            let last = run.states@.last()@;
            last is Available || last is Failure || last is NotAvailable
        }),
        script@.wf() && (forall|i: int|
            0 <= i < fsm.pending().len() ==> (#[trigger] fsm.pending()[i]).wf()) ==> forall|
            i: int,
        |
            0 <= i < run.states@.len() ==> (#[trigger] run.states@[i])@.wf(),
        fsm.pending().len() == 0 ==> forall|i: int|
            0 <= i < run.states@.len() - 1 ==> goes_on((#[trigger] run.states@[i])@),
{
    let ghost whole = trace(
        fsm.state@,
        fsm.pending().push(EventView::Download),
        fsm.data_source@,
        fsm.index_type@,
        script@,
    );
    let ghost source = fsm.data_source@;
    let ghost kind = fsm.index_type@;
    let ghost start = fsm.pending();
    let ghost sound = script@.wf() && (forall|i: int|
        0 <= i < start.len() ==> (#[trigger] start[i]).wf());
    let ghost alone = start.len() == 0;
    let ghost topic = fsm.topic@;
    let ghost id = fsm.id as int;
    let mut fsm = fsm;
    let ghost before = fsm.events@;
    fsm.events.push_back(Event::Download);
    proof {
        assert(fsm.pending() =~= before.map_values(|e: Event| e@).push(EventView::Download));
        lemma_trace_ends(fsm.state@, fsm.pending(), source, kind, script@);
        if alone {
            lemma_single_file(
                fsm.state@,
                fsm.pending(),
                source,
                kind,
                script@,
            );
        }
        if sound {
            assert forall|i: int| 0 <= i < fsm.pending().len() implies (
            #[trigger] fsm.pending()[i]).wf() by {
                if i < start.len() {
                    assert(fsm.pending()[i] == start[i]);
                }
            }
            lemma_trace_wf(
                fsm.state@,
                fsm.pending(),
                source,
                kind,
                script@,
            );
        }
    }
    let mut published: Vec<State> = Vec::new();
    let mut messages: Vec<Vec<String>> = Vec::new();
    assert(views(published@) =~= Seq::<StateView>::empty());
    loop
        invariant_except_break
            whole == views(published@) + trace(fsm.state@, fsm.pending(), source, kind, script@),
        invariant
            fsm.data_source@ == source,
            fsm.index_type@ == kind,
            fsm.topic@ == topic,
            fsm.id == id,
            announces(messages@, topic, id, published@),
            sound ==> forall|i: int| 0 <= i < whole.len() ==> (#[trigger] whole[i]).wf(),
            alone ==> forall|i: int|
                0 <= i < whole.len() - 1 ==> goes_on(#[trigger] whole[i]),
        ensures
            whole == views(published@),
        decreases fsm.events@.len(), rank(fsm.state@),
    {
        let ghost queue = fsm.pending();
        let ghost held = fsm.state@;
        let ghost sofar = views(published@);
        match fsm.events.pop_front() {
            None => {
                assert(sofar + Seq::<StateView>::empty() =~= sofar);
                break ;
            },
            Some(event) => {
                assert(fsm.pending() =~= queue.subrange(1, queue.len() as int));
                assert(event@ == queue[0]);
                fsm.next(event, script.now);
                let ghost told = messages@;
                let ghost shown = published@;
                let frames = match fsm.message() {
                    Ok(frames) => frames,
                    Err(_) => unreached(),
                };
                messages.push(frames);
                published.push(fsm.state.duplicate());
                assert(views(published@) =~= sofar.push(fsm.state@));
                assert(announces(messages@, topic, id, published@)) by {
                    assert forall|k: int| 0 <= k < messages@.len() implies {
                        &&& is_announcement(
                            frame_texts((#[trigger] messages@[k])@),
                            topic,
                            id,
                            published@[k]@,
                        )
                        &&& published@[k]@.wf() ==> state_of_text(messages@[k]@[2]@) == Some(
                            published@[k]@,
                        )
                    } by {
                        if k < told.len() {
                            assert(messages@[k] == told[k]);
                            assert(published@[k] == shown[k]);
                        }
                    }
                }
                if fsm.state.is_absorbing() {
                    assert(sofar + seq![fsm.state@] =~= sofar.push(fsm.state@));
                    break ;
                }
                match fsm.run() {
                    Some(job) => {
                        let outcome = script.outcome(&job);
                        fsm.finish(&job, outcome);
                    },
                    None => {},
                }
                proof {
                    let rest = trace(fsm.state@, fsm.pending(), source, kind, script@);
                    assert(trace(held, queue, source, kind, script@) == seq![fsm.state@] + rest);
                    assert(sofar + (seq![fsm.state@] + rest) =~= sofar.push(fsm.state@) + rest);
                    lemma_rank_falls(
                        held,
                        queue[0],
                        source,
                        kind,
                        script@,
                    );
                }
            },
        }
    }
    proof {
        if sound {
            assert forall|i: int| 0 <= i < published@.len() implies (
            #[trigger] published@[i])@.wf() by {
                assert(whole[i] == published@[i]@);
            }
        }
        if alone {
            assert forall|i: int| 0 <= i < published@.len() - 1 implies goes_on(
                (#[trigger] published@[i])@,
            ) by {
                assert(whole[i] == published@[i]@);
            }
        }
    }
    Run { states: published, messages }
}

} // verus!
