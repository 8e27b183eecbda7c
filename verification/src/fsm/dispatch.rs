//! The jobs that the states call for, and the events that follow from them.
use vstd::prelude::*;
use vstd::string::*;
use crate::fsm::{Event, EventView, State, StateView};
use crate::text::same_text;
use crate::time::Elapsed;

verus! {

/// The level at which OpenStreetMap places count as cities.
pub const CITY_LEVEL: u32 = 8;

/// Work outside the machine that a state waits for.
#[derive(Clone, Debug, PartialEq)]
pub enum Job {
    /// Fetch the region's OpenStreetMap extract.
    DownloadOsm,
    /// Fetch the region's BANO archive.
    DownloadBano,
    /// Fetch the region's NTFS archive.
    DownloadNtfs,
    /// Turn the OpenStreetMap extract at `file_path` into a cosmogony.
    GenerateCosmogony { file_path: String },
    /// Load the BANO archive at `file_path` into the search cluster.
    IndexBano { file_path: String },
    /// Load the chosen layers of the OpenStreetMap extract at `file_path`.
    IndexOsm { file_path: String, admins: bool, streets: bool, pois: bool, city_level: u32 },
    /// Load the cosmogony at `file_path`.
    IndexCosmogony { file_path: String },
    /// Load the NTFS archive at `file_path`.
    IndexNtfs { file_path: String },
    /// Check the index that was loaded.
    Validate,
}

/// The mathematical value of a [`Job`].
pub enum JobView {
    DownloadOsm,
    DownloadBano,
    DownloadNtfs,
    GenerateCosmogony { file_path: Seq<char> },
    IndexBano { file_path: Seq<char> },
    IndexOsm { file_path: Seq<char>, admins: bool, streets: bool, pois: bool, city_level: u32 },
    IndexCosmogony { file_path: Seq<char> },
    IndexNtfs { file_path: Seq<char> },
    Validate,
}

impl View for Job {
    type V = JobView;

    open spec fn view(&self) -> JobView {
        match *self {
            Job::DownloadOsm => JobView::DownloadOsm,
            Job::DownloadBano => JobView::DownloadBano,
            Job::DownloadNtfs => JobView::DownloadNtfs,
            Job::GenerateCosmogony { file_path } => JobView::GenerateCosmogony {
                file_path: file_path@,
            },
            Job::IndexBano { file_path } => JobView::IndexBano { file_path: file_path@ },
            Job::IndexOsm { file_path, admins, streets, pois, city_level } => JobView::IndexOsm {
                file_path: file_path@,
                admins,
                streets,
                pois,
                city_level,
            },
            Job::IndexCosmogony { file_path } => JobView::IndexCosmogony {
                file_path: file_path@,
            },
            Job::IndexNtfs { file_path } => JobView::IndexNtfs { file_path: file_path@ },
            Job::Validate => JobView::Validate,
        }
    }
}

/// How a job ended.
#[derive(Clone, Debug, PartialEq)]
pub enum Outcome {
    /// The job succeeded after `elapsed`. `file_path` is the file that a
    /// download or a processing step left behind; the other jobs leave none.
    Done { file_path: String, elapsed: Elapsed },
    /// The job failed, for this reason.
    Failed { reason: String },
}

/// The mathematical value of an [`Outcome`].
pub enum OutcomeView {
    Done { file_path: Seq<char>, elapsed: Elapsed },
    Failed { reason: Seq<char> },
}

impl View for Outcome {
    type V = OutcomeView;

    open spec fn view(&self) -> OutcomeView {
        match *self {
            Outcome::Done { file_path, elapsed } => OutcomeView::Done {
                file_path: file_path@,
                elapsed,
            },
            Outcome::Failed { reason } => OutcomeView::Failed { reason: reason@ },
        }
    }
}

/// The job that `state` waits for, for an index of type `index_type` fed
/// from `data_source`. States that wait for no outside work have none, and
/// so have the states in progress for which the source, or the type of
/// index, offers no job.
pub open spec fn job_for(state: StateView, data_source: Seq<char>, index_type: Seq<char>) -> Option<
    JobView,
> {
    match state {
        StateView::DownloadingInProgress { .. } => {
            if data_source == "osm"@ || data_source == "cosmogony"@ {
                Some(JobView::DownloadOsm)
            } else if data_source == "bano"@ {
                Some(JobView::DownloadBano)
            } else if data_source == "ntfs"@ {
                Some(JobView::DownloadNtfs)
            } else {
                None
            }
        },
        StateView::ProcessingInProgress { file_path, .. } => {
            if data_source == "cosmogony"@ {
                Some(JobView::GenerateCosmogony { file_path })
            } else {
                None
            }
        },
        StateView::IndexingInProgress { file_path, .. } => {
            if data_source == "bano"@ {
                Some(JobView::IndexBano { file_path })
            } else if data_source == "osm"@ {
                if index_type == "admins"@ {
                    Some(
                        JobView::IndexOsm {
                            file_path,
                            admins: true,
                            streets: false,
                            pois: false,
                            city_level: CITY_LEVEL,
                        },
                    )
                } else if index_type == "streets"@ {
                    Some(
                        JobView::IndexOsm {
                            file_path,
                            admins: false,
                            streets: true,
                            pois: false,
                            city_level: CITY_LEVEL,
                        },
                    )
                } else {
                    None
                }
            } else if data_source == "cosmogony"@ {
                Some(JobView::IndexCosmogony { file_path })
            } else if data_source == "ntfs"@ {
                Some(JobView::IndexNtfs { file_path })
            } else {
                None
            }
        },
        StateView::ValidationInProgress => Some(JobView::Validate),
        _ => None,
    }
}

/// The event that follows from `state` alone, without outside work.
///
/// A finished download is routed to processing for a cosmogony and to
/// indexing for every other source; what was processed or indexed moves on;
/// an error state is reset; a state in progress for which there is no job
/// fails with the reason. `NotAvailable`, `Available` and `Failure` are
/// followed by nothing, and so is a state that waits for its job.
pub open spec fn event_from_state(
    state: StateView,
    data_source: Seq<char>,
    index_type: Seq<char>,
) -> Option<EventView> {
    match state {
        StateView::NotAvailable => None,
        StateView::DownloadingInProgress { .. } => {
            if job_for(state, data_source, index_type) is Some {
                None
            } else {
                Some(EventView::DownloadingError("don't know how to download "@ + data_source))
            }
        },
        StateView::DownloadingError { .. } => Some(EventView::Reset),
        StateView::Downloaded { file_path, .. } => {
            if data_source == "cosmogony"@ {
                Some(EventView::Process(file_path))
            } else {
                Some(EventView::Index(file_path))
            }
        },
        StateView::ProcessingInProgress { .. } => {
            if job_for(state, data_source, index_type) is Some {
                None
            } else {
                Some(EventView::ProcessingError("don't know how to process "@ + data_source))
            }
        },
        StateView::ProcessingError { .. } => Some(EventView::Reset),
        StateView::Processed { file_path, .. } => Some(EventView::Index(file_path)),
        StateView::IndexingInProgress { .. } => {
            if job_for(state, data_source, index_type) is Some {
                None
            } else if data_source == "osm"@ {
                Some(EventView::IndexingError("Could not index "@ + index_type + " using OSM"@))
            } else {
                Some(EventView::IndexingError("don't know how to index "@ + data_source))
            }
        },
        StateView::IndexingError { .. } => Some(EventView::Reset),
        StateView::Indexed { .. } => Some(EventView::Validate),
        StateView::ValidationInProgress => None,
        StateView::ValidationError { .. } => Some(EventView::Reset),
        StateView::Available => None,
        StateView::Failure { .. } => None,
    }
}

/// What a failed job is reported with: the words for the kind of job, then
/// the reason.
pub open spec fn failure_prefix(job: JobView) -> Seq<char> {
    match job {
        JobView::DownloadOsm => "Could not download: "@,
        JobView::DownloadBano => "Could not download: "@,
        JobView::DownloadNtfs => "Could not download: "@,
        JobView::GenerateCosmogony { .. } => "Could not process: "@,
        JobView::IndexBano { .. } => "Could not index BANO: "@,
        JobView::IndexOsm { .. } => "Could not index OSM: "@,
        JobView::IndexCosmogony { .. } => "Could not index cosmogony: "@,
        JobView::IndexNtfs { .. } => "Could not index NTFS: "@,
        JobView::Validate => "Could not validate: "@,
    }
}

/// The event that reports how `job` ended.
///
/// Success completes the step the job belongs to, with the time it took
/// and, for a download or a processing step, the file it left. Failure is
/// the error event of that step.
pub open spec fn event_from_outcome(job: JobView, outcome: OutcomeView) -> EventView {
    match outcome {
        OutcomeView::Done { file_path, elapsed } => match job {
            JobView::DownloadOsm => EventView::DownloadingComplete(file_path, elapsed),
            JobView::DownloadBano => EventView::DownloadingComplete(file_path, elapsed),
            JobView::DownloadNtfs => EventView::DownloadingComplete(file_path, elapsed),
            JobView::GenerateCosmogony { .. } => EventView::ProcessingComplete(file_path, elapsed),
            JobView::IndexBano { .. } => EventView::IndexingComplete(elapsed),
            JobView::IndexOsm { .. } => EventView::IndexingComplete(elapsed),
            JobView::IndexCosmogony { .. } => EventView::IndexingComplete(elapsed),
            JobView::IndexNtfs { .. } => EventView::IndexingComplete(elapsed),
            JobView::Validate => EventView::ValidationComplete,
        },
        OutcomeView::Failed { reason } => {
            let words = failure_prefix(job) + reason;
            match job {
                JobView::DownloadOsm => EventView::DownloadingError(words),
                JobView::DownloadBano => EventView::DownloadingError(words),
                JobView::DownloadNtfs => EventView::DownloadingError(words),
                JobView::GenerateCosmogony { .. } => EventView::ProcessingError(words),
                JobView::IndexBano { .. } => EventView::IndexingError(words),
                JobView::IndexOsm { .. } => EventView::IndexingError(words),
                JobView::IndexCosmogony { .. } => EventView::IndexingError(words),
                JobView::IndexNtfs { .. } => EventView::IndexingError(words),
                JobView::Validate => EventView::ValidationError(words),
            }
        },
    }
}

/// The job that `state` waits for.
pub fn job(state: &State, data_source: &str, index_type: &str) -> (r: Option<Job>)
    ensures
        match r {
            Some(j) => job_for(state@, data_source@, index_type@) == Some(j@),
            None => job_for(state@, data_source@, index_type@) is None,
        },
{
    match state {
        State::DownloadingInProgress { .. } => {
            if same_text(data_source, "osm") || same_text(data_source, "cosmogony") {
                Some(Job::DownloadOsm)
            } else if same_text(data_source, "bano") {
                Some(Job::DownloadBano)
            } else if same_text(data_source, "ntfs") {
                Some(Job::DownloadNtfs)
            } else {
                None
            }
        },
        State::ProcessingInProgress { file_path, .. } => {
            if same_text(data_source, "cosmogony") {
                Some(Job::GenerateCosmogony { file_path: file_path.clone() })
            } else {
                None
            }
        },
        State::IndexingInProgress { file_path, .. } => {
            if same_text(data_source, "bano") {
                Some(Job::IndexBano { file_path: file_path.clone() })
            } else if same_text(data_source, "osm") {
                if same_text(index_type, "admins") {
                    Some(
                        Job::IndexOsm {
                            file_path: file_path.clone(),
                            admins: true,
                            streets: false,
                            pois: false,
                            city_level: CITY_LEVEL,
                        },
                    )
                } else if same_text(index_type, "streets") {
                    Some(
                        Job::IndexOsm {
                            file_path: file_path.clone(),
                            admins: false,
                            streets: true,
                            pois: false,
                            city_level: CITY_LEVEL,
                        },
                    )
                } else {
                    None
                }
            } else if same_text(data_source, "cosmogony") {
                Some(Job::IndexCosmogony { file_path: file_path.clone() })
            } else if same_text(data_source, "ntfs") {
                Some(Job::IndexNtfs { file_path: file_path.clone() })
            } else {
                None
            }
        },
        State::ValidationInProgress => Some(Job::Validate),
        _ => None,
    }
}

/// The event that follows from `state` alone.
pub fn event_of_state(state: &State, data_source: &str, index_type: &str) -> (r: Option<Event>)
    ensures
        match r {
            Some(e) => event_from_state(state@, data_source@, index_type@) == Some(e@),
            None => event_from_state(state@, data_source@, index_type@) is None,
        },
{
    let waits = job(state, data_source, index_type).is_some();
    match state {
        State::NotAvailable => None,
        State::DownloadingInProgress { .. } => {
            if waits {
                None
            } else {
                Some(
                    Event::DownloadingError(
                        String::from_str("don't know how to download ").concat(data_source),
                    ),
                )
            }
        },
        State::DownloadingError { .. } => Some(Event::Reset),
        State::Downloaded { file_path, .. } => {
            if same_text(data_source, "cosmogony") {
                Some(Event::Process(file_path.clone()))
            } else {
                Some(Event::Index(file_path.clone()))
            }
        },
        State::ProcessingInProgress { .. } => {
            if waits {
                None
            } else {
                Some(
                    Event::ProcessingError(
                        String::from_str("don't know how to process ").concat(data_source),
                    ),
                )
            }
        },
        State::ProcessingError { .. } => Some(Event::Reset),
        State::Processed { file_path, .. } => Some(Event::Index(file_path.clone())),
        State::IndexingInProgress { .. } => {
            if waits {
                None
            } else if same_text(data_source, "osm") {
                Some(
                    Event::IndexingError(
                        String::from_str("Could not index ").concat(index_type).concat(
                            " using OSM",
                        ),
                    ),
                )
            } else {
                Some(
                    Event::IndexingError(
                        String::from_str("don't know how to index ").concat(data_source),
                    ),
                )
            }
        },
        State::IndexingError { .. } => Some(Event::Reset),
        State::Indexed { .. } => Some(Event::Validate),
        State::ValidationInProgress => None,
        State::ValidationError { .. } => Some(Event::Reset),
        State::Available => None,
        State::Failure { .. } => None,
    }
}

/// The words that a failure of `job` is reported with, before the reason.
fn prefix_of(job: &Job) -> (r: &'static str)
    ensures
        r@ == failure_prefix(job@),
{
    match job {
        Job::DownloadOsm => "Could not download: ",
        Job::DownloadBano => "Could not download: ",
        Job::DownloadNtfs => "Could not download: ",
        Job::GenerateCosmogony { .. } => "Could not process: ",
        Job::IndexBano { .. } => "Could not index BANO: ",
        Job::IndexOsm { .. } => "Could not index OSM: ",
        Job::IndexCosmogony { .. } => "Could not index cosmogony: ",
        Job::IndexNtfs { .. } => "Could not index NTFS: ",
        Job::Validate => "Could not validate: ",
    }
}

/// The event that reports how `job` ended.
pub fn event_of_outcome(job: &Job, outcome: Outcome) -> (r: Event)
    ensures
        r@ == event_from_outcome(job@, outcome@),
{
    match outcome {
        Outcome::Done { file_path, elapsed } => match job {
            Job::DownloadOsm => Event::DownloadingComplete(file_path, elapsed),
            Job::DownloadBano => Event::DownloadingComplete(file_path, elapsed),
            Job::DownloadNtfs => Event::DownloadingComplete(file_path, elapsed),
            Job::GenerateCosmogony { .. } => Event::ProcessingComplete(file_path, elapsed),
            Job::IndexBano { .. } => Event::IndexingComplete(elapsed),
            Job::IndexOsm { .. } => Event::IndexingComplete(elapsed),
            Job::IndexCosmogony { .. } => Event::IndexingComplete(elapsed),
            Job::IndexNtfs { .. } => Event::IndexingComplete(elapsed),
            Job::Validate => Event::ValidationComplete,
        },
        Outcome::Failed { reason } => {
            let words = String::from_str(prefix_of(job)).concat(reason.as_str());
            match job {
                Job::DownloadOsm => Event::DownloadingError(words),
                Job::DownloadBano => Event::DownloadingError(words),
                Job::DownloadNtfs => Event::DownloadingError(words),
                Job::GenerateCosmogony { .. } => Event::ProcessingError(words),
                Job::IndexBano { .. } => Event::IndexingError(words),
                Job::IndexOsm { .. } => Event::IndexingError(words),
                Job::IndexCosmogony { .. } => Event::IndexingError(words),
                Job::IndexNtfs { .. } => Event::IndexingError(words),
                Job::Validate => Event::ValidationError(words),
            }
        },
    }
}

} // verus!
