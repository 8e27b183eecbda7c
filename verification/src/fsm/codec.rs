//! States as JSON: an object whose `type` member names the variant and whose
//! other members carry the variant's fields.
use vstd::prelude::*;
use vstd::string::*;
use crate::error::{Error, ErrorKind};
use crate::fsm::{State, StateView};
use crate::json::{
    json_entries, json_of_text, json_value, object_get, object_insert, object_new,
    value_as_object, value_as_str, value_as_u64, value_of_object, value_of_str, value_of_text,
    value_of_u64, value_to_text, Json,
};
use crate::text::same_text;
use crate::time::{carried_nanos, carried_secs, carry, Elapsed, Timestamp};

verus! {

/// An instant as JSON: an object of its two counts.
pub open spec fn timestamp_json(t: Timestamp) -> Json {
    Json::Object(
        Map::<Seq<char>, Json>::empty().insert(
            "secs_since_epoch"@,
            Json::Integer(t.secs_since_epoch as int),
        ).insert("nanos_since_epoch"@, Json::Integer(t.nanos_since_epoch as int)),
    )
}

/// An interval as JSON: an object of its two counts.
pub open spec fn elapsed_json(d: Elapsed) -> Json {
    Json::Object(
        Map::<Seq<char>, Json>::empty().insert("secs"@, Json::Integer(d.secs as int)).insert(
            "nanos"@,
            Json::Integer(d.nanos as int),
        ),
    )
}

/// The members of an object that holds the tag `name` and nothing else.
pub open spec fn tagged(name: Seq<char>) -> Map<Seq<char>, Json> {
    Map::<Seq<char>, Json>::empty().insert("type"@, Json::Text(name))
}

/// A state as JSON.
pub open spec fn state_json(s: StateView) -> Json {
    Json::Object(
        match s {
            StateView::NotAvailable => tagged(s.name()),
            StateView::DownloadingInProgress { started_at } => tagged(s.name()).insert(
                "started_at"@,
                timestamp_json(started_at),
            ),
            StateView::DownloadingError { details } => tagged(s.name()).insert(
                "details"@,
                Json::Text(details),
            ),
            StateView::Downloaded { file_path, duration } => tagged(s.name()).insert(
                "file_path"@,
                Json::Text(file_path),
            ).insert("duration"@, elapsed_json(duration)),
            StateView::ProcessingInProgress { file_path, started_at } => tagged(s.name()).insert(
                "file_path"@,
                Json::Text(file_path),
            ).insert("started_at"@, timestamp_json(started_at)),
            StateView::ProcessingError { details } => tagged(s.name()).insert(
                "details"@,
                Json::Text(details),
            ),
            StateView::Processed { file_path, duration } => tagged(s.name()).insert(
                "file_path"@,
                Json::Text(file_path),
            ).insert("duration"@, elapsed_json(duration)),
            StateView::IndexingInProgress { file_path, started_at } => tagged(s.name()).insert(
                "file_path"@,
                Json::Text(file_path),
            ).insert("started_at"@, timestamp_json(started_at)),
            StateView::IndexingError { details } => tagged(s.name()).insert(
                "details"@,
                Json::Text(details),
            ),
            StateView::Indexed { duration } => tagged(s.name()).insert(
                "duration"@,
                elapsed_json(duration),
            ),
            StateView::ValidationInProgress => tagged(s.name()),
            StateView::ValidationError { details } => tagged(s.name()).insert(
                "details"@,
                Json::Text(details),
            ),
            StateView::Available => tagged(s.name()),
            StateView::Failure { message } => tagged(s.name()).insert(
                "message"@,
                Json::Text(message),
            ),
        },
    )
}

/// The member under `key`, where it is a whole number from 0 to `max`.
pub open spec fn natural_member(m: Map<Seq<char>, Json>, key: Seq<char>, max: int) -> Option<
    int,
> {
    if m.contains_key(key) {
        match m[key] {
            Json::Integer(i) => if 0 <= i <= max {
                Some(i)
            } else {
                None
            },
            _ => None,
        }
    } else {
        None
    }
}

/// The member under `key`, where it is a string.
pub open spec fn text_member(m: Map<Seq<char>, Json>, key: Seq<char>) -> Option<Seq<char>> {
    if m.contains_key(key) {
        match m[key] {
            Json::Text(t) => Some(t),
            _ => None,
        }
    } else {
        None
    }
}

/// The instant that a JSON value writes: an object with both counts, whose
/// nanoseconds are carried into the seconds where they fill whole seconds.
pub open spec fn timestamp_of_json(j: Json) -> Option<Timestamp> {
    match j {
        Json::Object(m) => match (
            natural_member(m, "secs_since_epoch"@, u64::MAX as int),
            natural_member(m, "nanos_since_epoch"@, u32::MAX as int),
        ) {
            (Some(s), Some(n)) => if carried_secs(s as u64, n as u32) <= u64::MAX {
                Some(
                    Timestamp {
                        secs_since_epoch: carried_secs(s as u64, n as u32) as u64,
                        nanos_since_epoch: carried_nanos(n as u32) as u32,
                    },
                )
            } else {
                None
            },
            _ => None,
        },
        _ => None,
    }
}

/// The interval that a JSON value writes, read as an instant is.
pub open spec fn elapsed_of_json(j: Json) -> Option<Elapsed> {
    match j {
        Json::Object(m) => match (
            natural_member(m, "secs"@, u64::MAX as int),
            natural_member(m, "nanos"@, u32::MAX as int),
        ) {
            (Some(s), Some(n)) => if carried_secs(s as u64, n as u32) <= u64::MAX {
                Some(
                    Elapsed {
                        secs: carried_secs(s as u64, n as u32) as u64,
                        nanos: carried_nanos(n as u32) as u32,
                    },
                )
            } else {
                None
            },
            _ => None,
        },
        _ => None,
    }
}

/// The instant under `key`.
pub open spec fn timestamp_member(m: Map<Seq<char>, Json>, key: Seq<char>) -> Option<Timestamp> {
    if m.contains_key(key) {
        timestamp_of_json(m[key])
    } else {
        None
    }
}

/// The interval under `key`.
pub open spec fn elapsed_member(m: Map<Seq<char>, Json>, key: Seq<char>) -> Option<Elapsed> {
    if m.contains_key(key) {
        elapsed_of_json(m[key])
    } else {
        None
    }
}

/// The state with the tag `tag` whose fields are members of `m`, if the tag
/// names a variant and every field of that variant is there in its own form.
/// Members that the variant has no use for are passed over.
pub open spec fn state_of_members(tag: Seq<char>, m: Map<Seq<char>, Json>) -> Option<StateView> {
    if tag == "NotAvailable"@ {
        Some(StateView::NotAvailable)
    } else if tag == "DownloadingInProgress"@ {
        match timestamp_member(m, "started_at"@) {
            Some(started_at) => Some(StateView::DownloadingInProgress { started_at }),
            None => None,
        }
    } else if tag == "DownloadingError"@ {
        match text_member(m, "details"@) {
            Some(details) => Some(StateView::DownloadingError { details }),
            None => None,
        }
    } else if tag == "Downloaded"@ {
        match (text_member(m, "file_path"@), elapsed_member(m, "duration"@)) {
            (Some(file_path), Some(duration)) => Some(
                StateView::Downloaded { file_path, duration },
            ),
            _ => None,
        }
    } else if tag == "ProcessingInProgress"@ {
        match (text_member(m, "file_path"@), timestamp_member(m, "started_at"@)) {
            (Some(file_path), Some(started_at)) => Some(
                StateView::ProcessingInProgress { file_path, started_at },
            ),
            _ => None,
        }
    } else if tag == "ProcessingError"@ {
        match text_member(m, "details"@) {
            Some(details) => Some(StateView::ProcessingError { details }),
            None => None,
        }
    } else if tag == "Processed"@ {
        match (text_member(m, "file_path"@), elapsed_member(m, "duration"@)) {
            (Some(file_path), Some(duration)) => Some(
                StateView::Processed { file_path, duration },
            ),
            _ => None,
        }
    } else if tag == "IndexingInProgress"@ {
        match (text_member(m, "file_path"@), timestamp_member(m, "started_at"@)) {
            (Some(file_path), Some(started_at)) => Some(
                StateView::IndexingInProgress { file_path, started_at },
            ),
            _ => None,
        }
    } else if tag == "IndexingError"@ {
        match text_member(m, "details"@) {
            Some(details) => Some(StateView::IndexingError { details }),
            None => None,
        }
    } else if tag == "Indexed"@ {
        match elapsed_member(m, "duration"@) {
            Some(duration) => Some(StateView::Indexed { duration }),
            None => None,
        }
    } else if tag == "ValidationInProgress"@ {
        Some(StateView::ValidationInProgress)
    } else if tag == "ValidationError"@ {
        match text_member(m, "details"@) {
            Some(details) => Some(StateView::ValidationError { details }),
            None => None,
        }
    } else if tag == "Available"@ {
        Some(StateView::Available)
    } else if tag == "Failure"@ {
        match text_member(m, "message"@) {
            Some(message) => Some(StateView::Failure { message }),
            None => None,
        }
    } else {
        None
    }
}

/// The state that a JSON value writes: an object whose `type` member is a
/// string that names a variant, with that variant's fields.
pub open spec fn state_of_json(j: Json) -> Option<StateView> {
    match j {
        Json::Object(m) => match text_member(m, "type"@) {
            Some(tag) => state_of_members(tag, m),
            None => None,
        },
        _ => None,
    }
}

/// The state that a text writes, if the text is JSON and the JSON a state.
pub open spec fn state_of_text(text: Seq<char>) -> Option<StateView> {
    match json_of_text(text) {
        Some(j) => state_of_json(j),
        None => None,
    }
}

impl StateView {
    /// Every instant and interval in the state has less than a second's
    /// worth of nanoseconds.
    pub open spec fn wf(self) -> bool {
        match self {
            StateView::DownloadingInProgress { started_at } => started_at.wf(),
            StateView::Downloaded { duration, .. } => duration.wf(),
            StateView::ProcessingInProgress { started_at, .. } => started_at.wf(),
            StateView::Processed { duration, .. } => duration.wf(),
            StateView::IndexingInProgress { started_at, .. } => started_at.wf(),
            StateView::Indexed { duration } => duration.wf(),
            _ => true,
        }
    }
}

/// The names of the members differ from one another.
proof fn lemma_keys_differ()
    ensures
        "type"@ != "started_at"@,
        "type"@ != "details"@,
        "type"@ != "file_path"@,
        "type"@ != "duration"@,
        "type"@ != "message"@,
        "file_path"@ != "duration"@,
        "file_path"@ != "started_at"@,
        "secs_since_epoch"@ != "nanos_since_epoch"@,
        "secs"@ != "nanos"@,
{
    reveal_strlit("type");
    reveal_strlit("started_at");
    reveal_strlit("details");
    reveal_strlit("file_path");
    reveal_strlit("duration");
    reveal_strlit("message");
    reveal_strlit("secs_since_epoch");
    reveal_strlit("nanos_since_epoch");
    reveal_strlit("secs");
    reveal_strlit("nanos");
    assert("type"@.len() == 4);
    assert("started_at"@.len() == 10);
    assert("details"@.len() == 7);
    assert("file_path"@.len() == 9);
    assert("duration"@.len() == 8);
    assert("message"@.len() == 7);
    assert("secs_since_epoch"@.len() == 16);
    assert("nanos_since_epoch"@.len() == 17);
    assert("secs"@.len() == 4);
    assert("nanos"@.len() == 5);
}

/// No two variants share a name.
proof fn lemma_tags_differ()
    ensures
        "NotAvailable"@ != "DownloadingInProgress"@,
        "NotAvailable"@ != "DownloadingError"@,
        "NotAvailable"@ != "Downloaded"@,
        "NotAvailable"@ != "ProcessingInProgress"@,
        "NotAvailable"@ != "ProcessingError"@,
        "NotAvailable"@ != "Processed"@,
        "NotAvailable"@ != "IndexingInProgress"@,
        "NotAvailable"@ != "IndexingError"@,
        "NotAvailable"@ != "Indexed"@,
        "NotAvailable"@ != "ValidationInProgress"@,
        "NotAvailable"@ != "ValidationError"@,
        "NotAvailable"@ != "Available"@,
        "NotAvailable"@ != "Failure"@,
        "DownloadingInProgress"@ != "DownloadingError"@,
        "DownloadingInProgress"@ != "Downloaded"@,
        "DownloadingInProgress"@ != "ProcessingInProgress"@,
        "DownloadingInProgress"@ != "ProcessingError"@,
        "DownloadingInProgress"@ != "Processed"@,
        "DownloadingInProgress"@ != "IndexingInProgress"@,
        "DownloadingInProgress"@ != "IndexingError"@,
        "DownloadingInProgress"@ != "Indexed"@,
        "DownloadingInProgress"@ != "ValidationInProgress"@,
        "DownloadingInProgress"@ != "ValidationError"@,
        "DownloadingInProgress"@ != "Available"@,
        "DownloadingInProgress"@ != "Failure"@,
        "DownloadingError"@ != "Downloaded"@,
        "DownloadingError"@ != "ProcessingInProgress"@,
        "DownloadingError"@ != "ProcessingError"@,
        "DownloadingError"@ != "Processed"@,
        "DownloadingError"@ != "IndexingInProgress"@,
        "DownloadingError"@ != "IndexingError"@,
        "DownloadingError"@ != "Indexed"@,
        "DownloadingError"@ != "ValidationInProgress"@,
        "DownloadingError"@ != "ValidationError"@,
        "DownloadingError"@ != "Available"@,
        "DownloadingError"@ != "Failure"@,
        "Downloaded"@ != "ProcessingInProgress"@,
        "Downloaded"@ != "ProcessingError"@,
        "Downloaded"@ != "Processed"@,
        "Downloaded"@ != "IndexingInProgress"@,
        "Downloaded"@ != "IndexingError"@,
        "Downloaded"@ != "Indexed"@,
        "Downloaded"@ != "ValidationInProgress"@,
        "Downloaded"@ != "ValidationError"@,
        "Downloaded"@ != "Available"@,
        "Downloaded"@ != "Failure"@,
        "ProcessingInProgress"@ != "ProcessingError"@,
        "ProcessingInProgress"@ != "Processed"@,
        "ProcessingInProgress"@ != "IndexingInProgress"@,
        "ProcessingInProgress"@ != "IndexingError"@,
        "ProcessingInProgress"@ != "Indexed"@,
        "ProcessingInProgress"@ != "ValidationInProgress"@,
        "ProcessingInProgress"@ != "ValidationError"@,
        "ProcessingInProgress"@ != "Available"@,
        "ProcessingInProgress"@ != "Failure"@,
        "ProcessingError"@ != "Processed"@,
        "ProcessingError"@ != "IndexingInProgress"@,
        "ProcessingError"@ != "IndexingError"@,
        "ProcessingError"@ != "Indexed"@,
        "ProcessingError"@ != "ValidationInProgress"@,
        "ProcessingError"@ != "ValidationError"@,
        "ProcessingError"@ != "Available"@,
        "ProcessingError"@ != "Failure"@,
        "Processed"@ != "IndexingInProgress"@,
        "Processed"@ != "IndexingError"@,
        "Processed"@ != "Indexed"@,
        "Processed"@ != "ValidationInProgress"@,
        "Processed"@ != "ValidationError"@,
        "Processed"@ != "Available"@,
        "Processed"@ != "Failure"@,
        "IndexingInProgress"@ != "IndexingError"@,
        "IndexingInProgress"@ != "Indexed"@,
        "IndexingInProgress"@ != "ValidationInProgress"@,
        "IndexingInProgress"@ != "ValidationError"@,
        "IndexingInProgress"@ != "Available"@,
        "IndexingInProgress"@ != "Failure"@,
        "IndexingError"@ != "Indexed"@,
        "IndexingError"@ != "ValidationInProgress"@,
        "IndexingError"@ != "ValidationError"@,
        "IndexingError"@ != "Available"@,
        "IndexingError"@ != "Failure"@,
        "Indexed"@ != "ValidationInProgress"@,
        "Indexed"@ != "ValidationError"@,
        "Indexed"@ != "Available"@,
        "Indexed"@ != "Failure"@,
        "ValidationInProgress"@ != "ValidationError"@,
        "ValidationInProgress"@ != "Available"@,
        "ValidationInProgress"@ != "Failure"@,
        "ValidationError"@ != "Available"@,
        "ValidationError"@ != "Failure"@,
        "Available"@ != "Failure"@,
{
    reveal_strlit("NotAvailable");
    reveal_strlit("DownloadingInProgress");
    reveal_strlit("DownloadingError");
    reveal_strlit("Downloaded");
    reveal_strlit("ProcessingInProgress");
    reveal_strlit("ProcessingError");
    reveal_strlit("Processed");
    reveal_strlit("IndexingInProgress");
    reveal_strlit("IndexingError");
    reveal_strlit("Indexed");
    reveal_strlit("ValidationInProgress");
    reveal_strlit("ValidationError");
    reveal_strlit("Available");
    reveal_strlit("Failure");
    assert("NotAvailable"@.len() == 12);
    assert("DownloadingInProgress"@.len() == 21);
    assert("DownloadingError"@.len() == 16);
    assert("Downloaded"@.len() == 10);
    assert("ProcessingInProgress"@.len() == 20);
    assert("ProcessingError"@.len() == 15);
    assert("Processed"@.len() == 9);
    assert("IndexingInProgress"@.len() == 18);
    assert("IndexingError"@.len() == 13);
    assert("Indexed"@.len() == 7);
    assert("ValidationInProgress"@.len() == 20);
    assert("ValidationError"@.len() == 15);
    assert("Available"@.len() == 9);
    assert("Failure"@.len() == 7);
    assert("ProcessingInProgress"@[0] != "ValidationInProgress"@[0]);
    assert("ProcessingError"@[0] != "ValidationError"@[0]);
    assert("Processed"@[0] != "Available"@[0]);
    assert("Indexed"@[0] != "Failure"@[0]);
}

/// An instant that is well formed is read back from its JSON unchanged.
pub proof fn lemma_timestamp_round_trip(t: Timestamp)
    requires
        t.wf(),
    ensures
        timestamp_of_json(timestamp_json(t)) == Some(t),
        timestamp_json(t).is_record(),
{
    lemma_keys_differ();
}

/// An interval that is well formed is read back from its JSON unchanged.
pub proof fn lemma_elapsed_round_trip(d: Elapsed)
    requires
        d.wf(),
    ensures
        elapsed_of_json(elapsed_json(d)) == Some(d),
        elapsed_json(d).is_record(),
{
    lemma_keys_differ();
}

/// The JSON of a state is nested at most two objects deep.
pub proof fn lemma_state_json_shallow(s: StateView)
    ensures
        state_json(s).is_shallow(),
{
    lemma_keys_differ();
    let m = state_json(s)->Object_0;
    assert forall|k: Seq<char>| m.contains_key(k) implies ((#[trigger] m[k]).is_scalar()
        || m[k].is_record()) by {
        match s {
            StateView::DownloadingInProgress { started_at } => {
                assert(timestamp_json(started_at).is_record());
            },
            StateView::ProcessingInProgress { started_at, .. } => {
                assert(timestamp_json(started_at).is_record());
            },
            StateView::IndexingInProgress { started_at, .. } => {
                assert(timestamp_json(started_at).is_record());
            },
            StateView::Downloaded { duration, .. } => {
                assert(elapsed_json(duration).is_record());
            },
            StateView::Processed { duration, .. } => {
                assert(elapsed_json(duration).is_record());
            },
            StateView::Indexed { duration } => {
                assert(elapsed_json(duration).is_record());
            },
            _ => {},
        }
    }
}

/// Reading the JSON of a well-formed state gives that state back, whatever
/// its variant and whatever its fields hold.
pub proof fn lemma_state_round_trip(s: StateView)
    requires
        s.wf(),
    ensures
        state_of_json(state_json(s)) == Some(s),
{
    lemma_keys_differ();
    lemma_tags_differ();
    let m = state_json(s)->Object_0;
    assert(text_member(m, "type"@) == Some(s.name()));
    match s {
        StateView::DownloadingInProgress { started_at } => {
            lemma_timestamp_round_trip(started_at);
        },
        StateView::ProcessingInProgress { started_at, .. } => {
            lemma_timestamp_round_trip(started_at);
        },
        StateView::IndexingInProgress { started_at, .. } => {
            lemma_timestamp_round_trip(started_at);
        },
        StateView::Downloaded { duration, .. } => {
            lemma_elapsed_round_trip(duration);
        },
        StateView::Processed { duration, .. } => {
            lemma_elapsed_round_trip(duration);
        },
        StateView::Indexed { duration } => {
            lemma_elapsed_round_trip(duration);
        },
        _ => {},
    }
}

/// Builds the JSON of an instant.
fn timestamp_value(t: Timestamp) -> (v: serde_json::Value)
    ensures
        json_value(v) == timestamp_json(t),
{
    let mut m = object_new();
    object_insert(&mut m, "secs_since_epoch", value_of_u64(t.secs_since_epoch));
    object_insert(&mut m, "nanos_since_epoch", value_of_u64(t.nanos_since_epoch as u64));
    value_of_object(m)
}

/// Builds the JSON of an interval.
fn elapsed_value(d: Elapsed) -> (v: serde_json::Value)
    ensures
        json_value(v) == elapsed_json(d),
{
    let mut m = object_new();
    object_insert(&mut m, "secs", value_of_u64(d.secs));
    object_insert(&mut m, "nanos", value_of_u64(d.nanos as u64));
    value_of_object(m)
}

/// Reads the whole number under `key`, where it is at most `max`.
fn read_natural(m: &serde_json::Map<String, serde_json::Value>, key: &str, max: u64) -> (r:
    Option<u64>)
    ensures
        match r {
            Some(n) => natural_member(json_entries(*m), key@, max as int) == Some(n as int),
            None => natural_member(json_entries(*m), key@, max as int) is None,
        },
{
    match object_get(m, key) {
        Some(v) => match value_as_u64(v) {
            Some(n) => if n <= max {
                Some(n)
            } else {
                None
            },
            None => None,
        },
        None => None,
    }
}

/// Reads the string under `key`.
fn read_text(m: &serde_json::Map<String, serde_json::Value>, key: &str) -> (r: Option<String>)
    ensures
        match r {
            Some(t) => text_member(json_entries(*m), key@) == Some(t@),
            None => text_member(json_entries(*m), key@) is None,
        },
{
    match object_get(m, key) {
        Some(v) => match value_as_str(v) {
            Some(t) => Some(String::from_str(t)),
            None => None,
        },
        None => None,
    }
}

/// Reads the instant under `key`.
fn read_timestamp(m: &serde_json::Map<String, serde_json::Value>, key: &str) -> (r: Option<
    Timestamp,
>)
    ensures
        r == timestamp_member(json_entries(*m), key@),
        r matches Some(t) ==> t.wf(),
{
    match object_get(m, key) {
        Some(v) => match value_as_object(v) {
            Some(inner) => {
                let secs = read_natural(inner, "secs_since_epoch", u64::MAX);
                let nanos = read_natural(inner, "nanos_since_epoch", 4294967295);
                match (secs, nanos) {
                    (Some(s), Some(n)) => match carry(s, n as u32) {
                        Some((cs, cn)) => Some(
                            Timestamp { secs_since_epoch: cs, nanos_since_epoch: cn },
                        ),
                        None => None,
                    },
                    _ => None,
                }
            },
            None => None,
        },
        None => None,
    }
}

/// Reads the interval under `key`.
fn read_elapsed(m: &serde_json::Map<String, serde_json::Value>, key: &str) -> (r: Option<Elapsed>)
    ensures
        r == elapsed_member(json_entries(*m), key@),
        r matches Some(d) ==> d.wf(),
{
    match object_get(m, key) {
        Some(v) => match value_as_object(v) {
            Some(inner) => {
                let secs = read_natural(inner, "secs", u64::MAX);
                let nanos = read_natural(inner, "nanos", 4294967295);
                match (secs, nanos) {
                    (Some(s), Some(n)) => match carry(s, n as u32) {
                        Some((cs, cn)) => Some(Elapsed { secs: cs, nanos: cn }),
                        None => None,
                    },
                    _ => None,
                }
            },
            None => None,
        },
        None => None,
    }
}

/// Starts an object with the tag `name`.
fn tagged_object(name: &str) -> (m: serde_json::Map<String, serde_json::Value>)
    ensures
        json_entries(m) == tagged(name@),
{
    let mut m = object_new();
    object_insert(&mut m, "type", value_of_str(name));
    m
}

/// Reads the state with the tag `tag` from the members `m`.
fn read_state(tag: &str, m: &serde_json::Map<String, serde_json::Value>) -> (r: Option<State>)
    ensures
        match r {
            Some(s) => state_of_members(tag@, json_entries(*m)) == Some(s@) && s@.wf(),
            None => state_of_members(tag@, json_entries(*m)) is None,
        },
{
    if same_text(tag, "NotAvailable") {
        Some(State::NotAvailable)
    } else if same_text(tag, "DownloadingInProgress") {
        match read_timestamp(m, "started_at") {
            Some(started_at) => Some(State::DownloadingInProgress { started_at }),
            None => None,
        }
    } else if same_text(tag, "DownloadingError") {
        match read_text(m, "details") {
            Some(details) => Some(State::DownloadingError { details }),
            None => None,
        }
    } else if same_text(tag, "Downloaded") {
        match (read_text(m, "file_path"), read_elapsed(m, "duration")) {
            (Some(file_path), Some(duration)) => Some(State::Downloaded { file_path, duration }),
            _ => None,
        }
    } else if same_text(tag, "ProcessingInProgress") {
        match (read_text(m, "file_path"), read_timestamp(m, "started_at")) {
            (Some(file_path), Some(started_at)) => Some(
                State::ProcessingInProgress { file_path, started_at },
            ),
            _ => None,
        }
    } else if same_text(tag, "ProcessingError") {
        match read_text(m, "details") {
            Some(details) => Some(State::ProcessingError { details }),
            None => None,
        }
    } else if same_text(tag, "Processed") {
        match (read_text(m, "file_path"), read_elapsed(m, "duration")) {
            (Some(file_path), Some(duration)) => Some(State::Processed { file_path, duration }),
            _ => None,
        }
    } else if same_text(tag, "IndexingInProgress") {
        match (read_text(m, "file_path"), read_timestamp(m, "started_at")) {
            (Some(file_path), Some(started_at)) => Some(
                State::IndexingInProgress { file_path, started_at },
            ),
            _ => None,
        }
    } else if same_text(tag, "IndexingError") {
        match read_text(m, "details") {
            Some(details) => Some(State::IndexingError { details }),
            None => None,
        }
    } else if same_text(tag, "Indexed") {
        match read_elapsed(m, "duration") {
            Some(duration) => Some(State::Indexed { duration }),
            None => None,
        }
    } else if same_text(tag, "ValidationInProgress") {
        Some(State::ValidationInProgress)
    } else if same_text(tag, "ValidationError") {
        match read_text(m, "details") {
            Some(details) => Some(State::ValidationError { details }),
            None => None,
        }
    } else if same_text(tag, "Available") {
        Some(State::Available)
    } else if same_text(tag, "Failure") {
        match read_text(m, "message") {
            Some(message) => Some(State::Failure { message }),
            None => None,
        }
    } else {
        None
    }
}

impl State {
    /// The state as a JSON value: an object with the variant's name under
    /// `type` and the variant's fields under their own names.
    pub fn to_value(&self) -> (v: serde_json::Value)
        ensures
            json_value(v) == state_json(self@),
    {
        let mut m = tagged_object(self.name());
        match self {
            State::NotAvailable => {},
            State::DownloadingInProgress { started_at } => {
                object_insert(&mut m, "started_at", timestamp_value(*started_at));
            },
            State::DownloadingError { details } => {
                object_insert(&mut m, "details", value_of_str(details.as_str()));
            },
            State::Downloaded { file_path, duration } => {
                object_insert(&mut m, "file_path", value_of_str(file_path.as_str()));
                object_insert(&mut m, "duration", elapsed_value(*duration));
            },
            State::ProcessingInProgress { file_path, started_at } => {
                object_insert(&mut m, "file_path", value_of_str(file_path.as_str()));
                object_insert(&mut m, "started_at", timestamp_value(*started_at));
            },
            State::ProcessingError { details } => {
                object_insert(&mut m, "details", value_of_str(details.as_str()));
            },
            State::Processed { file_path, duration } => {
                object_insert(&mut m, "file_path", value_of_str(file_path.as_str()));
                object_insert(&mut m, "duration", elapsed_value(*duration));
            },
            State::IndexingInProgress { file_path, started_at } => {
                object_insert(&mut m, "file_path", value_of_str(file_path.as_str()));
                object_insert(&mut m, "started_at", timestamp_value(*started_at));
            },
            State::IndexingError { details } => {
                object_insert(&mut m, "details", value_of_str(details.as_str()));
            },
            State::Indexed { duration } => {
                object_insert(&mut m, "duration", elapsed_value(*duration));
            },
            State::ValidationInProgress => {},
            State::ValidationError { details } => {
                object_insert(&mut m, "details", value_of_str(details.as_str()));
            },
            State::Available => {},
            State::Failure { message } => {
                object_insert(&mut m, "message", value_of_str(message.as_str()));
            },
        }
        value_of_object(m)
    }

    /// The state that a JSON value writes, if it writes one. The instants
    /// and intervals of the state that comes back are well formed.
    pub fn from_value(v: &serde_json::Value) -> (r: Option<State>)
        ensures
            match r {
                Some(s) => state_of_json(json_value(*v)) == Some(s@) && s@.wf(),
                None => state_of_json(json_value(*v)) is None,
            },
    {
        match value_as_object(v) {
            Some(m) => match read_text(m, "type") {
                Some(tag) => read_state(tag.as_str(), m),
                None => None,
            },
            None => None,
        }
    }

    /// The state as JSON text.
    ///
    /// A text always comes back. It is JSON for this state, so that reading
    /// it gives the state back where the state is well formed.
    pub fn serialize(&self) -> (r: Result<String, Error>)
        ensures
            r matches Ok(text) && json_of_text(text@) == Some(state_json(self@)) && (self@.wf()
                ==> state_of_text(text@) == Some(self@)),
    {
        let v = self.to_value();
        proof {
            lemma_state_json_shallow(self@);
            if self@.wf() {
                lemma_state_round_trip(self@);
            }
        }
        match value_to_text(&v) {
            Ok(text) => Ok(text),
            Err(source) => Err(
                Error::SerdeJSONError {
                    details: String::from_str("Could not serialize state"),
                    source,
                },
            ),
        }
    }

    /// Reads a state from JSON text.
    ///
    /// Succeeds exactly on the texts that are JSON for a state, with that
    /// state; any other text is a serialization error.
    pub fn deserialize(text: &str) -> (r: Result<State, Error>)
        ensures
            match r {
                Ok(s) => state_of_text(text@) == Some(s@) && s@.wf(),
                Err(e) => state_of_text(text@) is None && e@.kind == ErrorKind::SerdeJSON
                    && e@.details == "Could not deserialize state"@,
            },
    {
        match value_of_text(text) {
            Ok(v) => match State::from_value(&v) {
                Some(s) => Ok(s),
                None => Err(
                    Error::SerdeJSONError {
                        details: String::from_str("Could not deserialize state"),
                        source: String::from_str("the value is no state"),
                    },
                ),
            },
            Err(source) => Err(
                Error::SerdeJSONError {
                    details: String::from_str("Could not deserialize state"),
                    source,
                },
            ),
        }
    }
}

} // verus!
