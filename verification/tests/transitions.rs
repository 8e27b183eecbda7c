use ctl2mimir::fsm::transition::next;
use ctl2mimir::fsm::{Event, State};
use ctl2mimir::time::{Elapsed, Timestamp};

fn now() -> Timestamp {
    Timestamp { secs_since_epoch: 1_600_000_000, nanos_since_epoch: 250 }
}

fn took() -> Elapsed {
    Elapsed { secs: 12, nanos: 500 }
}

fn path() -> String {
    String::from("/tmp/andorra.osm.pbf")
}

fn all_states() -> Vec<State> {
    vec![
        State::NotAvailable,
        State::DownloadingInProgress { started_at: now() },
        State::DownloadingError { details: String::from("404") },
        State::Downloaded { file_path: path(), duration: took() },
        State::ProcessingInProgress { file_path: path(), started_at: now() },
        State::ProcessingError { details: String::from("boom") },
        State::Processed { file_path: path(), duration: took() },
        State::IndexingInProgress { file_path: path(), started_at: now() },
        State::IndexingError { details: String::from("boom") },
        State::Indexed { duration: took() },
        State::ValidationInProgress,
        State::ValidationError { details: String::from("boom") },
        State::Available,
        State::Failure { message: String::from("no") },
    ]
}

fn all_events() -> Vec<Event> {
    vec![
        Event::Download,
        Event::DownloadingError(String::from("404")),
        Event::DownloadingComplete(path(), took()),
        Event::Process(path()),
        Event::ProcessingError(String::from("boom")),
        Event::ProcessingComplete(path(), took()),
        Event::Index(path()),
        Event::IndexingError(String::from("boom")),
        Event::IndexingComplete(took()),
        Event::Validate,
        Event::ValidationError(String::from("boom")),
        Event::ValidationComplete,
        Event::Reset,
    ]
}

#[test]
fn download_starts_from_not_available() {
    let r = next(&State::NotAvailable, Event::Download, now());
    assert_eq!(r, State::DownloadingInProgress { started_at: now() });
}

#[test]
fn download_completes() {
    let s = State::DownloadingInProgress { started_at: now() };
    let r = next(&s, Event::DownloadingComplete(path(), took()), now());
    assert_eq!(r, State::Downloaded { file_path: path(), duration: took() });
}

#[test]
fn download_fails() {
    let s = State::DownloadingInProgress { started_at: now() };
    let r = next(&s, Event::DownloadingError(String::from("404")), now());
    assert_eq!(r, State::DownloadingError { details: String::from("404") });
}

#[test]
fn every_error_state_resets_to_not_available() {
    for s in [
        State::DownloadingError { details: String::from("a") },
        State::ProcessingError { details: String::from("b") },
        State::IndexingError { details: String::from("c") },
        State::ValidationError { details: String::from("d") },
    ] {
        assert_eq!(next(&s, Event::Reset, now()), State::NotAvailable);
    }
}

#[test]
fn downloaded_goes_to_processing_or_indexing() {
    let s = State::Downloaded { file_path: path(), duration: took() };
    let other = String::from("/tmp/other");
    assert_eq!(
        next(&s, Event::Process(other.clone()), now()),
        State::ProcessingInProgress { file_path: other.clone(), started_at: now() }
    );
    assert_eq!(
        next(&s, Event::Index(other.clone()), now()),
        State::IndexingInProgress { file_path: other, started_at: now() }
    );
}

#[test]
fn processing_completes_or_fails() {
    let s = State::ProcessingInProgress { file_path: path(), started_at: now() };
    let out = String::from("/tmp/cosmogony.json");
    assert_eq!(
        next(&s, Event::ProcessingComplete(out.clone(), took()), now()),
        State::Processed { file_path: out, duration: took() }
    );
    assert_eq!(
        next(&s, Event::ProcessingError(String::from("bad")), now()),
        State::ProcessingError { details: String::from("bad") }
    );
}

#[test]
fn processed_goes_to_indexing() {
    let s = State::Processed { file_path: path(), duration: took() };
    assert_eq!(
        next(&s, Event::Index(path()), now()),
        State::IndexingInProgress { file_path: path(), started_at: now() }
    );
}

#[test]
fn indexing_completes_or_fails() {
    let s = State::IndexingInProgress { file_path: path(), started_at: now() };
    assert_eq!(next(&s, Event::IndexingComplete(took()), now()), State::Indexed { duration: took() });
    assert_eq!(
        next(&s, Event::IndexingError(String::from("bad")), now()),
        State::IndexingError { details: String::from("bad") }
    );
}

#[test]
fn validation_runs_to_available_or_error() {
    let indexed = State::Indexed { duration: took() };
    assert_eq!(next(&indexed, Event::Validate, now()), State::ValidationInProgress);
    assert_eq!(
        next(&State::ValidationInProgress, Event::ValidationComplete, now()),
        State::Available
    );
    assert_eq!(
        next(&State::ValidationInProgress, Event::ValidationError(String::from("bad")), now()),
        State::ValidationError { details: String::from("bad") }
    );
}

#[test]
fn illegal_transition_yields_failure() {
    let r = next(&State::Available, Event::Download, now());
    match r {
        State::Failure { message } => {
            assert!(message.contains("Available"));
            assert!(message.contains("Download"));
            assert_eq!(message, "wrong state/event: Available/Download");
        }
        other => panic!("expected a failure, got {:?}", other),
    }
}

#[test]
fn absorbing_states_have_no_way_out() {
    for e in all_events() {
        let a = next(&State::Available, e.clone(), now());
        assert!(matches!(a, State::Failure { .. }));
        let f = next(&State::Failure { message: String::from("no") }, e, now());
        assert!(matches!(f, State::Failure { .. }));
    }
}

#[test]
fn next_is_total_and_only_seventeen_pairs_are_legal() {
    let mut legal = 0;
    let mut failures = 0;
    for s in all_states() {
        for e in all_events() {
            let r = next(&s, e.clone(), now());
            match r {
                State::Failure { message } => {
                    failures += 1;
                    assert_eq!(
                        message,
                        format!("wrong state/event: {}/{}", s.name(), e.name())
                    );
                }
                _ => legal += 1,
            }
        }
    }
    assert_eq!(legal, 17);
    assert_eq!(failures, 14 * 13 - 17);
}

#[test]
fn the_clock_is_the_callers() {
    let early = Timestamp { secs_since_epoch: 1, nanos_since_epoch: 0 };
    let late = Timestamp { secs_since_epoch: 2, nanos_since_epoch: 0 };
    assert_eq!(
        next(&State::NotAvailable, Event::Download, early),
        State::DownloadingInProgress { started_at: early }
    );
    assert_eq!(
        next(&State::NotAvailable, Event::Download, late),
        State::DownloadingInProgress { started_at: late }
    );
}

#[test]
fn names_and_absorbing_states() {
    let names: Vec<&str> = all_states().iter().map(|s| s.name()).collect();
    assert_eq!(
        names,
        vec![
            "NotAvailable",
            "DownloadingInProgress",
            "DownloadingError",
            "Downloaded",
            "ProcessingInProgress",
            "ProcessingError",
            "Processed",
            "IndexingInProgress",
            "IndexingError",
            "Indexed",
            "ValidationInProgress",
            "ValidationError",
            "Available",
            "Failure",
        ]
    );
    let absorbing: Vec<bool> = all_states().iter().map(|s| s.is_absorbing()).collect();
    assert_eq!(absorbing.iter().filter(|b| **b).count(), 2);
    assert!(State::Available.is_absorbing());
    assert!(State::Failure { message: String::new() }.is_absorbing());
    for s in all_states() {
        assert_eq!(s.duplicate(), s);
    }
}
