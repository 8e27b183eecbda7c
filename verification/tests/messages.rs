use ctl2mimir::api::gql::notification;
use ctl2mimir::api::indexes::{mirror, react, IndexStatusUpdateBody, Reaction};
use ctl2mimir::error::{Error, ErrorKind};
use ctl2mimir::fsm::{announce, State, FSM};
use ctl2mimir::settings::{Database, Elasticsearch, Service, Settings, Work, Zmq};
use ctl2mimir::time::Elapsed;

fn settings(es_host: &str) -> Settings {
    Settings {
        debug: true,
        testing: false,
        mode: String::from("development"),
        database: Database { url: String::from("sqlite://indexes.db") },
        service: Service { host: String::from("localhost"), port: 8080 },
        zmq: Zmq { host: String::from("127.0.0.1"), port: 5555, topic: String::from("state") },
        elasticsearch: Elasticsearch { host: String::from(es_host), port: 9200 },
        work: Work {
            working_dir: String::from("/tmp/work"),
            mimirsbrunn_dir: String::from("/opt/mimirsbrunn"),
            cosmogony_dir: String::from("/opt/cosmogony"),
        },
    }
}

fn frames(parts: &[&str]) -> Vec<String> {
    parts.iter().map(|p| String::from(*p)).collect()
}

const TOO_FEW: &str = "Just one item in a multipart message. That is plain wrong!";

#[test]
fn a_message_always_comes_back() {
    let long = "x".repeat(100_000);
    let odd = String::from("\u{0}\u{1f}\"\\/\u{7f}\u{2028}\u{10ffff}");
    for state in [
        State::NotAvailable,
        State::DownloadingError { details: long.clone() },
        State::Failure { message: odd.clone() },
        State::Downloaded {
            file_path: odd,
            duration: Elapsed { secs: u64::MAX, nanos: u32::MAX },
        },
    ] {
        assert!(state.serialize().is_ok());
        let m = announce(&long, i32::MIN, &state).unwrap();
        assert_eq!(m.len(), 3);
        assert_eq!(m[0], long);
        assert_eq!(m[2], state.serialize().unwrap());
    }
}

#[test]
fn a_message_has_three_frames() {
    let state = State::Indexed { duration: Elapsed { secs: 4, nanos: 5 } };
    let m = announce("state", 42, &state).unwrap();
    assert_eq!(m.len(), 3);
    assert_eq!(m[0], "state");
    assert_eq!(m[1], "42");
    assert_eq!(State::deserialize(&m[2]).unwrap(), state);
    let m = announce("other topic", -7, &State::NotAvailable).unwrap();
    assert_eq!(m, frames(&["other topic", "-7", "{\"type\":\"NotAvailable\"}"]));
    let m = announce("", i32::MIN, &State::Available).unwrap();
    assert_eq!(m[1], "-2147483648");
}

#[test]
fn a_new_machine_is_at_its_start() {
    let s = settings("localhost");
    let fsm = FSM::new(
        3,
        String::from("admins"),
        String::from("osm"),
        String::from("andorra"),
        &s,
        String::from("state"),
    )
    .unwrap();
    assert_eq!(fsm.id, 3);
    assert_eq!(fsm.state, State::NotAvailable);
    assert!(fsm.events.is_empty());
    assert_eq!(fsm.working_dir, "/tmp/work");
    assert_eq!(fsm.mimirs_dir, "/opt/mimirsbrunn");
    assert_eq!(fsm.cosmogony_dir, "/opt/cosmogony");
    assert_eq!(fsm.index_type, "admins");
    assert_eq!(fsm.data_source, "osm");
    assert_eq!(fsm.region, "andorra");
    assert_eq!(fsm.topic, "state");
    assert_eq!(fsm.es.as_str(), "http://localhost:9200/");
    assert_eq!(fsm.es.port(), Some(9200));
    assert_eq!(fsm.elasticsearch(), "http://localhost:9200/");
    assert_eq!(fsm.message().unwrap(), frames(&["state", "3", "{\"type\":\"NotAvailable\"}"]));
}

#[test]
fn with_url_keeps_the_address_it_is_given() {
    let s = settings("ignored");
    let es = url::Url::parse("https://search.example.org:9243/base").unwrap();
    let fsm = FSM::with_url(
        9,
        String::from("streets"),
        String::from("bano"),
        String::from("fr"),
        &s,
        String::from("t"),
        es.clone(),
    );
    assert_eq!(fsm.es, es);
    assert_eq!(fsm.elasticsearch(), "https://search.example.org:9243/base");
    assert_eq!(fsm.id, 9);
    assert_eq!(fsm.state, State::NotAvailable);
    assert!(fsm.events.is_empty());
    assert_eq!(fsm.data_source, "bano");
}

#[test]
fn an_address_that_is_no_url_is_refused() {
    let s = settings("not a host");
    let r = FSM::new(
        3,
        String::from("admins"),
        String::from("osm"),
        String::from("andorra"),
        &s,
        String::from("state"),
    );
    match r {
        Err(Error::URLError { details, source }) => {
            assert_eq!(details, "Could not parse elasticsearch URL 'http://not a host:9200'");
            assert!(!source.is_empty());
        }
        Err(other) => panic!("expected a URL error, got {:?}", other),
        Ok(_) => panic!("expected a URL error"),
    }
}

#[test]
fn a_notification_is_the_key_and_the_status() {
    let r = notification(&frames(&["state", "17", "{\"type\":\"Available\"}"])).unwrap();
    assert_eq!(r, IndexStatusUpdateBody { id: 17, status: String::from("{\"type\":\"Available\"}") });
    let r = notification(&frames(&["state", "-3", "not a state", "more"])).unwrap();
    assert_eq!(r, IndexStatusUpdateBody { id: -3, status: String::from("not a state") });
    let r = notification(&frames(&["state", "+2147483647", ""])).unwrap();
    assert_eq!(r.id, i32::MAX);
    let r = notification(&frames(&["state", "007", ""])).unwrap();
    assert_eq!(r.id, 7);
}

#[test]
fn a_notification_with_too_few_frames_is_refused() {
    for m in [frames(&[]), frames(&["state"]), frames(&["state", "17"])] {
        match notification(&m) {
            Err(Error::MiscError { details }) => assert_eq!(details, TOO_FEW),
            other => panic!("expected a misc error, got {:?}", other),
        }
    }
}

#[test]
fn the_cause_says_why_a_key_is_none() {
    for (key, why) in [
        ("", "cannot parse integer from empty string"),
        ("x", "invalid digit found in string"),
        ("2147483648", "number too large to fit in target type"),
        ("-2147483649", "number too small to fit in target type"),
    ] {
        match notification(&frames(&["state", key, "{}"])) {
            Err(e) => assert_eq!(
                e.message(),
                format!("Parse Int Error: Could not get id => {}", why)
            ),
            Ok(body) => panic!("expected an integer error, got {:?}", body),
        }
    }
}

#[test]
fn a_notification_without_a_key_is_refused() {
    for key in ["", "x", "1 ", " 1", "1.0", "2147483648", "-2147483649", "-", "+", "0x10"] {
        for m in [frames(&["state", key]), frames(&["state", key, "{}"])] {
            match notification(&m) {
                Err(e) => {
                    assert_eq!(e.kind(), ErrorKind::ParseInt);
                    match e {
                        Error::ParseIntError { details, source } => {
                            assert_eq!(details, "Could not get id");
                            assert_eq!(source, key.parse::<i32>().unwrap_err().to_string());
                        }
                        other => panic!("expected an integer error, got {:?}", other),
                    }
                }
                Ok(body) => panic!("expected an integer error, got {:?}", body),
            }
        }
    }
}

#[test]
fn the_listener_writes_states_of_its_own_index() {
    let status = "{\"type\":\"ValidationInProgress\"}";
    assert_eq!(
        react(5, &frames(&["state", "5", status])),
        Ok(Reaction::Write { status: String::from(status) })
    );
    assert_eq!(react(5, &frames(&["state", "6", status])), Ok(Reaction::Skip));
    assert_eq!(react(5, &frames(&["state", "05", status])), Ok(Reaction::Skip));
    assert_eq!(react(5, &frames(&["state", "5", "{\"type\":\"Nope\"}"])), Ok(Reaction::Skip));
    assert_eq!(react(5, &frames(&["state", "5", "garbage"])), Ok(Reaction::Skip));
    assert_eq!(
        react(-5, &frames(&["any topic", "-5", status, "and more"])),
        Ok(Reaction::Write { status: String::from(status) })
    );
}

#[test]
fn the_listener_writes_the_status_as_it_came() {
    let status = " { \"type\" : \"IndexingError\", \"details\" : \"x\", \"more\" : null } ";
    assert_eq!(
        react(1, &frames(&["state", "1", status])),
        Ok(Reaction::Write { status: String::from(status) })
    );
}

#[test]
fn the_listener_is_done_after_available_and_not_available() {
    for status in ["{\"type\":\"Available\"}", "{\"type\":\"NotAvailable\"}"] {
        assert_eq!(
            react(5, &frames(&["state", "5", status])),
            Ok(Reaction::WriteAndStop { status: String::from(status) })
        );
    }
    let failure = "{\"type\":\"Failure\",\"message\":\"m\"}";
    assert_eq!(
        react(5, &frames(&["state", "5", failure])),
        Ok(Reaction::Write { status: String::from(failure) })
    );
}

#[test]
fn the_listener_refuses_a_message_with_too_few_frames() {
    for m in [frames(&[]), frames(&["state"]), frames(&["state", "5"])] {
        match react(5, &m) {
            Err(Error::MiscError { details }) => assert_eq!(details, TOO_FEW),
            other => panic!("expected a misc error, got {:?}", other),
        }
    }
}

#[test]
fn mirror_writes_until_the_run_is_over() {
    let a = "{\"type\":\"ValidationInProgress\"}";
    let b = "{\"type\":\"Available\"}";
    let c = "{\"type\":\"Failure\",\"message\":\"late\"}";
    let messages = vec![
        frames(&["state", "1", a]),
        frames(&["state", "2", b]),
        frames(&["state", "1", "junk"]),
        frames(&["state", "1", b]),
        frames(&["state", "1", c]),
    ];
    assert_eq!(mirror(1, &messages), frames(&[a, b]));
    assert_eq!(mirror(2, &messages), frames(&[b]));
    assert_eq!(mirror(3, &messages), Vec::<String>::new());
    assert_eq!(mirror(1, &Vec::new()), Vec::<String>::new());
}

#[test]
fn mirror_stops_at_a_message_with_too_few_frames() {
    let a = "{\"type\":\"ValidationInProgress\"}";
    let messages = vec![
        frames(&["state", "1", a]),
        frames(&["state", "1"]),
        frames(&["state", "1", a]),
    ];
    assert_eq!(mirror(1, &messages), frames(&[a]));
}
