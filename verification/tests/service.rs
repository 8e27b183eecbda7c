use ctl2mimir::api::indexes::{create_index, list_indexes, IndexRequestBody};
use ctl2mimir::db::model::IndexEntity;
use ctl2mimir::error::Error;
use ctl2mimir::fsm::State;
use ctl2mimir::init::{init, Found, Preparation};
use ctl2mimir::settings::{
    port_from, Database, Elasticsearch, Service, Settings, Work, Zmq,
};

fn settings() -> Settings {
    Settings {
        debug: true,
        testing: false,
        mode: String::from("development"),
        database: Database { url: String::from("sqlite://configured.db") },
        service: Service { host: String::from("localhost"), port: 8080 },
        zmq: Zmq { host: String::from("127.0.0.1"), port: 5555, topic: String::from("state") },
        elasticsearch: Elasticsearch { host: String::from("localhost"), port: 9200 },
        work: Work {
            working_dir: String::from("/tmp/work"),
            mimirsbrunn_dir: String::from("/opt/mimirsbrunn"),
            cosmogony_dir: String::from("/opt/cosmogony"),
        },
    }
}

fn entity(id: i32, region: &str, updated_at: i64) -> IndexEntity {
    IndexEntity {
        index_id: id,
        index_type: String::from("admins"),
        data_source: String::from("osm"),
        region: String::from(region),
        status: String::from("NotAvailable"),
        created_at: 100,
        updated_at,
    }
}

#[test]
fn the_command_line_overrides_the_configuration() {
    let s = Settings::new(
        settings(),
        String::from("sqlite://from-env.db"),
        Some(String::from("0.0.0.0")),
        Some(String::from("9090")),
    )
    .unwrap();
    assert_eq!(s.service.host, "0.0.0.0");
    assert_eq!(s.service.port, 9090);
    assert_eq!(s.database.url, "sqlite://from-env.db");
    assert_eq!(s.mode, "development");
    assert!(s.debug);
    assert!(!s.testing);
    assert_eq!(s.zmq.port, 5555);
    assert_eq!(s.zmq.topic, "state");
    assert_eq!(s.elasticsearch.host, "localhost");
    assert_eq!(s.work.working_dir, "/tmp/work");
}

#[test]
fn what_the_command_line_leaves_out_stays() {
    let s = Settings::new(settings(), String::from("x"), None, None).unwrap();
    assert_eq!(s.service.host, "localhost");
    assert_eq!(s.service.port, 8080);
    assert_eq!(s.database.url, "x");
}

#[test]
fn a_port_that_is_no_port_is_refused() {
    for (port, why) in [
        ("", "cannot parse integer from empty string"),
        ("http", "invalid digit found in string"),
        ("-1", "invalid digit found in string"),
        ("65536", "number too large to fit in target type"),
        ("80 ", "invalid digit found in string"),
    ] {
        let words = format!("Could not parse into a valid port number ({})", why);
        assert_eq!(
            words,
            format!(
                "Could not parse into a valid port number ({})",
                port.parse::<u16>().unwrap_err()
            )
        );
        match Settings::new(settings(), String::from("x"), None, Some(String::from(port))) {
            Err(Error::MiscError { details }) => assert_eq!(details, words),
            other => panic!("expected a misc error, got {:?}", other),
        }
        match port_from(port) {
            Err(Error::MiscError { details }) => assert_eq!(details, words),
            other => panic!("expected a misc error, got {:?}", other),
        }
    }
}

#[test]
fn a_port_from_the_command_line() {
    assert_eq!(port_from("8080"), Ok(8080));
    assert_eq!(port_from("+443"), Ok(443));
    assert_eq!(port_from("0"), Ok(0));
    assert_eq!(port_from("65535"), Ok(65535));
}

#[test]
fn the_working_directory() {
    assert_eq!(init(&settings(), Found::Nothing), Ok(Preparation::Create));
    assert_eq!(init(&settings(), Found::Directory), Ok(Preparation::Keep));
    match init(&settings(), Found::File) {
        Err(Error::MiscError { details }) => {
            assert_eq!(details, "Working dir /tmp/work is a file")
        }
        other => panic!("expected a misc error, got {:?}", other),
    }
}

#[test]
fn all_indexes_in_the_order_of_the_store() {
    let entities = vec![entity(2, "monaco", 110), entity(1, "andorra", 120), entity(3, "x", 130)];
    let body = list_indexes(&entities);
    assert_eq!(body.indexes_count, 3);
    let seen: Vec<(i32, String, i64)> =
        body.indexes.iter().map(|i| (i.index_id, i.region.clone(), i.updated_at)).collect();
    assert_eq!(
        seen,
        vec![
            (2, String::from("monaco"), 110),
            (1, String::from("andorra"), 120),
            (3, String::from("x"), 130)
        ]
    );
    for index in &body.indexes {
        assert_eq!(index.index_type, "admins");
        assert_eq!(index.data_source, "osm");
        assert_eq!(index.status, "NotAvailable");
        assert_eq!(index.created_at, 100);
    }
    let none = list_indexes(&Vec::new());
    assert_eq!(none.indexes_count, 0);
    assert!(none.indexes.is_empty());
}

#[test]
fn a_new_index_gets_its_machine() {
    let request = IndexRequestBody {
        index_type: String::from("streets"),
        data_source: String::from("bano"),
        region: String::from("fr"),
    };
    let (body, fsm) = create_index(request, entity(7, "fr", 100), &settings()).unwrap();
    assert_eq!(body.index.index_id, 7);
    assert_eq!(body.index.region, "fr");
    assert_eq!(body.index.status, "NotAvailable");
    assert_eq!(fsm.id, 7);
    assert_eq!(fsm.state, State::NotAvailable);
    assert!(fsm.events.is_empty());
    assert_eq!(fsm.index_type, "streets");
    assert_eq!(fsm.data_source, "bano");
    assert_eq!(fsm.region, "fr");
    assert_eq!(fsm.topic, "state");
    assert_eq!(fsm.working_dir, "/tmp/work");
    assert_eq!(fsm.es.as_str(), "http://localhost:9200/");
}

#[test]
fn no_machine_without_a_search_cluster() {
    let mut s = settings();
    s.elasticsearch.host = String::from("a b");
    let request = IndexRequestBody {
        index_type: String::from("streets"),
        data_source: String::from("bano"),
        region: String::from("fr"),
    };
    match create_index(request, entity(7, "fr", 100), &s) {
        Err(Error::URLError { details, .. }) => {
            assert_eq!(details, "Could not parse elasticsearch URL 'http://a b:9200'")
        }
        Err(other) => panic!("expected a URL error, got {:?}", other),
        Ok(_) => panic!("expected a URL error"),
    }
}
