use ctl2mimir::api::indexes::{IndexRequestBody, IndexResponseBody, MultIndexesResponseBody};
use ctl2mimir::api::model::Index;
use ctl2mimir::db::model::{DbFailure, IndexEntity, ProvideError};
use ctl2mimir::db::sqlite::SqliteIndexEntity;
use ctl2mimir::error::{Error, ErrorKind, FieldError};

fn d() -> String {
    String::from("D")
}

fn s() -> String {
    String::from("S")
}

fn all_errors() -> Vec<(Error, ErrorKind, &'static str, &'static str)> {
    vec![
        (Error::MiscError { details: d() }, ErrorKind::Misc, "User Error", "Misc Error: D"),
        (
            Error::ConfigError { details: d(), source: s() },
            ErrorKind::Config,
            "Config Error",
            "Config Error: D => S",
        ),
        (
            Error::EnvError { details: d(), source: s() },
            ErrorKind::Env,
            "Environment Error",
            "Environment Variable Error: D => S",
        ),
        (
            Error::IOError { details: d(), source: s() },
            ErrorKind::IO,
            "IO Error",
            "IO Error: S",
        ),
        (
            Error::ReqwestError { details: d(), source: s() },
            ErrorKind::Reqwest,
            "Reqwest Error",
            "Reqwest Error: D S",
        ),
        (
            Error::URLError { details: d(), source: s() },
            ErrorKind::URL,
            "URL Error",
            "UrL Error: D S",
        ),
        (
            Error::TokioIOError { details: d(), source: s() },
            ErrorKind::TokioIO,
            "Tokio IO Error",
            "Tokio IO Error: S",
        ),
        (
            Error::TokioJoinError { details: d(), source: s() },
            ErrorKind::TokioJoin,
            "Tokio Join Error",
            "Tokio Task Error D: S",
        ),
        (
            Error::ZMQError { details: d(), source: s() },
            ErrorKind::ZMQ,
            "ZMQ Error",
            "ZeroMQ Error D: S",
        ),
        (
            Error::ZMQSubscribeError { details: d(), source: s() },
            ErrorKind::ZMQSubscribe,
            "ZMQ Subscribe Error",
            "ZeroMQ Subscribe Error D: S",
        ),
        (
            Error::ZMQSocketError { details: d(), source: s() },
            ErrorKind::ZMQSocket,
            "ZMQ Socket Error",
            "ZeroMQ Socket Error D: S",
        ),
        (
            Error::ZMQRecvError { details: d(), source: s() },
            ErrorKind::ZMQRecv,
            "ZMQ Receive Error",
            "ZeroMQ Receive Error D: S",
        ),
        (
            Error::ZMQSendError { details: d(), source: s() },
            ErrorKind::ZMQSend,
            "ZMQ Send Error",
            "ZeroMQ Send Error D: S",
        ),
        (
            Error::DBError { details: d(), source: s() },
            ErrorKind::DB,
            "Database Error",
            "DB Error: D => S",
        ),
        (
            Error::SerdeJSONError { details: d(), source: s() },
            ErrorKind::SerdeJSON,
            "Serde Error",
            "Serde Json Error: D => S",
        ),
        (
            Error::DBProvideError { details: d(), source: ProvideError::NotFound },
            ErrorKind::DBProvide,
            "DB Provide Error",
            "DB Provider Error: D => Entity does not exist",
        ),
        (
            Error::ParseIntError { details: d(), source: s() },
            ErrorKind::ParseInt,
            "Parse Int Error",
            "Parse Int Error: D => S",
        ),
    ]
}

#[test]
fn every_error_has_its_kind_label_and_words() {
    for (e, kind, label, words) in all_errors() {
        assert_eq!(e.kind(), kind);
        assert_eq!(e.label(), label);
        assert_eq!(e.message(), words);
    }
}

#[test]
fn errors_for_the_api() {
    for (e, _, label, words) in all_errors() {
        assert_eq!(
            e.into_field_error(),
            FieldError { message: String::from(label), internal_error: String::from(words) }
        );
    }
}

#[test]
fn store_errors_in_words() {
    assert_eq!(ProvideError::NotFound.message(), "Entity does not exist");
    assert_eq!(
        ProvideError::UniqueViolation { details: d() }.message(),
        "Operation violates uniqueness constraint: D"
    );
    assert_eq!(
        ProvideError::ModelViolation { details: d(), source: s() }.message(),
        "Operation violates model: D (S)"
    );
    assert_eq!(ProvideError::UnHandledError { source: s() }.message(), "UnHandled Error: S");
    let e = Error::DBProvideError {
        details: String::from("Could not create index"),
        source: ProvideError::UniqueViolation { details: String::from("indexes.region") },
    };
    assert_eq!(
        e.message(),
        "DB Provider Error: Could not create index => Operation violates uniqueness constraint: indexes.region"
    );
}

#[test]
fn engine_codes() {
    assert_eq!(
        ProvideError::try_from("2067", "UNIQUE constraint failed"),
        Ok(ProvideError::UniqueViolation { details: String::from("UNIQUE constraint failed") })
    );
    assert_eq!(ProvideError::try_from("1555", "UNIQUE constraint failed"), Err(()));
    assert_eq!(ProvideError::try_from("", "x"), Err(()));
    assert_eq!(ProvideError::try_from("02067", "x"), Err(()));
}

#[test]
fn driver_failures() {
    assert_eq!(ProvideError::from(DbFailure::RowNotFound), ProvideError::NotFound);
    assert_eq!(
        ProvideError::from(DbFailure::Database {
            code: String::from("2067"),
            message: String::from("UNIQUE constraint failed")
        }),
        ProvideError::UniqueViolation { details: String::from("UNIQUE constraint failed") }
    );
    assert_eq!(
        ProvideError::from(DbFailure::Database {
            code: String::from("787"),
            message: String::from("FOREIGN KEY constraint failed")
        }),
        ProvideError::UnHandledError { source: String::from("FOREIGN KEY constraint failed") }
    );
    assert_eq!(
        ProvideError::from(DbFailure::Other { text: String::from("pool timed out") }),
        ProvideError::UnHandledError { source: String::from("pool timed out") }
    );
}

fn row(id: i32) -> SqliteIndexEntity {
    SqliteIndexEntity {
        index_id: id,
        index_type: String::from("admins"),
        data_source: String::from("osm"),
        region: String::from("andorra"),
        status: String::from("NotAvailable"),
        created_at: 1_600_000_000,
        updated_at: 1_600_000_060,
    }
}

#[test]
fn records_field_for_field() {
    let entity = IndexEntity::from(row(4));
    assert_eq!(
        entity,
        IndexEntity {
            index_id: 4,
            index_type: String::from("admins"),
            data_source: String::from("osm"),
            region: String::from("andorra"),
            status: String::from("NotAvailable"),
            created_at: 1_600_000_000,
            updated_at: 1_600_000_060,
        }
    );
    let index = Index::from(entity.clone());
    assert_eq!(index.index_id, 4);
    assert_eq!(index.index_type, "admins");
    assert_eq!(index.data_source, "osm");
    assert_eq!(index.region, "andorra");
    assert_eq!(index.status, "NotAvailable");
    assert_eq!(index.created_at, 1_600_000_000);
    assert_eq!(index.updated_at, 1_600_000_060);
    let mut early = row(1);
    early.created_at = i32::MIN;
    early.updated_at = i32::MAX;
    let e = IndexEntity::from(early);
    assert_eq!(e.created_at, -2_147_483_648i64);
    assert_eq!(e.updated_at, 2_147_483_647i64);
}

#[test]
fn answers() {
    let indexes: Vec<Index> =
        (1..=3).map(|i| Index::from(IndexEntity::from(row(i)))).collect();
    let body = MultIndexesResponseBody::from(indexes.clone());
    assert_eq!(body.indexes_count, 3);
    assert_eq!(body.indexes, indexes);
    let empty = MultIndexesResponseBody::from(Vec::new());
    assert_eq!(empty.indexes_count, 0);
    assert!(empty.indexes.is_empty());
    let one = IndexResponseBody { index: indexes[0].clone() };
    assert_eq!(one.index.index_id, 1);
    let request = IndexRequestBody {
        index_type: String::from("admins"),
        data_source: String::from("osm"),
        region: String::from("andorra"),
    };
    assert_eq!(request.clone(), request);
}
