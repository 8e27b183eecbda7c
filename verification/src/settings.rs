//! The service's configuration, once it has been read.
use vstd::prelude::*;
use vstd::string::*;
use crate::error::{Error, ErrorKind};
use crate::text::{decimal, parse_decimal, read_u16, refusal_of, same_text, u64_to_string};

verus! {

/// Where state changes are published, and under which topic.
#[derive(Debug, Clone)]
pub struct Zmq {
    pub host: String,
    pub port: u16,
    pub topic: String,
}

/// Where the search cluster listens.
#[derive(Debug, Clone)]
pub struct Elasticsearch {
    pub host: String,
    pub port: u16,
}

/// Where downloads go, and where the indexing programs are found.
#[derive(Debug, Clone)]
pub struct Work {
    pub working_dir: String,
    pub mimirsbrunn_dir: String,
    pub cosmogony_dir: String,
}

/// How the store is reached.
#[derive(Debug, Clone)]
pub struct Database {
    pub url: String,
}

/// Where the API listens.
#[derive(Debug, Clone)]
pub struct Service {
    pub host: String,
    pub port: u16,
}

/// Everything the service is configured with.
#[derive(Debug, Clone)]
pub struct Settings {
    pub debug: bool,
    pub testing: bool,
    pub mode: String,
    pub database: Database,
    pub service: Service,
    pub zmq: Zmq,
    pub elasticsearch: Elasticsearch,
    pub work: Work,
}

/// The port that the text `port` writes, if it writes one: a whole number
/// from 0 to 65535 in decimal, without a minus sign.
pub open spec fn port_of(port: Seq<char>) -> Option<u16> {
    match parse_decimal(port) {
        Some(v) => if 0 <= v <= u16::MAX && port[0] != '-' {
            Some(v as u16)
        } else {
            None
        },
        None => None,
    }
}

/// What a port that is no port is refused with: the reason why the text
/// is no 16-bit number, in brackets.
pub open spec fn bad_port(port: Seq<char>) -> Seq<char> {
    "Could not parse into a valid port number ("@ + match refusal_of(
        port,
        false,
        0,
        u16::MAX as int,
    ) {
        Some(cause) => cause.words(),
        None => Seq::empty(),
    } + ")"@
}

/// Reads a port from the command line.
///
/// Returns the port exactly when the text writes one, and otherwise an
/// error that says why it writes none.
pub fn port_from(text: &str) -> (r: Result<u16, Error>)
    ensures
        match r {
            Ok(port) => port_of(text@) == Some(port),
            Err(e) => port_of(text@) is None && e@.kind == ErrorKind::Misc && e@.details
                == bad_port(text@),
        },
{
    match read_u16(text) {
        Ok(port) => Ok(port),
        Err(cause) => Err(
            Error::MiscError {
                details: String::from_str("Could not parse into a valid port number (").concat(
                    cause.message(),
                ).concat(")"),
            },
        ),
    }
}

impl Settings {
    /// The settings that the service runs with: the merged configuration
    /// `merged`, with the store's URL from the environment in place of the
    /// configured one, and with the address and the port of the command
    /// line, where they were given, in place of the configured ones.
    ///
    /// A port that is no port is refused, and nothing else is.
    pub fn new(
        merged: Settings,
        database_url: String,
        address: Option<String>,
        port: Option<String>,
    ) -> (r: Result<Settings, Error>)
        ensures
            match r {
                Ok(s) => {
                    &&& port matches Some(p) ==> port_of(p@) == Some(s.service.port)
                    &&& port is None ==> s.service.port == merged.service.port
                    &&& s.service.host@ == match address {
                        Some(a) => a@,
                        None => merged.service.host@,
                    }
                    &&& s.database.url@ == database_url@
                    &&& s.debug == merged.debug
                    &&& s.testing == merged.testing
                    &&& s.mode == merged.mode
                    &&& s.zmq == merged.zmq
                    &&& s.elasticsearch == merged.elasticsearch
                    &&& s.work == merged.work
                },
                Err(e) => {
                    &&& port matches Some(p) && port_of(p@) is None
                    &&& e@.kind == ErrorKind::Misc
                    &&& e@.details == bad_port(port->Some_0@)
                },
            },
    {
        let mut settings = merged;
        settings.database.url = database_url;
        match address {
            Some(host) => {
                settings.service.host = host;
            },
            None => {},
        }
        match port {
            Some(text) => match port_from(text.as_str()) {
                Ok(number) => {
                    settings.service.port = number;
                },
                Err(e) => {
                    return Err(e);
                },
            },
            None => {},
        }
        Ok(settings)
    }
}

/// `scheme`, then `host`, a colon and `port` in decimal.
pub open spec fn endpoint(scheme: Seq<char>, host: Seq<char>, port: u16) -> Seq<char> {
    scheme + host + ":"@ + decimal(port as int)
}

/// Writes `scheme`, then `host`, a colon and `port` in decimal.
fn make_endpoint(scheme: &str, host: &str, port: u16) -> (r: String)
    ensures
        r@ == endpoint(scheme@, host@, port),
{
    let digits = u64_to_string(port as u64);
    String::from_str(scheme).concat(host).concat(":").concat(digits.as_str())
}

impl Zmq {
    /// The TCP endpoint of the bus: `tcp://host:port`.
    pub fn endpoint(&self) -> (r: String)
        ensures
            r@ == endpoint("tcp://"@, self.host@, self.port),
    {
        make_endpoint("tcp://", self.host.as_str(), self.port)
    }
}

impl Elasticsearch {
    /// The address of the search cluster: `http://host:port`.
    pub fn endpoint(&self) -> (r: String)
        ensures
            r@ == endpoint("http://"@, self.host@, self.port),
    {
        make_endpoint("http://", self.host.as_str(), self.port)
    }
}

/// What is left of `s` once every `prefix` at its start is taken away, one
/// after the other.
pub open spec fn without_leading(s: Seq<char>, prefix: Seq<char>) -> Seq<char>
    decreases s.len(),
{
    if prefix.len() > 0 && prefix.is_prefix_of(s) {
        without_leading(s.subrange(prefix.len() as int, s.len() as int), prefix)
    } else {
        s
    }
}

/// Whether the characters of `prefix` stand in `s` from `from` on.
fn stands_at(s: &str, from: usize, prefix: &str) -> (r: bool)
    requires
        from <= s@.len(),
    ensures
        r == prefix@.is_prefix_of(s@.subrange(from as int, s@.len() as int)),
{
    let n = s.unicode_len();
    let k = prefix.unicode_len();
    if k > n - from {
        return false;
    }
    let ghost rest = s@.subrange(from as int, n as int);
    let mut i: usize = 0;
    while i < k
        invariant
            i <= k,
            k <= n - from,
            from <= n,
            n == s@.len(),
            k == prefix@.len(),
            rest == s@.subrange(from as int, n as int),
            forall|j: int| 0 <= j < i ==> prefix@[j] == rest[j],
        decreases k - i,
    {
        if s.get_char(from + i) != prefix.get_char(i) {
            assert(rest[i as int] != prefix@[i as int]);
            return false;
        }
        i = i + 1;
    }
    assert(prefix@ =~= rest.subrange(0, k as int));
    true
}

/// Takes every `prefix` away from the start of `s`.
pub fn trim_start_matches(s: &str, prefix: &str) -> (r: String)
    ensures
        r@ == without_leading(s@, prefix@),
{
    let n = s.unicode_len();
    let k = prefix.unicode_len();
    if k == 0 {
        return String::from_str(s);
    }
    let mut from: usize = 0;
    assert(s@.subrange(0, n as int) =~= s@);
    while stands_at(s, from, prefix)
        invariant
            from <= n,
            n == s@.len(),
            k == prefix@.len(),
            k > 0,
            without_leading(s@, prefix@) == without_leading(
                s@.subrange(from as int, n as int),
                prefix@,
            ),
        decreases n - from,
    {
        proof {
            let rest = s@.subrange(from as int, n as int);
            assert(rest.subrange(k as int, rest.len() as int) =~= s@.subrange(
                from + k,
                n as int,
            ));
        }
        from = from + k;
    }
    String::from_str(s.substring_char(from, n))
}

impl Database {
    /// The URL in the form the SQLite driver takes: `sqlite:` before the
    /// path, which is the configured URL without any `sqlite://` in front.
    pub fn sqlite_url(&self) -> (r: String)
        ensures
            r@ == "sqlite:"@ + without_leading(self.url@, "sqlite://"@),
    {
        let path = trim_start_matches(self.url.as_str(), "sqlite://");
        String::from_str("sqlite:").concat(path.as_str())
    }

    /// The path of the database file: the configured URL without any
    /// `sqlite://` in front.
    pub fn sqlite_path(&self) -> (r: String)
        ensures
            r@ == without_leading(self.url@, "sqlite://"@),
    {
        trim_start_matches(self.url.as_str(), "sqlite://")
    }
}

/// The profile that is merged over the defaults: the one that was asked
/// for, or `development`.
pub fn run_mode(asked: Option<String>) -> (r: String)
    ensures
        r@ == match asked {
            Some(mode) => mode@,
            None => "development"@,
        },
{
    match asked {
        Some(mode) => mode,
        None => String::from_str("development"),
    }
}

/// The environment variable that holds the store's URL under the profile
/// `mode`: tests have a store of their own.
pub fn database_url_key(mode: &str) -> (r: &'static str)
    ensures
        r@ == if mode@ == "testing"@ {
            "DATABASE_TEST_URL"@
        } else {
            "DATABASE_URL"@
        },
{
    if same_text(mode, "testing") {
        "DATABASE_TEST_URL"
    } else {
        "DATABASE_URL"
    }
}

} // verus!
