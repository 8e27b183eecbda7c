use ctl2mimir::settings::{
    database_url_key, run_mode, trim_start_matches, Database, Elasticsearch, Zmq,
};
use ctl2mimir::text::{i32_to_string, read_i32, read_u16, same_text, u64_to_string, Refusal};

#[test]
fn numbers_in_decimal() {
    assert_eq!(u64_to_string(0), "0");
    assert_eq!(u64_to_string(9), "9");
    assert_eq!(u64_to_string(10), "10");
    assert_eq!(u64_to_string(1234567890), "1234567890");
    assert_eq!(u64_to_string(u64::MAX), "18446744073709551615");
    assert_eq!(i32_to_string(0), "0");
    assert_eq!(i32_to_string(-1), "-1");
    assert_eq!(i32_to_string(305), "305");
    assert_eq!(i32_to_string(i32::MAX), "2147483647");
    assert_eq!(i32_to_string(i32::MIN), "-2147483648");
}

#[test]
fn decimal_as_std_writes_it() {
    for n in [0i32, 1, -1, 9, 10, 99, 100, -100, 4711, i32::MAX, i32::MIN, i32::MIN + 1] {
        assert_eq!(i32_to_string(n), format!("{}", n));
    }
    for n in [0u64, 1, 10, 1 << 40, u64::MAX - 1] {
        assert_eq!(u64_to_string(n), format!("{}", n));
    }
}

#[test]
fn integers_are_read_back() {
    for n in [0i32, 1, -1, 9, 10, 99, 100, -100, 4711, i32::MAX, i32::MIN, i32::MIN + 1] {
        assert_eq!(read_i32(&i32_to_string(n)), Ok(n));
    }
}

#[test]
fn integers_as_std_reads_them() {
    for text in [
        "", "0", "-0", "+0", "00", "007", "-007", "+5", "--5", "+-5", "5-", "-", "+", " 5", "5 ",
        "1_000", "12a", "a12", "2147483647", "2147483648", "-2147483648", "-2147483649",
        "99999999999999999999999", "-99999999999999999999999", "\u{665}", "1\u{e9}",
    ] {
        assert_eq!(read_i32(text).ok(), text.parse::<i32>().ok());
        assert_eq!(read_u16(text).ok(), text.parse::<u16>().ok());
    }
}

#[test]
fn ports() {
    assert_eq!(read_u16("8080"), Ok(8080));
    assert_eq!(read_u16("0"), Ok(0));
    assert_eq!(read_u16("65535"), Ok(65535));
    assert_eq!(read_u16("65536"), Err(Refusal::PosOverflow));
    assert_eq!(read_u16("+80"), Ok(80));
    assert_eq!(read_u16("-80"), Err(Refusal::InvalidDigit));
    assert_eq!(read_u16("-0"), Err(Refusal::InvalidDigit));
    assert_eq!(read_u16("http"), Err(Refusal::InvalidDigit));
    assert_eq!(read_u16(""), Err(Refusal::Empty));
}

#[test]
fn texts_are_compared_character_for_character() {
    assert!(same_text("", ""));
    assert!(same_text("osm", "osm"));
    assert!(!same_text("osm", "OSM"));
    assert!(!same_text("osm", "osm "));
    assert!(same_text("\u{e9}t\u{e9}", "\u{e9}t\u{e9}"));
}

#[test]
fn endpoints() {
    let zmq = Zmq { host: String::from("127.0.0.1"), port: 5555, topic: String::from("state") };
    assert_eq!(zmq.endpoint(), "tcp://127.0.0.1:5555");
    let es = Elasticsearch { host: String::from("search.local"), port: 9200 };
    assert_eq!(es.endpoint(), "http://search.local:9200");
    let es = Elasticsearch { host: String::new(), port: 0 };
    assert_eq!(es.endpoint(), "http://:0");
    let es = Elasticsearch { host: String::from("h"), port: u16::MAX };
    assert_eq!(es.endpoint(), "http://h:65535");
}

#[test]
fn leading_prefixes_are_taken_away() {
    assert_eq!(trim_start_matches("sqlite://a.db", "sqlite://"), "a.db");
    assert_eq!(trim_start_matches("sqlite://sqlite://a.db", "sqlite://"), "a.db");
    assert_eq!(trim_start_matches("a.db", "sqlite://"), "a.db");
    assert_eq!(trim_start_matches("a.sqlite://db", "sqlite://"), "a.sqlite://db");
    assert_eq!(trim_start_matches("sqlite://", "sqlite://"), "");
    assert_eq!(trim_start_matches("sqlite:/", "sqlite://"), "sqlite:/");
    assert_eq!(trim_start_matches("", "sqlite://"), "");
    assert_eq!(trim_start_matches("abc", ""), "abc");
    assert_eq!(trim_start_matches("aaab", "a"), "b");
    assert_eq!(trim_start_matches("\u{e9}\u{e9}x\u{e9}", "\u{e9}"), "x\u{e9}");
    for (s, p) in [("sqlite://x", "sqlite://"), ("xxxy", "x"), ("abab", "ab"), ("ab", "abc")] {
        assert_eq!(trim_start_matches(s, p), s.trim_start_matches(p));
    }
}

#[test]
fn the_store_url_for_sqlite() {
    let db = Database { url: String::from("sqlite://indexes.db") };
    assert_eq!(db.sqlite_url(), "sqlite:indexes.db");
    assert_eq!(db.sqlite_path(), "indexes.db");
    let db = Database { url: String::from("/var/lib/indexes.db") };
    assert_eq!(db.sqlite_url(), "sqlite:/var/lib/indexes.db");
    assert_eq!(db.sqlite_path(), "/var/lib/indexes.db");
}

#[test]
fn profiles() {
    assert_eq!(run_mode(None), "development");
    assert_eq!(run_mode(Some(String::from("production"))), "production");
    assert_eq!(run_mode(Some(String::new())), "");
    assert_eq!(database_url_key("testing"), "DATABASE_TEST_URL");
    assert_eq!(database_url_key("development"), "DATABASE_URL");
    assert_eq!(database_url_key("production"), "DATABASE_URL");
    assert_eq!(database_url_key("Testing"), "DATABASE_URL");
    assert_eq!(database_url_key(""), "DATABASE_URL");
}

#[test]
fn refusals_in_words() {
    assert_eq!(Refusal::Empty.message(), "cannot parse integer from empty string");
    assert_eq!(Refusal::InvalidDigit.message(), "invalid digit found in string");
    assert_eq!(Refusal::PosOverflow.message(), "number too large to fit in target type");
    assert_eq!(Refusal::NegOverflow.message(), "number too small to fit in target type");
}

#[test]
fn why_a_text_is_no_integer() {
    assert_eq!(read_i32(""), Err(Refusal::Empty));
    assert_eq!(read_i32("-"), Err(Refusal::InvalidDigit));
    assert_eq!(read_i32("+"), Err(Refusal::InvalidDigit));
    assert_eq!(read_i32("12a"), Err(Refusal::InvalidDigit));
    assert_eq!(read_i32("2147483648"), Err(Refusal::PosOverflow));
    assert_eq!(read_i32("-2147483649"), Err(Refusal::NegOverflow));
    assert_eq!(read_i32("-2147483648"), Ok(i32::MIN));
    // What stops the reading first decides.
    assert_eq!(read_i32("99999999999x"), Err(Refusal::PosOverflow));
    assert_eq!(read_i32("999999999x"), Err(Refusal::InvalidDigit));
    assert_eq!(read_i32("-99999999999x"), Err(Refusal::NegOverflow));
    assert_eq!(read_i32("2147483647x"), Err(Refusal::InvalidDigit));
    assert_eq!(read_i32("2147483647x0"), Err(Refusal::InvalidDigit));
    assert_eq!(read_i32("21474836480x"), Err(Refusal::PosOverflow));
    assert_eq!(read_i32("214748364x"), Err(Refusal::InvalidDigit));
    assert_eq!(read_u16("6553x"), Err(Refusal::InvalidDigit));
    assert_eq!(read_u16("65535x"), Err(Refusal::InvalidDigit));
    assert_eq!(read_u16("65536x"), Err(Refusal::PosOverflow));
    assert_eq!(read_u16("00000000000000000000x"), Err(Refusal::InvalidDigit));
}

#[test]
fn refusals_as_std_words_them() {
    for text in [
        "", "0", "-0", "+0", "00", "007", "-007", "+5", "--5", "+-5", "5-", "-", "+", " 5", "5 ",
        "1_000", "12a", "a12", "2147483647", "2147483648", "-2147483648", "-2147483649",
        "99999999999999999999999", "-99999999999999999999999", "\u{665}", "1\u{e9}",
        "99999999999x", "999999999x", "-99999999999x", "2147483647x", "214748364x", "6553x",
        "65535x", "65536", "655350", "65536x", "2147483647x0", "21474836480x", "-21474836480x", "00000000000000000000x", "000000000000000000001",
        "-000000000000000000001", "+65535", "+65536", "x99999999999", "-x",
    ] {
        assert_eq!(
            read_i32(text).map_err(|c| String::from(c.message())),
            text.parse::<i32>().map_err(|e| e.to_string())
        );
        assert_eq!(
            read_u16(text).map_err(|c| String::from(c.message())),
            text.parse::<u16>().map_err(|e| e.to_string())
        );
    }
}
