use ledger_core::dburl::extract_dbname;
use ledger_core::dburl::extract_host;
use ledger_core::dburl::extract_password;
use ledger_core::dburl::extract_port;
use ledger_core::dburl::extract_user;
use ledger_core::dburl::parse_u16;

#[test]
fn connection_string_fields_are_read() {
    let url = "postgres://alice:pw@dbhost:6543/ledger";
    assert_eq!(extract_host(url), "dbhost");
    assert_eq!(extract_user(url), "alice");
    assert_eq!(extract_password(url), "pw");
    assert_eq!(extract_port(url), 6543);
    assert_eq!(extract_dbname(url), "ledger");
}

#[test]
fn malformed_connection_strings_fall_back() {
    let url = "nonsense";
    assert_eq!(extract_host(url), "localhost");
    assert_eq!(extract_user(url), "postgres");
    assert_eq!(extract_password(url), "");
    assert_eq!(extract_port(url), 5432);
    assert_eq!(extract_dbname(url), "postgres");
    // A host without a port keeps the default port too.
    assert_eq!(extract_port("postgres://u:p@justhost/db"), 5432);
    // An unreadable port falls back as well.
    assert_eq!(extract_port("postgres://u:p@h:99999/db"), 5432);
    assert_eq!(extract_port("postgres://u:p@h:12x/db"), 5432);
}

#[test]
fn port_parsing_matches_the_standard_parser() {
    for s in ["0", "1", "80", "6543", "65535", "+65535", "65536", "99999", "", "+", "-1", "1 ",
        " 1", "007", "abc", "1a"]
    {
        assert_eq!(parse_u16(s), s.parse::<u16>().ok(), "case: {:?}", s);
    }
}
