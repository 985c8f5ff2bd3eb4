use avinet::config::{log_filter, parse_port, resolve_port};
use avinet::text::{is_blank, is_white_space, join, starts_with};

#[test]
fn ports_are_read_as_std_reads_them() {
    for s in [
        "0", "80", "3000", "65535", "65536", "99999999999999999999", "+80", "++80", "+", "", "-1",
        "-0", "00080", "0000000000000000000000080", " 80", "80 ", "8_0", "80x", "x", "0x50",
        "\u{0661}", "6553\u{0665}", "655350",
    ] {
        assert_eq!(parse_port(s), s.parse::<u16>().ok());
    }
}

#[test]
fn port_defaults_to_three_thousand() {
    assert_eq!(resolve_port(None), 3000);
    assert_eq!(resolve_port(Some("8080")), 8080);
    assert_eq!(resolve_port(Some("+8080")), 8080);
    assert_eq!(resolve_port(Some("http")), 3000);
    assert_eq!(resolve_port(Some("70000")), 3000);
    assert_eq!(resolve_port(Some("")), 3000);
}

#[test]
fn log_filter_has_a_default() {
    assert_eq!(log_filter(None), "server=debug,tower_http=debug");
    assert_eq!(log_filter(Some("warn".to_string())), "warn");
    assert_eq!(log_filter(Some("".to_string())), "");
}

#[test]
fn white_space_is_what_std_calls_it() {
    for c in '\0'..=char::MAX {
        assert_eq!(is_white_space(c), c.is_whitespace());
    }
}

#[test]
fn blank_is_what_trims_to_nothing() {
    for s in ["", " ", "\t\r\n", " a ", "a", "\u{2003}\u{a0}", "\u{200b}", "\u{180e}", "\u{e9} "] {
        assert_eq!(is_blank(s), s.trim().is_empty());
    }
}

#[test]
fn prefixes_are_what_std_calls_them() {
    let texts = ["", "E", "Error:", "Error: x", "Errol: x", "Failed to connect: e", "\u{e9}a"];
    for s in texts {
        for p in ["", "E", "Error:", "Failed to connect", "\u{e9}"] {
            assert_eq!(starts_with(s, p), s.starts_with(p));
        }
    }
}

#[test]
fn joined_texts_follow_each_other() {
    assert_eq!(join("ab", "c"), "abc");
    assert_eq!(join("", ""), "");
}
