use skullboard::command::interpret_command;
use skullboard::config::Config;
use skullboard::config::DEFAULT_THRESHOLD;
use skullboard::numfmt::format_u64;
use skullboard::numfmt::parse_u64;

#[test]
fn fresh_configuration() {
    let cfg = Config::new();
    assert_eq!(cfg.threshold, 4);
    assert_eq!(cfg.threshold, DEFAULT_THRESHOLD);
    assert_eq!(cfg.board_channel, None);
}

#[test]
fn setskull_by_administrator_sets_threshold() {
    let mut cfg = Config::new();
    let reply = interpret_command("!setskull 10", true, 42, &mut cfg);
    assert_eq!(reply.as_deref(), Some("Skull count set!"));
    assert_eq!(cfg.threshold, 10);
    assert_eq!(cfg.board_channel, None);
}

#[test]
fn setskull_by_non_administrator_is_ignored() {
    let mut cfg = Config::new();
    let reply = interpret_command("!setskull 10", false, 42, &mut cfg);
    assert_eq!(reply, None);
    assert_eq!(cfg.threshold, 4);
    assert_eq!(cfg.board_channel, None);
}

#[test]
fn setskull_with_non_numeric_argument_reports_and_keeps_threshold() {
    let mut cfg = Config::new();
    let reply = interpret_command("!setskull abc", true, 42, &mut cfg);
    assert_eq!(reply.as_deref(), Some("Invalid number!"));
    assert_eq!(cfg.threshold, 4);
}

#[test]
fn setskull_with_trailing_junk_is_invalid() {
    let mut cfg = Config::new();
    let reply = interpret_command("!setskull 5 extra", true, 42, &mut cfg);
    assert_eq!(reply.as_deref(), Some("Invalid number!"));
    assert_eq!(cfg.threshold, 4);
}

#[test]
fn setskull_without_argument_is_no_command() {
    let mut cfg = Config::new();
    let reply = interpret_command("!setskull", true, 42, &mut cfg);
    assert_eq!(reply, None);
    assert_eq!(cfg.threshold, 4);
}

#[test]
fn setchannel_by_administrator_sets_issuing_channel() {
    let mut cfg = Config::new();
    let reply = interpret_command("!setchannel", true, 42, &mut cfg);
    assert_eq!(reply.as_deref(), Some("Channel set!"));
    assert_eq!(cfg.board_channel, Some(42));
    assert_eq!(cfg.threshold, 4);
}

#[test]
fn setchannel_by_non_administrator_is_ignored() {
    let mut cfg = Config::new();
    let reply = interpret_command("!setchannel", false, 42, &mut cfg);
    assert_eq!(reply, None);
    assert_eq!(cfg.board_channel, None);
}

#[test]
fn setchannel_with_trailing_text_is_no_command() {
    let mut cfg = Config::new();
    let reply = interpret_command("!setchannel here", true, 42, &mut cfg);
    assert_eq!(reply, None);
    assert_eq!(cfg.board_channel, None);
}

#[test]
fn unrecognized_text_is_ignored() {
    let mut cfg = Config::new();
    assert_eq!(interpret_command("hello world", true, 42, &mut cfg), None);
    assert_eq!(interpret_command("", true, 42, &mut cfg), None);
    assert_eq!(interpret_command("setskull 10", true, 42, &mut cfg), None);
    assert_eq!(cfg.threshold, 4);
    assert_eq!(cfg.board_channel, None);
}

#[test]
fn parse_accepts_plain_and_signed_decimals() {
    assert_eq!(parse_u64("10"), Some(10));
    assert_eq!(parse_u64("0"), Some(0));
    assert_eq!(parse_u64("+7"), Some(7));
    assert_eq!(parse_u64("007"), Some(7));
    assert_eq!(parse_u64("18446744073709551615"), Some(u64::MAX));
}

#[test]
fn parse_rejects_malformed_and_overflowing_input() {
    assert_eq!(parse_u64(""), None);
    assert_eq!(parse_u64("+"), None);
    assert_eq!(parse_u64("abc"), None);
    assert_eq!(parse_u64("-1"), None);
    assert_eq!(parse_u64("5 "), None);
    assert_eq!(parse_u64(" 5"), None);
    assert_eq!(parse_u64("5x"), None);
    assert_eq!(parse_u64("18446744073709551616"), None);
}

#[test]
fn parse_matches_standard_parsing() {
    for s in ["10", "0", "+7", "007", "18446744073709551615", "", "+", "abc", "-1", "5 ", " 5", "5x", "18446744073709551616", "\u{3000}5"] {
        assert_eq!(parse_u64(s), s.parse::<u64>().ok(), "on {:?}", s);
    }
}

#[test]
fn formatting_renders_decimal_digits() {
    assert_eq!(format_u64(0), "0");
    assert_eq!(format_u64(7), "7");
    assert_eq!(format_u64(45), "45");
    assert_eq!(format_u64(1234567890), "1234567890");
    assert_eq!(format_u64(u64::MAX), "18446744073709551615");
}
