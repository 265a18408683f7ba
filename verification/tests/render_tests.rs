//! Tests for the renderer and the per-line driver step: filtering, colour
//! on and off, highlighting, and the concrete end-to-end scenarios.

use snazy::render::{process_line, validate_regexps, Config};

fn config() -> Config {
    Config {
        regexp: Vec::new(),
        filter_levels: Vec::new(),
        time_format: String::from("%H:%M:%S"),
        kail_no_prefix: false,
        colored_output: false,
        level_symbols: false,
    }
}

#[test]
fn test_blank_line_skipped() {
    assert!(process_line("", &config()).is_none());
    assert!(process_line("   \t  ", &config()).is_none());
}

#[test]
fn test_unstructured_line_passes_through() {
    let out = process_line("plain text, not json", &config()).unwrap();
    assert_eq!(out, "plain text, not json");
}

#[test]
fn test_level_style_scenario() {
    let out = process_line(r#"{"level":"info","msg":"started","ts":1650000000}"#, &config())
        .unwrap();
    assert!(out.contains("05:20:00"));
    assert!(out.contains("INFO"));
    assert!(out.contains("started"));
}

#[test]
fn test_info_level_column_padded() {
    let out = process_line(r#"{"severity":"INFO","timestamp":"2022-04-25T10:24:30.155404234Z","caller":"c","message":"hello"}"#, &config())
        .unwrap();
    assert!(out.starts_with(&format!("{:<19}", "INFO")));
}

#[test]
fn test_filter_suppresses_other_levels() {
    let mut c = config();
    c.filter_levels = vec![String::from("error")];
    let info = r#"{"level":"info","msg":"started","ts":1650000000}"#;
    let error = r#"{"level":"error","msg":"broke","ts":1650000000}"#;
    assert!(process_line(info, &c).is_none());
    assert!(process_line(error, &c).is_some());
}

#[test]
fn test_color_never_has_no_escape() {
    let mut c = config();
    c.regexp = vec![String::from("start")];
    let line = r#"{"level":"info","msg":"started","ts":1650000000}"#;
    let plain = process_line(line, &c).unwrap();
    assert!(!plain.contains('\u{1b}'));
    c.colored_output = true;
    let colored = process_line(line, &c).unwrap();
    assert!(colored.contains('\u{1b}'));
}

#[test]
fn test_highlight_wraps_match() {
    let mut c = config();
    c.colored_output = true;
    c.regexp = vec![String::from("start")];
    let out = process_line(r#"{"level":"info","msg":"started"}"#, &c).unwrap();
    assert!(out.contains("\u{1b}[33mstart\u{1b}[0med"));
}

#[test]
fn test_highlight_second_pattern_next_palette_colour() {
    let mut c = config();
    c.colored_output = true;
    c.regexp = vec![String::from("sta"), String::from("ted")];
    let out = process_line(r#"{"level":"info","msg":"started"}"#, &c).unwrap();
    assert!(out.contains("\u{1b}[33msta\u{1b}[0m"));
    assert!(out.contains("\u{1b}[35mted\u{1b}[0m"));
}

#[test]
fn test_prefix_round_trip() {
    let line = r#"ns/pod[container]: {"severity":"INFO","timestamp":"2022-04-25T10:24:30.155404234Z","caller":"c","message":"hello"}"#;
    let kept = process_line(line, &config()).unwrap();
    assert!(kept.contains("ns/pod[container]"));
    assert!(kept.contains("hello"));
    let mut c = config();
    c.kail_no_prefix = true;
    let stripped = process_line(line, &c).unwrap();
    assert!(stripped.contains("hello"));
    assert!(!stripped.contains("ns/pod[container]"));
}

#[test]
fn test_provider_icon_in_output() {
    let line = r#"{"severity":"INFO","timestamp":"2022-04-25T10:24:30.155404234Z","caller":"c","message":"m","provider":"github"}"#;
    let out = process_line(line, &config()).unwrap();
    assert!(out.contains("\u{f09b}"));
    let unknown = r#"{"severity":"INFO","timestamp":"2022-04-25T10:24:30.155404234Z","caller":"c","message":"m","provider":"sourcehut"}"#;
    let out2 = process_line(unknown, &config()).unwrap();
    assert!(out2.contains("sourcehut"));
}

#[test]
fn test_validate_regexps() {
    assert!(validate_regexps(&vec![String::from("foo.*"), String::from("ba+r")]).is_ok());
    assert_eq!(validate_regexps(&vec![String::from("(")]), Err(0));
    assert_eq!(validate_regexps(&vec![String::from("ok"), String::from("(")]), Err(1));
}

#[test]
fn test_warning_label_is_warn() {
    let out = process_line(r#"{"level":"warning","msg":"careful"}"#, &config()).unwrap();
    assert!(out.starts_with(&format!("{:<19}", "WARN")));
}

#[test]
fn test_multiple_filter_levels() {
    let mut c = config();
    c.filter_levels = vec![String::from("error"), String::from("warning")];
    assert!(process_line(r#"{"level":"warning","msg":"w"}"#, &c).is_some());
    assert!(process_line(r#"{"level":"debug","msg":"d"}"#, &c).is_none());
}
