//! Tests for the field-level helper tables and the time normaliser.

use snazy::json::JsonVal;
use snazy::utils::{
    color_by_level, conver_ts_float_or_str, convert_pac_provider_to_fa_icon, convert_str_to_ts,
    convert_unix_ts, level_symbols,
};

#[test]
fn test_level_symbols() {
    assert_eq!(level_symbols("DEBUG"), "🐛");
    assert_eq!(level_symbols("WARNING"), "⚠️");
    assert_eq!(level_symbols("ERROR"), "🚨");
    assert_eq!(level_symbols("INFO"), "💡");
    assert_eq!(level_symbols("FATAL"), "💀");
    assert_eq!(level_symbols("UNKNOWN"), "∙");
}

#[test]
fn test_provider_icon_github() {
    assert_eq!(convert_pac_provider_to_fa_icon("github"), "\u{f09b} ");
    assert_eq!(convert_pac_provider_to_fa_icon("gitlab"), "\u{f296} ");
    assert_eq!(convert_pac_provider_to_fa_icon("bitbucket-cloud"), "\u{f171} ");
    assert_eq!(convert_pac_provider_to_fa_icon("bitbucket-server"), "\u{f171} Server");
}

#[test]
fn test_provider_icon_unknown_passes_through() {
    assert_eq!(convert_pac_provider_to_fa_icon("sourcehut"), "sourcehut");
}

#[test]
fn test_color_by_level_plain() {
    assert_eq!(color_by_level("DEBUG", false), format!("{:<19}", "DEBUG"));
    assert_eq!(color_by_level("WARNING", false), format!("{:<19}", "WARN"));
    assert_eq!(color_by_level("ERROR", false), format!("{:<18}", "ERROR"));
    assert_eq!(color_by_level("INFO", false), format!("{:<19}", "INFO"));
    assert_eq!(color_by_level("NOTICE", false), format!("{:<19}", "NOTICE"));
}

#[test]
fn test_color_by_level_colored() {
    assert_eq!(color_by_level("ERROR", true), "\u{1b}[38;5;9mERROR\u{1b}[0m");
    assert_eq!(color_by_level("INFO", true), "\u{1b}[38;5;10mINFO\u{1b}[0m ");
}

#[test]
fn test_convert_str_to_ts() {
    let t = convert_str_to_ts("2022-04-25T10:24:30.155404234Z", "%H:%M:%S").unwrap();
    assert_eq!(t, "10:24:30");
}

#[test]
fn test_convert_str_to_ts_deterministic() {
    let a = convert_str_to_ts("2022-04-25T10:24:30.155404234Z", "%H:%M");
    let b = convert_str_to_ts("2022-04-25T10:24:30.155404234Z", "%H:%M");
    assert_eq!(a, b);
}

#[test]
fn test_convert_str_to_ts_malformed() {
    assert!(convert_str_to_ts("2022-04-25 10:24:30", "%H:%M").is_none());
}

#[test]
fn test_convert_unix_ts() {
    assert_eq!(convert_unix_ts(1650000000, "%H:%M:%S").unwrap(), "05:20:00");
    assert_eq!(convert_unix_ts(1650000000, "%Y-%m-%d").unwrap(), "2022-04-15");
}

#[test]
fn test_conver_ts_float_or_str() {
    let s = JsonVal::Str(String::from("2022-04-25T10:24:30.155404234Z"));
    assert_eq!(conver_ts_float_or_str(&s, "%H:%M").unwrap(), "10:24");
    let n = JsonVal::Int(1650000000);
    assert_eq!(conver_ts_float_or_str(&n, "%H:%M:%S").unwrap(), "05:20:00");
    assert!(conver_ts_float_or_str(&JsonVal::Bool(true), "%H:%M").is_none());
}
