//! Tests for record extraction: the recognised shapes, the kail-style
//! prefix, the provider icons and the timestamp fields.

use snazy::parse::getinfo;

#[test]
fn test_get_line() {
    let line = r#"{"severity":"INFO","timestamp":"2022-04-25T10:24:30.155404234Z","logger":"pipelinesascode","caller":"kubeinteraction/secrets.go:114","message":"hello moto"}"#;
    let msg = getinfo(line, false, Some("%H:%M"), false).unwrap();
    assert_eq!(msg.msg.unwrap(), "hello moto");
}

#[test]
fn test_kail_prefix() {
    let line = r#"ns/pod[container]: {"severity":"INFO","timestamp":"2022-04-25T14:20:32.505637358Z","logger":"pipelinesascode","caller":"pipelineascode/status.go:59","message":"updated","provider":"github","event":"8b400490-c4a1-11ec-9219-63bc5bbc8228"}"#;
    let msg = getinfo(line, false, Some("%H:%M"), false).unwrap();
    assert!(msg.msg.as_ref().unwrap().contains("ns/pod[container]"));
    assert!(msg.msg.as_ref().unwrap().contains("updated"));
}

#[test]
fn test_kail_no_prefix() {
    let line = r#"ns/pod[container]: {"severity":"INFO","timestamp":"2022-04-25T14:20:32.505637358Z","logger":"pipelinesascode","caller":"pipelineascode/status.go:59","message":" updated","provider":"github","event":"8b400490-c4a1-11ec-9219-63bc5bbc8228"}"#;
    let msg = getinfo(line, true, Some("%H:%M"), false).unwrap();
    assert_eq!(msg.msg.unwrap(), "updated");
}

#[test]
fn test_pac_provider_icon() {
    let line = r#"ns/pod[container]: {"severity":"INFO","timestamp":"2022-04-25T14:20:32.505637358Z","logger":"pipelinesascode","caller":"pipelineascode/status.go:59","message":" github","provider":"github","event":"8b400490-c4a1-11ec-9219-63bc5bbc8228"}"#;
    let msg = getinfo(line, true, Some("%H:%M"), false).unwrap();
    assert!(msg.others.is_some());
    assert!(msg.others.unwrap().contains("\u{f09b} "));
}

#[test]
fn test_severity_uppercased() {
    let line = r#"{"severity":"info","timestamp":"2022-04-25T10:24:30.155404234Z","caller":"c","message":"m"}"#;
    let msg = getinfo(line, false, Some("%H:%M"), false).unwrap();
    assert_eq!(msg.level.unwrap(), "INFO");
}

#[test]
fn test_shape_a_timestamp_formatted() {
    let line = r#"{"severity":"INFO","timestamp":"2022-04-25T10:24:30.155404234Z","caller":"c","message":"m"}"#;
    let msg = getinfo(line, false, Some("%H:%M"), false).unwrap();
    assert_eq!(msg.ts.unwrap(), "10:24");
}

#[test]
fn test_malformed_timestamp_drops_field_only() {
    let line = r#"{"severity":"INFO","timestamp":"not-a-time","caller":"c","message":"m"}"#;
    let msg = getinfo(line, false, Some("%H:%M"), false).unwrap();
    assert!(msg.ts.is_none());
    assert_eq!(msg.msg.unwrap(), "m");
}

#[test]
fn test_shape_b_overwrites_shape_a() {
    let line = r#"{"severity":"WARNING","timestamp":"2022-04-25T10:24:30.155404234Z","caller":"c","message":"from a","level":"error","msg":"from b"}"#;
    let msg = getinfo(line, false, Some("%H:%M"), false).unwrap();
    assert_eq!(msg.level.unwrap(), "ERROR");
    assert_eq!(msg.msg.unwrap(), "from b");
}

#[test]
fn test_non_json_line_empty_mapping() {
    let msg = getinfo("not json at all", false, Some("%H:%M"), false).unwrap();
    assert!(msg.is_empty());
}

#[test]
fn test_json_without_known_shape_empty_mapping() {
    let msg = getinfo(r#"{"foo":"bar"}"#, false, Some("%H:%M"), false).unwrap();
    assert!(msg.is_empty());
}

#[test]
fn test_shape_b_numeric_ts() {
    let line = r#"{"level":"info","msg":"started","ts":1650000000}"#;
    let msg = getinfo(line, false, Some("%H:%M:%S"), false).unwrap();
    assert_eq!(msg.ts.unwrap(), "05:20:00");
    assert_eq!(msg.level.unwrap(), "INFO");
    assert_eq!(msg.msg.unwrap(), "started");
}

#[test]
fn test_shape_b_string_ts() {
    let line = r#"{"level":"debug","msg":"x","ts":"2022-04-25T10:24:30.155404234Z"}"#;
    let msg = getinfo(line, false, Some("%H:%M"), false).unwrap();
    assert_eq!(msg.ts.unwrap(), "10:24");
}
