use sdfdesk_bridge::cli::{
    msgbox_action, parse_port_forward, password_source, port_forward_from_parts, MsgboxAction,
    PasswordSource, PortForward, PortForwardError, DEFAULT_REMOTE_HOST,
};
use sdfdesk_bridge::text::split_at_colons;

fn parts_of(text: &str) -> Vec<String> {
    split_at_colons(text)
}

fn forward(id: &str, port: i32, remote_host: &str, remote_port: i32) -> PortForward {
    PortForward {
        id: id.to_string(),
        port,
        remote_host: remote_host.to_string(),
        remote_port,
    }
}

#[test]
fn port_forward_option_names_peer_and_ports() {
    assert_eq!(parse_port_forward("123456:8080:80"), Ok(forward("123456", 8080, "localhost", 80)));
    assert_eq!(
        parse_port_forward("peer:22:2222:10.0.0.5"),
        Ok(forward("peer", 22, "10.0.0.5", 2222))
    );
    assert_eq!(
        parse_port_forward("peer:+1:-2:host:more"),
        Ok(forward("peer", 1, "host", -2))
    );
    assert_eq!(parse_port_forward(":1:2:"), Ok(forward("", 1, "", 2)));
    assert_eq!(DEFAULT_REMOTE_HOST, "localhost");
}

#[test]
fn port_forward_option_needs_three_parts() {
    assert_eq!(parse_port_forward(""), Err(PortForwardError::WrongOptions));
    assert_eq!(parse_port_forward("peer"), Err(PortForwardError::WrongOptions));
    assert_eq!(parse_port_forward("peer:80"), Err(PortForwardError::WrongOptions));
    assert_eq!(parse_port_forward("peer:x"), Err(PortForwardError::WrongOptions));
}

#[test]
fn port_forward_ports_must_be_integers() {
    assert_eq!(parse_port_forward("peer:x:80"), Err(PortForwardError::WrongLocalPort));
    assert_eq!(parse_port_forward("peer::80"), Err(PortForwardError::WrongLocalPort));
    assert_eq!(parse_port_forward("peer:x:y"), Err(PortForwardError::WrongLocalPort));
    assert_eq!(parse_port_forward("peer:2147483648:80"), Err(PortForwardError::WrongLocalPort));
    assert_eq!(parse_port_forward("peer:80:y"), Err(PortForwardError::WrongRemotePort));
    assert_eq!(parse_port_forward("peer:80: 81"), Err(PortForwardError::WrongRemotePort));
    assert_eq!(parse_port_forward("peer:80::host"), Err(PortForwardError::WrongRemotePort));
}

#[test]
fn port_forward_parts_are_read_as_given() {
    let parts = vec!["a:b".to_string(), "1".to_string(), "2".to_string()];
    assert_eq!(port_forward_from_parts(&parts), Ok(forward("a:b", 1, "localhost", 2)));
    assert_eq!(port_forward_from_parts(&vec![]), Err(PortForwardError::WrongOptions));
}

#[test]
fn password_comes_from_key_prompt_or_store() {
    assert_eq!(password_source("k", true), PasswordSource::Key);
    assert_eq!(password_source("k", false), PasswordSource::Key);
    assert_eq!(password_source("", true), PasswordSource::Prompt);
    assert_eq!(password_source("", false), PasswordSource::Stored);
}

#[test]
fn message_boxes_are_told_apart_by_their_type() {
    assert_eq!(msgbox_action("input-password"), MsgboxAction::SendPassword);
    assert_eq!(msgbox_action("re-input-password"), MsgboxAction::PromptPassword);
    assert_eq!(msgbox_action("error"), MsgboxAction::LogError);
    assert_eq!(msgbox_action("custom-error-nocancel"), MsgboxAction::LogError);
    assert_eq!(msgbox_action("Error"), MsgboxAction::LogInfo);
    assert_eq!(msgbox_action("info"), MsgboxAction::LogInfo);
    assert_eq!(msgbox_action(""), MsgboxAction::LogInfo);
    assert_eq!(msgbox_action("input-password "), MsgboxAction::LogInfo);
}

#[test]
fn text_is_taken_apart_at_every_colon() {
    assert_eq!(parts_of(""), vec![""]);
    assert_eq!(parts_of("abc"), vec!["abc"]);
    assert_eq!(parts_of(":"), vec!["", ""]);
    assert_eq!(parts_of("a:b"), vec!["a", "b"]);
    assert_eq!(parts_of("a::b:"), vec!["a", "", "b", ""]);
    assert_eq!(parts_of(":a"), vec!["", "a"]);
    assert_eq!(parts_of("\u{e9}t\u{e9}:\u{fc}"), vec!["\u{e9}t\u{e9}", "\u{fc}"]);
    for text in ["", ":", "::", "a:b:c", "peer:22:2222:10.0.0.5", " : ", "x:\u{ff1a}:y"] {
        let expected: Vec<String> = text.split(':').map(str::to_owned).collect();
        assert_eq!(parts_of(text), expected);
    }
}
