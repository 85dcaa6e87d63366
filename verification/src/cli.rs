//! Decisions of the command line: how a port-forward option is read, where
//! the session password comes from, and what a message box of the session
//! engine asks for.

use crate::text::{
    colon_parts, contains_text, parse_i32, spec_parse_i32, split_at_colons, str_equals,
    text_contains,
};
use vstd::prelude::*;
use vstd::string::*;

verus! {

/// The host that a port is forwarded to unless the option names one.
pub const DEFAULT_REMOTE_HOST: &'static str = "localhost";

/// A port to forward: the remote peer, the local port, and where the peer
/// connects to.
#[derive(Debug, PartialEq, Eq)]
pub struct PortForward {
    pub id: String,
    pub port: i32,
    pub remote_host: String,
    pub remote_port: i32,
}

/// What a [`PortForward`] holds, as mathematical values.
pub struct PortForwardView {
    pub id: Seq<char>,
    pub port: i32,
    pub remote_host: Seq<char>,
    pub remote_port: i32,
}

impl View for PortForward {
    type V = PortForwardView;

    open spec fn view(&self) -> PortForwardView {
        PortForwardView {
            id: self.id@,
            port: self.port,
            remote_host: self.remote_host@,
            remote_port: self.remote_port,
        }
    }
}

/// Why a port-forward option is refused.
#[derive(Debug, Clone, Copy, PartialEq, Eq)]
pub enum PortForwardError {
    /// The option has fewer than three parts.
    WrongOptions,
    /// The local port is no integer.
    WrongLocalPort,
    /// The remote port is no integer.
    WrongRemotePort,
}

/// Where the password of a session comes from.
#[derive(Debug, Clone, Copy, PartialEq, Eq)]
pub enum PasswordSource {
    /// The key given on the command line.
    Key,
    /// A prompt on the terminal.
    Prompt,
    /// The password stored for the peer.
    Stored,
}

/// What a message box of the session engine asks for.
#[derive(Debug, Clone, Copy, PartialEq, Eq)]
pub enum MsgboxAction {
    /// Log in with the password that the session holds.
    SendPassword,
    /// Report the failure, prompt for the password and log in with it.
    PromptPassword,
    /// Log the message as an error.
    LogError,
    /// Log the message.
    LogInfo,
}

/// The port forward that the parts of an option stand for: the peer, the
/// local port, the remote port and, if there is a fourth part, the remote
/// host.
pub open spec fn spec_port_forward(parts: Seq<Seq<char>>) -> Result<
    PortForwardView,
    PortForwardError,
> {
    if parts.len() < 3 {
        Err(PortForwardError::WrongOptions)
    } else {
        match spec_parse_i32(parts[1]) {
            None => Err(PortForwardError::WrongLocalPort),
            Some(port) => match spec_parse_i32(parts[2]) {
                None => Err(PortForwardError::WrongRemotePort),
                Some(remote_port) => Ok(
                    PortForwardView {
                        id: parts[0],
                        port,
                        remote_host: if parts.len() > 3 {
                            parts[3]
                        } else {
                            DEFAULT_REMOTE_HOST@
                        },
                        remote_port,
                    },
                ),
            },
        }
    }
}

/// The action that a message box of type `msgtype` asks for.
pub open spec fn spec_msgbox_action(msgtype: Seq<char>) -> MsgboxAction {
    if msgtype == "input-password"@ {
        MsgboxAction::SendPassword
    } else if msgtype == "re-input-password"@ {
        MsgboxAction::PromptPassword
    } else if contains_text(msgtype, "error"@) {
        MsgboxAction::LogError
    } else {
        MsgboxAction::LogInfo
    }
}

/// Reads the parts of a port-forward option.
pub fn port_forward_from_parts(parts: &Vec<String>) -> (forward: Result<
    PortForward,
    PortForwardError,
>)
    ensures
        match forward {
            Ok(f) => spec_port_forward(parts.deep_view()) == Ok::<
                PortForwardView,
                PortForwardError,
            >(f@),
            Err(e) => spec_port_forward(parts.deep_view()) == Err::<
                PortForwardView,
                PortForwardError,
            >(e),
        },
{
    assert(parts.deep_view().len() == parts@.len());
    if parts.len() < 3 {
        return Err(PortForwardError::WrongOptions);
    }
    assert(parts.deep_view()[0] == parts@[0]@);
    assert(parts.deep_view()[1] == parts@[1]@);
    assert(parts.deep_view()[2] == parts@[2]@);
    let port: i32 = match parse_i32(parts[1].as_str()) {
        Some(port) => port,
        None => {
            return Err(PortForwardError::WrongLocalPort);
        },
    };
    let remote_port: i32 = match parse_i32(parts[2].as_str()) {
        Some(remote_port) => remote_port,
        None => {
            return Err(PortForwardError::WrongRemotePort);
        },
    };
    let remote_host: String = if parts.len() > 3 {
        assert(parts.deep_view()[3] == parts@[3]@);
        parts[3].clone()
    } else {
        DEFAULT_REMOTE_HOST.to_owned()
    };
    Ok(PortForward { id: parts[0].clone(), port, remote_host, remote_port })
}

/// Reads a port-forward option of the form
/// `remote-id:local-port:remote-port[:remote-host]`.
pub fn parse_port_forward(option: &str) -> (forward: Result<PortForward, PortForwardError>)
    ensures
        match forward {
            Ok(f) => spec_port_forward(colon_parts(option@)) == Ok::<
                PortForwardView,
                PortForwardError,
            >(f@),
            Err(e) => spec_port_forward(colon_parts(option@)) == Err::<
                PortForwardView,
                PortForwardError,
            >(e),
        },
{
    let parts = split_at_colons(option);
    port_forward_from_parts(&parts)
}

/// Says where the password of a session comes from: the key where one is
/// given, else a prompt where no password is stored for the peer, else what
/// is stored.
pub fn password_source(key: &str, stored_is_empty: bool) -> (source: PasswordSource)
    ensures
        source == if key@.len() > 0 {
            PasswordSource::Key
        } else if stored_is_empty {
            PasswordSource::Prompt
        } else {
            PasswordSource::Stored
        },
{
    if key.unicode_len() > 0 {
        PasswordSource::Key
    } else if stored_is_empty {
        PasswordSource::Prompt
    } else {
        PasswordSource::Stored
    }
}

/// Says what a message box of type `msgtype` asks for.
pub fn msgbox_action(msgtype: &str) -> (action: MsgboxAction)
    ensures
        action == spec_msgbox_action(msgtype@),
{
    if str_equals(msgtype, "input-password") {
        MsgboxAction::SendPassword
    } else if str_equals(msgtype, "re-input-password") {
        MsgboxAction::PromptPassword
    } else if text_contains(msgtype, "error") {
        MsgboxAction::LogError
    } else {
        MsgboxAction::LogInfo
    }
}

} // verus!
