//! The errors of the key manager, their messages and their view.

use vstd::prelude::*;
use crate::text::{concat2, concat3};

verus! {

/// `std::io::Error`, carried unopened inside `RskmError::Io`.
#[verifier::external_type_specification]
#[verifier::external_body]
pub struct ExIoError(std::io::Error);

/// What can go wrong in a command.
#[derive(Debug)]
pub enum RskmError {
    NotInitialized,
    KeyExists(String),
    KeyNotFound(String),
    KeygenFailed,
    UnknownKeyType(String),
    HostExists(String),
    HostNotFound(String),
    ConfigNotFound(String),
    ConfigParseError(String),
    ConfigWriteError(String),
    AgentNotRunning,
    AgentOperationFailed(String),
    Io(std::io::Error),
    HomeDirectoryNotFound,
    InvalidInput(String),
    InvalidPath(String),
}

/// An error with its strings taken as character sequences.
pub enum ErrorView {
    NotInitialized,
    KeyExists(Seq<char>),
    KeyNotFound(Seq<char>),
    KeygenFailed,
    UnknownKeyType(Seq<char>),
    HostExists(Seq<char>),
    HostNotFound(Seq<char>),
    ConfigNotFound(Seq<char>),
    ConfigParseError(Seq<char>),
    ConfigWriteError(Seq<char>),
    AgentNotRunning,
    AgentOperationFailed(Seq<char>),
    Io(std::io::Error),
    HomeDirectoryNotFound,
    InvalidInput(Seq<char>),
    InvalidPath(Seq<char>),
}

impl View for RskmError {
    type V = ErrorView;

    open spec fn view(&self) -> ErrorView {
        match self {
            RskmError::NotInitialized => ErrorView::NotInitialized,
            RskmError::KeyExists(s) => ErrorView::KeyExists(s@),
            RskmError::KeyNotFound(s) => ErrorView::KeyNotFound(s@),
            RskmError::KeygenFailed => ErrorView::KeygenFailed,
            RskmError::UnknownKeyType(s) => ErrorView::UnknownKeyType(s@),
            RskmError::HostExists(s) => ErrorView::HostExists(s@),
            RskmError::HostNotFound(s) => ErrorView::HostNotFound(s@),
            RskmError::ConfigNotFound(s) => ErrorView::ConfigNotFound(s@),
            RskmError::ConfigParseError(s) => ErrorView::ConfigParseError(s@),
            RskmError::ConfigWriteError(s) => ErrorView::ConfigWriteError(s@),
            RskmError::AgentNotRunning => ErrorView::AgentNotRunning,
            RskmError::AgentOperationFailed(s) => ErrorView::AgentOperationFailed(s@),
            RskmError::Io(e) => ErrorView::Io(*e),
            RskmError::HomeDirectoryNotFound => ErrorView::HomeDirectoryNotFound,
            RskmError::InvalidInput(s) => ErrorView::InvalidInput(s@),
            RskmError::InvalidPath(s) => ErrorView::InvalidPath(s@),
        }
    }
}

/// The message of an error that carries no `std::io::Error`.
pub open spec fn error_message(e: ErrorView) -> Seq<char> {
    match e {
        ErrorView::NotInitialized => "RSKM_HOME not initialized. Run 'rskm init' first"@,
        ErrorView::KeyExists(name) => "Key '"@ + name + "' already exists"@,
        ErrorView::KeyNotFound(name) => "Key '"@ + name + "' not found"@,
        ErrorView::KeygenFailed => "ssh-keygen failed"@,
        ErrorView::UnknownKeyType(t) => "unknown key type: '"@ + t
            + "', must be one of: ed25519, ecdsa, xmss, rsa"@,
        ErrorView::HostExists(name) => "Host '"@ + name + "' already exists"@,
        ErrorView::HostNotFound(name) => "Host '"@ + name + "' not found"@,
        ErrorView::ConfigNotFound(path) => "Config not found: "@ + path,
        ErrorView::ConfigParseError(msg) => "Config parse error: "@ + msg,
        ErrorView::ConfigWriteError(msg) => "Failed to write config: "@ + msg,
        ErrorView::AgentNotRunning => "ssh-agent is not running"@,
        ErrorView::AgentOperationFailed(msg) => "ssh-agent error: "@ + msg,
        ErrorView::Io(_) => "IO error: "@,
        ErrorView::HomeDirectoryNotFound => "Could not determine home directory"@,
        ErrorView::InvalidInput(msg) => "Invalid input: "@ + msg,
        ErrorView::InvalidPath(msg) => "Invalid input: "@ + msg,
    }
}

/// Whether `m` is the message of an I/O error `e`: `IO error: ` followed by
/// a text that `e.to_string()` gives.
pub open spec fn io_message(e: std::io::Error, m: Seq<char>) -> bool {
    exists|t: String|
        #[trigger] vstd::string::to_string_from_display_ensures::<std::io::Error>(&e, t) && m
            == "IO error: "@ + t@
}

impl RskmError {
    /// The text that the error is shown with.  For `Io` it is `IO error: `
    /// followed by what that very `std::io::Error` displays (its `to_string`);
    /// the text itself depends on the operating system and is not stated.
    pub fn to_string(&self) -> (r: String)
        ensures
            match self@ {
                ErrorView::Io(e) => io_message(e, r@),
                _ => r@ == error_message(self@),
            },
    {
        match self {
            RskmError::NotInitialized => String::from_str(
                "RSKM_HOME not initialized. Run 'rskm init' first",
            ),
            RskmError::KeyExists(name) => concat3("Key '", name.as_str(), "' already exists"),
            RskmError::KeyNotFound(name) => concat3("Key '", name.as_str(), "' not found"),
            RskmError::KeygenFailed => String::from_str("ssh-keygen failed"),
            RskmError::UnknownKeyType(t) => concat3(
                "unknown key type: '",
                t.as_str(),
                "', must be one of: ed25519, ecdsa, xmss, rsa",
            ),
            RskmError::HostExists(name) => concat3("Host '", name.as_str(), "' already exists"),
            RskmError::HostNotFound(name) => concat3("Host '", name.as_str(), "' not found"),
            RskmError::ConfigNotFound(path) => concat2("Config not found: ", path.as_str()),
            RskmError::ConfigParseError(msg) => concat2("Config parse error: ", msg.as_str()),
            RskmError::ConfigWriteError(msg) => concat2("Failed to write config: ", msg.as_str()),
            RskmError::AgentNotRunning => String::from_str("ssh-agent is not running"),
            RskmError::AgentOperationFailed(msg) => concat2("ssh-agent error: ", msg.as_str()),
            RskmError::Io(e) => {
                let text = e.to_string();
                let r = concat2("IO error: ", text.as_str());
                assert(vstd::string::to_string_from_display_ensures::<std::io::Error>(e, text));
                assert(io_message(*e, r@));
                r
            },
            RskmError::HomeDirectoryNotFound => String::from_str(
                "Could not determine home directory",
            ),
            RskmError::InvalidInput(msg) => concat2("Invalid input: ", msg.as_str()),
            RskmError::InvalidPath(msg) => concat2("Invalid input: ", msg.as_str()),
        }
    }

    /// The underlying `std::io::Error`, which only `Io` has.
    pub fn source(&self) -> (r: Option<&std::io::Error>)
        ensures
            match self {
                RskmError::Io(e) => r == Some(e),
                _ => r is None,
            },
    {
        match self {
            RskmError::Io(e) => Some(e),
            _ => None,
        }
    }
}

impl From<std::io::Error> for RskmError {
    fn from(err: std::io::Error) -> (r: RskmError) {
        RskmError::Io(err)
    }
}

impl vstd::std_specs::convert::FromSpecImpl<std::io::Error> for RskmError {
    open spec fn obeys_from_spec() -> bool {
        true
    }

    open spec fn from_spec(err: std::io::Error) -> RskmError {
        RskmError::Io(err)
    }
}

} // verus!
