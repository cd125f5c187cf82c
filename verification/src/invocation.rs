//! Requests sent to the bridge and the results it returns.

use vstd::prelude::*;

verus! {

/// One positional argument of an invocation: the loosely typed payload a
/// front-end caller attaches to a command.
#[derive(Debug, Clone, PartialEq, Eq)]
pub enum ArgValue {
    /// A textual argument, such as a path.
    Text(String),
    /// A binary argument, such as file contents.
    Blob(Vec<u8>),
}

/// One request against the bridge: a command name and its positional
/// arguments. Created by the caller, consumed by a single dispatch.
#[derive(Debug, Clone, PartialEq, Eq)]
pub struct Invocation {
    pub command: String,
    pub args: Vec<ArgValue>,
}

/// The record returned by the system-information command.
#[derive(Debug, Clone, PartialEq, Eq)]
pub struct SystemInfo {
    pub platform: String,
    pub arch: String,
    pub app_version: String,
}

/// The successful payload of an invocation.
#[derive(Debug, Clone, PartialEq, Eq)]
pub enum Payload {
    /// Structured record of platform, architecture and application version.
    Info(SystemInfo),
    /// Raw bytes read from a file.
    Bytes(Vec<u8>),
    /// Display-decodable entry names of a directory.
    Names(Vec<String>),
    /// Acknowledgement with no payload.
    Ack,
}

/// The outcome of one invocation: exactly two cases, success with a payload
/// or failure with one opaque message string. No richer error taxonomy
/// exists at this layer.
#[derive(Debug, Clone, PartialEq, Eq)]
pub enum InvocationResult {
    Success(Payload),
    Failure(String),
}

/// The application version reported by the system-information command.
pub open spec fn app_version_text() -> Seq<char> {
    "2.0.0"@
}

impl SystemInfo {
    /// A system-information record reports non-empty platform and
    /// architecture identifiers.
    pub open spec fn wf(self) -> bool {
        self.platform@.len() > 0 && self.arch@.len() > 0
    }

    /// Builds the record for the given platform and architecture
    /// identifiers, stamping in the fixed application version.
    pub fn new(platform: String, arch: String) -> (r: SystemInfo)
        ensures
            r.platform == platform,
            r.arch == arch,
            r.app_version@ == app_version_text(),
            platform@.len() > 0 && arch@.len() > 0 ==> r.wf(),
    {
        SystemInfo { platform, arch, app_version: "2.0.0".to_owned() }
    }
}

impl InvocationResult {
    /// True exactly on the success case.
    pub fn is_success(&self) -> (r: bool)
        ensures
            r == (self is Success),
    {
        match self {
            InvocationResult::Success(_) => true,
            InvocationResult::Failure(_) => false,
        }
    }
}

} // verus!
