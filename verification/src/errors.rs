//! Errors and exit-code policy.
//!
//! Every failure of an invocation is terminal: it is reported as one
//! message line (plus, for some validation issues, a hint line) and the
//! process exits non-zero. The library states the exact message text and
//! the exact exit code for each failure; the binary around the library
//! only prints and exits.

use vstd::prelude::*;
use vstd::string::StringExecFns;

verus! {

/// A violation of the configuration rules found at use time.
#[derive(Clone, Copy, PartialEq, Eq, Structural, Debug)]
pub enum ValidationIssue {
    /// None of the three container kinds is set.
    NoKindSet,
    /// More than one of the three container kinds is set.
    MultipleKindsSet,
    /// `exec` against a compose stack needs a configured service name.
    MissingComposeService,
}

/// Why loading or using the configuration failed. Read and parse
/// failures carry the underlying cause as text.
#[derive(Debug)]
pub enum ConfigError {
    /// The configuration file could not be read.
    ReadError(String),
    /// The configuration file is not valid for the schema.
    ParseError(String),
    /// The configuration violates a use-time rule.
    ValidationError(ValidationIssue),
}

/// The fixed path of the configuration file, relative to the
/// invocation directory.
pub open spec fn config_path_view() -> Seq<char> {
    ".devcontainer/devcontainer.toml"@
}

/// Returns the fixed configuration file path.
pub fn config_path() -> (r: &'static str)
    ensures
        r@ == config_path_view(),
{
    ".devcontainer/devcontainer.toml"
}

impl ValidationIssue {
    /// The message line for this issue.
    pub open spec fn message_view(self) -> Seq<char> {
        match self {
            ValidationIssue::NoKindSet => "no container kind specified"@,
            ValidationIssue::MultipleKindsSet => "multiple container kinds specified"@,
            ValidationIssue::MissingComposeService =>
                "[compose].service is required to know which compose service to exec into"@,
        }
    }

    /// The hint line that follows the message, empty when the issue
    /// has none.
    pub open spec fn hint_view(self) -> Seq<char> {
        match self {
            ValidationIssue::NoKindSet =>
                " Expected one of [image], [build], or [compose] in devcontainer.toml"@,
            ValidationIssue::MultipleKindsSet =>
                " Only one of [image], [build], or [compose] can be set in devcontainer.toml"@,
            ValidationIssue::MissingComposeService => Seq::empty(),
        }
    }

    /// Returns the message line for this issue.
    pub fn message(&self) -> (r: String)
        ensures
            r@ == self.message_view(),
    {
        match self {
            ValidationIssue::NoKindSet => String::from_str("no container kind specified"),
            ValidationIssue::MultipleKindsSet => String::from_str(
                "multiple container kinds specified",
            ),
            ValidationIssue::MissingComposeService => String::from_str(
                "[compose].service is required to know which compose service to exec into",
            ),
        }
    }

    /// Returns the hint line for this issue, empty when it has none.
    pub fn hint(&self) -> (r: String)
        ensures
            r@ == self.hint_view(),
    {
        match self {
            ValidationIssue::NoKindSet => String::from_str(
                " Expected one of [image], [build], or [compose] in devcontainer.toml",
            ),
            ValidationIssue::MultipleKindsSet => String::from_str(
                " Only one of [image], [build], or [compose] can be set in devcontainer.toml",
            ),
            ValidationIssue::MissingComposeService => String::new(),
        }
    }
}

impl ConfigError {
    /// The one-line message reported for this error.
    pub open spec fn message_view(self) -> Seq<char> {
        match self {
            ConfigError::ReadError(cause) =>
                "Failed to read "@ + config_path_view() + ": "@ + cause@,
            ConfigError::ParseError(cause) =>
                "Failed to read "@ + config_path_view() + " as TOML: "@ + cause@,
            ConfigError::ValidationError(issue) => issue.message_view(),
        }
    }

    /// Returns the one-line message for this error.
    pub fn message(&self) -> (r: String)
        ensures
            r@ == self.message_view(),
    {
        match self {
            ConfigError::ReadError(cause) => {
                let mut r = String::from_str("Failed to read ");
                r.append(config_path());
                r.append(": ");
                r.append(cause.as_str());
                r
            },
            ConfigError::ParseError(cause) => {
                let mut r = String::from_str("Failed to read ");
                r.append(config_path());
                r.append(" as TOML: ");
                r.append(cause.as_str());
                r
            },
            ConfigError::ValidationError(issue) => issue.message(),
        }
    }

    /// Every configuration error terminates the invocation with exit
    /// code one.
    pub fn exit_code(&self) -> (r: i32)
        ensures
            r == 1,
    {
        1
    }
}

/// The exit code the process owes after waiting for the external tool:
/// zero on success, the tool's own code on failure, or one when the
/// failed tool reports no code.
pub open spec fn propagated_code(success: bool, code: Option<i32>) -> int {
    if success {
        0
    } else {
        match code {
            Some(c) => c as int,
            None => 1,
        }
    }
}

/// Returns the exit code to propagate for an external tool that
/// finished with the given success flag and optional status code.
pub fn propagate_exit_code(success: bool, code: Option<i32>) -> (r: i32)
    ensures
        r as int == propagated_code(success, code),
{
    if success {
        0
    } else {
        match code {
            Some(c) => c,
            None => 1,
        }
    }
}

} // verus!
