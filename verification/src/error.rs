//! Error type of the library.

use vstd::prelude::*;

verus! {

/// Main error type for RAZ operations.
#[derive(Debug, Clone, PartialEq, Eq)]
pub enum RazError {
    Io { message: String },
    Config { message: String },
    Analysis { message: String },
    Execution { command: String },
    Provider { provider: String, message: String },
    InvalidWorkspace { path: String },
    Parse { message: String },
    FeatureUnavailable { feature: String },
    Timeout { operation: String },
    Internal { message: String },
}

/// Result type alias for RAZ operations.
pub type RazResult<T> = Result<T, RazError>;

/// The text an error displays as.
pub open spec fn error_text(e: RazError) -> Seq<char> {
    match e {
        RazError::Io { message } => "IO error: "@ + message@,
        RazError::Config { message } => "Configuration error: "@ + message@,
        RazError::Analysis { message } => "Project analysis failed: "@ + message@,
        RazError::Execution { command } => "Command execution failed: "@ + command@,
        RazError::Provider { provider, message } => "Provider error: "@ + provider@ + ": "@
            + message@,
        RazError::InvalidWorkspace { path } => "Invalid workspace: "@ + path@,
        RazError::Parse { message } => "Parsing error: "@ + message@,
        RazError::FeatureUnavailable { feature } => "Feature not available: "@ + feature@,
        RazError::Timeout { operation } => "Timeout: "@ + operation@,
        RazError::Internal { message } => "Internal error: "@ + message@,
    }
}

fn concat2(a: &str, b: &str) -> (r: String)
    ensures
        r@ == a@ + b@,
{
    let mut r = String::from_str(a);
    r.append(b);
    r
}

impl RazError {
    pub fn config(message: &str) -> (e: Self)
        ensures
            e == (RazError::Config { message: e->Config_message }),
            e->Config_message@ == message@,
    {
        RazError::Config { message: String::from_str(message) }
    }

    pub fn analysis(message: &str) -> (e: Self)
        ensures
            e == (RazError::Analysis { message: e->Analysis_message }),
            e->Analysis_message@ == message@,
    {
        RazError::Analysis { message: String::from_str(message) }
    }

    pub fn execution(command: &str) -> (e: Self)
        ensures
            e == (RazError::Execution { command: e->command }),
            e->command@ == command@,
    {
        RazError::Execution { command: String::from_str(command) }
    }

    pub fn provider(provider: &str, message: &str) -> (e: Self)
        ensures
            e == (RazError::Provider { provider: e->provider, message: e->Provider_message }),
            e->provider@ == provider@,
            e->Provider_message@ == message@,
    {
        RazError::Provider {
            provider: String::from_str(provider),
            message: String::from_str(message),
        }
    }

    pub fn invalid_workspace(path: &str) -> (e: Self)
        ensures
            e == (RazError::InvalidWorkspace { path: e->path }),
            e->path@ == path@,
    {
        RazError::InvalidWorkspace { path: String::from_str(path) }
    }

    pub fn parse(message: &str) -> (e: Self)
        ensures
            e == (RazError::Parse { message: e->Parse_message }),
            e->Parse_message@ == message@,
    {
        RazError::Parse { message: String::from_str(message) }
    }

    pub fn feature_unavailable(feature: &str) -> (e: Self)
        ensures
            e == (RazError::FeatureUnavailable { feature: e->feature }),
            e->feature@ == feature@,
    {
        RazError::FeatureUnavailable { feature: String::from_str(feature) }
    }

    pub fn timeout(operation: &str) -> (e: Self)
        ensures
            e == (RazError::Timeout { operation: e->operation }),
            e->operation@ == operation@,
    {
        RazError::Timeout { operation: String::from_str(operation) }
    }

    pub fn internal(message: &str) -> (e: Self)
        ensures
            e == (RazError::Internal { message: e->Internal_message }),
            e->Internal_message@ == message@,
    {
        RazError::Internal { message: String::from_str(message) }
    }

    /// The text this error displays as.
    pub fn to_message(&self) -> (r: String)
        ensures
            r@ == error_text(*self),
    {
        match self {
            RazError::Io { message } => concat2("IO error: ", message.as_str()),
            RazError::Config { message } => concat2("Configuration error: ", message.as_str()),
            RazError::Analysis { message } => concat2(
                "Project analysis failed: ",
                message.as_str(),
            ),
            RazError::Execution { command } => concat2(
                "Command execution failed: ",
                command.as_str(),
            ),
            RazError::Provider { provider, message } => {
                let mut r = concat2("Provider error: ", provider.as_str());
                r.append(": ");
                r.append(message.as_str());
                r
            },
            RazError::InvalidWorkspace { path } => concat2("Invalid workspace: ", path.as_str()),
            RazError::Parse { message } => concat2("Parsing error: ", message.as_str()),
            RazError::FeatureUnavailable { feature } => concat2(
                "Feature not available: ",
                feature.as_str(),
            ),
            RazError::Timeout { operation } => concat2("Timeout: ", operation.as_str()),
            RazError::Internal { message } => concat2("Internal error: ", message.as_str()),
        }
    }
}

} // verus!
