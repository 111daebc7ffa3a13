use vstd::prelude::*;
use crate::text::str_eq;

verus! {

/// The command line: one subcommand.
#[derive(Debug, PartialEq, Eq)]
pub struct Args {
    pub command: Commands,
}

#[derive(Debug, PartialEq, Eq)]
pub enum Commands {
    /// Stores the GitHub token.
    Auth { token: String },
    /// Stores the Trello API key and server token.
    TrelloAuth { key: String, token: String },
    /// Builds the report over pull requests and cards created within
    /// `[from, to]`; either bound may be `*`.
    GenerateReport { from: String, to: String, skip_trello: bool },
}

/// Which stored credential is meant.
#[derive(Debug, Clone, Copy, PartialEq, Eq, Structural)]
pub enum AuthType {
    GitHubAuthToken,
    TrelloApiKey,
    TrelloServerToken,
}

pub open spec fn section_spec(t: AuthType) -> Seq<char> {
    match t {
        AuthType::GitHubAuthToken => "GitHub"@,
        _ => "Trello"@,
    }
}

pub open spec fn key_spec(t: AuthType) -> Seq<char> {
    match t {
        AuthType::GitHubAuthToken => "GITHUB_TOKEN"@,
        AuthType::TrelloApiKey => "TRELLO_KEY"@,
        AuthType::TrelloServerToken => "TRELLO_TOKEN"@,
    }
}

pub open spec fn label_spec(t: AuthType) -> Seq<char> {
    match t {
        AuthType::GitHubAuthToken => "GitHub personal access token"@,
        AuthType::TrelloApiKey => "Trello API key token"@,
        AuthType::TrelloServerToken => "Trello server token"@,
    }
}

/// The credential stored under `key`, if any.
pub open spec fn auth_type_of_key(key: Seq<char>) -> Option<AuthType> {
    if key == "GITHUB_TOKEN"@ {
        Some(AuthType::GitHubAuthToken)
    } else if key == "TRELLO_KEY"@ {
        Some(AuthType::TrelloApiKey)
    } else if key == "TRELLO_TOKEN"@ {
        Some(AuthType::TrelloServerToken)
    } else {
        None
    }
}

impl AuthType {
    /// The section of the credential store that holds this credential.
    pub fn section(&self) -> (r: &'static str)
        ensures
            r@ == section_spec(*self),
    {
        match self {
            AuthType::GitHubAuthToken => "GitHub",
            _ => "Trello",
        }
    }

    /// The key of this credential within its section.
    pub fn key(&self) -> (r: &'static str)
        ensures
            r@ == key_spec(*self),
    {
        match self {
            AuthType::GitHubAuthToken => "GITHUB_TOKEN",
            AuthType::TrelloApiKey => "TRELLO_KEY",
            AuthType::TrelloServerToken => "TRELLO_TOKEN",
        }
    }

    /// This credential, in words.
    pub fn label(&self) -> (r: &'static str)
        ensures
            r@ == label_spec(*self),
    {
        match self {
            AuthType::GitHubAuthToken => "GitHub personal access token",
            AuthType::TrelloApiKey => "Trello API key token",
            AuthType::TrelloServerToken => "Trello server token",
        }
    }

    /// The credential stored under `key`, if any.
    pub fn from_key(key: &str) -> (r: Option<AuthType>)
        ensures
            r == auth_type_of_key(key@),
    {
        if str_eq(key, "GITHUB_TOKEN") {
            Some(AuthType::GitHubAuthToken)
        } else if str_eq(key, "TRELLO_KEY") {
            Some(AuthType::TrelloApiKey)
        } else if str_eq(key, "TRELLO_TOKEN") {
            Some(AuthType::TrelloServerToken)
        } else {
            None
        }
    }
}

/// The words for the credential stored under `key`; empty for other keys.
pub fn credential_label(key: &str) -> (r: &'static str)
    ensures
        r@ == match auth_type_of_key(key@) {
            Some(t) => label_spec(t),
            None => ""@,
        },
{
    match AuthType::from_key(key) {
        Some(t) => t.label(),
        None => "",
    }
}

} // verus!
