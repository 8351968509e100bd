//! Turning the hosting service's answer for a branch into commit information.
use vstd::prelude::*;
use crate::json::Json;

verus! {

/// The repository name and the SHA of the branch's head commit.
#[derive(Debug, Clone, PartialEq, Eq)]
pub struct CommitInfo {
    pub name: String,
    pub sha: String,
}

impl View for CommitInfo {
    type V = (Seq<char>, Seq<char>);

    open spec fn view(&self) -> (Seq<char>, Seq<char>) {
        (self.name@, self.sha@)
    }
}

/// Which required fields the answer lacked.
#[derive(Debug, Clone, Copy, PartialEq, Eq, Structural)]
pub enum MissingField {
    Name,
    Sha,
    NameAndSha,
}

/// Why a branch could not be resolved.
#[derive(Debug, Clone, Copy, PartialEq, Eq, Structural)]
pub enum ErrorKind {
    /// The reference is not of the form `owner/repo`.
    InvalidReference,
    /// The service gave no answer.
    Unreachable,
    /// The service knows no such repository or branch.
    NotFound,
    /// The service answered with success but sent no document.
    MissingBody,
    /// The document lacks a required field.
    FieldMissing(MissingField),
    /// The service answered with another status code.
    Unexpected(u16),
    /// The stored access token could not be read.
    ConfigUnreadable,
    /// The access token could not be stored.
    ConfigWriteFailed,
}

/// The line shown to a user for each kind of error.
pub open spec fn message_text(e: ErrorKind) -> Seq<char> {
    match e {
        ErrorKind::InvalidReference => "Use the following format <owner>/<repo>"@,
        ErrorKind::Unreachable => "Unknown error"@,
        ErrorKind::NotFound => "Repo or branch is not found"@,
        ErrorKind::MissingBody => "JSON is missing"@,
        ErrorKind::FieldMissing(MissingField::Name) => "Name not found"@,
        ErrorKind::FieldMissing(MissingField::Sha) => "Commit sha not found"@,
        ErrorKind::FieldMissing(MissingField::NameAndSha) => "Name and commit sha not found"@,
        ErrorKind::Unexpected(_) => "Unknown error"@,
        ErrorKind::ConfigUnreadable => "Couldn't read configuration to get token."@,
        ErrorKind::ConfigWriteFailed => "Couldn't write configuration."@,
    }
}

impl ErrorKind {
    /// The line shown to a user for this error.
    pub fn message(&self) -> (r: &'static str)
        ensures
            r@ == message_text(*self),
    {
        match self {
            ErrorKind::InvalidReference => "Use the following format <owner>/<repo>",
            ErrorKind::Unreachable => "Unknown error",
            ErrorKind::NotFound => "Repo or branch is not found",
            ErrorKind::MissingBody => "JSON is missing",
            ErrorKind::FieldMissing(MissingField::Name) => "Name not found",
            ErrorKind::FieldMissing(MissingField::Sha) => "Commit sha not found",
            ErrorKind::FieldMissing(MissingField::NameAndSha) => "Name and commit sha not found",
            ErrorKind::Unexpected(_) => "Unknown error",
            ErrorKind::ConfigUnreadable => "Couldn't read configuration to get token.",
            ErrorKind::ConfigWriteFailed => "Couldn't write configuration.",
        }
    }
}

/// What came of the request for a branch.
#[derive(Debug)]
pub enum ApiOutcome {
    /// No answer arrived (name lookup, connection or TLS failure).
    NoResponse,
    /// An answer with its HTTP status code and its decoded document, if any.
    Responded { status: u16, body: Option<Json> },
}

/// The HTTP status code of success.
pub const STATUS_OK: u16 = 200;

/// The HTTP status code of a missing resource.
pub const STATUS_NOT_FOUND: u16 = 404;

/// The repository name that a document carries at `name`.
pub open spec fn name_of(doc: Json) -> Option<Seq<char>> {
    match doc.member("name"@) {
        Some(v) => v.text(),
        None => None,
    }
}

/// The commit SHA that a document carries at `commit.sha`.
pub open spec fn sha_of(doc: Json) -> Option<Seq<char>> {
    match doc.member("commit"@) {
        Some(c) => match c.member("sha"@) {
            Some(v) => v.text(),
            None => None,
        },
        None => None,
    }
}

/// What a document resolves to.
pub open spec fn repo_info(doc: Json) -> Result<(Seq<char>, Seq<char>), ErrorKind> {
    match (name_of(doc), sha_of(doc)) {
        (Some(name), Some(sha)) => Ok((name, sha)),
        (None, Some(_)) => Err(ErrorKind::FieldMissing(MissingField::Name)),
        (Some(_), None) => Err(ErrorKind::FieldMissing(MissingField::Sha)),
        (None, None) => Err(ErrorKind::FieldMissing(MissingField::NameAndSha)),
    }
}

/// What an outcome of the request resolves to.
pub open spec fn resolution(outcome: ApiOutcome) -> Result<(Seq<char>, Seq<char>), ErrorKind> {
    match outcome {
        ApiOutcome::NoResponse => Err(ErrorKind::Unreachable),
        ApiOutcome::Responded { status, body } => if status == STATUS_OK {
            match body {
                Some(doc) => repo_info(doc),
                None => Err(ErrorKind::MissingBody),
            }
        } else if status == STATUS_NOT_FOUND {
            Err(ErrorKind::NotFound)
        } else {
            Err(ErrorKind::Unexpected(status))
        },
    }
}

/// The view of a result that holds commit information.
pub open spec fn result_view(r: Result<CommitInfo, ErrorKind>) -> Result<
    (Seq<char>, Seq<char>),
    ErrorKind,
> {
    match r {
        Ok(info) => Ok(info@),
        Err(e) => Err(e),
    }
}

/// Reads the text at `key` of a document, if it is a string.
fn text_member(doc: &Json, key: &str) -> (r: Option<String>)
    ensures
        r is Some <==> (doc.member(key@) matches Some(v) && v.text() is Some),
        r matches Some(s) ==> doc.member(key@) matches Some(v) && v.text() == Some(s@),
{
    match doc.get(key) {
        Some(v) => match v.as_str() {
            Some(s) => Some(String::from_str(s)),
            None => None,
        },
        None => None,
    }
}

/// Takes the repository name and the head commit's SHA out of a document.
///
/// Both fields are looked for; the error says which of them were missing.
pub fn parse_repo_info(json: &Json) -> (r: Result<CommitInfo, ErrorKind>)
    ensures
        result_view(r) == repo_info(*json),
{
    let name = text_member(json, "name");
    let sha = match json.get("commit") {
        Some(commit) => text_member(commit, "sha"),
        None => None,
    };
    match (name, sha) {
        (Some(name), Some(sha)) => Ok(CommitInfo { name, sha }),
        (None, Some(_)) => Err(ErrorKind::FieldMissing(MissingField::Name)),
        (Some(_), None) => Err(ErrorKind::FieldMissing(MissingField::Sha)),
        (None, None) => Err(ErrorKind::FieldMissing(MissingField::NameAndSha)),
    }
}

/// Maps what came of the request for a branch to its commit information.
pub fn resolve_commit(outcome: &ApiOutcome) -> (r: Result<CommitInfo, ErrorKind>)
    ensures
        result_view(r) == resolution(*outcome),
{
    match outcome {
        ApiOutcome::NoResponse => Err(ErrorKind::Unreachable),
        ApiOutcome::Responded { status, body } => {
            if *status == STATUS_OK {
                match body {
                    Some(doc) => parse_repo_info(doc),
                    None => Err(ErrorKind::MissingBody),
                }
            } else if *status == STATUS_NOT_FOUND {
                Err(ErrorKind::NotFound)
            } else {
                Err(ErrorKind::Unexpected(*status))
            }
        },
    }
}

/// A "not found" answer resolves to `NotFound`, whatever document came with it.
pub proof fn lemma_not_found_ignores_body(body: Option<Json>)
    ensures
        resolution((ApiOutcome::Responded { status: STATUS_NOT_FOUND, body })) == Err::<
            (Seq<char>, Seq<char>),
            ErrorKind,
        >(ErrorKind::NotFound),
{
}

/// Resolving depends on the service's answer alone: the same answer, given
/// twice, yields the same commit information.
pub proof fn lemma_resolution_deterministic(first: ApiOutcome, second: ApiOutcome)
    requires
        first == second,
    ensures
        resolution(first) == resolution(second),
{
}

} // verus!
