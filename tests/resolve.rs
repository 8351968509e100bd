use gitc::json::{same_text, Json};
use gitc::resolve::{
    parse_repo_info, resolve_commit, ApiOutcome, CommitInfo, ErrorKind, MissingField,
};

fn text(s: &str) -> Json {
    Json::Str(String::from(s))
}

fn object(members: Vec<(&str, Json)>) -> Json {
    Json::Object(members.into_iter().map(|(k, v)| (String::from(k), v)).collect())
}

fn branch_doc() -> Json {
    object(vec![
        ("name", text("repo1")),
        ("commit", object(vec![("sha", text("abc123"))])),
    ])
}

fn answer(status: u16, body: Option<Json>) -> ApiOutcome {
    ApiOutcome::Responded { status, body }
}

fn info(name: &str, sha: &str) -> CommitInfo {
    CommitInfo { name: String::from(name), sha: String::from(sha) }
}

#[test]
fn success_yields_name_and_sha() {
    let r = resolve_commit(&answer(200, Some(branch_doc())));
    assert_eq!(r, Ok(info("repo1", "abc123")));
}

#[test]
fn not_found_ignores_body() {
    assert_eq!(resolve_commit(&answer(404, None)), Err(ErrorKind::NotFound));
    assert_eq!(resolve_commit(&answer(404, Some(branch_doc()))), Err(ErrorKind::NotFound));
    assert_eq!(resolve_commit(&answer(404, Some(Json::Null))), Err(ErrorKind::NotFound));
}

#[test]
fn missing_sha_is_reported() {
    let r = resolve_commit(&answer(200, Some(object(vec![("name", text("repo1"))]))));
    assert_eq!(r, Err(ErrorKind::FieldMissing(MissingField::Sha)));
}

#[test]
fn missing_body_is_reported() {
    assert_eq!(resolve_commit(&answer(200, None)), Err(ErrorKind::MissingBody));
}

#[test]
fn no_response_is_unreachable() {
    assert_eq!(resolve_commit(&ApiOutcome::NoResponse), Err(ErrorKind::Unreachable));
}

#[test]
fn other_status_is_unexpected() {
    assert_eq!(resolve_commit(&answer(500, Some(branch_doc()))), Err(ErrorKind::Unexpected(500)));
    assert_eq!(resolve_commit(&answer(201, Some(branch_doc()))), Err(ErrorKind::Unexpected(201)));
    assert_eq!(resolve_commit(&answer(401, None)), Err(ErrorKind::Unexpected(401)));
}

#[test]
fn resolving_twice_gives_the_same_commit() {
    let outcome = answer(200, Some(branch_doc()));
    let first = resolve_commit(&outcome);
    let second = resolve_commit(&outcome);
    assert_eq!(first, second);
    assert_eq!(first, Ok(info("repo1", "abc123")));
}

#[test]
fn missing_name_is_reported() {
    let doc = object(vec![("commit", object(vec![("sha", text("abc123"))]))]);
    assert_eq!(parse_repo_info(&doc), Err(ErrorKind::FieldMissing(MissingField::Name)));
}

#[test]
fn missing_both_fields_is_reported() {
    assert_eq!(
        parse_repo_info(&object(vec![])),
        Err(ErrorKind::FieldMissing(MissingField::NameAndSha))
    );
    assert_eq!(
        parse_repo_info(&Json::Array(vec![branch_doc()])),
        Err(ErrorKind::FieldMissing(MissingField::NameAndSha))
    );
}

#[test]
fn fields_must_be_strings() {
    let doc = object(vec![
        ("name", Json::Number(String::from("7"))),
        ("commit", object(vec![("sha", Json::Bool(true))])),
    ]);
    assert_eq!(parse_repo_info(&doc), Err(ErrorKind::FieldMissing(MissingField::NameAndSha)));
    let doc = object(vec![("name", text("repo1")), ("commit", text("abc123"))]);
    assert_eq!(parse_repo_info(&doc), Err(ErrorKind::FieldMissing(MissingField::Sha)));
}

#[test]
fn extra_members_are_ignored() {
    let doc = object(vec![
        ("_links", object(vec![("self", text("x"))])),
        ("name", text("main")),
        ("protected", Json::Bool(false)),
        ("commit", object(vec![("url", text("u")), ("sha", text("f00d"))])),
    ]);
    assert_eq!(parse_repo_info(&doc), Ok(info("main", "f00d")));
}

#[test]
fn first_member_with_a_key_wins() {
    let doc = object(vec![("name", text("a")), ("name", text("b"))]);
    assert_eq!(doc.get("name").and_then(|v| v.as_str()), Some("a"));
    assert!(doc.get("missing").is_none());
    assert!(text("x").get("name").is_none());
}

#[test]
fn string_values_are_read() {
    assert_eq!(text("abc").as_str(), Some("abc"));
    assert_eq!(Json::Null.as_str(), None);
    assert_eq!(Json::Number(String::from("1")).as_str(), None);
}

#[test]
fn texts_are_compared_by_characters() {
    assert!(same_text("sha", "sha"));
    assert!(!same_text("sha", "shA"));
    assert!(!same_text("sha", "sha1"));
    assert!(same_text("", ""));
}

#[test]
fn errors_have_messages() {
    assert_eq!(ErrorKind::NotFound.message(), "Repo or branch is not found");
    assert_eq!(ErrorKind::Unreachable.message(), "Unknown error");
    assert_eq!(ErrorKind::Unexpected(500).message(), "Unknown error");
    assert_eq!(ErrorKind::MissingBody.message(), "JSON is missing");
    assert_eq!(ErrorKind::FieldMissing(MissingField::Sha).message(), "Commit sha not found");
    assert_eq!(ErrorKind::FieldMissing(MissingField::Name).message(), "Name not found");
    assert_eq!(
        ErrorKind::ConfigUnreadable.message(),
        "Couldn't read configuration to get token."
    );
}
