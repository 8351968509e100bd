use gitc::reference::parse_owner_repo;

#[test]
fn splits_owner_and_repo() {
    assert_eq!(parse_owner_repo("shulhi/gitc"), Some(("shulhi", "gitc")));
}

#[test]
fn keeps_exact_substrings() {
    assert_eq!(parse_owner_repo("rust-lang/rust.vim"), Some(("rust-lang", "rust.vim")));
    assert_eq!(parse_owner_repo("é/ß"), Some(("é", "ß")));
}

#[test]
fn no_separator_is_rejected() {
    assert_eq!(parse_owner_repo("gitc"), None);
    assert_eq!(parse_owner_repo(""), None);
}

#[test]
fn two_separators_are_rejected() {
    assert_eq!(parse_owner_repo("a/b/c"), None);
    assert_eq!(parse_owner_repo("//"), None);
    assert_eq!(parse_owner_repo("owner/repo/"), None);
}

#[test]
fn empty_sides_pass_through() {
    assert_eq!(parse_owner_repo("/repo"), Some(("", "repo")));
    assert_eq!(parse_owner_repo("owner/"), Some(("owner", "")));
    assert_eq!(parse_owner_repo("/"), Some(("", "")));
}
