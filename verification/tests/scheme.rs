use bearer_auth::auth::scheme::{AuthProvider, Scheme};

#[test]
fn session_tag_is_recognised() {
    assert_eq!(Scheme::of_token("mra_abc123"), Some(Scheme::Session));
}

#[test]
fn every_github_tag_routes_to_github() {
    let github = Some(Scheme::Provider(AuthProvider::GitHub));
    assert_eq!(Scheme::of_token("github_xyz"), github);
    assert_eq!(Scheme::of_token("gho_xyz"), github);
    assert_eq!(Scheme::of_token("ghp_xyz"), github);
    assert_eq!(Scheme::of_token("gho_"), github);
    assert_eq!(Scheme::of_token("ghp_a_b_c"), github);
}

#[test]
fn unregistered_tag_claims_no_scheme() {
    assert_eq!(Scheme::of_token("modrinth_abc"), None);
    assert_eq!(Scheme::of_token("ghs_abc"), None);
    assert_eq!(Scheme::of_token("mrax_abc"), None);
    assert_eq!(Scheme::of_token("mr_abc"), None);
    assert_eq!(Scheme::of_token("githubx_abc"), None);
    assert_eq!(Scheme::of_token("Bearer mra_abc"), None);
}

#[test]
fn tags_are_case_sensitive() {
    assert_eq!(Scheme::of_token("MRA_abc"), None);
    assert_eq!(Scheme::of_token("GitHub_abc"), None);
}

#[test]
fn token_without_delimiter_claims_no_scheme() {
    assert_eq!(Scheme::of_token(""), None);
    assert_eq!(Scheme::of_token("mra"), None);
    assert_eq!(Scheme::of_token("github"), None);
    assert_eq!(Scheme::of_token("a token without any delimiter"), None);
}

#[test]
fn empty_tag_claims_no_scheme() {
    assert_eq!(Scheme::of_token("_"), None);
    assert_eq!(Scheme::of_token("_mra_abc"), None);
}

#[test]
fn only_the_first_delimiter_ends_the_tag() {
    assert_eq!(Scheme::of_token("mra_"), Some(Scheme::Session));
    assert_eq!(Scheme::of_token("mra__"), Some(Scheme::Session));
    assert_eq!(Scheme::of_token("mra_github_x"), Some(Scheme::Session));
    assert_eq!(
        Scheme::of_token("github_mra_x"),
        Some(Scheme::Provider(AuthProvider::GitHub))
    );
    assert_eq!(Scheme::of_token("x_mra_y"), None);
}

#[test]
fn late_delimiter_claims_no_scheme() {
    assert_eq!(Scheme::of_token("abcdef_x"), None);
    assert_eq!(Scheme::of_token("abcdefg_x"), None);
    assert_eq!(Scheme::of_token("abcdefgh_mra_x"), None);
}

#[test]
fn tokens_beyond_ascii_are_read_by_character() {
    assert_eq!(Scheme::of_token("mra_\u{e9}\u{4e16}"), Some(Scheme::Session));
    assert_eq!(Scheme::of_token("\u{e9}ra_abc"), None);
    assert_eq!(Scheme::of_token("\u{4e16}\u{754c}"), None);
    assert_eq!(
        Scheme::of_token("ghp_\u{1f600}"),
        Some(Scheme::Provider(AuthProvider::GitHub))
    );
}
