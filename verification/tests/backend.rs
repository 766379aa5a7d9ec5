use biestar_core::account::{Backend, LoginScreenState};
use biestar_core::password::{hash_password, hash_round_trip, verify_digest};
use biestar_core::post::PostResult;
use biestar_core::store::Tag;
use biestar_core::token::{check_jwt, make_jwt, DEFAULT_TOKEN_EXPIRY};

fn backend() -> Backend {
    Backend::new(b"a test signing secret".to_vec(), DEFAULT_TOKEN_EXPIRY)
}

fn backend_with_tags(tags: &[&str]) -> Backend {
    let mut b = backend();
    for t in tags {
        b.store.tags.push(Tag { tag: t.to_string() });
    }
    b
}

#[test]
fn sign_up_rejects_short_password_and_writes_nothing() {
    let mut b = backend();
    let r = b.sign_up("alice".to_string(), "seven77".to_string());
    assert_eq!(r, Err(LoginScreenState::TooShortPassword));
    assert_eq!(b.store.users.len(), 0);
}

#[test]
fn sign_up_counts_characters_not_bytes() {
    // eight characters that take more than eight bytes must pass the policy
    let mut b = backend();
    let r = b.sign_up("yuki".to_string(), "ぱすわあど１２３".to_string());
    assert!(r.is_ok());
    assert_eq!(b.store.users.len(), 1);
}

#[test]
fn sign_up_accepts_and_persists_user() {
    let mut b = backend();
    let r = b.sign_up("alice".to_string(), "password1".to_string());
    assert!(r.is_ok());
    assert_eq!(b.store.users.len(), 1);
    assert_eq!(b.store.users[0].name, "alice");
    assert!(b.store.users[0].icon.is_none());
    // the stored digest is no plain copy of the password
    assert_ne!(b.store.users[0].password_hash, "password1");
}

#[test]
fn sign_up_same_name_twice_never_succeeds() {
    let mut b = backend();
    assert!(b.sign_up("alice".to_string(), "password1".to_string()).is_ok());
    let second = b.sign_up("alice".to_string(), "anything8".to_string());
    assert_eq!(second, Err(LoginScreenState::NameExists));
    assert_eq!(b.store.users.len(), 1);
}

#[test]
fn hash_then_verify_same_password_is_true() {
    let digest = hash_password(&"correct horse".to_string());
    assert!(verify_digest(&"correct horse".to_string(), &digest));
    assert!(hash_round_trip(&"another one".to_string()));
}

#[test]
fn verify_other_password_is_false() {
    let digest = hash_password(&"password one".to_string());
    assert!(!verify_digest(&"password two".to_string(), &digest));
}

#[test]
fn verify_malformed_digest_is_false_not_an_error() {
    assert!(!verify_digest(&"whatever".to_string(), &"not a digest".to_string()));
    assert!(!verify_digest(&"whatever".to_string(), &"".to_string()));
}

#[test]
fn two_hashes_of_one_password_differ_by_salt() {
    let p = "same password".to_string();
    let d1 = hash_password(&p);
    let d2 = hash_password(&p);
    assert_ne!(d1, d2);
    assert!(verify_digest(&p, &d1));
    assert!(verify_digest(&p, &d2));
}

#[test]
fn token_verifies_for_its_subject_right_after_issuance() {
    let secret = b"token secret".to_vec();
    let token = make_jwt(&secret, &"ruby".to_string(), DEFAULT_TOKEN_EXPIRY);
    assert!(check_jwt(&secret, &"ruby".to_string(), &token));
}

#[test]
fn token_for_another_subject_is_refused() {
    let secret = b"token secret".to_vec();
    let token = make_jwt(&secret, &"bob".to_string(), DEFAULT_TOKEN_EXPIRY);
    assert!(!check_jwt(&secret, &"alice".to_string(), &token));
}

#[test]
fn token_under_another_secret_is_refused() {
    let token = make_jwt(&b"one secret".to_vec(), &"ruby".to_string(), DEFAULT_TOKEN_EXPIRY);
    assert!(!check_jwt(&b"other secret".to_vec(), &"ruby".to_string(), &token));
}

#[test]
fn expired_token_is_refused() {
    let secret = b"token secret".to_vec();
    let token = make_jwt(&secret, &"ruby".to_string(), 1000);
    assert!(!check_jwt(&secret, &"ruby".to_string(), &token));
}

#[test]
fn garbage_token_is_refused() {
    let secret = b"token secret".to_vec();
    assert!(!check_jwt(&secret, &"ruby".to_string(), &"not.a.token".to_string()));
    assert!(!check_jwt(&secret, &"ruby".to_string(), &"".to_string()));
}

#[test]
fn log_in_unknown_name_and_wrong_password_are_indistinguishable() {
    let mut b = backend();
    assert!(b.sign_up("alice".to_string(), "password1".to_string()).is_ok());
    let unknown = b.log_in("nobody".to_string(), "password1".to_string());
    let wrong = b.log_in("alice".to_string(), "password2".to_string());
    assert_eq!(unknown, Err(LoginScreenState::InvalidAccount));
    assert_eq!(wrong, Err(LoginScreenState::InvalidAccount));
    assert_eq!(unknown, wrong);
}

#[test]
fn log_in_right_password_returns_token_for_name() {
    let mut b = backend();
    assert!(b.sign_up("alice".to_string(), "password1".to_string()).is_ok());
    let token = b.log_in("alice".to_string(), "password1".to_string()).unwrap();
    assert!(check_jwt(&b.jwt_secret, &"alice".to_string(), &token));
}

#[test]
fn prefix_search_returns_both_v_tags() {
    let b = backend_with_tags(&["vtuber", "vr", "other"]);
    let hits = b.search_tag_with_prefix("v".to_string(), 10);
    assert_eq!(hits, vec!["vtuber".to_string(), "vr".to_string()]);
}

#[test]
fn prefix_search_is_case_insensitive() {
    let b = backend_with_tags(&["vtuber", "vr", "other"]);
    let hits = b.search_tag_with_prefix("V".to_string(), 10);
    assert_eq!(hits, vec!["vtuber".to_string(), "vr".to_string()]);
    let folded = b.search_tag_with_prefix("vT".to_string(), 10);
    assert_eq!(folded, vec!["vtuber".to_string()]);
}

#[test]
fn prefix_search_empty_query_returns_nothing() {
    let b = backend_with_tags(&["vtuber", "vr", "other"]);
    assert!(b.search_tag_with_prefix("".to_string(), 10).is_empty());
}

#[test]
fn prefix_search_caps_the_result_count() {
    let b = backend_with_tags(&["vtuber", "vr", "vrchat"]);
    let hits = b.search_tag_with_prefix("v".to_string(), 2);
    assert_eq!(hits, vec!["vtuber".to_string(), "vr".to_string()]);
    assert!(b.search_tag_with_prefix("v".to_string(), 0).is_empty());
    assert!(b.search_tag_with_prefix("v".to_string(), -1).is_empty());
}

#[test]
fn prefix_search_no_match_returns_nothing() {
    let b = backend_with_tags(&["vtuber", "vr", "other"]);
    assert!(b.search_tag_with_prefix("zzz".to_string(), 10).is_empty());
}

#[test]
fn exact_search_finds_tag_ignoring_case() {
    let b = backend_with_tags(&["vtuber", "vr", "other"]);
    assert_eq!(b.search_tag_with_exact("vr".to_string()), Some("vr".to_string()));
    assert_eq!(b.search_tag_with_exact("VR".to_string()), Some("vr".to_string()));
    assert_eq!(b.search_tag_with_exact("v".to_string()), None);
    assert_eq!(b.search_tag_with_exact("missing".to_string()), None);
}

#[test]
fn post_with_token_for_other_subject_is_refused_and_writes_nothing() {
    let mut b = backend();
    assert!(b.sign_up("alice".to_string(), "password1".to_string()).is_ok());
    assert!(b.sign_up("bob".to_string(), "password2".to_string()).is_ok());
    let bob_token = b.log_in("bob".to_string(), "password2".to_string()).unwrap();
    let r = b.do_post(
        "alice".to_string(),
        bob_token,
        "a title".to_string(),
        "a body".to_string(),
        Some(vec!["tag1".to_string()]),
        false,
    );
    assert_eq!(r, PostResult::Refuse);
    assert_eq!(b.store.posts.len(), 0);
}

#[test]
fn post_with_forged_token_is_refused() {
    let mut b = backend();
    let r = b.do_post(
        "alice".to_string(),
        "for.ged.token".to_string(),
        "a title".to_string(),
        "a body".to_string(),
        Some(vec![]),
        false,
    );
    assert_eq!(r, PostResult::Refuse);
    assert_eq!(b.store.posts.len(), 0);
}

#[test]
fn apply_post_accepts_exactly_when_authorized() {
    let mut b = backend();
    let refused = b.apply_post(
        false,
        "alice".to_string(),
        "a title".to_string(),
        "a body".to_string(),
        Some(vec!["tag1".to_string()]),
        true,
    );
    assert_eq!(refused, PostResult::Refuse);
    assert_eq!(b.store.posts.len(), 0);
    let accepted = b.apply_post(
        true,
        "alice".to_string(),
        "a title".to_string(),
        "a body".to_string(),
        Some(vec!["tag1".to_string()]),
        true,
    );
    assert_eq!(accepted, PostResult::Accepted);
    assert_eq!(b.store.posts.len(), 1);
    assert_eq!(b.store.posts[0].name, "alice");
    assert!(b.store.posts[0].is_advanced);
    assert!(b.store.posts[0].comment.is_empty());
}

#[test]
fn sign_up_then_post_end_to_end() {
    let mut b = backend();
    let tok = b.sign_up("ruby".to_string(), "passw0rd".to_string()).unwrap();
    let r = b.do_post(
        "ruby".to_string(),
        tok,
        "title".to_string(),
        "body".to_string(),
        Some(vec!["tag1".to_string()]),
        false,
    );
    assert_eq!(r, PostResult::Accepted);
    assert_eq!(b.store.posts.len(), 1);
    let post = &b.store.posts[0];
    assert_eq!(post.name, "ruby");
    assert_eq!(post.title, "title");
    assert_eq!(post.body, "body");
    assert_eq!(post.tag, vec!["tag1".to_string()]);
    assert!(!post.is_advanced);
    assert!(post.comment.is_empty());
}
