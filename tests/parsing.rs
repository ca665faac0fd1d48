use git_repo_clone::error::ResolveError;
use git_repo_clone::json::{parse_json, Json};
use git_repo_clone::response::{classify, decode_repos, decode_users, Infos, Response};
use git_repo_clone::text::{decimal_string, split_last_slash, token_of};

const DIRECT_BODY: &str =
    r#"[{"full_name":"octocat/Hello-World","description":"My first repo","fork":false},{"full_name":"octocat/Spoon-Knife","description":null}]"#;
const USER_SEARCH_BODY: &str = r#"{"total_count":2,"incomplete_results":false,"items":[{"login":"octocat","id":1},{"login":"octo-org","id":2}]}"#;
const REPO_SEARCH_BODY: &str = r#"{"total_count":1,"incomplete_results":true,"items":[{"full_name":"octocat/world","owner":{"login":"octocat"}}]}"#;

#[test]
fn decimal_digits() {
    assert_eq!(decimal_string(0), "0");
    assert_eq!(decimal_string(7), "7");
    assert_eq!(decimal_string(30), "30");
    assert_eq!(decimal_string(100), "100");
    assert_eq!(decimal_string(4294967295), "4294967295");
}

#[test]
fn token_is_first_non_blank_run() {
    assert_eq!(token_of("octocat/Hello-World     My first repo").as_deref(), Some("octocat/Hello-World"));
    assert_eq!(token_of("  \tfoo/bar baz").as_deref(), Some("foo/bar"));
    assert_eq!(token_of("a/b\u{3000}c").as_deref(), Some("a/b"));
    assert_eq!(token_of("solo").as_deref(), Some("solo"));
    assert_eq!(token_of("   \n"), None);
    assert_eq!(token_of(""), None);
}

#[test]
fn split_at_last_slash() {
    assert_eq!(split_last_slash("octocat/Hello-World"), Some(("octocat".to_string(), "Hello-World".to_string())));
    assert_eq!(split_last_slash("a/b/c"), Some(("a/b".to_string(), "c".to_string())));
    assert_eq!(split_last_slash("owner/"), Some(("owner".to_string(), String::new())));
    assert_eq!(split_last_slash("noslash"), None);
}

#[test]
fn json_model_keeps_values() {
    match parse_json(r#"{"b":[1,-2,1.5,true,null,"x"],"a":{}}"#) {
        Some(Json::Object(fields)) => {
            assert_eq!(fields.len(), 2);
            assert_eq!(fields[0].0, "a");
            assert_eq!(fields[1].0, "b");
            match &fields[1].1 {
                Json::Array(v) => {
                    assert_eq!(v.len(), 6);
                    assert!(matches!(v[0], Json::Number(Some(1))));
                    assert!(matches!(v[1], Json::Number(Some(-2))));
                    assert!(matches!(v[2], Json::Number(None)));
                    assert!(matches!(v[3], Json::Bool(true)));
                    assert!(matches!(v[4], Json::Null));
                    assert!(matches!(&v[5], Json::Str(s) if s == "x"));
                }
                other => panic!("unexpected {:?}", other),
            }
        }
        other => panic!("unexpected {:?}", other),
    }
    assert!(parse_json("not json").is_none());
    assert!(parse_json("[1] trailing").is_none());
}

#[test]
fn direct_body_classifies_as_direct() {
    let j = parse_json(DIRECT_BODY).unwrap();
    match classify(&j) {
        Some(Response::Direct(repos)) => {
            assert_eq!(repos.len(), 2);
            assert_eq!(repos[0].full_name, "octocat/Hello-World");
            assert_eq!(repos[0].description.as_deref(), Some("My first repo"));
            assert_eq!(repos[1].full_name, "octocat/Spoon-Knife");
            assert_eq!(repos[1].description, None);
        }
        other => panic!("unexpected {:?}", other),
    }
}

#[test]
fn direct_body_never_read_as_search() {
    assert_eq!(decode_repos(false, DIRECT_BODY).unwrap().len(), 2);
    assert_eq!(decode_repos(true, DIRECT_BODY).unwrap_err(), ResolveError::WrongShape);
    assert_eq!(decode_users(DIRECT_BODY).unwrap_err(), ResolveError::WrongShape);
}

#[test]
fn login_items_classify_as_users() {
    let j = parse_json(USER_SEARCH_BODY).unwrap();
    match classify(&j) {
        Some(Response::Search(s)) => {
            assert_eq!(s.total_count, 2);
            assert!(!s.incomplete_results);
            match s.items {
                Infos::Users(users) => {
                    assert_eq!(users.len(), 2);
                    assert_eq!(users[0].login, "octocat");
                    assert_eq!(users[1].login, "octo-org");
                }
                Infos::Repos(_) => panic!("read as repositories"),
            }
        }
        other => panic!("unexpected {:?}", other),
    }
    let users = decode_users(USER_SEARCH_BODY).unwrap();
    assert_eq!(users.len(), 2);
    assert_eq!(decode_repos(true, USER_SEARCH_BODY).unwrap_err(), ResolveError::WrongShape);
}

#[test]
fn repo_search_items_read_as_repos() {
    let repos = decode_repos(true, REPO_SEARCH_BODY).unwrap();
    assert_eq!(repos.len(), 1);
    assert_eq!(repos[0].full_name, "octocat/world");
    assert_eq!(repos[0].description, None);
    assert_eq!(decode_repos(false, REPO_SEARCH_BODY).unwrap_err(), ResolveError::WrongShape);
    assert_eq!(decode_users(REPO_SEARCH_BODY).unwrap_err(), ResolveError::WrongShape);
}

#[test]
fn empty_items_read_as_repos() {
    let body = r#"{"total_count":0,"incomplete_results":false,"items":[]}"#;
    assert_eq!(decode_repos(true, body).unwrap().len(), 0);
    assert_eq!(decode_users(body).unwrap_err(), ResolveError::WrongShape);
}

#[test]
fn unrecognized_bodies() {
    assert_eq!(decode_repos(false, "<html>").unwrap_err(), ResolveError::Unrecognized);
    assert_eq!(decode_repos(false, r#"{"message":"Not Found"}"#).unwrap_err(), ResolveError::Unrecognized);
    assert_eq!(decode_repos(false, r#"[{"name":"x"}]"#).unwrap_err(), ResolveError::Unrecognized);
    assert_eq!(decode_repos(false, r#"[{"full_name":"a/b","description":3}]"#).unwrap_err(), ResolveError::Unrecognized);
    assert_eq!(
        decode_users(r#"{"total_count":"2","incomplete_results":false,"items":[]}"#).unwrap_err(),
        ResolveError::Unrecognized
    );
    assert_eq!(
        decode_users(r#"{"total_count":1,"incomplete_results":false,"items":[{"id":1}]}"#).unwrap_err(),
        ResolveError::Unrecognized
    );
}
