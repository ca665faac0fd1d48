use git_repo_clone::config::{merge_config, OptionGiven};
use git_repo_clone::error::ResolveError;
use git_repo_clone::resolve::{first_request, select_row, DefaultConfig, Endpoint, Row, SearchInputs};
use git_repo_clone::selection::{plan_clone, CloneOptions};
use git_repo_clone::session::{exit_code, Action, Event, Outcome, Phase, Session};

fn text(s: &str) -> Option<String> {
    Some(s.to_string())
}

fn inputs(repository: Option<String>, owner: Option<String>, owner_search: Option<String>) -> SearchInputs {
    SearchInputs { repository, owner, owner_search, limit: 30 }
}

fn no_defaults() -> DefaultConfig {
    DefaultConfig { clone_path: None, username: None }
}

fn options() -> CloneOptions {
    CloneOptions { path: None, default_path: None, current_dir: "/home/me/src".to_string(), new_name: None }
}

fn fetched(body: &str) -> Event {
    Event::Fetched { status: 200, body: body.to_string() }
}

#[test]
fn each_combination_selects_one_row() {
    assert_eq!(select_row(&inputs(None, None, text("o"))), Row::OwnerSearchList);
    assert_eq!(select_row(&inputs(text("r"), None, text("o"))), Row::OwnerSearchRepos);
    assert_eq!(select_row(&inputs(text("r"), None, None)), Row::RepoSearch);
    assert_eq!(select_row(&inputs(None, text("w"), None)), Row::OwnerList);
    assert_eq!(select_row(&inputs(text("r"), text("w"), None)), Row::OwnerRepoSearch);
    assert_eq!(select_row(&inputs(None, None, None)), Row::DefaultUser);
}

#[test]
fn first_requests_per_row() {
    let d = no_defaults();
    let q = first_request(&inputs(text("rust"), None, None), &d).unwrap();
    assert_eq!(q.url, "https://api.github.com/search/repositories?q=rust&per_page=30");
    assert_eq!(q.endpoint, Endpoint::RepoSearch);
    let q = first_request(&inputs(text("world"), text("octocat"), None), &d).unwrap();
    assert_eq!(q.url, "https://api.github.com/search/repositories?q=octocat/world&per_page=30");
    let with_user = DefaultConfig { clone_path: None, username: text("me") };
    let q = first_request(&inputs(None, None, None), &with_user).unwrap();
    assert_eq!(q.url, "https://api.github.com/users/me/repos?per_page=30");
    assert_eq!(q.endpoint, Endpoint::OwnerRepos);
    let mut big = inputs(None, text("octocat"), None);
    big.limit = 100;
    assert_eq!(first_request(&big, &d).unwrap().url, "https://api.github.com/users/octocat/repos?per_page=100");
}

#[test]
fn owner_listing_scenario() {
    let (mut s, action) = Session::start(inputs(None, text("octocat"), None), no_defaults(), options());
    match action {
        Action::Fetch(q) => {
            assert_eq!(q.url, "https://api.github.com/users/octocat/repos?per_page=30");
            assert_eq!(q.endpoint, Endpoint::OwnerRepos);
        }
        other => panic!("unexpected {:?}", other),
    }
    assert_eq!(s.phase, Phase::AwaitRepos(Endpoint::OwnerRepos));
    let body = r#"[{"full_name":"octocat/Hello-World","description":"My first repo"}]"#;
    match s.step(fetched(body)) {
        Action::Pick(listing) => {
            assert_eq!(listing, format!("octocat/Hello-World{}My first repo\n", " ".repeat(14)));
        }
        other => panic!("unexpected {:?}", other),
    }
    assert_eq!(s.phase, Phase::PickRepo);
    match s.step(Event::Picked(format!("octocat/Hello-World{}My first repo", " ".repeat(14)))) {
        Action::Clone(c) => {
            assert_eq!(c.url, "https://github.com/octocat/Hello-World");
            assert_eq!(c.destination, "/home/me/src/Hello-World");
        }
        other => panic!("unexpected {:?}", other),
    }
    assert_eq!(s.phase, Phase::Done);
}

#[test]
fn owner_search_scenario() {
    let (mut s, action) = Session::start(inputs(text("world"), None, text("octo")), no_defaults(), options());
    match action {
        Action::Fetch(q) => {
            assert_eq!(q.url, "https://api.github.com/search/users?q=octo&per_page=30");
            assert_eq!(q.endpoint, Endpoint::UserSearch);
        }
        other => panic!("unexpected {:?}", other),
    }
    let users = r#"{"total_count":2,"incomplete_results":false,"items":[{"login":"octocat"},{"login":"octo-org"}]}"#;
    match s.step(fetched(users)) {
        Action::Pick(listing) => assert_eq!(listing, "octocat\nocto-org\n"),
        other => panic!("unexpected {:?}", other),
    }
    match s.step(Event::Picked("octocat".to_string())) {
        Action::Fetch(q) => {
            assert_eq!(q.url, "https://api.github.com/search/repositories?q=octocat/world&per_page=30");
            assert_eq!(q.endpoint, Endpoint::RepoSearch);
        }
        other => panic!("unexpected {:?}", other),
    }
    let repos = r#"{"total_count":1,"incomplete_results":false,"items":[{"full_name":"octocat/world","description":"hi"}]}"#;
    match s.step(fetched(repos)) {
        Action::Pick(listing) => assert_eq!(listing, format!("{: <30}   hi\n", "octocat/world")),
        other => panic!("unexpected {:?}", other),
    }
}

#[test]
fn owner_search_without_repository_lists_the_account() {
    let (mut s, _) = Session::start(inputs(None, None, text("octo")), no_defaults(), options());
    let users = r#"{"total_count":1,"incomplete_results":false,"items":[{"login":"octocat"}]}"#;
    s.step(fetched(users));
    match s.step(Event::Picked("octocat".to_string())) {
        Action::Fetch(q) => {
            assert_eq!(q.url, "https://api.github.com/users/octocat/repos?per_page=30");
            assert_eq!(q.endpoint, Endpoint::OwnerRepos);
        }
        other => panic!("unexpected {:?}", other),
    }
}

#[test]
fn no_owner_fails_before_any_request() {
    let (s, action) = Session::start(inputs(None, None, None), no_defaults(), options());
    match action {
        Action::Stop(o) => {
            assert_eq!(o, Outcome::Failed(ResolveError::MissingOwner));
            assert_ne!(exit_code(&o), 0);
        }
        other => panic!("unexpected {:?}", other),
    }
    assert_eq!(s.phase, Phase::Done);
}

#[test]
fn cancel_stops_with_status_one() {
    let (mut s, _) = Session::start(inputs(text("rust"), None, None), no_defaults(), options());
    let body = r#"{"total_count":1,"incomplete_results":false,"items":[{"full_name":"a/b"}]}"#;
    assert!(matches!(s.step(fetched(body)), Action::Pick(_)));
    match s.step(Event::Cancelled) {
        Action::Stop(o) => {
            assert_eq!(o, Outcome::Cancelled);
            assert_eq!(exit_code(&o), 1);
        }
        other => panic!("unexpected {:?}", other),
    }
    match s.step(Event::Picked("a/b".to_string())) {
        Action::Stop(o) => assert_eq!(o, Outcome::Failed(ResolveError::OutOfOrder)),
        other => panic!("unexpected {:?}", other),
    }
}

#[test]
fn cancel_at_owner_pick_ends_everything() {
    let (mut s, _) = Session::start(inputs(None, None, text("octo")), no_defaults(), options());
    let users = r#"{"total_count":1,"incomplete_results":false,"items":[{"login":"octocat"}]}"#;
    s.step(fetched(users));
    assert!(matches!(s.step(Event::Cancelled), Action::Stop(Outcome::Cancelled)));
    assert_eq!(s.phase, Phase::Done);
}

#[test]
fn transport_and_status_failures() {
    let (mut s, _) = Session::start(inputs(text("rust"), None, None), no_defaults(), options());
    assert!(matches!(
        s.step(Event::Fetched { status: 404, body: "{}".to_string() }),
        Action::Stop(Outcome::Failed(ResolveError::Status(404)))
    ));
    let (mut s, _) = Session::start(inputs(text("rust"), None, None), no_defaults(), options());
    assert!(matches!(s.step(Event::FetchFailed), Action::Stop(Outcome::Failed(ResolveError::Transport))));
    let (mut s, _) = Session::start(inputs(text("rust"), None, None), no_defaults(), options());
    assert!(matches!(s.step(Event::Cancelled), Action::Stop(Outcome::Failed(ResolveError::OutOfOrder))));
}

#[test]
fn wrong_shape_is_reported() {
    let (mut s, _) = Session::start(inputs(None, text("octocat"), None), no_defaults(), options());
    let search = r#"{"total_count":0,"incomplete_results":false,"items":[]}"#;
    assert!(matches!(s.step(fetched(search)), Action::Stop(Outcome::Failed(ResolveError::WrongShape))));
    let (mut s, _) = Session::start(inputs(None, text("octocat"), None), no_defaults(), options());
    assert!(matches!(s.step(fetched("oops")), Action::Stop(Outcome::Failed(ResolveError::Unrecognized))));
}

#[test]
fn clone_destination_precedence() {
    let line = "octocat/Hello-World              My first repo";
    let mut o = options();
    assert_eq!(plan_clone(line, &o).unwrap().destination, "/home/me/src/Hello-World");
    o.default_path = text("/srv/git/");
    assert_eq!(plan_clone(line, &o).unwrap().destination, "/srv/git/Hello-World");
    o.path = text("/tmp/x");
    assert_eq!(plan_clone(line, &o).unwrap().destination, "/tmp/x/Hello-World");
    o.new_name = text("hello");
    let c = plan_clone(line, &o).unwrap();
    assert_eq!(c.destination, "/tmp/x/hello");
    assert_eq!(c.url, "https://github.com/octocat/Hello-World");
}

#[test]
fn bad_selections() {
    assert_eq!(plan_clone("   ", &options()).unwrap_err(), ResolveError::BadSelection);
    assert_eq!(plan_clone("noslash  desc", &options()).unwrap_err(), ResolveError::BadSelection);
}

#[test]
fn merging_settings() {
    let stored = DefaultConfig { clone_path: text("/old"), username: text("old") };
    let m = merge_config(stored, text("new"), None);
    assert_eq!(m.username.as_deref(), Some("new"));
    assert_eq!(m.clone_path.as_deref(), Some("/old"));
    let m = merge_config(no_defaults(), None, text("/p"));
    assert_eq!(m.username, None);
    assert_eq!(m.clone_path.as_deref(), Some("/p"));
    assert_ne!(OptionGiven::Yes, OptionGiven::No);
}

#[test]
fn error_messages_are_not_empty() {
    for e in [
        ResolveError::MissingOwner,
        ResolveError::Transport,
        ResolveError::Status(500),
        ResolveError::Unrecognized,
        ResolveError::WrongShape,
        ResolveError::BadSelection,
        ResolveError::OutOfOrder,
    ] {
        assert!(!e.message().is_empty());
    }
}
