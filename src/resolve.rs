use vstd::prelude::*;
use crate::error::ResolveError;
use crate::text::{decimal, decimal_string};

verus! {

/// The view of an optional string.
pub open spec fn opt_view(o: Option<String>) -> Option<Seq<char>> {
    match o {
        Some(s) => Some(s@),
        None => None,
    }
}

/// What the command line asks to search for.
#[derive(Debug)]
pub struct SearchInputs {
    /// Free text to search repositories for.
    pub repository: Option<String>,
    /// The exact login of the account whose repositories to look at.
    pub owner: Option<String>,
    /// Text to search accounts for, one of which the user then picks.
    pub owner_search: Option<String>,
    /// How many results to ask for.
    pub limit: u32,
}

/// The settings kept between runs.
#[derive(Debug)]
pub struct DefaultConfig {
    pub clone_path: Option<String>,
    pub username: Option<String>,
}

/// The rows of the decision table that turns the given inputs into requests.
#[derive(PartialEq, Eq, Structural, Clone, Copy, Debug)]
pub enum Row {
    /// Search accounts, pick one, list its repositories.
    OwnerSearchList,
    /// Search accounts, pick one, search its repositories for the text.
    OwnerSearchRepos,
    /// Search all repositories for the text.
    RepoSearch,
    /// List the owner's repositories.
    OwnerList,
    /// Search the owner's repositories for the text.
    OwnerRepoSearch,
    /// List the repositories of the configured default user.
    DefaultUser,
}

/// Whether `row` applies when an owner search, a repository text and an owner are
/// given or not.
pub open spec fn row_applies(row: Row, owner_search: bool, repository: bool, owner: bool) -> bool {
    match row {
        Row::OwnerSearchList => owner_search && !repository,
        Row::OwnerSearchRepos => owner_search && repository,
        Row::RepoSearch => !owner_search && repository && !owner,
        Row::OwnerList => !owner_search && !repository && owner,
        Row::OwnerRepoSearch => !owner_search && repository && owner,
        Row::DefaultUser => !owner_search && !repository && !owner,
    }
}

/// The row chosen when the rows are tried in order and the first that applies wins.
pub open spec fn row_for(owner_search: bool, repository: bool, owner: bool) -> Row {
    if owner_search && !repository {
        Row::OwnerSearchList
    } else if owner_search && repository {
        Row::OwnerSearchRepos
    } else if repository && !owner {
        Row::RepoSearch
    } else if owner && !repository {
        Row::OwnerList
    } else if owner && repository {
        Row::OwnerRepoSearch
    } else {
        Row::DefaultUser
    }
}

pub open spec fn inputs_row(inputs: SearchInputs) -> Row {
    row_for(inputs.owner_search is Some, inputs.repository is Some, inputs.owner is Some)
}

/// Each combination of given inputs is covered by exactly one row of the decision
/// table, and that row is the one that the ordered reading picks.
pub proof fn lemma_exactly_one_row(owner_search: bool, repository: bool, owner: bool)
    ensures
        row_applies(row_for(owner_search, repository, owner), owner_search, repository, owner),
        forall|r: Row| #[trigger] row_applies(r, owner_search, repository, owner)
            ==> r == row_for(owner_search, repository, owner),
{
}

/// Picks the row of the decision table for `inputs`.
pub fn select_row(inputs: &SearchInputs) -> (r: Row)
    ensures
        r == inputs_row(*inputs),
{
    let os = inputs.owner_search.is_some();
    let rt = inputs.repository.is_some();
    let ow = inputs.owner.is_some();
    if os && !rt {
        Row::OwnerSearchList
    } else if os && rt {
        Row::OwnerSearchRepos
    } else if rt && !ow {
        Row::RepoSearch
    } else if ow && !rt {
        Row::OwnerList
    } else if ow && rt {
        Row::OwnerRepoSearch
    } else {
        Row::DefaultUser
    }
}

/// The endpoint families of the API, and what each answers with.
#[derive(PartialEq, Eq, Structural, Clone, Copy, Debug)]
pub enum Endpoint {
    /// `/users/{name}/repos`: a plain list of repositories.
    OwnerRepos,
    /// `/search/repositories`: a search result of repositories.
    RepoSearch,
    /// `/search/users`: a search result of accounts.
    UserSearch,
}

/// A request to make: its address and the endpoint it goes to.
#[derive(Debug)]
pub struct Request {
    pub url: String,
    pub endpoint: Endpoint,
}

pub ghost struct RequestView {
    pub url: Seq<char>,
    pub endpoint: Endpoint,
}

impl View for Request {
    type V = RequestView;

    open spec fn view(&self) -> RequestView {
        RequestView { url: self.url@, endpoint: self.endpoint }
    }
}

pub const OWNER_REPOS_PREFIX: &'static str = "https://api.github.com/users/";
pub const OWNER_REPOS_SUFFIX: &'static str = "/repos?per_page=";
pub const REPO_SEARCH_PREFIX: &'static str = "https://api.github.com/search/repositories?q=";
pub const USER_SEARCH_PREFIX: &'static str = "https://api.github.com/search/users?q=";
pub const PER_PAGE: &'static str = "&per_page=";
pub const SLASH: &'static str = "/";

/// `https://api.github.com/users/{name}/repos?per_page={limit}`
pub open spec fn owner_repos_url(name: Seq<char>, limit: u32) -> Seq<char> {
    OWNER_REPOS_PREFIX@ + name + OWNER_REPOS_SUFFIX@ + decimal(limit as nat)
}

/// `https://api.github.com/search/repositories?q={query}&per_page={limit}`
pub open spec fn repo_search_url(query: Seq<char>, limit: u32) -> Seq<char> {
    REPO_SEARCH_PREFIX@ + query + PER_PAGE@ + decimal(limit as nat)
}

/// `https://api.github.com/search/users?q={query}&per_page={limit}`
pub open spec fn user_search_url(query: Seq<char>, limit: u32) -> Seq<char> {
    USER_SEARCH_PREFIX@ + query + PER_PAGE@ + decimal(limit as nat)
}

/// `{owner}/{repository}`, a repository search scoped to one owner.
pub open spec fn scoped_query(owner: Seq<char>, repository: Seq<char>) -> Seq<char> {
    owner + SLASH@ + repository
}

/// Builds the address of an owner's repository listing.
pub fn owner_repos_request(name: &str, limit: u32) -> (r: Request)
    ensures
        r@ == (RequestView { url: owner_repos_url(name@, limit), endpoint: Endpoint::OwnerRepos }),
{
    let mut url = String::new();
    url.append(OWNER_REPOS_PREFIX);
    url.append(name);
    url.append(OWNER_REPOS_SUFFIX);
    let digits = decimal_string(limit);
    url.append(digits.as_str());
    Request { url, endpoint: Endpoint::OwnerRepos }
}

/// Builds the address of a repository search.
pub fn repo_search_request(query: &str, limit: u32) -> (r: Request)
    ensures
        r@ == (RequestView { url: repo_search_url(query@, limit), endpoint: Endpoint::RepoSearch }),
{
    let mut url = String::new();
    url.append(REPO_SEARCH_PREFIX);
    url.append(query);
    url.append(PER_PAGE);
    let digits = decimal_string(limit);
    url.append(digits.as_str());
    Request { url, endpoint: Endpoint::RepoSearch }
}

/// Builds the address of an account search.
pub fn user_search_request(query: &str, limit: u32) -> (r: Request)
    ensures
        r@ == (RequestView { url: user_search_url(query@, limit), endpoint: Endpoint::UserSearch }),
{
    let mut url = String::new();
    url.append(USER_SEARCH_PREFIX);
    url.append(query);
    url.append(PER_PAGE);
    let digits = decimal_string(limit);
    url.append(digits.as_str());
    Request { url, endpoint: Endpoint::UserSearch }
}

/// Builds the query of a repository search scoped to `owner`.
pub fn scoped(owner: &str, repository: &str) -> (r: String)
    ensures
        r@ == scoped_query(owner@, repository@),
{
    let mut q = String::new();
    q.append(owner);
    q.append(SLASH);
    q.append(repository);
    q
}


/// The first request for `inputs`: the account search when an owner search is given,
/// else the one request that lists the repositories; `MissingOwner` when nothing names
/// an account.
pub open spec fn first_request_of(inputs: SearchInputs, default_user: Option<Seq<char>>) -> Result<RequestView, ResolveError> {
    let limit = inputs.limit;
    match inputs_row(inputs) {
        Row::OwnerSearchList | Row::OwnerSearchRepos => Ok(RequestView {
            url: user_search_url(inputs.owner_search->0@, limit),
            endpoint: Endpoint::UserSearch,
        }),
        Row::RepoSearch => Ok(RequestView {
            url: repo_search_url(inputs.repository->0@, limit),
            endpoint: Endpoint::RepoSearch,
        }),
        Row::OwnerList => Ok(RequestView {
            url: owner_repos_url(inputs.owner->0@, limit),
            endpoint: Endpoint::OwnerRepos,
        }),
        Row::OwnerRepoSearch => Ok(RequestView {
            url: repo_search_url(scoped_query(inputs.owner->0@, inputs.repository->0@), limit),
            endpoint: Endpoint::RepoSearch,
        }),
        Row::DefaultUser => match default_user {
            Some(u) => Ok(RequestView { url: owner_repos_url(u, limit), endpoint: Endpoint::OwnerRepos }),
            None => Err(ResolveError::MissingOwner),
        },
    }
}

/// The request that follows the pick of `login` in an owner search: the account's
/// repositories, or a search of them when a repository text is given.
pub open spec fn owner_stage_request_of(inputs: SearchInputs, login: Seq<char>) -> RequestView {
    match inputs.repository {
        Some(rt) => RequestView {
            url: repo_search_url(scoped_query(login, rt@), inputs.limit),
            endpoint: Endpoint::RepoSearch,
        },
        None => RequestView { url: owner_repos_url(login, inputs.limit), endpoint: Endpoint::OwnerRepos },
    }
}

/// Builds the first request for `inputs`.
pub fn first_request(inputs: &SearchInputs, defaults: &DefaultConfig) -> (r: Result<Request, ResolveError>)
    ensures
        match r {
            Ok(q) => first_request_of(*inputs, opt_view(defaults.username)) == Ok::<RequestView, ResolveError>(q@),
            Err(e) => first_request_of(*inputs, opt_view(defaults.username)) == Err::<RequestView, ResolveError>(e),
        },
{
    let limit = inputs.limit;
    match (&inputs.owner_search, &inputs.repository, &inputs.owner) {
        (Some(term), _, _) => Ok(user_search_request(term.as_str(), limit)),
        (None, Some(rt), None) => Ok(repo_search_request(rt.as_str(), limit)),
        (None, None, Some(ow)) => Ok(owner_repos_request(ow.as_str(), limit)),
        (None, Some(rt), Some(ow)) => {
            let q = scoped(ow.as_str(), rt.as_str());
            Ok(repo_search_request(q.as_str(), limit))
        },
        (None, None, None) => match &defaults.username {
            Some(u) => Ok(owner_repos_request(u.as_str(), limit)),
            None => Err(ResolveError::MissingOwner),
        },
    }
}

/// Builds the request that follows the pick of `login` in an owner search.
pub fn owner_stage_request(inputs: &SearchInputs, login: &str) -> (r: Request)
    ensures
        r@ == owner_stage_request_of(*inputs, login@),
{
    match &inputs.repository {
        Some(rt) => {
            let q = scoped(login, rt.as_str());
            repo_search_request(q.as_str(), inputs.limit)
        },
        None => owner_repos_request(login, inputs.limit),
    }
}

} // verus!
