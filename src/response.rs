use vstd::prelude::*;
use crate::error::ResolveError;
use crate::json::{Json, lookup, find_field, parse_json, json_text_value};

verus! {

/// A repository as a listing shows it.
#[derive(Debug)]
pub struct RepoInfo {
    pub full_name: String,
    pub description: Option<String>,
}

/// What a `RepoInfo` holds.
pub ghost struct RepoView {
    pub full_name: Seq<char>,
    pub description: Option<Seq<char>>,
}

impl View for RepoInfo {
    type V = RepoView;

    open spec fn view(&self) -> RepoView {
        RepoView {
            full_name: self.full_name@,
            description: match self.description {
                Some(d) => Some(d@),
                None => None,
            },
        }
    }
}

impl RepoInfo {
    pub fn new(full_name: String, description: Option<String>) -> (r: RepoInfo)
        ensures
            r.full_name == full_name,
            r.description == description,
    {
        RepoInfo { full_name, description }
    }
}

/// An account as a user search lists it.
#[derive(Debug)]
pub struct UserInfo {
    pub login: String,
}

impl UserInfo {
    pub fn new(login: String) -> (r: UserInfo)
        ensures
            r.login == login,
    {
        UserInfo { login }
    }
}

pub open spec fn repos_view(s: Seq<RepoInfo>) -> Seq<RepoView> {
    s.map_values(|r: RepoInfo| r@)
}

pub open spec fn logins_view(s: Seq<UserInfo>) -> Seq<Seq<char>> {
    s.map_values(|u: UserInfo| u.login@)
}

/// The items of a search result: accounts or repositories.
#[derive(Debug)]
pub enum Infos {
    Users(Vec<UserInfo>),
    Repos(Vec<RepoInfo>),
}

pub ghost enum InfosView {
    Users(Seq<Seq<char>>),
    Repos(Seq<RepoView>),
}

impl View for Infos {
    type V = InfosView;

    open spec fn view(&self) -> InfosView {
        match self {
            Infos::Users(us) => InfosView::Users(logins_view(us@)),
            Infos::Repos(rs) => InfosView::Repos(repos_view(rs@)),
        }
    }
}

/// A search result with its metadata.
#[derive(Debug)]
pub struct SearchResponse {
    pub total_count: i64,
    pub incomplete_results: bool,
    pub items: Infos,
}

/// A response of the API: a plain list of repositories, or a search result.
#[derive(Debug)]
pub enum Response {
    Direct(Vec<RepoInfo>),
    Search(SearchResponse),
}

pub ghost enum ResponseView {
    Direct(Seq<RepoView>),
    Search { total_count: i64, incomplete_results: bool, items: InfosView },
}

impl View for Response {
    type V = ResponseView;

    open spec fn view(&self) -> ResponseView {
        match self {
            Response::Direct(rs) => ResponseView::Direct(repos_view(rs@)),
            Response::Search(s) => ResponseView::Search {
                total_count: s.total_count,
                incomplete_results: s.incomplete_results,
                items: s.items@,
            },
        }
    }
}

pub const FULL_NAME: &'static str = "full_name";
pub const DESCRIPTION: &'static str = "description";
pub const LOGIN: &'static str = "login";
pub const TOTAL_COUNT: &'static str = "total_count";
pub const INCOMPLETE_RESULTS: &'static str = "incomplete_results";
pub const ITEMS: &'static str = "items";

/// The repository that an object describes: it names it under a string `full_name`, and
/// has a string `description`, a null one, or none. Other members are ignored.
pub open spec fn repo_of(j: Json) -> Option<RepoView> {
    match j {
        Json::Object(fs) => match lookup(fs@, FULL_NAME@) {
            Some(Json::Str(n)) => match lookup(fs@, DESCRIPTION@) {
                None => Some(RepoView { full_name: n@, description: None }),
                Some(Json::Null) => Some(RepoView { full_name: n@, description: None }),
                Some(Json::Str(d)) => Some(RepoView { full_name: n@, description: Some(d@) }),
                _ => None,
            },
            _ => None,
        },
        _ => None,
    }
}

/// The account that an object describes: it has a string `login`.
pub open spec fn login_of(j: Json) -> Option<Seq<char>> {
    match j {
        Json::Object(fs) => match lookup(fs@, LOGIN@) {
            Some(Json::Str(l)) => Some(l@),
            _ => None,
        },
        _ => None,
    }
}

/// An array whose every element describes a repository.
pub open spec fn repo_list_of(j: Json) -> Option<Seq<RepoView>> {
    match j {
        Json::Array(v) => if forall|i: int| 0 <= i < v@.len() ==> (#[trigger] repo_of(v@[i])) is Some {
            Some(v@.map_values(|x: Json| repo_of(x)->0))
        } else {
            None
        },
        _ => None,
    }
}

/// An array whose every element describes an account.
pub open spec fn user_list_of(j: Json) -> Option<Seq<Seq<char>>> {
    match j {
        Json::Array(v) => if forall|i: int| 0 <= i < v@.len() ==> (#[trigger] login_of(v@[i])) is Some {
            Some(v@.map_values(|x: Json| login_of(x)->0))
        } else {
            None
        },
        _ => None,
    }
}

/// The items of a search: read as repositories first, then as accounts.
pub open spec fn items_of(j: Json) -> Option<InfosView> {
    match repo_list_of(j) {
        Some(rs) => Some(InfosView::Repos(rs)),
        None => match user_list_of(j) {
            Some(us) => Some(InfosView::Users(us)),
            None => None,
        },
    }
}

/// A search result: an object with an integer `total_count`, a boolean
/// `incomplete_results` and `items` that read as repositories or accounts.
pub open spec fn search_of(j: Json) -> Option<ResponseView> {
    match j {
        Json::Object(fs) => match (
            lookup(fs@, TOTAL_COUNT@),
            lookup(fs@, INCOMPLETE_RESULTS@),
            lookup(fs@, ITEMS@),
        ) {
            (Some(Json::Number(Some(n))), Some(Json::Bool(b)), Some(it)) => match items_of(it) {
                Some(items) => Some(ResponseView::Search { total_count: n, incomplete_results: b, items }),
                None => None,
            },
            _ => None,
        },
        _ => None,
    }
}

/// The shape of a response: a plain list of repositories is tried first, a search
/// result second.
pub open spec fn response_of(j: Json) -> Option<ResponseView> {
    match repo_list_of(j) {
        Some(rs) => Some(ResponseView::Direct(rs)),
        None => search_of(j),
    }
}

fn text_of(j: Option<&Json>) -> (r: Option<String>)
    ensures
        match j {
            Some(Json::Str(s)) => r == Some(*s),
            _ => r is None,
        },
{
    match j {
        Some(Json::Str(s)) => Some(s.clone()),
        _ => None,
    }
}

/// Reads the repository that `j` describes.
pub fn parse_repo(j: &Json) -> (r: Option<RepoInfo>)
    ensures
        match r {
            Some(x) => repo_of(*j) == Some(x@),
            None => repo_of(*j) is None,
        },
{
    match j {
        Json::Object(fs) => {
            let full_name = match text_of(find_field(fs, FULL_NAME)) {
                Some(n) => n,
                None => return None,
            };
            match find_field(fs, DESCRIPTION) {
                None => Some(RepoInfo { full_name, description: None }),
                Some(Json::Null) => Some(RepoInfo { full_name, description: None }),
                Some(Json::Str(d)) => Some(RepoInfo { full_name, description: Some(d.clone()) }),
                _ => None,
            }
        },
        _ => None,
    }
}

/// Reads the account that `j` describes.
pub fn parse_user(j: &Json) -> (r: Option<UserInfo>)
    ensures
        match r {
            Some(u) => login_of(*j) == Some(u.login@),
            None => login_of(*j) is None,
        },
{
    match j {
        Json::Object(fs) => match text_of(find_field(fs, LOGIN)) {
            Some(login) => Some(UserInfo { login }),
            None => None,
        },
        _ => None,
    }
}

/// Reads `j` as an array of repositories.
pub fn parse_repo_list(j: &Json) -> (r: Option<Vec<RepoInfo>>)
    ensures
        match r {
            Some(rs) => repo_list_of(*j) == Some(repos_view(rs@)),
            None => repo_list_of(*j) is None,
        },
{
    match j {
        Json::Array(v) => {
            let mut out: Vec<RepoInfo> = Vec::new();
            let mut i: usize = 0;
            while i < v.len()
                invariant
                    *j == Json::Array(*v),
                    i <= v.len(),
                    out@.len() == i,
                    forall|k: int| 0 <= k < i ==> repo_of(v@[k]) == Some(#[trigger] out@[k]@),
                decreases v.len() - i,
            {
                match parse_repo(&v[i]) {
                    Some(x) => out.push(x),
                    None => {
                        assert(repo_of(v@[i as int]) is None);
                        return None;
                    },
                }
                i = i + 1;
            }
            assert forall|k: int| 0 <= k < v@.len() implies (#[trigger] repo_of(v@[k])) is Some by {
                assert(repo_of(v@[k]) == Some(out@[k]@));
            }
            assert(repos_view(out@) =~= v@.map_values(|x: Json| repo_of(x)->0));
            Some(out)
        },
        _ => None,
    }
}

/// Reads `j` as an array of accounts.
pub fn parse_user_list(j: &Json) -> (r: Option<Vec<UserInfo>>)
    ensures
        match r {
            Some(us) => user_list_of(*j) == Some(logins_view(us@)),
            None => user_list_of(*j) is None,
        },
{
    match j {
        Json::Array(v) => {
            let mut out: Vec<UserInfo> = Vec::new();
            let mut i: usize = 0;
            while i < v.len()
                invariant
                    *j == Json::Array(*v),
                    i <= v.len(),
                    out@.len() == i,
                    forall|k: int| 0 <= k < i ==> login_of(v@[k]) == Some(#[trigger] out@[k].login@),
                decreases v.len() - i,
            {
                match parse_user(&v[i]) {
                    Some(u) => out.push(u),
                    None => {
                        assert(login_of(v@[i as int]) is None);
                        return None;
                    },
                }
                i = i + 1;
            }
            assert forall|k: int| 0 <= k < v@.len() implies (#[trigger] login_of(v@[k])) is Some by {
                assert(login_of(v@[k]) == Some(out@[k].login@));
            }
            assert(logins_view(out@) =~= v@.map_values(|x: Json| login_of(x)->0));
            Some(out)
        },
        _ => None,
    }
}


/// Reads the items of a search: as repositories first, then as accounts.
pub fn parse_items(j: &Json) -> (r: Option<Infos>)
    ensures
        match r {
            Some(x) => items_of(*j) == Some(x@),
            None => items_of(*j) is None,
        },
{
    match parse_repo_list(j) {
        Some(rs) => Some(Infos::Repos(rs)),
        None => match parse_user_list(j) {
            Some(us) => Some(Infos::Users(us)),
            None => None,
        },
    }
}

/// Reads `j` as a search result.
pub fn parse_search(j: &Json) -> (r: Option<SearchResponse>)
    ensures
        match r {
            Some(s) => search_of(*j) == Some(Response::Search(s)@),
            None => search_of(*j) is None,
        },
{
    match j {
        Json::Object(fs) => {
            let total_count = match find_field(fs, TOTAL_COUNT) {
                Some(Json::Number(Some(n))) => *n,
                _ => return None,
            };
            let incomplete_results = match find_field(fs, INCOMPLETE_RESULTS) {
                Some(Json::Bool(b)) => *b,
                _ => return None,
            };
            let items = match find_field(fs, ITEMS) {
                Some(it) => match parse_items(it) {
                    Some(items) => items,
                    None => return None,
                },
                None => return None,
            };
            Some(SearchResponse { total_count, incomplete_results, items })
        },
        _ => None,
    }
}

/// Works out the shape of a response: a plain list of repositories is tried first, a
/// search result second.
pub fn classify(j: &Json) -> (r: Option<Response>)
    ensures
        match r {
            Some(x) => response_of(*j) == Some(x@),
            None => response_of(*j) is None,
        },
{
    match parse_repo_list(j) {
        Some(rs) => Some(Response::Direct(rs)),
        None => match parse_search(j) {
            Some(s) => Some(Response::Search(s)),
            None => None,
        },
    }
}

/// The shape of the body `text`, or `Unrecognized`.
pub open spec fn body_shape(text: Seq<char>) -> Result<ResponseView, ResolveError> {
    match json_text_value(text) {
        Some(j) => match response_of(j) {
            Some(v) => Ok(v),
            None => Err(ResolveError::Unrecognized),
        },
        None => Err(ResolveError::Unrecognized),
    }
}

/// The repositories that the body of a listing request holds: `from_search` tells a
/// repository search from an owner's listing. A body of the other shape is `WrongShape`.
pub open spec fn repos_from(from_search: bool, text: Seq<char>) -> Result<Seq<RepoView>, ResolveError> {
    match body_shape(text) {
        Ok(ResponseView::Direct(rs)) => if from_search {
            Err(ResolveError::WrongShape)
        } else {
            Ok(rs)
        },
        Ok(ResponseView::Search { items, .. }) => if from_search {
            match items {
                InfosView::Repos(rs) => Ok(rs),
                InfosView::Users(_) => Err(ResolveError::WrongShape),
            }
        } else {
            Err(ResolveError::WrongShape)
        },
        Err(e) => Err(e),
    }
}

/// The accounts that the body of a user search holds.
pub open spec fn users_from(text: Seq<char>) -> Result<Seq<Seq<char>>, ResolveError> {
    match body_shape(text) {
        Ok(ResponseView::Search { items: InfosView::Users(us), .. }) => Ok(us),
        Ok(_) => Err(ResolveError::WrongShape),
        Err(e) => Err(e),
    }
}

fn read_body(body: &str) -> (r: Result<Response, ResolveError>)
    ensures
        match r {
            Ok(x) => body_shape(body@) == Ok::<ResponseView, ResolveError>(x@),
            Err(e) => body_shape(body@) == Err::<ResponseView, ResolveError>(e),
        },
{
    match parse_json(body) {
        Some(j) => match classify(&j) {
            Some(x) => Ok(x),
            None => Err(ResolveError::Unrecognized),
        },
        None => Err(ResolveError::Unrecognized),
    }
}

/// Reads the repositories out of the body of a listing request.
pub fn decode_repos(from_search: bool, body: &str) -> (r: Result<Vec<RepoInfo>, ResolveError>)
    ensures
        match r {
            Ok(rs) => repos_from(from_search, body@) == Ok::<Seq<RepoView>, ResolveError>(repos_view(rs@)),
            Err(e) => repos_from(from_search, body@) == Err::<Seq<RepoView>, ResolveError>(e),
        },
{
    match read_body(body) {
        Ok(Response::Direct(rs)) => if from_search {
            Err(ResolveError::WrongShape)
        } else {
            Ok(rs)
        },
        Ok(Response::Search(s)) => if from_search {
            match s.items {
                Infos::Repos(rs) => Ok(rs),
                Infos::Users(_) => Err(ResolveError::WrongShape),
            }
        } else {
            Err(ResolveError::WrongShape)
        },
        Err(e) => Err(e),
    }
}

/// Reads the accounts out of the body of a user search.
pub fn decode_users(body: &str) -> (r: Result<Vec<UserInfo>, ResolveError>)
    ensures
        match r {
            Ok(us) => users_from(body@) == Ok::<Seq<Seq<char>>, ResolveError>(logins_view(us@)),
            Err(e) => users_from(body@) == Err::<Seq<Seq<char>>, ResolveError>(e),
        },
{
    match read_body(body) {
        Ok(Response::Search(s)) => match s.items {
            Infos::Users(us) => Ok(us),
            Infos::Repos(_) => Err(ResolveError::WrongShape),
        },
        Ok(Response::Direct(_)) => Err(ResolveError::WrongShape),
        Err(e) => Err(e),
    }
}


/// A body that is a plain array of repository objects reads as a plain listing: the
/// search shape is never tried on it, and an owner's listing takes its repositories as
/// they stand, while a repository search refuses it as the wrong shape.
pub proof fn lemma_direct_listing_stays_direct(text: Seq<char>)
    ensures
        match json_text_value(text) {
            Some(j) => repo_list_of(j) is Some ==> {
                &&& response_of(j) == Some(ResponseView::Direct(repo_list_of(j)->0))
                &&& body_shape(text) == Ok::<ResponseView, ResolveError>(ResponseView::Direct(repo_list_of(j)->0))
                &&& repos_from(false, text) == Ok::<Seq<RepoView>, ResolveError>(repo_list_of(j)->0)
                &&& repos_from(true, text) == Err::<Seq<RepoView>, ResolveError>(ResolveError::WrongShape)
            },
            None => true,
        },
{
}

/// An object that has a string `login` and no `full_name` member.
pub open spec fn is_login_only(j: Json) -> bool {
    &&& login_of(j) is Some
    &&& match j {
        Json::Object(fs) => lookup(fs@, FULL_NAME@) is None,
        _ => false,
    }
}

/// Search items that are all objects with a string `login` and no `full_name` read as
/// accounts, never as repositories, as long as there is at least one of them (an empty
/// array reads as repositories, which are tried first).
pub proof fn lemma_login_items_are_users(items: Json)
    requires
        items is Array,
        items->Array_0@.len() > 0,
        forall|i: int| 0 <= i < items->Array_0@.len() ==> #[trigger] is_login_only(items->Array_0@[i]),
    ensures
        items_of(items) == Some(InfosView::Users(user_list_of(items)->0)),
        user_list_of(items) is Some,
        repo_list_of(items) is None,
{
    let v = items->Array_0@;
    assert(is_login_only(v[0]));
    assert(repo_of(v[0]) is None);
    assert forall|i: int| 0 <= i < v.len() implies (#[trigger] login_of(v[i])) is Some by {
        assert(is_login_only(v[i]));
    }
}

} // verus!
