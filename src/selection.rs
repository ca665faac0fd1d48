use vstd::prelude::*;
use crate::error::ResolveError;
use crate::resolve::opt_view;
use crate::render::{repo_line, spaces, NAME_WIDTH};
use crate::response::RepoView;
use crate::text::{
    first_token, is_white_space, last_index_of, lemma_last_index_of_append,
    lemma_leading_run_concat, no_white_space, skip_white, split_last_slash, token_of,
};

verus! {

/// Where and under which name a chosen repository is cloned.
#[derive(Debug)]
pub struct CloneOptions {
    /// The parent directory given on the command line.
    pub path: Option<String>,
    /// The parent directory kept in the settings.
    pub default_path: Option<String>,
    /// The directory the command runs in.
    pub current_dir: String,
    /// A name for the clone in place of the repository's own.
    pub new_name: Option<String>,
}

/// A clone to run: `git clone {url} {destination}`, followed by the extra arguments
/// that the command line passes on.
#[derive(Debug)]
pub struct CloneCommand {
    pub url: String,
    pub destination: String,
}

pub ghost struct CloneView {
    pub url: Seq<char>,
    pub destination: Seq<char>,
}

impl View for CloneCommand {
    type V = CloneView;

    open spec fn view(&self) -> CloneView {
        CloneView { url: self.url@, destination: self.destination@ }
    }
}

pub const GITHUB: &'static str = "https://github.com/";
pub const SEPARATOR: &'static str = "/";

/// `s` without one trailing `/`.
pub open spec fn strip_slash(s: Seq<char>) -> Seq<char> {
    if s.len() > 0 && s.last() == '/' {
        s.drop_last()
    } else {
        s
    }
}

/// The parent directory: the one given on the command line, else the configured one,
/// else the current one, without a trailing `/`.
pub open spec fn parent_dir(path: Option<Seq<char>>, default_path: Option<Seq<char>>, current: Seq<char>) -> Seq<char> {
    strip_slash(
        match path {
            Some(p) => p,
            None => match default_path {
                Some(d) => d,
                None => current,
            },
        },
    )
}

/// The `owner/repo` token of a chosen line and the repository's name, the text after
/// its last `/`; `None` when the line has no token or the token no `/`.
pub open spec fn selection_of(line: Seq<char>) -> Option<(Seq<char>, Seq<char>)> {
    let t = first_token(line);
    let k = last_index_of(t, '/');
    if t.len() == 0 || k < 0 {
        None
    } else {
        Some((t, t.subrange(k + 1, t.len() as int)))
    }
}

/// The clone that a chosen line asks for.
pub open spec fn clone_of(line: Seq<char>, options: CloneOptions) -> Result<CloneView, ResolveError> {
    match selection_of(line) {
        Some((owner_repo, repo)) => Ok(CloneView {
            url: GITHUB@ + owner_repo,
            destination: parent_dir(opt_view(options.path), opt_view(options.default_path), options.current_dir@)
                + SEPARATOR@ + match options.new_name {
                Some(n) => n@,
                None => repo,
            },
        }),
        None => Err(ResolveError::BadSelection),
    }
}

/// Drops one trailing `/` from `s`.
pub fn without_trailing_slash(s: &str) -> (r: String)
    ensures
        r@ == strip_slash(s@),
{
    let n = s.unicode_len();
    if n > 0 && s.get_char(n - 1) == '/' {
        s.substring_char(0, n - 1).to_owned()
    } else {
        proof {
            assert(s@.subrange(0, n as int) =~= s@);
        }
        s.substring_char(0, n).to_owned()
    }
}

/// Picks the parent directory of a clone.
pub fn clone_parent(options: &CloneOptions) -> (r: String)
    ensures
        r@ == parent_dir(opt_view(options.path), opt_view(options.default_path), options.current_dir@),
{
    match &options.path {
        Some(p) => without_trailing_slash(p.as_str()),
        None => match &options.default_path {
            Some(d) => without_trailing_slash(d.as_str()),
            None => without_trailing_slash(options.current_dir.as_str()),
        },
    }
}

/// Reads the `owner/repo` token and the repository name out of a chosen line.
pub fn parse_selection(line: &str) -> (r: Option<(String, String)>)
    ensures
        match r {
            Some((t, n)) => selection_of(line@) == Some((t@, n@)),
            None => selection_of(line@) is None,
        },
{
    match token_of(line) {
        Some(t) => match split_last_slash(t.as_str()) {
            Some((_, name)) => Some((t, name)),
            None => None,
        },
        None => None,
    }
}

/// Plans the clone of the repository on a chosen line.
pub fn plan_clone(line: &str, options: &CloneOptions) -> (r: Result<CloneCommand, ResolveError>)
    ensures
        match r {
            Ok(c) => clone_of(line@, *options) == Ok::<CloneView, ResolveError>(c@),
            Err(e) => clone_of(line@, *options) == Err::<CloneView, ResolveError>(e),
        },
{
    match parse_selection(line) {
        Some((owner_repo, repo)) => {
            let mut url = String::new();
            url.append(GITHUB);
            url.append(owner_repo.as_str());
            let mut destination = clone_parent(options);
            destination.append(SEPARATOR);
            match &options.new_name {
                Some(n) => destination.append(n.as_str()),
                None => destination.append(repo.as_str()),
            }
            Ok(CloneCommand { url, destination })
        },
        None => Err(ResolveError::BadSelection),
    }
}


/// A rendered listing line gives back the repository it was written from: its first
/// token is the record's `owner/repo` name, and the text before and after the token's
/// last `/` are the owner and the repository, as long as neither holds white space and
/// the repository holds no `/`.
pub proof fn lemma_selection_round_trip(owner: Seq<char>, repo: Seq<char>, description: Option<Seq<char>>)
    requires
        no_white_space(owner),
        no_white_space(repo),
        forall|i: int| 0 <= i < repo.len() ==> repo[i] != '/',
    ensures
        ({
            let full_name = owner + seq!['/'] + repo;
            let line = repo_line(RepoView { full_name, description });
            &&& first_token(line) == full_name
            &&& last_index_of(full_name, '/') == owner.len()
            &&& full_name.subrange(0, owner.len() as int) == owner
            &&& selection_of(line) == Some((full_name, repo))
        }),
{
    let full_name = owner + seq!['/'] + repo;
    let r = RepoView { full_name, description };
    let d = match description {
        Some(d) => d,
        None => Seq::<char>::empty(),
    };
    let rest = if full_name.len() < NAME_WIDTH {
        spaces((NAME_WIDTH - full_name.len()) as nat) + spaces(3) + d + seq!['\n']
    } else {
        spaces(3) + d + seq!['\n']
    };
    let line = repo_line(r);
    assert(line =~= full_name + rest);
    assert(rest[0] == ' ');
    assert(is_white_space(' '));
    assert(no_white_space(full_name)) by {
        assert forall|i: int| 0 <= i < full_name.len() implies !is_white_space(#[trigger] full_name[i]) by {
            if i < owner.len() {
                assert(full_name[i] == owner[i]);
            } else if i > owner.len() {
                assert(full_name[i] == repo[i - owner.len() - 1]);
            } else {
                assert(full_name[i] == '/');
            }
        }
    }
    assert(!is_white_space(line[0])) by {
        assert(line[0] == full_name[0]);
    }
    assert(skip_white(line) == line);
    lemma_leading_run_concat(full_name, rest);
    lemma_last_index_of_append(owner + seq!['/'], repo, '/');
    assert((owner + seq!['/']).drop_last() =~= owner);
    assert(full_name.subrange(0, owner.len() as int) =~= owner);
    assert(full_name.subrange(owner.len() as int + 1, full_name.len() as int) =~= repo);
}

} // verus!
