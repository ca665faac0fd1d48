use vstd::prelude::*;
use crate::response::{RepoInfo, RepoView, UserInfo, repos_view, logins_view};

verus! {

/// The width of the name column of a repository listing.
pub const NAME_WIDTH: usize = 30;

pub open spec fn spaces(n: nat) -> Seq<char> {
    Seq::new(n, |i: int| ' ')
}

/// `s` followed by spaces up to `width` characters; longer text is kept whole.
pub open spec fn pad_right(s: Seq<char>, width: nat) -> Seq<char> {
    if s.len() < width {
        s + spaces((width - s.len()) as nat)
    } else {
        s
    }
}

/// The line of one repository: its name padded to the name column, three spaces,
/// its description (nothing when it has none), and a newline.
pub open spec fn repo_line(r: RepoView) -> Seq<char> {
    pad_right(r.full_name, NAME_WIDTH as nat) + spaces(3) + match r.description {
        Some(d) => d,
        None => Seq::empty(),
    } + seq!['\n']
}

/// The lines of all repositories, in order.
pub open spec fn repos_text(rs: Seq<RepoView>) -> Seq<char>
    decreases rs.len(),
{
    if rs.len() == 0 {
        Seq::empty()
    } else {
        repos_text(rs.drop_last()) + repo_line(rs.last())
    }
}

/// The lines of all accounts: each login alone on its line.
pub open spec fn users_text(logins: Seq<Seq<char>>) -> Seq<char>
    decreases logins.len(),
{
    if logins.len() == 0 {
        Seq::empty()
    } else {
        users_text(logins.drop_last()) + logins.last() + seq!['\n']
    }
}

fn push_spaces(s: &mut String, n: usize)
    ensures
        final(s)@ == old(s)@ + spaces(n as nat),
{
    proof {
        reveal_strlit(" ");
    }
    let mut i: usize = 0;
    while i < n
        invariant
            i <= n,
            s@ == old(s)@ + spaces(i as nat),
        decreases n - i,
    {
        proof {
            reveal_strlit(" ");
        }
        s.append(" ");
        assert(old(s)@ + spaces((i + 1) as nat) =~= old(s)@ + spaces(i as nat) + " "@);
        i = i + 1;
    }
}

/// Writes the line of one repository.
pub fn render_repo_line(r: &RepoInfo) -> (line: String)
    ensures
        line@ == repo_line(r@),
{
    let mut s = String::new();
    s.append(r.full_name.as_str());
    let n = r.full_name.as_str().unicode_len();
    if n < NAME_WIDTH {
        push_spaces(&mut s, NAME_WIDTH - n);
    } else {
        push_spaces(&mut s, 0);
    }
    push_spaces(&mut s, 3);
    match &r.description {
        Some(d) => s.append(d.as_str()),
        None => {},
    }
    proof {
        reveal_strlit("\n");
    }
    s.append("\n");
    assert(s@ =~= repo_line(r@));
    s
}

/// Writes the listing of `repos`, one line each.
pub fn render_repos(repos: &Vec<RepoInfo>) -> (text: String)
    ensures
        text@ == repos_text(repos_view(repos@)),
{
    let mut s = String::new();
    let mut i: usize = 0;
    while i < repos.len()
        invariant
            i <= repos.len(),
            s@ == repos_text(repos_view(repos@.subrange(0, i as int))),
        decreases repos.len() - i,
    {
        let line = render_repo_line(&repos[i]);
        s.append(line.as_str());
        assert(repos_view(repos@.subrange(0, i + 1)).drop_last() =~= repos_view(repos@.subrange(0, i as int)));
        i = i + 1;
    }
    assert(repos@.subrange(0, repos.len() as int) =~= repos@);
    s
}

/// Writes the listing of `users`, one login per line.
pub fn render_users(users: &Vec<UserInfo>) -> (text: String)
    ensures
        text@ == users_text(logins_view(users@)),
{
    proof {
        reveal_strlit("\n");
    }
    let mut s = String::new();
    let mut i: usize = 0;
    while i < users.len()
        invariant
            i <= users.len(),
            s@ == users_text(logins_view(users@.subrange(0, i as int))),
        decreases users.len() - i,
    {
        proof {
            reveal_strlit("\n");
        }
        s.append(users[i].login.as_str());
        s.append("\n");
        assert(logins_view(users@.subrange(0, i + 1)).drop_last() =~= logins_view(users@.subrange(0, i as int)));
        assert(logins_view(users@.subrange(0, i + 1)).last() == users@[i as int].login@);
        i = i + 1;
    }
    assert(users@.subrange(0, users.len() as int) =~= users@);
    s
}

/// Listings handed to the interactive selector.
pub trait ExternTypeToString {
    spec fn listing(&self) -> Seq<char>;

    fn to_string(&self) -> (r: String)
        ensures
            r@ == self.listing(),
    ;
}

impl ExternTypeToString for Vec<RepoInfo> {
    open spec fn listing(&self) -> Seq<char> {
        repos_text(repos_view(self@))
    }

    fn to_string(&self) -> (r: String) {
        render_repos(self)
    }
}

impl ExternTypeToString for Vec<UserInfo> {
    open spec fn listing(&self) -> Seq<char> {
        users_text(logins_view(self@))
    }

    fn to_string(&self) -> (r: String) {
        render_users(self)
    }
}


/// Rendering depends on the records alone: the same records give the same text. When a
/// name fits the column, the three separating spaces end at the same column on every
/// line, and the description starts right after them.
pub proof fn lemma_rendering_is_stable(a: Seq<RepoView>, b: Seq<RepoView>)
    requires
        a == b,
    ensures
        repos_text(a) == repos_text(b),
        forall|r: RepoView| r.full_name.len() <= NAME_WIDTH ==> {
            let d = match r.description {
                Some(d) => d,
                None => Seq::<char>::empty(),
            };
            &&& #[trigger] repo_line(r).len() == NAME_WIDTH + 3 + d.len() + 1
            &&& repo_line(r).subrange(0, r.full_name.len() as int) == r.full_name
            &&& repo_line(r).subrange(r.full_name.len() as int, NAME_WIDTH + 3) == spaces((NAME_WIDTH + 3 - r.full_name.len()) as nat)
            &&& repo_line(r).subrange(NAME_WIDTH + 3, NAME_WIDTH + 3 + d.len()) == d
        },
{
    assert forall|r: RepoView| r.full_name.len() <= NAME_WIDTH implies {
        let d = match r.description {
            Some(d) => d,
            None => Seq::<char>::empty(),
        };
        &&& #[trigger] repo_line(r).len() == NAME_WIDTH + 3 + d.len() + 1
        &&& repo_line(r).subrange(0, r.full_name.len() as int) == r.full_name
        &&& repo_line(r).subrange(r.full_name.len() as int, NAME_WIDTH + 3) == spaces((NAME_WIDTH + 3 - r.full_name.len()) as nat)
        &&& repo_line(r).subrange(NAME_WIDTH + 3, NAME_WIDTH + 3 + d.len()) == d
    } by {
        let d = match r.description {
            Some(d) => d,
            None => Seq::<char>::empty(),
        };
        let n = r.full_name.len();
        let line = repo_line(r);
        assert(line == r.full_name + spaces((NAME_WIDTH - n) as nat) + spaces(3) + d + seq!['\n']) by {
            if n == NAME_WIDTH {
                assert(r.full_name + spaces(0) =~= r.full_name);
            }
        }
        assert(line.subrange(0, n as int) =~= r.full_name);
        assert(line.subrange(n as int, NAME_WIDTH + 3) =~= spaces((NAME_WIDTH + 3 - n) as nat));
        assert(line.subrange(NAME_WIDTH + 3, NAME_WIDTH + 3 + d.len()) =~= d);
    }
}

} // verus!
