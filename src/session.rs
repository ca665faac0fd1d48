use vstd::prelude::*;
use crate::error::ResolveError;
use crate::render::{render_repos, render_users, repos_text, users_text};
use crate::resolve::{
    DefaultConfig, Endpoint, Request, RequestView, SearchInputs, first_request,
    first_request_of, opt_view, owner_stage_request, owner_stage_request_of,
};
use crate::response::{decode_repos, decode_users, repos_from, users_from};
use crate::selection::{CloneCommand, CloneOptions, CloneView, clone_of, plan_clone};

verus! {

/// Where a resolution stands.
#[derive(PartialEq, Eq, Structural, Clone, Copy, Debug)]
pub enum Phase {
    /// Waiting for the answer to the account search.
    AwaitOwners,
    /// Waiting for the user to pick an account.
    PickOwner,
    /// Waiting for the answer to the request that lists repositories.
    AwaitRepos(Endpoint),
    /// Waiting for the user to pick a repository.
    PickRepo,
    /// Finished: nothing more is done.
    Done,
}

/// How a resolution ended without a clone.
#[derive(PartialEq, Eq, Structural, Clone, Copy, Debug)]
pub enum Outcome {
    /// The user left the selector without a choice.
    Cancelled,
    Failed(ResolveError),
}

/// What the caller hands back after doing what an action asked.
#[derive(Debug)]
pub enum Event {
    /// The answer to a request: its status and its body.
    Fetched { status: u16, body: String },
    /// The request could not be made or its answer not read.
    FetchFailed,
    /// The line that the user chose.
    Picked(String),
    /// The user left the selector without a choice.
    Cancelled,
}

pub ghost enum EventView {
    Fetched { status: u16, body: Seq<char> },
    FetchFailed,
    Picked(Seq<char>),
    Cancelled,
}

impl View for Event {
    type V = EventView;

    open spec fn view(&self) -> EventView {
        match self {
            Event::Fetched { status, body } => EventView::Fetched { status: *status, body: body@ },
            Event::FetchFailed => EventView::FetchFailed,
            Event::Picked(line) => EventView::Picked(line@),
            Event::Cancelled => EventView::Cancelled,
        }
    }
}

/// What the caller is asked to do next.
#[derive(Debug)]
pub enum Action {
    /// Send this request and hand back its answer.
    Fetch(Request),
    /// Show these lines in the selector and hand back the choice.
    Pick(String),
    /// Run this clone; the resolution is over.
    Clone(CloneCommand),
    /// Stop; the resolution is over.
    Stop(Outcome),
}

pub ghost enum ActionView {
    Fetch(RequestView),
    Pick(Seq<char>),
    Clone(CloneView),
    Stop(Outcome),
}

impl View for Action {
    type V = ActionView;

    open spec fn view(&self) -> ActionView {
        match self {
            Action::Fetch(q) => ActionView::Fetch(q@),
            Action::Pick(text) => ActionView::Pick(text@),
            Action::Clone(c) => ActionView::Clone(c@),
            Action::Stop(o) => ActionView::Stop(*o),
        }
    }
}

/// The exit status of a resolution that ended in `o`.
pub open spec fn exit_status(o: Outcome) -> i32 {
    match o {
        Outcome::Cancelled => 1,
        Outcome::Failed(_) => 1,
    }
}

/// Gives the exit status of a resolution that ended in `o`.
pub fn exit_code(o: &Outcome) -> (c: i32)
    ensures
        c == exit_status(*o),
{
    match o {
        Outcome::Cancelled => 1,
        Outcome::Failed(_) => 1,
    }
}

/// A status of success: 200 to 299.
pub open spec fn is_success(status: u16) -> bool {
    200 <= status <= 299
}

/// Stops with `e`.
pub open spec fn fail(e: ResolveError) -> (Phase, ActionView) {
    (Phase::Done, ActionView::Stop(Outcome::Failed(e)))
}

/// One resolution, from the command line's inputs to the clone of one repository.
#[derive(Debug)]
pub struct Session {
    pub inputs: SearchInputs,
    pub defaults: DefaultConfig,
    pub options: CloneOptions,
    pub phase: Phase,
}

/// How a resolution starts.
pub open spec fn start_of(inputs: SearchInputs, defaults: DefaultConfig) -> (Phase, ActionView) {
    match first_request_of(inputs, opt_view(defaults.username)) {
        Ok(q) => (
            if q.endpoint == Endpoint::UserSearch { Phase::AwaitOwners } else { Phase::AwaitRepos(q.endpoint) },
            ActionView::Fetch(q),
        ),
        Err(e) => fail(e),
    }
}

/// The next phase and action of `s` once `e` has come.
pub open spec fn next_of(s: Session, e: EventView) -> (Phase, ActionView) {
    match s.phase {
        Phase::AwaitOwners => match e {
            EventView::Fetched { status, body } => if !is_success(status) {
                fail(ResolveError::Status(status))
            } else {
                match users_from(body) {
                    Ok(logins) => (Phase::PickOwner, ActionView::Pick(users_text(logins))),
                    Err(err) => fail(err),
                }
            },
            EventView::FetchFailed => fail(ResolveError::Transport),
            _ => fail(ResolveError::OutOfOrder),
        },
        Phase::PickOwner => match e {
            EventView::Picked(login) => {
                let q = owner_stage_request_of(s.inputs, login);
                (Phase::AwaitRepos(q.endpoint), ActionView::Fetch(q))
            },
            EventView::Cancelled => (Phase::Done, ActionView::Stop(Outcome::Cancelled)),
            _ => fail(ResolveError::OutOfOrder),
        },
        Phase::AwaitRepos(endpoint) => match e {
            EventView::Fetched { status, body } => if !is_success(status) {
                fail(ResolveError::Status(status))
            } else {
                match repos_from(endpoint == Endpoint::RepoSearch, body) {
                    Ok(rs) => (Phase::PickRepo, ActionView::Pick(repos_text(rs))),
                    Err(err) => fail(err),
                }
            },
            EventView::FetchFailed => fail(ResolveError::Transport),
            _ => fail(ResolveError::OutOfOrder),
        },
        Phase::PickRepo => match e {
            EventView::Picked(line) => match clone_of(line, s.options) {
                Ok(c) => (Phase::Done, ActionView::Clone(c)),
                Err(err) => fail(err),
            },
            EventView::Cancelled => (Phase::Done, ActionView::Stop(Outcome::Cancelled)),
            _ => fail(ResolveError::OutOfOrder),
        },
        Phase::Done => fail(ResolveError::OutOfOrder),
    }
}

/// Leaving the selector without a choice ends the resolution: the action is to stop,
/// cancelled, with exit status 1, and whatever comes after, the finished session asks
/// for no clone and no request again.
pub proof fn lemma_cancel_ends_resolution(s: Session, later: EventView)
    requires
        s.phase == Phase::PickOwner || s.phase == Phase::PickRepo,
    ensures
        next_of(s, EventView::Cancelled) == (Phase::Done, ActionView::Stop(Outcome::Cancelled)),
        exit_status(Outcome::Cancelled) == 1,
        ({
            let done = Session { phase: next_of(s, EventView::Cancelled).0, ..s };
            &&& next_of(done, later).0 == Phase::Done
            &&& next_of(done, later).1 is Stop
        }),
{
}

impl Session {
    /// Starts a resolution: the first request to make, or the reason there is none.
    pub fn start(inputs: SearchInputs, defaults: DefaultConfig, options: CloneOptions) -> (r: (Session, Action))
        ensures
            r.0.inputs == inputs,
            r.0.defaults == defaults,
            r.0.options == options,
            (r.0.phase, r.1@) == start_of(inputs, defaults),
    {
        let (phase, action) = match first_request(&inputs, &defaults) {
            Ok(q) => {
                let phase = if q.endpoint == Endpoint::UserSearch {
                    Phase::AwaitOwners
                } else {
                    Phase::AwaitRepos(q.endpoint)
                };
                (phase, Action::Fetch(q))
            },
            Err(e) => (Phase::Done, Action::Stop(Outcome::Failed(e))),
        };
        (Session { inputs, defaults, options, phase }, action)
    }

    /// Takes in what came of the last action and gives the next one.
    pub fn step(&mut self, event: Event) -> (r: Action)
        ensures
            final(self).inputs == old(self).inputs,
            final(self).defaults == old(self).defaults,
            final(self).options == old(self).options,
            (final(self).phase, r@) == next_of(*old(self), event@),
    {
        let (phase, action) = match self.phase {
            Phase::AwaitOwners => match event {
                Event::Fetched { status, body } => if !(200 <= status && status <= 299) {
                    (Phase::Done, Action::Stop(Outcome::Failed(ResolveError::Status(status))))
                } else {
                    match decode_users(body.as_str()) {
                        Ok(users) => (Phase::PickOwner, Action::Pick(render_users(&users))),
                        Err(err) => (Phase::Done, Action::Stop(Outcome::Failed(err))),
                    }
                },
                Event::FetchFailed => (Phase::Done, Action::Stop(Outcome::Failed(ResolveError::Transport))),
                _ => (Phase::Done, Action::Stop(Outcome::Failed(ResolveError::OutOfOrder))),
            },
            Phase::PickOwner => match event {
                Event::Picked(login) => {
                    let q = owner_stage_request(&self.inputs, login.as_str());
                    (Phase::AwaitRepos(q.endpoint), Action::Fetch(q))
                },
                Event::Cancelled => (Phase::Done, Action::Stop(Outcome::Cancelled)),
                _ => (Phase::Done, Action::Stop(Outcome::Failed(ResolveError::OutOfOrder))),
            },
            Phase::AwaitRepos(endpoint) => match event {
                Event::Fetched { status, body } => if !(200 <= status && status <= 299) {
                    (Phase::Done, Action::Stop(Outcome::Failed(ResolveError::Status(status))))
                } else {
                    match decode_repos(endpoint == Endpoint::RepoSearch, body.as_str()) {
                        Ok(repos) => (Phase::PickRepo, Action::Pick(render_repos(&repos))),
                        Err(err) => (Phase::Done, Action::Stop(Outcome::Failed(err))),
                    }
                },
                Event::FetchFailed => (Phase::Done, Action::Stop(Outcome::Failed(ResolveError::Transport))),
                _ => (Phase::Done, Action::Stop(Outcome::Failed(ResolveError::OutOfOrder))),
            },
            Phase::PickRepo => match event {
                Event::Picked(line) => match plan_clone(line.as_str(), &self.options) {
                    Ok(c) => (Phase::Done, Action::Clone(c)),
                    Err(err) => (Phase::Done, Action::Stop(Outcome::Failed(err))),
                },
                Event::Cancelled => (Phase::Done, Action::Stop(Outcome::Cancelled)),
                _ => (Phase::Done, Action::Stop(Outcome::Failed(ResolveError::OutOfOrder))),
            },
            Phase::Done => (Phase::Done, Action::Stop(Outcome::Failed(ResolveError::OutOfOrder))),
        };
        self.phase = phase;
        action
    }
}

} // verus!
