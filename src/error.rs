use vstd::prelude::*;

verus! {

/// Why a resolution stopped.
#[derive(PartialEq, Eq, Structural, Clone, Copy, Debug)]
pub enum ResolveError {
    /// Nothing names an account to list: no owner, no owner search, no default username.
    MissingOwner,
    /// The request could not be sent, or its answer not read.
    Transport,
    /// The server answered with a status outside 200..=299.
    Status(u16),
    /// The body is not JSON, or matches neither a repository list nor a search result.
    Unrecognized,
    /// The body has the shape of another endpoint's answer.
    WrongShape,
    /// The chosen line holds no `owner/repo` token.
    BadSelection,
    /// An event came that the current step does not wait for.
    OutOfOrder,
}

/// The sentence that tells the user of `e`.
pub open spec fn message_of(e: ResolveError) -> Seq<char> {
    match e {
        ResolveError::MissingOwner => "No default username provided. Give a search parameter or configure the defaults."@,
        ResolveError::Transport => "Unable to send the request or read its response"@,
        ResolveError::Status(_) => "The server answered with an error status"@,
        ResolveError::Unrecognized => "The response was not in the expected form"@,
        ResolveError::WrongShape => "The response has the shape of another kind of request"@,
        ResolveError::BadSelection => "The selected line holds no owner/repository name"@,
        ResolveError::OutOfOrder => "An event came out of order"@,
    }
}

impl ResolveError {
    /// A sentence for the user.
    pub fn message(&self) -> (r: String)
        ensures
            r@ == message_of(*self),
            r@.len() > 0,
    {
        let s = match self {
            ResolveError::MissingOwner => "No default username provided. Give a search parameter or configure the defaults.",
            ResolveError::Transport => "Unable to send the request or read its response",
            ResolveError::Status(_) => "The server answered with an error status",
            ResolveError::Unrecognized => "The response was not in the expected form",
            ResolveError::WrongShape => "The response has the shape of another kind of request",
            ResolveError::BadSelection => "The selected line holds no owner/repository name",
            ResolveError::OutOfOrder => "An event came out of order",
        };
        proof {
            reveal_strlit("No default username provided. Give a search parameter or configure the defaults.");
            reveal_strlit("Unable to send the request or read its response");
            reveal_strlit("The server answered with an error status");
            reveal_strlit("The response was not in the expected form");
            reveal_strlit("The response has the shape of another kind of request");
            reveal_strlit("The selected line holds no owner/repository name");
            reveal_strlit("An event came out of order");
        }
        s.to_owned()
    }
}

} // verus!
