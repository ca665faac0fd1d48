use vstd::prelude::*;
use crate::resolve::DefaultConfig;

verus! {

/// Whether the command line held a subcommand that was carried out in full.
#[derive(PartialEq, Eq, Structural, Clone, Copy, Debug)]
pub enum OptionGiven {
    Yes,
    No,
}

/// The settings after a `default-config` run: each value given replaces the stored one,
/// the others stay.
pub fn merge_config(stored: DefaultConfig, username: Option<String>, clone_path: Option<String>) -> (r: DefaultConfig)
    ensures
        r.username == (match username {
            Some(u) => Some(u),
            None => stored.username,
        }),
        r.clone_path == (match clone_path {
            Some(p) => Some(p),
            None => stored.clone_path,
        }),
{
    let username = match username {
        Some(u) => Some(u),
        None => stored.username,
    };
    let clone_path = match clone_path {
        Some(p) => Some(p),
        None => stored.clone_path,
    };
    DefaultConfig { clone_path, username }
}

} // verus!
