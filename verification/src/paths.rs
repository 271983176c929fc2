//! Paths below a home directory, and the comparison of paths.

use std::path::Path;
use vstd::prelude::*;

verus! {

/// Where the agent listens, below the home directory.
pub const AGENT_SOCKET: &'static str = ".kr/krd-agent.sock";

/// Where the link to the socket that the agent displaced is kept, below the
/// home directory.
pub const BACKUP_SOCKET: &'static str = ".kr/original-agent.sock";

/// The notification log, below the home directory.
pub const NOTIFICATION_LOG: &'static str = ".kr/krd-notify.log";

/// The path that `Path::join` makes of a base path and a path to append.
pub uninterp spec fn joined_path(base: Seq<char>, tail: Seq<char>) -> Seq<char>;

/// Whether `Path` takes two texts for the same path.
pub uninterp spec fn same_path(left: Seq<char>, right: Seq<char>) -> bool;

/// `tail` appended to `base` as a path. Trusted: `std::path::Path::join`,
/// whose result depends on the two paths alone; built from text, it is text.
#[verifier::external_body]
pub(crate) fn join(base: &str, tail: &str) -> (path: String)
    ensures
        path@ == joined_path(base@, tail@),
{
    Path::new(base).join(tail).to_string_lossy().into_owned()
}

/// Whether two texts are the same path. Trusted: the `==` of
/// `std::path::Path`, which compares two paths part by part and is an
/// equivalence, so that a text is the same path as itself.
#[verifier::external_body]
pub(crate) fn is_same(left: &str, right: &str) -> (same: bool)
    ensures
        same == same_path(left@, right@),
        left@ == right@ ==> same,
{
    Path::new(left) == Path::new(right)
}

} // verus!
