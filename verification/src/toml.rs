//! The shape of what the workspace manifest declares: the list of member
//! package names, and the test that decides whether the manifest speaks of
//! a workspace at all.  Reading and decoding the manifest file is the
//! caller's business; the data and the decision live here.
use vstd::prelude::*;
use crate::strutil::{contains_sub, has_substring};

verus! {

/// The workspace section: its member package names.
#[derive(Debug, Clone, PartialEq)]
pub struct Workspace {
    pub members: Vec<String>,
}

/// Top level of the decoded manifest data.
#[derive(Debug, Clone, PartialEq)]
pub struct Data {
    pub workspace: Workspace,
}

/// The manifest data assumed when no workspace section is declared: the
/// single default member.
pub fn default_data() -> (d: Data)
    ensures
        d.workspace.members.deep_view() == seq!["axum"@],
{
    let mut members: Vec<String> = Vec::new();
    members.push("axum".to_owned());
    let d = Data { workspace: Workspace { members } };
    proof {
        assert(d.workspace.members.deep_view() =~= seq!["axum"@]);
    }
    d
}

/// Whether the manifest text mentions a workspace at all; a manifest that
/// does not gets the single default member instead of being decoded.
pub fn mentions_workspace(contents: &str) -> (r: bool)
    ensures
        r == has_substring(contents@, "workspace"@),
{
    contains_sub(contents, "workspace")
}

} // verus!
