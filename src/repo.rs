use vstd::prelude::*;

verus! {

/// Equality of two optional strings by their text.
pub open spec fn same_text(a: Option<String>, b: Option<String>) -> bool {
    match (a, b) {
        (Some(x), Some(y)) => x@ == y@,
        (None, None) => true,
        _ => false,
    }
}

fn text_eq(a: &Option<String>, b: &Option<String>) -> (r: bool)
    ensures
        r == same_text(*a, *b),
{
    match (a, b) {
        (Some(x), Some(y)) => x.eq(y),
        (None, None) => true,
        _ => false,
    }
}

/// A repository as the remote workspace reports it.
#[derive(Clone, Debug, Default)]
pub struct GetRepoResponse {
    /// ID of the repo object in the workspace.
    pub id: Option<i64>,
    /// URL of the Git repository to be linked.
    pub url: Option<String>,
    /// Git provider, matched without regard to case by the remote side.
    pub provider: Option<String>,
    /// Path of the repo in the workspace, in the form /Repos/{folder}/{repo-name}.
    pub path: Option<String>,
    /// Branch that the workspace copy of the repo is checked out to.
    pub branch: Option<String>,
    /// SHA-1 of the commit at the HEAD of the repo.
    pub head_commit_id: Option<String>,
}

impl GetRepoResponse {
    /// Whether every field is unset.
    pub open spec fn is_blank(&self) -> bool {
        &&& self.id is None
        &&& self.url is None
        &&& self.provider is None
        &&& self.path is None
        &&& self.branch is None
        &&& self.head_commit_id is None
    }

    /// Field-by-field equality, strings compared by their text.
    pub open spec fn same_as(&self, o: &GetRepoResponse) -> bool {
        &&& self.id == o.id
        &&& same_text(self.url, o.url)
        &&& same_text(self.provider, o.provider)
        &&& same_text(self.path, o.path)
        &&& same_text(self.branch, o.branch)
        &&& same_text(self.head_commit_id, o.head_commit_id)
    }

    /// A response with every field unset.
    pub fn new() -> (r: GetRepoResponse)
        ensures
            r.is_blank(),
    {
        GetRepoResponse {
            id: None,
            url: None,
            provider: None,
            path: None,
            branch: None,
            head_commit_id: None,
        }
    }
}

impl PartialEq for GetRepoResponse {
    fn eq(&self, o: &GetRepoResponse) -> (r: bool) {
        let same_id = match (self.id, o.id) {
            (Some(a), Some(b)) => a == b,
            (None, None) => true,
            _ => false,
        };
        same_id && text_eq(&self.url, &o.url) && text_eq(&self.provider, &o.provider)
            && text_eq(&self.path, &o.path) && text_eq(&self.branch, &o.branch)
            && text_eq(&self.head_commit_id, &o.head_commit_id)
    }
}

impl vstd::std_specs::cmp::PartialEqSpecImpl for GetRepoResponse {
    open spec fn obeys_eq_spec() -> bool {
        true
    }

    open spec fn eq_spec(&self, o: &GetRepoResponse) -> bool {
        self.same_as(o)
    }
}

} // verus!
