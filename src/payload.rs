use vstd::prelude::*;

verus! {

/// The answer of a repository search: the repositories found, best first.
#[derive(Debug, Clone)]
pub struct SearchRepos {
    pub items: Vec<Repo>,
}

/// A repository as the search lists it.
#[derive(Debug, Clone)]
pub struct Repo {
    pub name: String,
    pub owner: RepoOwner,
}

/// The account that owns a repository.
#[derive(Debug, Clone)]
pub struct RepoOwner {
    pub login: String,
}

/// A contributor as the contributor listing gives it.
#[derive(Debug, Clone)]
pub struct Contributor {
    pub login: String,
    pub contributions: u32,
}

/// The answer of the rate-limit query.
#[derive(Debug, Clone, Copy)]
pub struct RateLimitBody {
    pub resources: RateLimitResources,
}

/// The rate pools: `core` serves contributor listings, `search` the search.
#[derive(Debug, Clone, Copy)]
pub struct RateLimitResources {
    pub core: RateLimitResource,
    pub search: RateLimitResource,
}

/// One rate pool as the server reports it: its limit, the requests left in
/// the current window and the window's end in seconds since the Unix epoch.
#[derive(Debug, Clone, Copy, PartialEq, Eq, Structural)]
pub struct RateLimitResource {
    pub limit: u32,
    pub remaining: u32,
    pub reset: i64,
}

impl From<Contributor> for crate::api::Contributor {
    fn from(c: Contributor) -> (r: crate::api::Contributor) {
        crate::api::Contributor { name: c.login, contributions: c.contributions }
    }
}

impl vstd::std_specs::convert::FromSpecImpl<Contributor> for crate::api::Contributor {
    open spec fn obeys_from_spec() -> bool {
        true
    }

    open spec fn from_spec(v: Contributor) -> crate::api::Contributor {
        crate::api::Contributor { name: v.login, contributions: v.contributions }
    }
}

/// The contributor named in a listing entry.
pub open spec fn contributor_of(c: Contributor) -> crate::api::Contributor {
    crate::api::Contributor { name: c.login, contributions: c.contributions }
}

/// The contributors of a listing, in the listing's order.
pub fn contributors_of(listed: Vec<Contributor>) -> (r: Vec<crate::api::Contributor>)
    ensures
        r@ == listed@.map_values(|c: Contributor| contributor_of(c)),
{
    let ghost orig = listed@;
    let mut rest = listed;
    let mut reversed: Vec<crate::api::Contributor> = Vec::new();
    while rest.len() > 0
        invariant
            orig.len() == reversed.len() + rest.len(),
            rest@ == orig.take(rest.len() as int),
            forall|i: int|
                0 <= i < reversed.len() ==> #[trigger] reversed@[i] == contributor_of(
                    orig[orig.len() - 1 - i],
                ),
        decreases rest.len(),
    {
        let c = rest.pop().unwrap();
        reversed.push(crate::api::Contributor::from(c));
    }
    let mut out: Vec<crate::api::Contributor> = Vec::new();
    while reversed.len() > 0
        invariant
            orig.len() == reversed.len() + out.len(),
            forall|i: int|
                0 <= i < reversed.len() ==> #[trigger] reversed@[i] == contributor_of(
                    orig[orig.len() - 1 - i],
                ),
            forall|i: int| 0 <= i < out.len() ==> #[trigger] out@[i] == contributor_of(orig[i]),
        decreases reversed.len(),
    {
        let c = reversed.pop().unwrap();
        out.push(c);
    }
    assert(out@ == orig.map_values(|c: Contributor| contributor_of(c)));
    out
}

} // verus!
