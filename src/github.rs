use vstd::prelude::*;
use crate::api::Repo;
use crate::payload::SearchRepos;

verus! {

/// A repository of the hosting service: its name and its owner's login.
#[derive(Debug, Clone)]
pub struct GithubRepo {
    pub name: String,
    pub owner: String,
}

impl GithubRepo {
    pub fn new(name: &str, owner: &str) -> (r: GithubRepo)
        ensures
            r.name@ == name@,
            r.owner@ == owner@,
    {
        GithubRepo { name: name.to_owned(), owner: owner.to_owned() }
    }
}

impl Repo for GithubRepo {
    fn name(&self) -> String {
        self.name.clone()
    }
}

impl From<crate::payload::Repo> for GithubRepo {
    fn from(repo: crate::payload::Repo) -> (r: GithubRepo) {
        GithubRepo { name: repo.name, owner: repo.owner.login }
    }
}

impl vstd::std_specs::convert::FromSpecImpl<crate::payload::Repo> for GithubRepo {
    open spec fn obeys_from_spec() -> bool {
        true
    }

    open spec fn from_spec(v: crate::payload::Repo) -> GithubRepo {
        GithubRepo { name: v.name, owner: v.owner.login }
    }
}

/// The repositories of a search answer, in the answer's order.
pub fn repos_of(search: SearchRepos) -> (r: Vec<GithubRepo>)
    ensures
        r.len() == search.items.len(),
        forall|i: int|
            0 <= i < r.len() ==> (#[trigger] r@[i]).name@ == search.items@[i].name@
                && r@[i].owner@ == search.items@[i].owner.login@,
{
    let ghost orig = search.items@;
    let mut rest = search.items;
    let mut reversed: Vec<GithubRepo> = Vec::new();
    while rest.len() > 0
        invariant
            orig.len() == reversed.len() + rest.len(),
            rest@ == orig.take(rest.len() as int),
            forall|i: int|
                0 <= i < reversed.len() ==> (#[trigger] reversed@[i]).name@ == orig[orig.len()
                    - 1 - i].name@ && reversed@[i].owner@ == orig[orig.len() - 1
                    - i].owner.login@,
        decreases rest.len(),
    {
        let repo = rest.pop().unwrap();
        reversed.push(GithubRepo::from(repo));
    }
    let mut out: Vec<GithubRepo> = Vec::new();
    while reversed.len() > 0
        invariant
            orig.len() == reversed.len() + out.len(),
            forall|i: int|
                0 <= i < reversed.len() ==> (#[trigger] reversed@[i]).name@ == orig[orig.len()
                    - 1 - i].name@ && reversed@[i].owner@ == orig[orig.len() - 1
                    - i].owner.login@,
            forall|i: int|
                0 <= i < out.len() ==> (#[trigger] out@[i]).name@ == orig[i].name@
                    && out@[i].owner@ == orig[i].owner.login@,
        decreases reversed.len(),
    {
        let repo = reversed.pop().unwrap();
        out.push(repo);
    }
    out
}

} // verus!
