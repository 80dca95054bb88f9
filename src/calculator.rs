use vstd::prelude::*;
use crate::api::{Contributor, Result};

verus! {

/// A repository whose top contributor holds at least the threshold share.
/// `percentage` is that share in hundredths, rounded to the nearest one.
#[derive(Debug, Clone, PartialEq, Eq)]
pub struct BusFactor {
    pub repo: String,
    pub contributor: String,
    pub percentage: u32,
}

impl BusFactor {
    pub fn new(repo: String, contributor: String, percentage: u32) -> (b: BusFactor)
        ensures
            b.repo == repo,
            b.contributor == contributor,
            b.percentage == percentage,
    {
        BusFactor { repo, contributor, percentage }
    }
}

/// Sum of the contributions of all contributors in `s`.
pub open spec fn total_contributions(s: Seq<Contributor>) -> int
    decreases s.len(),
{
    if s.len() == 0 {
        0
    } else {
        total_contributions(s.drop_last()) + s.last().contributions
    }
}

/// `part / total` in hundredths, rounded to the nearest hundredth, halves up.
pub open spec fn percentage_of(part: int, total: int) -> int
    recommends
        total > 0,
{
    (200 * part + total) / (2 * total)
}

/// The outcome for a repository named `repo` whose contributors, most active
/// first, are `s`: the top contributor's share of all listed contributions,
/// when there are contributions and that share reaches `threshold` hundredths.
pub open spec fn bus_factor_of(s: Seq<Contributor>, repo: Seq<char>, threshold: int) -> Option<
    (Seq<char>, Seq<char>, int),
> {
    if s.len() == 0 || total_contributions(s) == 0 {
        None
    } else {
        let p = percentage_of(s[0].contributions as int, total_contributions(s));
        if p >= threshold {
            Some((repo, s[0].name@, p))
        } else {
            None
        }
    }
}

/// `r` is what reducing the contributors `s` of repository `repo` against
/// `threshold` gives (see `bus_factor_of`).
pub open spec fn reduces_to(s: Seq<Contributor>, repo: Seq<char>, threshold: int, r: Option<BusFactor>) -> bool {
    match r {
        None => bus_factor_of(s, repo, threshold) is None,
        Some(b) => bus_factor_of(s, repo, threshold) == Some(
            (b.repo@, b.contributor@, b.percentage as int),
        ),
    }
}

/// The reduction is deterministic: two results for the same contributors,
/// repository and threshold agree on whether there is one, and on its
/// repository, contributor and percentage.
pub proof fn lemma_reduction_is_deterministic(
    s: Seq<Contributor>,
    repo: Seq<char>,
    threshold: int,
    r1: Option<BusFactor>,
    r2: Option<BusFactor>,
)
    requires
        reduces_to(s, repo, threshold, r1),
        reduces_to(s, repo, threshold, r2),
    ensures
        r1 is Some <==> r2 is Some,
        r1 matches Some(b1) ==> (r2 matches Some(b2) && b1.repo@ == b2.repo@ && b1.contributor@
            == b2.contributor@ && b1.percentage == b2.percentage),
{
}

proof fn lemma_total_bounds(s: Seq<Contributor>)
    ensures
        0 <= total_contributions(s) <= s.len() * 0xffff_ffff,
        s.len() > 0 ==> s[0].contributions <= total_contributions(s),
    decreases s.len(),
{
    if s.len() > 0 {
        lemma_total_bounds(s.drop_last());
        if s.len() > 1 {
            assert(s.drop_last()[0] == s[0]);
        }
    }
}

/// Share of `contributions` in `total_contributions`, in hundredths rounded
/// to the nearest one.
fn calculate_percentage(contributions: u128, total_contributions: u128) -> (r: u32)
    requires
        0 < total_contributions,
        contributions <= total_contributions,
        total_contributions < 0x1_0000_0000_0000_0000_0000_0000,
    ensures
        r == percentage_of(contributions as int, total_contributions as int),
        r <= 100,
{
    assert(200 * contributions + total_contributions <= 201 * total_contributions) by (nonlinear_arith)
        requires
            contributions <= total_contributions,
    ;
    let p = (200 * contributions + total_contributions) / (2 * total_contributions);
    assert(p <= 100) by (nonlinear_arith)
        requires
            p == (200 * contributions + total_contributions) / (2 * total_contributions),
            contributions <= total_contributions,
            0 < total_contributions,
    ;
    p as u32
}

/// Reduces the contributors of repository `repo`, most active first, to a
/// result: `Some` when the first contributor's share of all listed
/// contributions, in hundredths, reaches `threshold`.
pub fn contributors_bus_factor(contributors: Vec<Contributor>, repo: String, threshold: u32) -> (r:
    Option<BusFactor>)
    ensures
        reduces_to(contributors@, repo@, threshold as int, r),
{
    if contributors.len() == 0 {
        return None;
    }
    let mut total: u128 = 0;
    let mut i: usize = 0;
    while i < contributors.len()
        invariant
            i <= contributors.len(),
            total == total_contributions(contributors@.take(i as int)),
            total <= i * 0xffff_ffff,
        decreases contributors.len() - i,
    {
        proof {
            assert(contributors@.take(i as int + 1).drop_last() == contributors@.take(i as int));
        }
        total = total + contributors[i].contributions as u128;
        i = i + 1;
    }
    proof {
        assert(contributors@.take(i as int) == contributors@);
        lemma_total_bounds(contributors@);
    }
    if total == 0 {
        return None;
    }
    let top = &contributors[0];
    let percentage = calculate_percentage(top.contributions as u128, total);
    if percentage >= threshold {
        Some(BusFactor::new(repo, top.name.clone(), percentage))
    } else {
        None
    }
}

/// The outcome for a repository from the result of fetching its
/// contributors: none when the fetch failed, else as `contributors_bus_factor`.
pub fn fetched_bus_factor(fetched: Result<Vec<Contributor>>, repo: String, threshold: u32) -> (r:
    Option<BusFactor>)
    ensures
        fetched is Err ==> r is None,
        fetched matches Ok(c) ==> reduces_to(c@, repo@, threshold as int, r),
{
    match fetched {
        Ok(c) => contributors_bus_factor(c, repo, threshold),
        Err(_) => None,
    }
}

} // verus!
