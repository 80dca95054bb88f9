use bus_factor::calculator::fetched_bus_factor;
use bus_factor::paginator::{page_items, plan_pages, requested_page_size};
use bus_factor::{BusFactor, Contributor, FanOut, GithubRepo, Repo};

const MAX_REPOS_PAGE: u32 = 100;

/// A listing of `count` repositories named by their rank.
fn list_top(page_no: u32, per_page: u32) -> Result<Vec<GithubRepo>, bus_factor::Error> {
    let first = (page_no - 1) * per_page;
    Ok((first..first + per_page)
        .map(|i| GithubRepo::new(&format!("repo_{}", i), &format!("owner_{}", i)))
        .collect())
}

/// Every 5th repository's top contributor has 1000 contributions, the other
/// 24 have one fewer each, from 24 down.
fn list_contributors(index: u32) -> Result<Vec<Contributor>, bus_factor::Error> {
    let mut out = Vec::new();
    let top = if index % 5 == 0 { 1000 } else { 25 };
    out.push(Contributor::new(&format!("login_{}_0", index), top));
    for c in 1..25u32 {
        out.push(Contributor::new(&format!("login_{}_{}", index, c), 25 - c));
    }
    Ok(out)
}

/// Runs the tasks with at most `limit` at once, completing them out of
/// their starting order.
fn run_gated<T, R>(items: Vec<T>, limit: usize, mut work: impl FnMut(&T) -> R) -> Vec<R> {
    let mut gate = FanOut::new(limit, items.len());
    let mut running: Vec<usize> = Vec::new();
    let mut out = Vec::new();
    let mut round = 0usize;
    while !gate.is_done() {
        while let Some(i) = gate.try_start() {
            running.push(i);
            assert!(gate.running() <= limit);
        }
        assert!(running.len() <= limit);
        let pick = round % running.len();
        round += 1;
        let i = running.remove(pick);
        out.push(work(&items[i]));
        gate.finish();
    }
    out
}

#[test]
fn happy_path_300() {
    let pages = plan_pages(1, MAX_REPOS_PAGE, 300);
    let listed = run_gated(pages, 2, |page| {
        let per_page = requested_page_size(*page, MAX_REPOS_PAGE, 1);
        page_items(list_top(page.page_no, per_page), page.page_size)
    });
    let repos: Vec<GithubRepo> = listed.into_iter().flatten().collect();
    assert_eq!(repos.len(), 300);
    let results: Vec<Option<BusFactor>> = run_gated(repos, 10, |repo| {
        let index: u32 = repo.name()["repo_".len()..].parse().unwrap();
        fetched_bus_factor(list_contributors(index), repo.name(), 75)
    });
    let mut got: Vec<BusFactor> = results.into_iter().flatten().collect();
    got.sort_by(|a, b| a.repo.cmp(&b.repo));
    let mut expected: Vec<BusFactor> = (0..300u32)
        .filter(|i| i % 5 == 0)
        .map(|i| BusFactor::new(format!("repo_{}", i), format!("login_{}_0", i), 77))
        .collect();
    expected.sort_by(|a, b| a.repo.cmp(&b.repo));
    assert_eq!(got.len(), 60);
    assert_eq!(got, expected);
}

#[test]
fn gate_bounds_running_tasks() {
    for limit in 1..=4usize {
        let mut gate = FanOut::new(limit, 10);
        let mut started = Vec::new();
        while let Some(i) = gate.try_start() {
            started.push(i);
        }
        assert_eq!(started, (0..limit).collect::<Vec<_>>());
        assert_eq!(gate.running(), limit);
        gate.finish();
        assert_eq!(gate.try_start(), Some(limit));
        assert_eq!(gate.try_start(), None);
    }
}

#[test]
fn gate_finishes_after_all_tasks() {
    let mut gate = FanOut::new(3, 2);
    assert_eq!(gate.try_start(), Some(0));
    assert_eq!(gate.try_start(), Some(1));
    assert_eq!(gate.try_start(), None);
    assert!(!gate.is_done());
    gate.finish();
    gate.finish();
    assert!(gate.is_done());
    assert_eq!(gate.running(), 0);
}

#[test]
fn empty_gate_is_done() {
    let mut gate = FanOut::new(1, 0);
    assert!(gate.is_done());
    assert_eq!(gate.try_start(), None);
}
