use bus_factor::github::repos_of;
use bus_factor::payload::{contributors_of, Contributor as Listed, Repo as Found, RepoOwner, SearchRepos};
use bus_factor::{Contributor, GithubRepo, Repo, Sort};

#[test]
fn search_answer_becomes_repositories() {
    let search = SearchRepos {
        items: vec![
            Found { name: "one".to_string(), owner: RepoOwner { login: "alice".to_string() } },
            Found { name: "two".to_string(), owner: RepoOwner { login: "bob".to_string() } },
        ],
    };
    let repos = repos_of(search);
    assert_eq!(repos.len(), 2);
    assert_eq!(repos[0].name(), "one");
    assert_eq!(repos[0].owner, "alice");
    assert_eq!(repos[1].name(), "two");
    assert_eq!(repos[1].owner, "bob");
}

#[test]
fn listed_contributors_keep_order() {
    let listed = vec![
        Listed { login: "x".to_string(), contributions: 9 },
        Listed { login: "y".to_string(), contributions: 4 },
        Listed { login: "z".to_string(), contributions: 1 },
    ];
    let c: Vec<Contributor> = contributors_of(listed);
    let names: Vec<&str> = c.iter().map(|c| c.name.as_str()).collect();
    assert_eq!(names, vec!["x", "y", "z"]);
    assert_eq!(c.iter().map(|c| c.contributions).collect::<Vec<_>>(), vec![9, 4, 1]);
}

#[test]
fn repo_from_search_entry() {
    let r: GithubRepo = Found { name: "n".to_string(), owner: RepoOwner { login: "o".to_string() } }.into();
    assert_eq!(r.name, "n");
    assert_eq!(r.owner, "o");
}

#[test]
fn sort_names() {
    assert_eq!(Sort::Stars.as_str(), "stars");
    assert_eq!(Sort::Forks.as_str(), "forks");
    assert_eq!(Sort::HelpWantedIssues.as_str(), "help_wanted_issues");
    assert_eq!(Sort::Updated.as_str(), "updated");
    for s in [Sort::Stars, Sort::Forks, Sort::HelpWantedIssues, Sort::Updated] {
        assert_eq!(Sort::from_name(s.as_str()), Some(s));
        assert_eq!(s.as_str().parse::<Sort>(), Ok(s));
    }
    assert_eq!(Sort::from_name("likes"), None);
    assert!("likes".parse::<Sort>().is_err());
}

#[test]
fn contributor_new_keeps_fields() {
    let c = Contributor::new("a", 7);
    assert_eq!(c.name, "a");
    assert_eq!(c.contributions, 7);
}
