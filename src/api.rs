use vstd::prelude::*;

verus! {

/// An error of the pipeline, tagged with its kind.
#[derive(Debug)]
pub enum Error {
    /// A configuration or data error (unreadable rate-limit header, bad value).
    Error(String),
    /// A transport or upstream error (network failure, non-success status).
    RequestError(String),
    /// An error raised while constructing or using a client.
    ClientError(String),
}

pub type Result<T> = std::result::Result<T, Error>;

/// Anything that names a repository.
pub trait Repo {
    fn name(&self) -> String;
}

/// One contributor of a repository with the number of their contributions.
#[derive(Debug, Clone)]
pub struct Contributor {
    pub name: String,
    pub contributions: u32,
}

impl Contributor {
    pub fn new(name: &str, contributions: u32) -> (c: Contributor)
        ensures
            c.name@ == name@,
            c.contributions == contributions,
    {
        Contributor { name: name.to_owned(), contributions }
    }
}

/// The order in which the upstream listing ranks repositories.
#[derive(Debug, Clone, Copy, PartialEq, Eq, Structural)]
pub enum Sort {
    Stars,
    Forks,
    HelpWantedIssues,
    Updated,
}

/// The text by which the upstream listing knows a sort order.
pub open spec fn sort_name(s: Sort) -> Seq<char> {
    match s {
        Sort::Stars => "stars"@,
        Sort::Forks => "forks"@,
        Sort::HelpWantedIssues => "help_wanted_issues"@,
        Sort::Updated => "updated"@,
    }
}

/// The sort order whose name is `n`, if any.
pub open spec fn sort_of_name(n: Seq<char>) -> Option<Sort> {
    if n == sort_name(Sort::Stars) {
        Some(Sort::Stars)
    } else if n == sort_name(Sort::Forks) {
        Some(Sort::Forks)
    } else if n == sort_name(Sort::HelpWantedIssues) {
        Some(Sort::HelpWantedIssues)
    } else if n == sort_name(Sort::Updated) {
        Some(Sort::Updated)
    } else {
        None
    }
}

impl Sort {
    /// The name of this order as the upstream listing expects it.
    pub fn as_str(&self) -> (r: &'static str)
        ensures
            r@ == sort_name(*self),
    {
        match self {
            Sort::Stars => "stars",
            Sort::Forks => "forks",
            Sort::HelpWantedIssues => "help_wanted_issues",
            Sort::Updated => "updated",
        }
    }

    /// The sort order named `name`, or `None` for an unknown name.
    pub fn from_name(name: &str) -> (r: Option<Sort>)
        ensures
            r == sort_of_name(name@),
    {
        let n = name.to_owned();
        if n == "stars".to_owned() {
            Some(Sort::Stars)
        } else if n == "forks".to_owned() {
            Some(Sort::Forks)
        } else if n == "help_wanted_issues".to_owned() {
            Some(Sort::HelpWantedIssues)
        } else if n == "updated".to_owned() {
            Some(Sort::Updated)
        } else {
            None
        }
    }
}

impl std::str::FromStr for Sort {
    type Err = String;

    fn from_str(s: &str) -> std::result::Result<Sort, String> {
        match Sort::from_name(s) {
            Some(sort) => Ok(sort),
            None => Err("unknown sort order".to_owned()),
        }
    }
}

} // verus!
