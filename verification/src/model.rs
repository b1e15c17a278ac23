//! The repository record and the persisted cache entry, together with their
//! mathematical views.

use vstd::prelude::*;

verus! {

/// One repository record, as delivered to the UI.
///
/// `name` is the join key between network-sourced records and the static
/// reference set; `screenshot` is only ever supplied by the reference set.
#[derive(Clone, Debug, PartialEq)]
pub struct Repo {
    pub name: String,
    pub description: Option<String>,
    pub html_url: String,
    pub language: Option<String>,
    pub stargazers_count: u32,
    pub updated_at: String,
    pub screenshot: Option<String>,
}

/// The mathematical image of a [`Repo`]: every string replaced by its
/// character sequence.
#[verifier::ext_equal]
pub struct RepoView {
    pub name: Seq<char>,
    pub description: Option<Seq<char>>,
    pub html_url: Seq<char>,
    pub language: Option<Seq<char>>,
    pub stargazers_count: u32,
    pub updated_at: Seq<char>,
    pub screenshot: Option<Seq<char>>,
}

impl DeepView for Repo {
    type V = RepoView;

    open spec fn deep_view(&self) -> RepoView {
        RepoView {
            name: self.name@,
            description: self.description.deep_view(),
            html_url: self.html_url@,
            language: self.language.deep_view(),
            stargazers_count: self.stargazers_count,
            updated_at: self.updated_at@,
            screenshot: self.screenshot.deep_view(),
        }
    }
}

/// The single persisted unit: the last successfully fetched records plus the
/// wall-clock seconds at which they were fetched. It is only ever replaced as
/// a whole.
#[derive(Clone, Debug, PartialEq)]
pub struct CachedRepos {
    pub repos: Vec<Repo>,
    pub fetched_at: u64,
}

/// The mathematical image of a [`CachedRepos`].
#[verifier::ext_equal]
pub struct CacheEntryView {
    pub repos: Seq<RepoView>,
    pub fetched_at: u64,
}

impl DeepView for CachedRepos {
    type V = CacheEntryView;

    open spec fn deep_view(&self) -> CacheEntryView {
        CacheEntryView { repos: self.repos.deep_view(), fetched_at: self.fetched_at }
    }
}

/// Copies an optional string; the copy denotes the same value.
pub fn clone_opt_string(o: &Option<String>) -> (out: Option<String>)
    ensures
        out == *o,
{
    match o {
        Some(s) => Some(s.clone()),
        None => None,
    }
}

/// Copies one record; the copy denotes the same value.
pub fn clone_repo(r: &Repo) -> (out: Repo)
    ensures
        out == *r,
{
    Repo {
        name: r.name.clone(),
        description: clone_opt_string(&r.description),
        html_url: r.html_url.clone(),
        language: clone_opt_string(&r.language),
        stargazers_count: r.stargazers_count,
        updated_at: r.updated_at.clone(),
        screenshot: clone_opt_string(&r.screenshot),
    }
}

/// Copies a whole record sequence; the copy denotes the same sequence.
pub fn clone_repos(v: &Vec<Repo>) -> (out: Vec<Repo>)
    ensures
        out@ == v@,
{
    let mut out: Vec<Repo> = Vec::new();
    let mut i: usize = 0;
    while i < v.len()
        invariant
            i <= v.len(),
            out@ =~= v@.subrange(0, i as int),
        decreases v.len() - i,
    {
        out.push(clone_repo(&v[i]));
        i = i + 1;
    }
    assert(out@ =~= v@);
    out
}

} // verus!
