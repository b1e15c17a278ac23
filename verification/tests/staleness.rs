use repo_cache::CACHE_TTL_SECS;
use repo_cache::is_stale;
use repo_cache::model::CachedRepos;
use repo_cache::model::Repo;
use repo_cache::pipeline::FetchPlan;
use repo_cache::pipeline::plan_fetch;

fn mk_repo(name: &str) -> Repo {
    Repo {
        name: name.to_string(),
        description: None,
        html_url: String::new(),
        language: None,
        stargazers_count: 0,
        updated_at: String::new(),
        screenshot: None,
    }
}

#[test]
fn ttl_is_fifteen_minutes() {
    assert_eq!(CACHE_TTL_SECS, 900);
}

#[test]
fn entry_at_ttl_boundary_is_fresh() {
    assert!(!is_stale(1000, 1900));
}

#[test]
fn entry_one_second_past_ttl_is_stale() {
    assert!(is_stale(1000, 1901));
}

#[test]
fn entry_just_fetched_is_fresh() {
    assert!(!is_stale(1000, 1000));
}

#[test]
fn clock_moved_backwards_counts_as_fresh() {
    assert!(!is_stale(2000, 1000));
}

#[test]
fn fresh_cache_is_served_without_network() {
    let records = vec![mk_repo("Go"), mk_repo("Senet")];
    let expected = vec![mk_repo("Go"), mk_repo("Senet")];
    let cached = CachedRepos { repos: records, fetched_at: 5000 };
    match plan_fetch(Some(cached), 5900) {
        FetchPlan::UseCache(repos) => assert_eq!(repos, expected),
        FetchPlan::Refresh => panic!("fresh entry must be served from the cache"),
    }
}

#[test]
fn stale_cache_sends_the_caller_to_the_network() {
    let cached = CachedRepos { repos: vec![mk_repo("Go")], fetched_at: 5000 };
    assert_eq!(plan_fetch(Some(cached), 5901), FetchPlan::Refresh);
}

#[test]
fn missing_cache_sends_the_caller_to_the_network() {
    assert_eq!(plan_fetch(None, 42), FetchPlan::Refresh);
}
