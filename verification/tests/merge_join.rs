use repo_cache::fallback::static_fallback;
use repo_cache::merge::lookup_screenshot;
use repo_cache::merge::merge_repo;
use repo_cache::merge::merge_screenshots;
use repo_cache::model::Repo;

fn mk_repo(name: &str) -> Repo {
    Repo {
        name: name.to_string(),
        description: None,
        html_url: String::new(),
        language: None,
        stargazers_count: 0,
        updated_at: String::new(),
        screenshot: None,
    }
}

fn ref_entry(name: &str, screenshot: Option<&str>) -> Repo {
    Repo {
        name: name.to_string(),
        description: None,
        html_url: String::new(),
        language: None,
        stargazers_count: 0,
        updated_at: String::new(),
        screenshot: screenshot.map(|s| s.to_string()),
    }
}

#[test]
fn matching_name_receives_the_reference_screenshot() {
    let refs = static_fallback();
    let merged = merge_repo(&mk_repo("Go"), &refs);
    assert_eq!(
        merged.screenshot.as_deref(),
        Some("https://github.com/user-attachments/assets/f52cbdc4-afe9-4169-8a03-ed025b6a834a"),
    );
    assert_eq!(merged.name, "Go");
    assert_eq!(merged.stargazers_count, 0);
}

#[test]
fn unmatched_name_keeps_no_screenshot() {
    let refs = static_fallback();
    let merged = merge_repo(&mk_repo("NoSuchProject"), &refs);
    assert_eq!(merged.screenshot, None);
}

#[test]
fn unmatched_record_keeps_its_own_screenshot() {
    let refs = static_fallback();
    let mut record = mk_repo("NoSuchProject");
    record.screenshot = Some("kept".to_string());
    let merged = merge_repo(&record, &refs);
    assert_eq!(merged.screenshot.as_deref(), Some("kept"));
}

#[test]
fn later_reference_entry_shadows_earlier_one() {
    let refs = vec![ref_entry("A", Some("first")), ref_entry("A", Some("second"))];
    assert_eq!(lookup_screenshot(&refs, &"A".to_string()).as_deref(), Some("second"));
}

#[test]
fn reference_entry_without_screenshot_is_ignored() {
    let refs = vec![ref_entry("A", Some("first")), ref_entry("A", None)];
    assert_eq!(lookup_screenshot(&refs, &"A".to_string()).as_deref(), Some("first"));
}

#[test]
fn lookup_misses_in_empty_reference_set() {
    let refs: Vec<Repo> = Vec::new();
    assert_eq!(lookup_screenshot(&refs, &"A".to_string()), None);
}

#[test]
fn merge_of_empty_batch_is_empty() {
    let refs = static_fallback();
    let merged = merge_screenshots(Vec::new(), &refs);
    assert!(merged.is_empty());
}

#[test]
fn merging_twice_equals_merging_once() {
    let refs = static_fallback();
    let batch = vec![mk_repo("Go"), mk_repo("Senet"), mk_repo("NoSuchProject")];
    let once = merge_screenshots(batch, &refs);
    let again: Vec<Repo> = once
        .iter()
        .map(|r| Repo {
            name: r.name.clone(),
            description: r.description.clone(),
            html_url: r.html_url.clone(),
            language: r.language.clone(),
            stargazers_count: r.stargazers_count,
            updated_at: r.updated_at.clone(),
            screenshot: r.screenshot.clone(),
        })
        .collect();
    let twice = merge_screenshots(again, &refs);
    assert_eq!(twice, once);
}
