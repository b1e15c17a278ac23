use repo_cache::fallback::static_fallback;

#[test]
fn reference_set_has_twelve_records() {
    assert_eq!(static_fallback().len(), 12);
}

#[test]
fn every_reference_record_carries_a_screenshot() {
    for repo in static_fallback() {
        assert!(repo.screenshot.is_some(), "{} lacks a screenshot", repo.name);
    }
}

#[test]
fn reference_names_are_unique() {
    let repos = static_fallback();
    for (i, a) in repos.iter().enumerate() {
        for b in repos.iter().skip(i + 1) {
            assert_ne!(a.name, b.name);
        }
    }
}

#[test]
fn first_reference_record_is_senet() {
    let repos = static_fallback();
    let senet = &repos[0];
    assert_eq!(senet.name, "Senet");
    assert_eq!(senet.html_url, "https://github.com/azuree0/Senet");
    assert_eq!(senet.language.as_deref(), Some("Rust"));
    assert_eq!(senet.stargazers_count, 1);
    assert_eq!(senet.updated_at, "");
    assert_eq!(
        senet.screenshot.as_deref(),
        Some("https://github.com/user-attachments/assets/b12746e5-fb64-41a4-b343-5ec77166cff6"),
    );
}

#[test]
fn last_reference_record_is_aerospace() {
    let repos = static_fallback();
    let aero = &repos[11];
    assert_eq!(aero.name, "Aerospace");
    assert_eq!(aero.description.as_deref(), Some("Python project"));
    assert_eq!(aero.html_url, "https://github.com/azuree0/Aerospace");
    assert_eq!(aero.language.as_deref(), Some("Python"));
    assert_eq!(aero.stargazers_count, 2);
}

#[test]
fn reference_set_is_reproducible() {
    assert_eq!(static_fallback(), static_fallback());
}
