use dugong::manifest::{Manifest, ManifestEntry};

fn entry(app_id: &str, path: &str, verified: Option<bool>) -> ManifestEntry {
    ManifestEntry::new(app_id.to_string(), path.to_string(), verified)
}

#[test]
fn new_manifest_is_empty() {
    let manifest = Manifest::new();
    assert!(manifest.is_empty());
    assert_eq!(manifest.len(), 0);
    assert!(manifest.lookup("app-a").is_none());
    assert!(manifest.list().is_empty());
}

#[test]
fn lookup_finds_what_was_inserted() {
    let mut manifest = Manifest::new();
    assert_eq!(manifest.insert(entry("app-a", "/usr/lib/app-a", Some(true))), None);
    assert_eq!(manifest.insert(entry("app-b", "/usr/lib/app-b", None)), None);
    assert_eq!(manifest.len(), 2);
    assert!(!manifest.is_empty());
    assert_eq!(manifest.lookup("app-a"), Some(&entry("app-a", "/usr/lib/app-a", Some(true))));
    assert_eq!(manifest.lookup("app-b"), Some(&entry("app-b", "/usr/lib/app-b", None)));
    assert_eq!(manifest.lookup("app-c"), None);
    assert_eq!(manifest.lookup("app"), None);
}

#[test]
fn insert_replaces_an_entry_with_the_same_id() {
    let mut manifest = Manifest::new();
    manifest.insert(entry("app-a", "/old", Some(false)));
    manifest.insert(entry("app-b", "/b", Some(true)));
    let previous = manifest.insert(entry("app-a", "/new", Some(true)));
    assert_eq!(previous, Some(entry("app-a", "/old", Some(false))));
    assert_eq!(manifest.len(), 2);
    assert_eq!(manifest.lookup("app-a"), Some(&entry("app-a", "/new", Some(true))));
    assert_eq!(manifest.lookup("app-b"), Some(&entry("app-b", "/b", Some(true))));
}

#[test]
fn replace_swaps_the_whole_table() {
    let mut manifest = Manifest::new();
    manifest.insert(entry("app-a", "/a", Some(true)));
    manifest.insert(entry("app-b", "/b", Some(true)));
    let mut newer = Manifest::new();
    newer.insert(entry("app-b", "/b2", None));
    newer.insert(entry("app-c", "/c", Some(true)));
    manifest.replace(newer);
    assert_eq!(manifest.lookup("app-a"), None);
    assert_eq!(manifest.lookup("app-b"), Some(&entry("app-b", "/b2", None)));
    assert_eq!(manifest.lookup("app-c"), Some(&entry("app-c", "/c", Some(true))));
    assert_eq!(manifest.len(), 2);
}

#[test]
fn replace_by_the_empty_table_forgets_everything() {
    let mut manifest = Manifest::new();
    manifest.insert(entry("app-a", "/a", Some(true)));
    manifest.replace(Manifest::new());
    assert!(manifest.is_empty());
    assert_eq!(manifest.lookup("app-a"), None);
}

#[test]
fn list_holds_every_entry_once() {
    let mut manifest = Manifest::new();
    manifest.insert(entry("app-a", "/a", Some(true)));
    manifest.insert(entry("app-b", "/b", None));
    manifest.insert(entry("app-a", "/a2", Some(false)));
    let mut ids: Vec<String> = manifest.list().into_iter().map(|e| e.app_id).collect();
    ids.sort();
    assert_eq!(ids, vec!["app-a".to_string(), "app-b".to_string()]);
    for listed in manifest.list() {
        assert_eq!(manifest.lookup(&listed.app_id), Some(&listed));
    }
}

#[test]
fn entry_is_verified_only_with_the_flag_set() {
    assert!(entry("a", "/a", Some(true)).is_verified());
    assert!(!entry("a", "/a", Some(false)).is_verified());
    assert!(!entry("a", "/a", None).is_verified());
}

#[test]
fn duplicate_equals_the_entry() {
    let kept = entry("app-a", "/a", Some(true));
    assert_eq!(kept.duplicate(), kept);
}
