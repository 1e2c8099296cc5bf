use boilr::cache::{needs_fetch, ImageCache, RequestOutcome, TextureState};
use boilr::grid_cache::{GridIdCache, GridIdEntry};

#[test]
fn two_requests_one_fetch() {
    let mut cache = ImageCache::new();
    let key = "icon-200.png".to_string();
    let first = cache.request(&key, None, 100);
    let second = cache.request(&key, None, 100);
    assert_eq!(first, RequestOutcome::Fetch);
    assert_eq!(second, RequestOutcome::Known);
    assert_eq!(cache.observe(&key), Some(TextureState::Downloading));
    cache.finish_download(&key, true);
    cache.finish_download(&key, false);
    assert_eq!(cache.observe(&key), Some(TextureState::Downloaded));
    assert_eq!(cache.observe(&key), Some(TextureState::Downloaded));
}

#[test]
fn many_requests_one_fetch() {
    let mut cache = ImageCache::new();
    let key = "grid-1.png".to_string();
    let fetches = (0..10)
        .filter(|_| cache.request(&key, Some(1), 100) == RequestOutcome::Fetch)
        .count();
    assert_eq!(fetches, 1);
}

#[test]
fn small_file_is_fetched_again() {
    assert!(needs_fetch(None, 2));
    assert!(needs_fetch(Some(1), 2));
    assert!(!needs_fetch(Some(2), 2));
    let mut cache = ImageCache::new();
    let small = "small".to_string();
    let good = "good".to_string();
    assert_eq!(cache.request(&small, Some(10), 100), RequestOutcome::Fetch);
    assert_eq!(cache.request(&good, Some(100), 100), RequestOutcome::OnDisk);
    assert_eq!(cache.observe(&good), Some(TextureState::Downloaded));
}

#[test]
fn failed_fetch_and_load() {
    let mut cache = ImageCache::new();
    let a = "a".to_string();
    let b = "b".to_string();
    cache.request(&a, None, 1);
    cache.finish_download(&a, false);
    assert_eq!(cache.observe(&a), Some(TextureState::Failed));
    cache.request(&b, Some(5), 1);
    cache.finish_load(&b, true);
    assert_eq!(cache.observe(&b), Some(TextureState::Loaded));
    cache.finish_load(&b, false);
    assert_eq!(cache.observe(&b), Some(TextureState::Loaded));
    cache.clear(&a);
    assert_eq!(cache.observe(&a), None);
    assert_eq!(cache.request(&a, None, 1), RequestOutcome::Fetch);
    cache.clear_all();
    assert_eq!(cache.observe(&b), None);
}

#[test]
fn transfer_moves_state() {
    let mut cache = ImageCache::new();
    let thumb = "thumb".to_string();
    let full = "full".to_string();
    cache.request(&thumb, Some(9), 1);
    cache.finish_load(&thumb, true);
    cache.request(&full, None, 1);
    cache.transfer(&thumb, &full);
    assert_eq!(cache.observe(&thumb), None);
    assert_eq!(cache.observe(&full), Some(TextureState::Loaded));
}

#[test]
fn grid_id_set_survives_restart() {
    let mut cache = GridIdCache::new();
    cache.store(1, "One", None);
    cache.set(2, "Two", 77);
    cache.set(1, "One", 55);
    let persisted = cache.records();
    assert_eq!(persisted.len(), 2);
    let restored = GridIdCache::from_records(&persisted);
    assert_eq!(restored.lookup(1), Some(Some(55)));
    assert_eq!(restored.lookup(2), Some(Some(77)));
    assert_eq!(restored.lookup(3), None);
}

#[test]
fn grid_id_no_match_is_remembered() {
    let mut cache = GridIdCache::new();
    cache.store(4, "Four", None);
    assert_eq!(cache.lookup(4), Some(None));
    let records = vec![
        GridIdEntry { id: 8, name: "x".to_string(), grid_id: Some(1) },
        GridIdEntry { id: 8, name: "y".to_string(), grid_id: Some(2) },
    ];
    assert_eq!(GridIdCache::from_records(&records).lookup(8), Some(Some(2)));
}

#[test]
fn search_outcome_is_recorded() {
    let mut cache = GridIdCache::new();
    assert_eq!(cache.record_search(1, "One", &vec![42, 7]), Some(42));
    assert_eq!(cache.record_search(2, "Two", &vec![]), None);
    assert_eq!(cache.lookup(1), Some(Some(42)));
    assert_eq!(cache.lookup(2), Some(None));
}

#[test]
fn no_refetch_after_download_until_cleared() {
    let mut cache = ImageCache::new();
    let key = "hero-3.png".to_string();
    assert_eq!(cache.request(&key, None, 100), RequestOutcome::Fetch);
    assert_eq!(cache.request(&key, None, 100), RequestOutcome::Known);
    cache.finish_download(&key, true);
    assert_eq!(cache.request(&key, None, 100), RequestOutcome::Known);
    assert_eq!(cache.observe(&key), Some(TextureState::Downloaded));
    cache.clear(&key);
    assert_eq!(cache.request(&key, Some(3), 100), RequestOutcome::Fetch);
}
