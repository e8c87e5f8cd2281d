use result_cache::cache::{Cache, PageError};

fn store_strings(cache: &mut Cache<String>, items: &[&str]) -> u128 {
    let owned: Vec<String> = items.iter().map(|s| s.to_string()).collect();
    cache.store(owned).expect("minting a fresh handle failed")
}

fn page_ok(cache: &mut Cache<String>, handle: u128, size: usize) -> (Vec<String>, bool) {
    let pr = cache.page(handle, size).expect("page size was positive");
    (pr.items, pr.done)
}

#[test]
fn concrete_scenario_seven_items_pages_of_five() {
    let mut cache: Cache<String> = Cache::new();
    let h = store_strings(&mut cache, &["a", "b", "c", "d", "e", "f", "g"]);

    let (items, done) = page_ok(&mut cache, h, 5);
    assert_eq!(items, vec!["a", "b", "c", "d", "e"]);
    assert!(!done);

    let (items, done) = page_ok(&mut cache, h, 5);
    assert_eq!(items, vec!["f", "g"]);
    assert!(done);

    let (items, done) = page_ok(&mut cache, h, 5);
    assert!(items.is_empty());
    assert!(done);
}

#[test]
fn drain_concatenates_to_original_in_ceil_n_over_p_calls() {
    let original = vec!["p", "q", "r", "s", "t", "u", "v"];
    let mut cache: Cache<String> = Cache::new();
    let h = store_strings(&mut cache, &original);

    let mut collected: Vec<String> = Vec::new();
    let mut calls = 0;
    loop {
        let (mut items, done) = page_ok(&mut cache, h, 3);
        calls += 1;
        collected.append(&mut items);
        if done {
            break;
        }
    }
    assert_eq!(collected, original);
    assert_eq!(calls, 3); // ceil(7 / 3)
}

#[test]
fn zero_length_store_finishes_on_first_page() {
    let mut cache: Cache<String> = Cache::new();
    let h = store_strings(&mut cache, &[]);
    let (items, done) = page_ok(&mut cache, h, 4);
    assert!(items.is_empty());
    assert!(done);
}

#[test]
fn exact_page_size_fit_finishes_in_one_call() {
    let mut cache: Cache<String> = Cache::new();
    let h = store_strings(&mut cache, &["1", "2", "3", "4", "5"]);

    let (items, done) = page_ok(&mut cache, h, 5);
    assert_eq!(items, vec!["1", "2", "3", "4", "5"]);
    assert!(done);

    let (items, done) = page_ok(&mut cache, h, 5);
    assert!(items.is_empty());
    assert!(done);
}

#[test]
fn post_drain_calls_keep_answering_done_with_any_size() {
    let mut cache: Cache<String> = Cache::new();
    let h = store_strings(&mut cache, &["x", "y"]);
    let (_, done) = page_ok(&mut cache, h, 2);
    assert!(done);

    for size in [1, 2, 100] {
        let (items, done) = page_ok(&mut cache, h, size);
        assert!(items.is_empty());
        assert!(done);
    }
}

#[test]
fn never_stored_handle_is_answered_as_already_drained() {
    let mut cache: Cache<String> = Cache::new();
    let (items, done) = page_ok(&mut cache, 12345, 5);
    assert!(items.is_empty());
    assert!(done);
}

#[test]
fn paging_one_handle_leaves_another_untouched() {
    let mut cache: Cache<String> = Cache::new();
    let ha = store_strings(&mut cache, &["a1", "a2", "a3"]);
    let hb = store_strings(&mut cache, &["b1", "b2"]);
    assert_ne!(ha, hb);

    let (items, done) = page_ok(&mut cache, ha, 2);
    assert_eq!(items, vec!["a1", "a2"]);
    assert!(!done);

    let (items, done) = page_ok(&mut cache, hb, 5);
    assert_eq!(items, vec!["b1", "b2"]);
    assert!(done);

    let (items, done) = page_ok(&mut cache, ha, 2);
    assert_eq!(items, vec!["a3"]);
    assert!(done);
}

#[test]
fn zero_page_size_fails_fast_and_changes_nothing() {
    let mut cache: Cache<String> = Cache::new();
    let h = store_strings(&mut cache, &["a", "b"]);

    assert_eq!(cache.page(h, 0).unwrap_err(), PageError::ZeroPageSize);

    let (items, done) = page_ok(&mut cache, h, 5);
    assert_eq!(items, vec!["a", "b"]);
    assert!(done);
}

#[test]
fn insert_fresh_refuses_an_occupied_handle() {
    let mut cache: Cache<String> = Cache::new();
    assert!(cache.insert_fresh(42, vec!["kept".to_string()]));
    assert!(!cache.insert_fresh(42, vec!["discarded".to_string()]));

    let (items, done) = page_ok(&mut cache, 42, 5);
    assert_eq!(items, vec!["kept"]);
    assert!(done);
}

#[test]
fn contains_handle_tracks_store_and_drain() {
    let mut cache: Cache<String> = Cache::new();
    assert!(!cache.contains_handle(9));
    let h = store_strings(&mut cache, &["only"]);
    assert!(cache.contains_handle(h));
    let (_, done) = page_ok(&mut cache, h, 1);
    assert!(done);
    assert!(!cache.contains_handle(h));
}

#[test]
fn malformed_handle_text_is_an_error_not_a_drain() {
    let mut cache: Cache<String> = Cache::new();
    let r = cache.page_by_id("definitely-not-an-identifier", 5);
    assert_eq!(r.unwrap_err(), PageError::MalformedHandle);
}

#[test]
fn page_by_id_checks_the_handle_before_the_size() {
    let mut cache: Cache<String> = Cache::new();
    let r = cache.page_by_id("definitely-not-an-identifier", 0);
    assert_eq!(r.unwrap_err(), PageError::MalformedHandle);

    let r = cache.page_by_id("00000000-0000-0000-0000-000000000000", 0);
    assert_eq!(r.unwrap_err(), PageError::ZeroPageSize);
}

#[test]
fn page_by_id_on_a_well_formed_absent_handle_is_done() {
    let mut cache: Cache<String> = Cache::new();
    let pr = cache
        .page_by_id("550e8400-e29b-41d4-a716-446655440000", 3)
        .expect("well-formed handle and positive size");
    assert!(pr.items.is_empty());
    assert!(pr.done);
}
