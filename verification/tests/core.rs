use word_lookup::cache::CacheMap;
use word_lookup::cache::cache_root;
use word_lookup::cache::cache_root_for;
use word_lookup::cache::get_cache_file_path;
use word_lookup::cache::lookup_key;
use word_lookup::resolver::FetchOutcome;
use word_lookup::resolver::resolve;

#[test]
fn key_normalizes_spaces_to_underscores() {
    assert_eq!(lookup_key("fire engine"), "fire_engine");
    assert_eq!(lookup_key("happy"), "happy");
    assert_eq!(lookup_key(""), "");
    assert_eq!(lookup_key("a b c"), "a_b_c");
}

#[test]
fn key_of_spaced_and_underscored_words_coincide_by_the_substitution_rule() {
    // "fire engine" and "fire_engine" are normalized identically, so they
    // share one cache file name; the rule is exactly space -> underscore.
    assert_eq!(lookup_key("fire engine"), lookup_key("fire_engine"));
    assert_eq!(
        get_cache_file_path("/tmp/words", "fire engine"),
        "/tmp/words/fire_engine.json"
    );
    assert_eq!(
        get_cache_file_path("/tmp/words", "fire_engine"),
        "/tmp/words/fire_engine.json"
    );
}

#[test]
fn cache_file_path_appends_key_and_extension() {
    assert_eq!(get_cache_file_path(".", "happy"), "./happy.json");
}

#[test]
fn cache_root_prefers_home_and_falls_back() {
    assert_eq!(cache_root_for(Some("/home/someone")), "/home/someone/.word");
    assert_eq!(cache_root_for(None), "./.word");
}

#[test]
fn cache_root_always_ends_in_the_word_directory() {
    let root = cache_root();
    assert!(root.ends_with(".word"));
}

#[test]
fn write_then_read_round_trips_byte_for_byte() {
    let mut cache = CacheMap::new();
    let payload = "{\"word\":\"happy\",\"results\":[]}";
    cache.write("happy", payload);
    assert_eq!(cache.read("happy"), Some(payload.to_string()));
}

#[test]
fn write_twice_is_idempotent() {
    let mut cache = CacheMap::new();
    cache.write("happy", "{\"a\":1}");
    cache.write("happy", "{\"a\":1}");
    assert_eq!(cache.read("happy"), Some("{\"a\":1}".to_string()));
}

#[test]
fn write_overwrites_previous_payload() {
    let mut cache = CacheMap::new();
    cache.write("happy", "first");
    cache.write("happy", "second");
    assert_eq!(cache.read("happy"), Some("second".to_string()));
}

#[test]
fn read_of_unwritten_key_finds_nothing() {
    let cache = CacheMap::new();
    assert_eq!(cache.read("absent"), None);
}

#[test]
fn resolve_miss_fetches_and_populates_cache() {
    let mut cache = CacheMap::new();
    let outcome = FetchOutcome::Success {
        json: "{\"word\":\"happy\"}".to_string(),
        remaining: 2499,
        limit: 2500,
    };
    let r = resolve(&mut cache, "happy", outcome);
    assert!(r.fetched);
    assert_eq!(r.payload, Ok("{\"word\":\"happy\"}".to_string()));
    assert_eq!(r.telemetry, Some((2499, 2500)));
    assert_eq!(cache.read("happy"), Some("{\"word\":\"happy\"}".to_string()));
}

#[test]
fn second_resolve_is_served_from_cache_without_a_fetch() {
    let mut cache = CacheMap::new();
    let first = FetchOutcome::Success {
        json: "{\"word\":\"happy\"}".to_string(),
        remaining: 10,
        limit: 2500,
    };
    let r1 = resolve(&mut cache, "happy", first);
    assert!(r1.fetched);
    // Even a fetch that would fail is never consulted the second time.
    let second = FetchOutcome::Failure {
        message: "network down".to_string(),
    };
    let r2 = resolve(&mut cache, "happy", second);
    assert!(!r2.fetched);
    assert_eq!(r2.payload, r1.payload);
    assert_eq!(r2.telemetry, None);
}

#[test]
fn resolve_normalizes_the_word_before_the_cache_lookup() {
    let mut cache = CacheMap::new();
    let outcome = FetchOutcome::Success {
        json: "{}".to_string(),
        remaining: 1,
        limit: 1,
    };
    resolve(&mut cache, "fire engine", outcome);
    assert_eq!(cache.read("fire_engine"), Some("{}".to_string()));
}

#[test]
fn fetch_failure_with_empty_cache_is_an_error_and_writes_nothing() {
    let mut cache = CacheMap::new();
    let outcome = FetchOutcome::Failure {
        message: "service unavailable".to_string(),
    };
    let r = resolve(&mut cache, "happy", outcome);
    assert!(r.fetched);
    assert_eq!(r.payload, Err("service unavailable".to_string()));
    assert_eq!(r.telemetry, None);
    assert_eq!(cache.read("happy"), None);
}
