use schedules_direct::credentials::{
    derive_from_settings, find_cached, hash_password, load_cached, rows_to_save, Credentials,
    StoreError, HASH_INPUT_LIMIT,
};
use schedules_direct::models::{Lineup, Settings};

fn row(key: &str, value: &str) -> Settings {
    Settings { key: key.to_string(), value: value.to_string() }
}

fn pair(c: &Credentials) -> (&str, &str) {
    (c.username.as_str(), c.password_hash.as_str())
}

#[test]
fn hash_is_the_hex_sha1_of_the_password() {
    assert_eq!(hash_password("abc").unwrap(), "a9993e364706816aba3e25717850c26c9cd0d89d");
    assert_eq!(hash_password("").unwrap(), "da39a3ee5e6b4b0d3255bfef95601890afd80709");
    assert_eq!(
        hash_password("The quick brown fox jumps over the lazy dog").unwrap(),
        "2fd4e1c67a2d28fced849ee1bb76e7391b93eb12"
    );
    assert_eq!(
        hash_password("abcdbcdecdefdefgefghfghighijhijkijkljklmklmnlmnomnopnopq").unwrap(),
        "84983e441c3bd26ebaae4aa1f95129e5e54670f1"
    );
}

#[test]
fn hash_of_non_ascii_password_is_over_its_utf8_bytes() {
    // the bytes c3 a9
    assert_eq!(hash_password("\u{e9}").unwrap(), "bf15be717ac1b080b4f1c456692825891ff5073d");
}

#[test]
fn hashing_twice_gives_the_same_hash() {
    let first = hash_password("correct horse battery staple").unwrap();
    let second = hash_password("correct horse battery staple").unwrap();
    assert_eq!(first, second);
    assert_eq!(first.len(), 40);
    assert_ne!(first, hash_password("correct horse battery stapler").unwrap());
    let a = derive_from_settings(Some("alice"), Some("correct horse battery staple")).unwrap();
    let b = derive_from_settings(Some("bob"), Some("correct horse battery staple")).unwrap();
    assert_eq!(a.password_hash, b.password_hash);
    assert_eq!(a.password_hash, first);
}

#[test]
fn hash_input_limit_is_two_to_the_sixty_one() {
    assert_eq!(HASH_INPUT_LIMIT, 1u64 << 61);
}

#[test]
fn empty_cache_holds_no_credentials() {
    assert!(find_cached(&vec![]).is_none());
}

#[test]
fn cache_with_both_rows_holds_credentials() {
    let rows = vec![row("username", "alice"), row("password", "0123abcd")];
    let c = find_cached(&rows).unwrap();
    assert_eq!(pair(&c), ("alice", "0123abcd"));
    let rows = vec![row("password", "ff"), row("other", "x"), row("username", "bob")];
    let c = find_cached(&rows).unwrap();
    assert_eq!(pair(&c), ("bob", "ff"));
}

#[test]
fn cache_with_one_part_missing_holds_no_credentials() {
    assert!(find_cached(&vec![row("username", "alice")]).is_none());
    assert!(find_cached(&vec![row("password", "ff"), row("password", "ee")]).is_none());
    assert!(find_cached(&vec![row("Username", "alice"), row("password", "ff")]).is_none());
    assert!(find_cached(&vec![row("username ", "alice"), row("password", "ff")]).is_none());
}

#[test]
fn reading_the_cache_stops_with_the_row_that_completes_the_credentials() {
    let rows = vec![
        row("username", "first"),
        row("username", "second"),
        row("password", "aa11"),
        row("password", "bb22"),
        row("username", "third"),
    ];
    let c = find_cached(&rows).unwrap();
    assert_eq!(pair(&c), ("second", "aa11"));
}

#[test]
fn load_cached_tells_unavailable_cache_from_empty_cache() {
    assert_eq!(load_cached(None).err(), Some(StoreError::CacheUnavailable));
    let empty: Vec<Settings> = vec![];
    assert!(load_cached(Some(&empty)).unwrap().is_none());
    let rows = vec![row("username", "alice"), row("password", "ff")];
    let c = load_cached(Some(&rows)).unwrap().unwrap();
    assert_eq!(pair(&c), ("alice", "ff"));
}

#[test]
fn derive_hashes_the_password_and_keeps_the_user_name() {
    let c = derive_from_settings(Some("alice"), Some("abc")).unwrap();
    assert_eq!(pair(&c), ("alice", "a9993e364706816aba3e25717850c26c9cd0d89d"));
}

#[test]
fn derive_reports_what_is_missing() {
    assert_eq!(derive_from_settings(None, Some("abc")).err(), Some(StoreError::MissingUsername));
    assert_eq!(derive_from_settings(None, None).err(), Some(StoreError::MissingUsername));
    assert_eq!(derive_from_settings(Some("alice"), None).err(), Some(StoreError::MissingPassword));
}

#[test]
fn rows_to_save_are_user_name_then_password_hash() {
    let c = derive_from_settings(Some("alice"), Some("abc")).unwrap();
    let rows = rows_to_save(&c);
    assert_eq!(rows.len(), 2);
    assert_eq!((rows[0].key, rows[0].value), ("username", "alice"));
    assert_eq!((rows[1].key, rows[1].value), ("password", "a9993e364706816aba3e25717850c26c9cd0d89d"));
}

#[test]
fn saved_rows_are_found_again() {
    let c = derive_from_settings(Some("alice"), Some("abc")).unwrap();
    let mut cache = vec![row("theme", "dark"), row("username", "stale")];
    assert!(find_cached(&cache).is_none());
    for new in rows_to_save(&c) {
        cache.push(row(new.key, new.value));
    }
    let found = find_cached(&cache).unwrap();
    assert_eq!(pair(&found), pair(&c));
}

#[test]
fn rows_convert_to_rows_to_write() {
    let s = row("username", "alice");
    let n = s.as_new();
    assert_eq!((n.key, n.value), ("username", "alice"));
    let l = Lineup {
        id: "USA-OTA-98119".to_string(),
        modified: "2020-01-01T00:00:00Z".to_string(),
        uri: "/20141201/lineups/USA-OTA-98119".to_string(),
        is_deleted: true,
    };
    let n = l.as_new();
    assert_eq!(n.id, "USA-OTA-98119");
    assert_eq!(n.modified, "2020-01-01T00:00:00Z");
    assert_eq!(n.uri, "/20141201/lineups/USA-OTA-98119");
    assert!(n.is_deleted);
}
