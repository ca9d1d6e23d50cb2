use maboroshi::page_cache::PageCache;
use maboroshi::search::SearchResult;
use maboroshi::stream_cache::StreamCache;

fn results(names: &[&str]) -> Vec<SearchResult> {
    names.iter().map(|n| SearchResult { title: n.to_string() }).collect()
}

#[test]
fn stream_cache_hit_within_ttl() {
    let mut c = StreamCache::new(10, 60);
    c.insert("lofi".to_string(), "http://a".to_string(), 100);
    assert_eq!(c.lookup("lofi", 100), Some("http://a".to_string()));
    assert_eq!(c.lookup("lofi", 159), Some("http://a".to_string()));
    assert_eq!(c.lookup("other", 100), None);
}

#[test]
fn stream_cache_expired_entry_is_absent_but_present() {
    let mut c = StreamCache::new(10, 60);
    c.insert("lofi".to_string(), "http://a".to_string(), 100);
    // Past the lifetime the lookup misses, yet the entry still sits there.
    assert_eq!(c.lookup("lofi", 160), None);
    assert_eq!(c.entries.len(), 1);
    // A clock that went backwards is treated as expired, too.
    assert_eq!(c.lookup("lofi", 99), None);
}

#[test]
fn stream_cache_evicts_oldest_on_overflow() {
    let mut c = StreamCache::new(3, 1000);
    c.insert("a".to_string(), "u1".to_string(), 1);
    c.insert("b".to_string(), "u2".to_string(), 2);
    c.insert("c".to_string(), "u3".to_string(), 3);
    c.insert("d".to_string(), "u4".to_string(), 4);
    assert_eq!(c.entries.len(), 3);
    assert_eq!(c.lookup("a", 5), None);
    assert_eq!(c.lookup("b", 5), Some("u2".to_string()));
    assert_eq!(c.lookup("c", 5), Some("u3".to_string()));
    assert_eq!(c.lookup("d", 5), Some("u4".to_string()));
}

#[test]
fn stream_cache_keeps_valid_entry_on_double_insert() {
    let mut c = StreamCache::new(10, 60);
    c.insert("lofi".to_string(), "http://first".to_string(), 100);
    // A second resolution finished late: the still-valid entry wins.
    c.insert("lofi".to_string(), "http://second".to_string(), 110);
    assert_eq!(c.lookup("lofi", 110), Some("http://first".to_string()));
    assert_eq!(c.entries.len(), 1);
}

#[test]
fn stream_cache_overwrites_expired_entry() {
    let mut c = StreamCache::new(10, 60);
    c.insert("lofi".to_string(), "http://first".to_string(), 100);
    c.insert("lofi".to_string(), "http://second".to_string(), 200);
    assert_eq!(c.lookup("lofi", 200), Some("http://second".to_string()));
    assert_eq!(c.entries.len(), 1);
}

#[test]
fn page_cache_serves_what_was_stored() {
    let mut c = PageCache::new();
    c.insert(1, results(&["a", "b"]));
    c.insert(2, results(&["c"]));
    assert_eq!(c.get(1).unwrap().len(), 2);
    assert_eq!(c.get(1).unwrap()[0].title, "a");
    assert_eq!(c.get(2).unwrap()[0].title, "c");
    assert!(c.get(3).is_none());
}

#[test]
fn page_cache_replaces_a_page() {
    let mut c = PageCache::new();
    c.insert(1, results(&["a"]));
    c.insert(1, results(&["b"]));
    assert_eq!(c.entries.len(), 1);
    assert_eq!(c.get(1).unwrap()[0].title, "b");
}

#[test]
fn page_cache_evicts_lowest_page_on_overflow() {
    let mut c = PageCache::new();
    for page in 1..=11usize {
        c.insert(page, results(&["x"]));
    }
    assert_eq!(c.entries.len(), 10);
    assert!(c.get(1).is_none());
    for page in 2..=11usize {
        assert!(c.get(page).is_some());
    }
}

#[test]
fn page_cache_clears_wholesale() {
    let mut c = PageCache::new();
    c.insert(1, results(&["a"]));
    c.insert(2, results(&["b"]));
    c.clear();
    assert_eq!(c.entries.len(), 0);
    assert!(c.get(1).is_none());
}
