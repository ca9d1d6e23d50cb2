use maboroshi::config::{
    default_cache_size, default_cache_ttl, default_cookies_browser, default_favorites_file,
    default_max_results, default_play_mode, default_play_timeout, default_search_source,
    default_search_timeout, default_socket_path, Config,
};

#[test]
fn defaults_are_the_documented_ones() {
    assert_eq!(default_search_source(), "yt");
    assert_eq!(default_max_results(), 15);
    assert_eq!(default_search_timeout(), 30);
    assert_eq!(default_cookies_browser(), "chrome");
    assert_eq!(default_cache_size(), 30);
    assert_eq!(default_cache_ttl(), 7200);
    assert_eq!(default_play_timeout(), 10);
    assert_eq!(default_play_mode(), "list_loop");
    assert_eq!(default_socket_path(), "/tmp/maboroshi.sock");
    assert_eq!(default_favorites_file(), "~/.maboroshi_favorites.json");
}

#[test]
fn default_config_uses_the_defaults() {
    let c = Config::default();
    assert_eq!(c.search.source, "yt");
    assert_eq!(c.search.max_results, 15);
    assert_eq!(c.cache.url_cache_size, 30);
    assert_eq!(c.cache.url_cache_ttl, 7200);
    assert_eq!(c.network.play_timeout, 10);
    assert_eq!(c.playback.default_mode, "list_loop");
    assert_eq!(c.playback.seek_seconds, 5);
    assert_eq!(c.playback.volume_step, 5);
    assert_eq!(c.paths.socket_path, "/tmp/maboroshi.sock");
}

#[test]
fn search_prefix_appends_search_when_missing() {
    let mut c = Config::default();
    assert_eq!(c.get_search_prefix(), "ytsearch");
    c.search.source = "bili".to_string();
    assert_eq!(c.get_search_prefix(), "bilisearch");
}

#[test]
fn search_prefix_keeps_an_explicit_one() {
    let mut c = Config::default();
    c.search.source = "ytsearch".to_string();
    assert_eq!(c.get_search_prefix(), "ytsearch");
    c.search.source = "search".to_string();
    assert_eq!(c.get_search_prefix(), "search");
}
