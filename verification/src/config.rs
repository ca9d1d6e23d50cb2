//! Configuration values recognised by the player, with their defaults.
//!
//! Reading and writing the configuration file is a collaborator's job; the
//! library only holds the values and derives the search prefix from them.

use vstd::prelude::*;

verus! {

/// Settings of the external search tool.
#[derive(Clone, Debug)]
pub struct SearchConfig {
    /// Search source tag, e.g. `yt`.
    pub source: String,
    /// Results per page.
    pub max_results: usize,
    /// Search deadline in seconds.
    pub timeout: u64,
    /// Browser whose cookies the search tool reads.
    pub cookies_browser: String,
}

/// Settings of the resolved-URL cache.
#[derive(Clone, Debug)]
pub struct CacheConfig {
    /// Capacity of the URL cache.
    pub url_cache_size: usize,
    /// Lifetime of a cached URL in seconds.
    pub url_cache_ttl: u64,
}

/// Network-facing deadlines.
#[derive(Clone, Debug)]
pub struct NetworkConfig {
    /// Resolve-and-play deadline in seconds.
    pub play_timeout: u64,
}

/// Playback behaviour.
#[derive(Clone, Debug)]
pub struct PlaybackConfig {
    /// Play mode selected at startup, as written in the configuration.
    pub default_mode: String,
    /// How far one seek step goes, in seconds.
    pub seek_seconds: i64,
    /// How much one volume step changes, in percent.
    pub volume_step: i64,
}

/// Filesystem locations.
#[derive(Clone, Debug)]
pub struct PathsConfig {
    /// Path of the player's control socket.
    pub socket_path: String,
    /// Path of the favorites file.
    pub favorites_file: String,
}

/// All configuration values.
#[derive(Clone, Debug)]
pub struct Config {
    pub search: SearchConfig,
    pub cache: CacheConfig,
    pub network: NetworkConfig,
    pub playback: PlaybackConfig,
    pub paths: PathsConfig,
}

/// Default search source.
pub fn default_search_source() -> (r: String)
    ensures
        r@ == "yt"@,
{
    String::from_str("yt")
}

/// Default number of results per page.
pub fn default_max_results() -> (r: usize)
    ensures
        r == 15,
{
    15
}

/// Default search deadline in seconds.
pub fn default_search_timeout() -> (r: u64)
    ensures
        r == 30,
{
    30
}

/// Default cookie source browser.
pub fn default_cookies_browser() -> (r: String)
    ensures
        r@ == "chrome"@,
{
    String::from_str("chrome")
}

/// Default URL-cache capacity.
pub fn default_cache_size() -> (r: usize)
    ensures
        r == 30,
{
    30
}

/// Default URL-cache lifetime in seconds.
pub fn default_cache_ttl() -> (r: u64)
    ensures
        r == 7200,
{
    7200
}

/// Default resolve-and-play deadline in seconds.
pub fn default_play_timeout() -> (r: u64)
    ensures
        r == 10,
{
    10
}

/// Default play mode name.
pub fn default_play_mode() -> (r: String)
    ensures
        r@ == "list_loop"@,
{
    String::from_str("list_loop")
}

/// Default control-socket path.
pub fn default_socket_path() -> (r: String)
    ensures
        r@ == "/tmp/maboroshi.sock"@,
{
    String::from_str("/tmp/maboroshi.sock")
}

/// Default favorites-file path.
pub fn default_favorites_file() -> (r: String)
    ensures
        r@ == "~/.maboroshi_favorites.json"@,
{
    String::from_str("~/.maboroshi_favorites.json")
}

impl Default for SearchConfig {
    fn default() -> (r: Self)
        ensures
            r.source@ == "yt"@,
            r.max_results == 15,
            r.timeout == 30,
            r.cookies_browser@ == "chrome"@,
    {
        SearchConfig {
            source: default_search_source(),
            max_results: default_max_results(),
            timeout: default_search_timeout(),
            cookies_browser: default_cookies_browser(),
        }
    }
}

impl Default for CacheConfig {
    fn default() -> (r: Self)
        ensures
            r.url_cache_size == 30,
            r.url_cache_ttl == 7200,
    {
        CacheConfig { url_cache_size: default_cache_size(), url_cache_ttl: default_cache_ttl() }
    }
}

impl Default for NetworkConfig {
    fn default() -> (r: Self)
        ensures
            r.play_timeout == 10,
    {
        NetworkConfig { play_timeout: default_play_timeout() }
    }
}

impl Default for PlaybackConfig {
    fn default() -> (r: Self)
        ensures
            r.default_mode@ == "list_loop"@,
            r.seek_seconds == 5,
            r.volume_step == 5,
    {
        PlaybackConfig { default_mode: default_play_mode(), seek_seconds: 5, volume_step: 5 }
    }
}

impl Default for PathsConfig {
    fn default() -> (r: Self)
        ensures
            r.socket_path@ == "/tmp/maboroshi.sock"@,
            r.favorites_file@ == "~/.maboroshi_favorites.json"@,
    {
        PathsConfig {
            socket_path: default_socket_path(),
            favorites_file: default_favorites_file(),
        }
    }
}

impl Default for Config {
    fn default() -> (r: Self)
        ensures
            r.search.source@ == "yt"@,
            r.search.max_results == 15,
            r.search.timeout == 30,
            r.search.cookies_browser@ == "chrome"@,
            r.cache.url_cache_size == 30,
            r.cache.url_cache_ttl == 7200,
            r.network.play_timeout == 10,
            r.playback.default_mode@ == "list_loop"@,
            r.playback.seek_seconds == 5,
            r.playback.volume_step == 5,
            r.paths.socket_path@ == "/tmp/maboroshi.sock"@,
            r.paths.favorites_file@ == "~/.maboroshi_favorites.json"@,
    {
        Config {
            search: SearchConfig::default(),
            cache: CacheConfig::default(),
            network: NetworkConfig::default(),
            playback: PlaybackConfig::default(),
            paths: PathsConfig::default(),
        }
    }
}

/// The source names its search prefix: a name that already ends in
/// `search` is used as is, otherwise `search` is appended.
pub open spec fn spec_search_prefix(source: Seq<char>) -> Seq<char> {
    if source.len() >= 6 && source.subrange(source.len() - 6, source.len() as int) == "search"@ {
        source
    } else {
        source + "search"@
    }
}

impl Config {
    /// The prefix put before a query when the search tool is invoked,
    /// derived from the configured source.
    pub fn get_search_prefix(&self) -> (r: String)
        ensures
            r@ == spec_search_prefix(self.search.source@),
    {
        let source = self.search.source.as_str();
        let n = source.unicode_len();
        if n >= 6 {
            let tail = source.substring_char(n - 6, n);
            if crate::text::str_eq(tail, "search") {
                return String::from_str(source);
            }
        }
        let mut s = String::from_str(source);
        s.append("search");
        s
    }
}

} // verus!
