//! Search invocation support: argument vectors for the external search
//! tool, parsing of its output, and bounding of its diagnostics.

use vstd::prelude::*;
use crate::errors::PlayerError;
use crate::text::{u64_digits, u64_to_string, spec_trim, trim_to_string};

verus! {

/// Results requested beyond the page's upper bound, so that a source
/// returning fewer items than asked for is not mistaken for the last page.
pub const SEARCH_RESULT_BUFFER: usize = 50;

/// Greatest number of diagnostic lines forwarded to the log.
pub const TOOL_LOG_MAX_LINES: usize = 6;

/// One search hit: the title offered to the user.
#[derive(Clone, Debug, PartialEq, Eq)]
pub struct SearchResult {
    pub title: String,
}

/// The titles of a batch of results.
pub open spec fn titles_of(rs: Seq<SearchResult>) -> Seq<Seq<char>> {
    rs.map_values(|r: SearchResult| r.title@)
}

/// Copy a batch of results.
pub fn clone_results(v: &Vec<SearchResult>) -> (r: Vec<SearchResult>)
    ensures
        titles_of(r@) == titles_of(v@),
{
    let mut out: Vec<SearchResult> = Vec::new();
    let n = v.len();
    let mut i: usize = 0;
    while i < n
        invariant
            n == v@.len(),
            i <= n,
            out@.len() == i,
            forall|k: int| 0 <= k < i ==> #[trigger] out@[k].title@ == v@[k].title@,
        decreases n - i,
    {
        out.push(SearchResult { title: v[i].title.clone() });
        i = i + 1;
    }
    proof {
        assert(titles_of(out@) =~= titles_of(v@));
    }
    out
}

/// The `title` string field of `line` parsed as a JSON object, if the line
/// is valid JSON carrying one. Named here; the parse itself is the JSON
/// library's.
pub uninterp spec fn title_of_line(line: Seq<char>) -> Option<Seq<char>>;

/// Relies on serde_json::from_str: parses the line as JSON and picks the
/// object's `title` string field; the result depends on the line alone and
/// is named `title_of_line`.
#[verifier::external_body]
fn extract_title(line: &str) -> (r: Option<String>)
    ensures
        match r {
            Some(t) => title_of_line(line@) == Some(t@),
            None => title_of_line(line@) is None,
        },
{
    match serde_json::from_str::<serde_json::Value>(line) {
        Ok(v) => v.get("title").and_then(|t| t.as_str()).map(|s| s.to_string()),
        Err(_) => None,
    }
}

/// The titles carried by the lines that parse and have one, in order;
/// other lines are skipped.
pub open spec fn spec_parse_titles(lines: Seq<Seq<char>>) -> Seq<Seq<char>>
    decreases lines.len(),
{
    if lines.len() == 0 {
        Seq::empty()
    } else {
        let rest = spec_parse_titles(lines.drop_last());
        match title_of_line(lines.last()) {
            Some(t) => rest.push(t),
            None => rest,
        }
    }
}

/// Parse the search tool's output, one JSON object per line: every line
/// with a `title` yields a result, malformed or incomplete lines are
/// skipped rather than failing the batch.
pub fn parse_search_output(lines: &Vec<String>) -> (r: Vec<SearchResult>)
    ensures
        titles_of(r@) == spec_parse_titles(lines@.map_values(|l: String| l@)),
{
    let ghost lv = lines@.map_values(|l: String| l@);
    let mut out: Vec<SearchResult> = Vec::new();
    let n = lines.len();
    let mut i: usize = 0;
    proof {
        assert(lv.take(0) =~= Seq::<Seq<char>>::empty());
        assert(out@.map_values(|sr: SearchResult| sr.title@) =~= spec_parse_titles(lv.take(0)));
    }
    while i < n
        invariant
            n == lines@.len(),
            lv == lines@.map_values(|l: String| l@),
            i <= n,
            out@.map_values(|sr: SearchResult| sr.title@) == spec_parse_titles(lv.take(i as int)),
        decreases n - i,
    {
        let ghost pre = out@;
        match extract_title(lines[i].as_str()) {
            Some(t) => {
                out.push(SearchResult { title: t });
            },
            None => {},
        }
        proof {
            assert(lv.take(i + 1).drop_last() =~= lv.take(i as int));
            assert(lv.take(i + 1).last() == lv[i as int]);
            assert(lv[i as int] == lines@[i as int]@);
            match title_of_line(lv[i as int]) {
                Some(t) => {
                    assert(out@.map_values(|sr: SearchResult| sr.title@) =~= pre.map_values(
                        |sr: SearchResult| sr.title@,
                    ).push(t));
                },
                None => {},
            }
        }
        i = i + 1;
    }
    proof {
        assert(lv.take(n as int) =~= lv);
    }
    out
}

/// The PATH the external tools run under: a search path that already
/// knows the common package-manager directories is kept, any other gets
/// them put in front.
pub fn extended_search_path(current: String) -> (r: String)
    ensures
        r@ == (if crate::text::spec_contains(current@, "/opt/homebrew/bin"@)
            || crate::text::spec_contains(current@, "/usr/local/bin"@) {
            current@
        } else {
            "/opt/homebrew/bin:/usr/local/bin:"@ + current@
        }),
{
    if crate::text::str_contains(current.as_str(), "/opt/homebrew/bin")
        || crate::text::str_contains(current.as_str(), "/usr/local/bin") {
        current
    } else {
        let mut s = String::from_str("/opt/homebrew/bin:/usr/local/bin:");
        s.append(current.as_str());
        s
    }
}

/// Cookie-source arguments put before every search-tool invocation.
pub fn build_cookie_args(cookies_browser: &str) -> (r: Vec<String>)
    ensures
        r@.len() == 2,
        r@[0]@ == "--cookies-from-browser"@,
        r@[1]@ == cookies_browser@,
{
    let mut v: Vec<String> = Vec::new();
    v.push(String::from_str("--cookies-from-browser"));
    v.push(String::from_str(cookies_browser));
    v
}

/// First result index of page `page` (1-based) at `per_page` results a page.
pub open spec fn spec_page_start(page: int, per_page: int) -> int {
    (page - 1) * per_page + 1
}

/// Last result index of page `page` at `per_page` results a page.
pub open spec fn spec_page_end(page: int, per_page: int) -> int {
    page * per_page
}

/// Arguments of a one-page search: the requested result range covers
/// exactly the page, and the query asks for a fixed buffer of results
/// beyond its upper bound.
pub fn build_search_args(prefix: &str, keyword: &str, page: usize, per_page: usize) -> (r: Vec<
    String,
>)
    requires
        page >= 1,
        page * per_page + SEARCH_RESULT_BUFFER <= usize::MAX,
    ensures
        r@.len() == 5,
        r@[0]@ == "--dump-json"@,
        r@[1]@ == "--flat-playlist"@,
        r@[2]@ == "--playlist-items"@,
        r@[3]@ == u64_digits(spec_page_start(page as int, per_page as int) as nat) + "-"@
            + u64_digits(spec_page_end(page as int, per_page as int) as nat),
        r@[4]@ == prefix@ + u64_digits(
            (spec_page_end(page as int, per_page as int) + SEARCH_RESULT_BUFFER) as nat,
        ) + ":"@ + keyword@,
{
    proof {
        assert((page - 1) * per_page >= 0 && (page - 1) * per_page <= page * per_page)
            by (nonlinear_arith)
            requires
                page >= 1,
        ;
    }
    let start: usize = (page - 1) * per_page + 1;
    let end: usize = page * per_page;
    let count: usize = end + SEARCH_RESULT_BUFFER;

    let mut range = u64_to_string(start as u64);
    range.append("-");
    range.append(u64_to_string(end as u64).as_str());
    proof {
        reveal_strlit("-");
        assert("-"@ =~= seq!['-']);
    }

    let mut query = String::from_str(prefix);
    query.append(u64_to_string(count as u64).as_str());
    query.append(":");
    query.append(keyword);
    proof {
        reveal_strlit(":");
        assert(":"@ =~= seq![':']);
    }

    let mut v: Vec<String> = Vec::new();
    v.push(String::from_str("--dump-json"));
    v.push(String::from_str("--flat-playlist"));
    v.push(String::from_str("--playlist-items"));
    v.push(range);
    v.push(query);
    v
}

/// Arguments of a resolve-and-play invocation: ask for the single best
/// audio stream of the query's first hit.
pub fn build_play_args(prefix: &str, keyword: &str) -> (r: Vec<String>)
    ensures
        r@.len() == 4,
        r@[0]@ == "--get-url"@,
        r@[1]@ == "-f"@,
        r@[2]@ == "bestaudio"@,
        r@[3]@ == prefix@ + "1:"@ + keyword@,
{
    let mut query = String::from_str(prefix);
    query.append("1:");
    query.append(keyword);

    let mut v: Vec<String> = Vec::new();
    v.push(String::from_str("--get-url"));
    v.push(String::from_str("-f"));
    v.push(String::from_str("bestaudio"));
    v.push(query);
    v
}

/// Arguments the player process is started with: no video, the control
/// socket at the given path, caching on, and the stream to play.
pub fn build_player_args(socket_path: &str, stream_url: &str) -> (r: Vec<String>)
    ensures
        r@.len() == 4,
        r@[0]@ == "--no-video"@,
        r@[1]@ == "--input-ipc-server="@ + socket_path@,
        r@[2]@ == "--cache=yes"@,
        r@[3]@ == stream_url@,
{
    let mut ipc = String::from_str("--input-ipc-server=");
    ipc.append(socket_path);

    let mut v: Vec<String> = Vec::new();
    v.push(String::from_str("--no-video"));
    v.push(ipc);
    v.push(String::from_str("--cache=yes"));
    v.push(String::from_str(stream_url));
    v
}

/// What the bounded tool log shows for `n` diagnostic lines.
pub open spec fn spec_tool_log_len(n: int) -> int {
    if n > TOOL_LOG_MAX_LINES {
        (TOOL_LOG_MAX_LINES + 1) as int
    } else {
        n
    }
}

/// Bound the tool's diagnostic stream: the first lines are forwarded with
/// a tool marker, the rest collapse into one "lines omitted" marker.
pub fn truncate_tool_log(lines: &Vec<String>) -> (r: Vec<String>)
    ensures
        r@.len() == spec_tool_log_len(lines@.len() as int),
        forall|i: int|
            0 <= i < lines@.len() && i < TOOL_LOG_MAX_LINES ==> r@[i]@ == "[yt-dlp] "@
                + #[trigger] lines@[i]@,
        lines@.len() > TOOL_LOG_MAX_LINES ==> r@[TOOL_LOG_MAX_LINES as int]@ == "[yt-dlp] ... "@
            + u64_digits((lines@.len() - TOOL_LOG_MAX_LINES) as nat) + " lines omitted"@,
{
    let n = lines.len();
    let shown: usize = if n > TOOL_LOG_MAX_LINES {
        TOOL_LOG_MAX_LINES
    } else {
        n
    };
    let mut out: Vec<String> = Vec::new();
    let mut i: usize = 0;
    while i < shown
        invariant
            shown <= n,
            n == lines@.len(),
            i <= shown,
            out@.len() == i,
            forall|k: int| 0 <= k < i ==> out@[k]@ == "[yt-dlp] "@ + #[trigger] lines@[k]@,
        decreases shown - i,
    {
        let mut line = String::from_str("[yt-dlp] ");
        line.append(lines[i].as_str());
        out.push(line);
        i = i + 1;
    }
    if n > TOOL_LOG_MAX_LINES {
        let mut marker = String::from_str("[yt-dlp] ... ");
        marker.append(u64_to_string((n - TOOL_LOG_MAX_LINES) as u64).as_str());
        marker.append(" lines omitted");
        out.push(marker);
    }
    out
}

/// Take the resolve invocation's standard output apart: its trimmed text
/// is the stream address, and an empty one means nothing was resolved.
pub fn extract_stream_url(stdout: &str) -> (r: Result<String, PlayerError>)
    ensures
        match r {
            Ok(url) => spec_trim(stdout@).len() > 0 && url@ == spec_trim(stdout@),
            Err(e) => spec_trim(stdout@).len() == 0 && e is NotFound,
        },
{
    let url = trim_to_string(stdout);
    if url.as_str().unicode_len() == 0 {
        Err(PlayerError::NotFound)
    } else {
        Ok(url)
    }
}

} // verus!
