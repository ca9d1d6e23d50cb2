use maboroshi::errors::PlayerError;
use maboroshi::search::{
    build_cookie_args, build_play_args, build_player_args, build_search_args,
    extended_search_path, extract_stream_url, parse_search_output, truncate_tool_log,
};

fn lines(v: &[&str]) -> Vec<String> {
    v.iter().map(|s| s.to_string()).collect()
}

#[test]
fn search_args_cover_the_requested_page() {
    let args = build_search_args("ytsearch", "lofi", 1, 15);
    assert_eq!(
        args,
        vec!["--dump-json", "--flat-playlist", "--playlist-items", "1-15", "ytsearch65:lofi"]
    );
    let args = build_search_args("ytsearch", "lofi", 2, 15);
    assert_eq!(args[3], "16-30");
    assert_eq!(args[4], "ytsearch80:lofi");
}

#[test]
fn play_args_ask_for_the_best_audio_stream() {
    let args = build_play_args("bilisearch", "some song");
    assert_eq!(args, vec!["--get-url", "-f", "bestaudio", "bilisearch1:some song"]);
}

#[test]
fn player_args_bind_the_control_socket() {
    let args = build_player_args("/tmp/m.sock", "http://stream");
    assert_eq!(
        args,
        vec!["--no-video", "--input-ipc-server=/tmp/m.sock", "--cache=yes", "http://stream"]
    );
}

#[test]
fn cookie_args_name_the_browser() {
    assert_eq!(build_cookie_args("chrome"), vec!["--cookies-from-browser", "chrome"]);
}

#[test]
fn output_parsing_keeps_titled_lines_in_order() {
    let out = parse_search_output(&lines(&[
        "{\"title\":\"Song A\"}",
        "not json at all",
        "{\"other\":\"field\"}",
        "{\"title\":123}",
        "{\"title\":\"Song B\",\"id\":\"x\"}",
    ]));
    assert_eq!(out.len(), 2);
    assert_eq!(out[0].title, "Song A");
    assert_eq!(out[1].title, "Song B");
}

#[test]
fn output_parsing_of_nothing_is_empty() {
    let out = parse_search_output(&lines(&[]));
    assert!(out.is_empty());
}

#[test]
fn tool_log_is_bounded_with_a_marker() {
    let out = truncate_tool_log(&lines(&["a", "b", "c", "d", "e", "f", "g", "h"]));
    assert_eq!(out.len(), 7);
    assert_eq!(out[0], "[yt-dlp] a");
    assert_eq!(out[5], "[yt-dlp] f");
    assert_eq!(out[6], "[yt-dlp] ... 2 lines omitted");
}

#[test]
fn short_tool_log_is_passed_through() {
    let out = truncate_tool_log(&lines(&["only", "two"]));
    assert_eq!(out, vec!["[yt-dlp] only", "[yt-dlp] two"]);
}

#[test]
fn stream_url_is_the_trimmed_output() {
    assert_eq!(extract_stream_url("  http://a/b \n").unwrap(), "http://a/b");
    assert!(matches!(extract_stream_url("   \n"), Err(PlayerError::NotFound)));
    assert!(matches!(extract_stream_url(""), Err(PlayerError::NotFound)));
}

#[test]
fn tool_path_gains_the_package_manager_directories_once() {
    assert_eq!(
        extended_search_path("/usr/bin:/bin".to_string()),
        "/opt/homebrew/bin:/usr/local/bin:/usr/bin:/bin"
    );
    assert_eq!(
        extended_search_path("/usr/local/bin:/usr/bin".to_string()),
        "/usr/local/bin:/usr/bin"
    );
    assert_eq!(
        extended_search_path("/opt/homebrew/bin:/x".to_string()),
        "/opt/homebrew/bin:/x"
    );
}

#[test]
fn error_messages_name_the_failure() {
    assert_eq!(PlayerError::Timeout(30).message(), "timed out after 30 s");
    assert_eq!(PlayerError::NotFound.message(), "no audio stream found");
    assert_eq!(PlayerError::Launch("no such file".to_string()).message(), "launch failed: no such file");
    assert_eq!(PlayerError::Tool("exit status: 1".to_string()).message(), "tool failed: exit status: 1");
    assert_eq!(PlayerError::Connection("refused".to_string()).message(), "connection error: refused");
    assert_eq!(PlayerError::Protocol("bad frame".to_string()).message(), "protocol error: bad frame");
}
