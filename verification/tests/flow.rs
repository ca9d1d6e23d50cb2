use maboroshi::errors::PlayerError;
use maboroshi::flow::{PageFetchPlan, TickPlan};
use maboroshi::mirror::PauseState;
use maboroshi::search::SearchResult;
use maboroshi::session::{App, FavoriteItem, PlayMode, PlayerStatus};

fn results(n: usize, tag: &str) -> Vec<SearchResult> {
    (0..n).map(|i| SearchResult { title: format!("{} {}", tag, i) }).collect()
}

fn fav(title: &str) -> FavoriteItem {
    FavoriteItem { title: title.to_string(), source: "yt".to_string() }
}

#[test]
fn stale_search_outcome_is_discarded() {
    let mut app = App::new(vec![]);
    let id1 = app.start_search();
    let id2 = app.start_search();
    assert_ne!(id1, id2);
    app.apply_search_outcome(id1, Ok(results(15, "old")), "old".to_string(), 15);
    // The superseded batch left no trace.
    assert!(app.search_results.is_empty());
    assert!(matches!(app.status, PlayerStatus::Searching));
    app.apply_search_outcome(id2, Ok(results(3, "new")), "new".to_string(), 15);
    assert_eq!(app.search_results.len(), 3);
    assert_eq!(app.last_search_keyword, "new");
}

#[test]
fn stale_play_outcome_is_discarded() {
    let mut app = App::new(vec![]);
    let id1 = app.start_direct_play("one".to_string());
    let _id2 = app.start_direct_play("two".to_string());
    app.apply_play_outcome(id1, &"one".to_string(), Ok(()), false);
    // The stale success must not overwrite the newer request's state.
    assert!(matches!(app.status, PlayerStatus::Searching));
    assert_eq!(app.current_song, "two");
}

#[test]
fn search_fills_page_one() {
    let mut app = App::new(vec![]);
    app.status = PlayerStatus::Playing;
    let id = app.start_search();
    assert!(matches!(app.status, PlayerStatus::Searching));
    app.apply_search_outcome(id, Ok(results(15, "hit")), "lofi".to_string(), 15);
    assert!(matches!(app.status, PlayerStatus::SearchResults));
    assert_eq!(app.search_results.len(), 15);
    assert_eq!(app.current_page, 1);
    assert_eq!(app.total_pages, usize::MAX);
    assert_eq!(app.last_search_keyword, "lofi");
    assert!(app.get_cached_page(1).is_some());
}

#[test]
fn empty_search_returns_to_waiting() {
    let mut app = App::new(vec![]);
    let id = app.start_search();
    app.apply_search_outcome(id, Ok(results(0, "none")), "lofi".to_string(), 15);
    assert!(matches!(app.status, PlayerStatus::Waiting));
    assert_eq!(app.logs[app.logs.len() - 1], "no results found");
}

#[test]
fn failed_search_shows_the_error() {
    let mut app = App::new(vec![]);
    let id = app.start_search();
    app.apply_search_outcome(id, Err(PlayerError::Timeout(30)), "lofi".to_string(), 15);
    match &app.status {
        PlayerStatus::Error(m) => assert_eq!(m, "timed out after 30 s"),
        other => panic!("unexpected status: {:?}", other),
    }
    assert_eq!(app.logs[app.logs.len() - 1], "search error: timed out after 30 s");
}

#[test]
fn short_page_is_the_terminal_page() {
    // A search for "lofi" fills page one; a short page two ends the
    // pagination, and no page three is offered.
    let mut app = App::new(vec![]);
    let id = app.start_search();
    app.apply_search_outcome(id, Ok(results(15, "s")), "lofi".to_string(), 15);
    assert_eq!(app.next_page_target(), Some(2));

    let plan = app.start_page_fetch(2);
    let id2 = match plan {
        PageFetchPlan::Fetch(id2) => id2,
        other => panic!("unexpected plan: {:?}", other),
    };
    assert!(app.is_loading_page);
    app.apply_page_outcome(id2, 2, Ok(results(7, "p2")), "lofi".to_string(), 15);
    assert_eq!(app.current_page, 2);
    assert_eq!(app.total_pages, 2);
    assert!(!app.is_loading_page);
    assert_eq!(app.next_page_target(), None);
    assert_eq!(app.prev_page_target(), Some(1));
}

#[test]
fn empty_page_marks_the_previous_one_terminal() {
    let mut app = App::new(vec![]);
    let id = app.start_search();
    app.apply_search_outcome(id, Ok(results(15, "s")), "lofi".to_string(), 15);
    let id2 = match app.start_page_fetch(2) {
        PageFetchPlan::Fetch(id2) => id2,
        other => panic!("unexpected plan: {:?}", other),
    };
    app.apply_page_outcome(id2, 2, Ok(vec![]), "lofi".to_string(), 15);
    assert_eq!(app.total_pages, 1);
    assert_eq!(app.current_page, 1);
    assert_eq!(app.logs[app.logs.len() - 1], "reached the last page (page 1)");
}

#[test]
fn cached_page_needs_no_fetch() {
    let mut app = App::new(vec![]);
    let id = app.start_search();
    app.apply_search_outcome(id, Ok(results(15, "s")), "lofi".to_string(), 15);
    let id2 = match app.start_page_fetch(2) {
        PageFetchPlan::Fetch(id2) => id2,
        other => panic!("unexpected plan: {:?}", other),
    };
    app.apply_page_outcome(id2, 2, Ok(results(15, "p2")), "lofi".to_string(), 15);
    // Going back serves page one from the cache.
    assert_eq!(app.start_page_fetch(1), PageFetchPlan::Cached);
    assert_eq!(app.current_page, 1);
    assert_eq!(app.search_results[0].title, "s 0");
    assert_eq!(app.logs[app.logs.len() - 1], "page 1 (from cache)");
}

#[test]
fn concurrent_page_fetches_are_refused() {
    let mut app = App::new(vec![]);
    let id = app.start_search();
    app.apply_search_outcome(id, Ok(results(15, "s")), "lofi".to_string(), 15);
    match app.start_page_fetch(2) {
        PageFetchPlan::Fetch(_) => {},
        other => panic!("unexpected plan: {:?}", other),
    }
    assert_eq!(app.start_page_fetch(3), PageFetchPlan::Busy);
}

#[test]
fn pause_intent_follows_the_status() {
    let mut app = App::new(vec![]);
    assert_eq!(app.pause_intent(), None);
    app.status = PlayerStatus::Playing;
    assert_eq!(app.pause_intent(), Some(true));
    app.apply_pause_result(true, Ok(()));
    assert!(matches!(app.status, PlayerStatus::Paused));
    assert_eq!(app.pause_intent(), Some(false));
    app.apply_pause_result(false, Ok(()));
    assert!(matches!(app.status, PlayerStatus::Playing));
}

#[test]
fn failed_pause_keeps_the_status() {
    let mut app = App::new(vec![]);
    app.status = PlayerStatus::Playing;
    app.apply_pause_result(true, Err(PlayerError::Connection("refused".to_string())));
    assert!(matches!(app.status, PlayerStatus::Playing));
    assert_eq!(app.logs[app.logs.len() - 1], "toggle pause failed: connection error: refused");
}

#[test]
fn tick_plans_by_status() {
    let mut app = App::new(vec![]);
    assert_eq!(app.tick_plan(), TickPlan::Idle);
    app.status = PlayerStatus::Playing;
    assert_eq!(app.tick_plan(), TickPlan::PollMirror);
    app.status = PlayerStatus::Paused;
    assert_eq!(app.tick_plan(), TickPlan::PollMirror);
    app.status = PlayerStatus::Error("x".to_string());
    assert_eq!(app.tick_plan(), TickPlan::AdvanceFromError);
}

#[test]
fn mirror_flags_flip_pause_without_restart() {
    let mut app = App::new(vec![]);
    app.status = PlayerStatus::Playing;
    assert!(!app.apply_mirror_flags(300, PauseState::Paused));
    assert!(matches!(app.status, PlayerStatus::Paused));
    assert_eq!(app.progress, 300);
    assert!(!app.apply_mirror_flags(301, PauseState::Playing));
    assert!(matches!(app.status, PlayerStatus::Playing));
    assert!(app.apply_mirror_flags(302, PauseState::Stopped));
    assert!(matches!(app.status, PlayerStatus::Playing));
}

#[test]
fn stopped_player_advances_to_next_favorite() {
    let mut app = App::new(vec![fav("A"), fav("B")]);
    app.play_mode = PlayMode::Sequential;
    app.status = PlayerStatus::Playing;
    app.current_song = "A".to_string();
    let next = app.reconcile_stopped(9);
    assert_eq!(next, Some("B".to_string()));
    assert_eq!(app.logs[app.logs.len() - 1], "auto-playing next: B");
    assert!(matches!(app.status, PlayerStatus::Playing));
}

#[test]
fn stopped_player_without_next_goes_waiting() {
    let mut app = App::new(vec![fav("A")]);
    app.play_mode = PlayMode::Sequential;
    app.status = PlayerStatus::Playing;
    app.current_song = "A".to_string();
    assert_eq!(app.reconcile_stopped(9), None);
    assert!(matches!(app.status, PlayerStatus::Waiting));
    assert_eq!(app.logs[app.logs.len() - 1], "playback finished");
}

#[test]
fn errors_advance_to_the_next_song() {
    let mut app = App::new(vec![fav("A"), fav("B")]);
    app.play_mode = PlayMode::ListLoop;
    app.status = PlayerStatus::Error("boom".to_string());
    app.current_song = "A".to_string();
    assert_eq!(app.advance_from_error(0), Some("B".to_string()));
    assert_eq!(app.logs[app.logs.len() - 1], "skipping error, playing next: B");
}

#[test]
fn playing_a_selected_result_stamps_and_clears() {
    let mut app = App::new(vec![]);
    let id = app.start_search();
    app.apply_search_outcome(id, Ok(results(3, "hit")), "kw".to_string(), 15);
    app.select_next_search_result();
    let (title, id2) = app.start_play_selected().unwrap();
    assert_eq!(title, "hit 1");
    assert!(app.search_results.is_empty());
    assert!(app.is_active_request(id2));
    app.mark_play_started(id2, &title);
    assert!(matches!(app.status, PlayerStatus::Searching));
    assert_eq!(app.current_song, "hit 1");
    app.apply_play_outcome(id2, &title, Ok(()), true);
    assert!(matches!(app.status, PlayerStatus::Playing));
    assert_eq!(app.current_song, "hit 1");
}

#[test]
fn playing_without_selection_yields_nothing() {
    let mut app = App::new(vec![]);
    assert!(app.start_play_selected().is_none());
}

#[test]
fn failed_playback_becomes_the_error_status() {
    let mut app = App::new(vec![]);
    let id = app.start_direct_play("song".to_string());
    app.apply_play_outcome(id, &"song".to_string(), Err(PlayerError::NotFound), false);
    match &app.status {
        PlayerStatus::Error(m) => assert_eq!(m, "no audio stream found"),
        other => panic!("unexpected status: {:?}", other),
    }
    assert_eq!(app.logs[app.logs.len() - 1], "playback failed: no audio stream found");
}

#[test]
fn successful_playback_syncs_the_favorites_selection() {
    let mut app = App::new(vec![fav("A"), fav("B")]);
    let id = app.start_direct_play("B".to_string());
    app.apply_play_outcome(id, &"B".to_string(), Ok(()), false);
    assert_eq!(app.selected_favorite, 1);
    assert_eq!(app.logs[app.logs.len() - 1], "favorite index synced to 1");
}

#[test]
fn volume_feedback_is_logged() {
    let mut app = App::new(vec![]);
    app.apply_volume_result(5, Ok(85));
    assert_eq!(app.volume, 85);
    assert_eq!(app.logs[app.logs.len() - 1], "🔊 volume: 85%");
    app.apply_volume_result(-5, Ok(80));
    assert_eq!(app.logs[app.logs.len() - 1], "🔈 volume: 80%");
    app.apply_volume_result(5, Err(PlayerError::Connection("gone".to_string())));
    assert_eq!(app.logs[app.logs.len() - 1], "volume change failed: connection error: gone");
    assert_eq!(app.volume, 80);
}

#[test]
fn seek_feedback_is_logged() {
    let mut app = App::new(vec![]);
    app.apply_seek_result(5, Ok(()));
    assert_eq!(app.logs[app.logs.len() - 1], "fast forward 5 s");
    app.apply_seek_result(-5, Ok(()));
    assert_eq!(app.logs[app.logs.len() - 1], "rewind 5 s");
    app.apply_seek_result(-5, Err(PlayerError::Connection("gone".to_string())));
    assert_eq!(app.logs[app.logs.len() - 1], "rewind failed: connection error: gone");
}
