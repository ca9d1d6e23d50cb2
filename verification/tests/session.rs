use maboroshi::session::{resolve_favorites_location, App, FavoriteItem, PlayMode, PlayerStatus};

fn fav(title: &str) -> FavoriteItem {
    FavoriteItem { title: title.to_string(), source: "yt".to_string() }
}

fn app_with(favorites: Vec<FavoriteItem>) -> App {
    App::new(favorites)
}

#[test]
fn new_session_starts_waiting() {
    let app = app_with(vec![]);
    assert!(app.running);
    assert!(matches!(app.status, PlayerStatus::Waiting));
    assert_eq!(app.current_song, "");
    assert_eq!(app.volume, 100);
    assert_eq!(app.current_page, 1);
    assert_eq!(app.total_pages, 1);
    assert!(matches!(app.play_mode, PlayMode::Shuffle));
    assert_eq!(app.logs.len(), 1);
    assert_eq!(app.logs[0], "application started");
}

#[test]
fn new_session_logs_loaded_favorites() {
    let app = app_with(vec![fav("a"), fav("b")]);
    assert_eq!(app.logs.len(), 2);
    assert_eq!(app.logs[1], "loaded 2 favorites");
}

#[test]
fn add_log_drops_repeats_and_bounds_length() {
    let mut app = app_with(vec![]);
    app.add_log("one".to_string());
    app.add_log("one".to_string());
    assert_eq!(app.logs.len(), 2);
    for i in 0..100u32 {
        app.add_log(format!("line {}", i));
    }
    assert_eq!(app.logs.len(), 50);
    assert_eq!(app.logs[49], "line 99");
}

#[test]
fn toggle_favorite_adds_then_removes() {
    let mut app = app_with(vec![]);
    app.current_song = "song x".to_string();
    app.toggle_favorite();
    assert_eq!(app.favorites.len(), 1);
    assert_eq!(app.favorites[0].title, "song x");
    assert_eq!(app.favorites[0].source, "yt");
    assert!(app.is_favorite());
    app.toggle_favorite();
    assert_eq!(app.favorites.len(), 0);
    assert!(!app.is_favorite());
}

#[test]
fn toggle_favorite_without_song_is_a_noop() {
    let mut app = app_with(vec![]);
    let logs_before = app.logs.len();
    app.toggle_favorite();
    assert_eq!(app.favorites.len(), 0);
    assert_eq!(app.logs.len(), logs_before);
}

#[test]
fn favorite_selection_wraps() {
    let mut app = app_with(vec![fav("a"), fav("b"), fav("c")]);
    assert_eq!(app.selected_favorite, 0);
    app.select_next_favorite();
    assert_eq!(app.selected_favorite, 1);
    app.select_next_favorite();
    app.select_next_favorite();
    assert_eq!(app.selected_favorite, 0);
    app.select_prev_favorite();
    assert_eq!(app.selected_favorite, 2);
    assert_eq!(app.get_selected_favorite().unwrap().title, "c");
}

#[test]
fn sync_selection_finds_current_song() {
    let mut app = app_with(vec![fav("a"), fav("b")]);
    app.current_song = "b".to_string();
    app.sync_selected_favorite();
    assert_eq!(app.selected_favorite, 1);
    assert_eq!(app.logs[app.logs.len() - 1], "favorite index synced to 1");
}

#[test]
fn play_mode_cycle() {
    let mut app = app_with(vec![]);
    assert!(matches!(app.play_mode, PlayMode::Shuffle));
    app.toggle_play_mode();
    assert!(matches!(app.play_mode, PlayMode::Single));
    app.toggle_play_mode();
    assert!(matches!(app.play_mode, PlayMode::ListLoop));
    app.toggle_play_mode();
    assert!(matches!(app.play_mode, PlayMode::Sequential));
    app.toggle_play_mode();
    assert!(matches!(app.play_mode, PlayMode::Shuffle));
    assert_eq!(app.get_play_mode_text(), "🔀");
}

#[test]
fn play_mode_from_config_accepts_known_names() {
    let mut app = app_with(vec![]);
    assert!(app.set_play_mode_from_config("single"));
    assert!(matches!(app.play_mode, PlayMode::Single));
    assert!(app.set_play_mode_from_config("  List-Loop "));
    assert!(matches!(app.play_mode, PlayMode::ListLoop));
    assert!(app.set_play_mode_from_config("SEQ"));
    assert!(matches!(app.play_mode, PlayMode::Sequential));
    assert!(app.set_play_mode_from_config("random"));
    assert!(matches!(app.play_mode, PlayMode::Shuffle));
}

#[test]
fn play_mode_from_config_falls_back_to_shuffle() {
    let mut app = app_with(vec![]);
    app.set_play_mode_from_config("single");
    assert!(!app.set_play_mode_from_config("polka"));
    assert!(matches!(app.play_mode, PlayMode::Shuffle));
}

#[test]
fn sequential_advances_then_stops() {
    let mut app = app_with(vec![fav("A"), fav("B"), fav("C")]);
    app.play_mode = PlayMode::Sequential;
    app.current_song = "B".to_string();
    assert_eq!(app.get_next_song(7), Some("C".to_string()));
    assert_eq!(app.selected_favorite, 2);
    app.current_song = "C".to_string();
    assert_eq!(app.get_next_song(7), None);
}

#[test]
fn list_loop_wraps_to_first() {
    let mut app = app_with(vec![fav("A"), fav("B"), fav("C")]);
    app.play_mode = PlayMode::ListLoop;
    app.current_song = "C".to_string();
    assert_eq!(app.get_next_song(7), Some("A".to_string()));
    assert_eq!(app.selected_favorite, 0);
    assert_eq!(app.logs[app.logs.len() - 1], "list loop: back to the first song");
}

#[test]
fn sequential_needs_current_song_in_favorites() {
    let mut app = app_with(vec![fav("A"), fav("B")]);
    app.play_mode = PlayMode::Sequential;
    app.current_song = "Z".to_string();
    assert_eq!(app.get_next_song(7), None);
    assert_eq!(app.logs[app.logs.len() - 1], "current song 'Z' is not in favorites");
}

#[test]
fn shuffle_with_two_favorites_picks_the_other() {
    let mut app = app_with(vec![fav("A"), fav("B")]);
    app.play_mode = PlayMode::Shuffle;
    app.current_song = "A".to_string();
    for draw in 0..20u64 {
        assert_eq!(app.get_next_song(draw), Some("B".to_string()));
        assert_eq!(app.selected_favorite, 1);
    }
}

#[test]
fn shuffle_never_repeats_current_among_many() {
    let mut app = app_with(vec![fav("A"), fav("B"), fav("C"), fav("D")]);
    app.play_mode = PlayMode::Shuffle;
    app.current_song = "B".to_string();
    for draw in 0..30u64 {
        let next = app.get_next_song(draw).unwrap();
        assert_ne!(next, "B");
    }
}

#[test]
fn single_mode_repeats_current() {
    let mut app = app_with(vec![fav("A")]);
    app.play_mode = PlayMode::Single;
    app.current_song = "whatever".to_string();
    assert_eq!(app.get_next_song(3), Some("whatever".to_string()));
    app.current_song = String::new();
    assert_eq!(app.get_next_song(3), None);
}

#[test]
fn saved_status_restores_after_search() {
    let mut app = app_with(vec![]);
    app.status = PlayerStatus::Playing;
    app.save_status_before_search();
    app.status = PlayerStatus::Searching;
    app.restore_status_after_search();
    assert!(matches!(app.status, PlayerStatus::Playing));
    assert!(app.saved_status.is_none());
    // Without a saved status the session returns to waiting.
    app.restore_status_after_search();
    assert!(matches!(app.status, PlayerStatus::Waiting));
}

#[test]
fn search_status_is_not_saved() {
    let mut app = app_with(vec![]);
    app.status = PlayerStatus::Searching;
    app.save_status_before_search();
    assert!(app.saved_status.is_none());
}

#[test]
fn favorites_location_expands_the_home_marker() {
    assert_eq!(
        resolve_favorites_location("~/.maboroshi_favorites.json", "/home/me"),
        "/home/me/.maboroshi_favorites.json"
    );
    assert_eq!(resolve_favorites_location("/srv/favs.json", "/home/me"), "/srv/favs.json");
    assert_eq!(resolve_favorites_location("", "/home/me"), "");
}

#[test]
fn backup_names_carry_a_timestamp() {
    assert_eq!(
        maboroshi::session::backup_file_name("favorites.json", 1700000000),
        "favorites.json.corrupt.1700000000"
    );
}

#[test]
fn sequencer_supersedes_older_ids() {
    let mut app = app_with(vec![]);
    let id1 = app.begin_async_request();
    assert!(app.is_active_request(id1));
    let id2 = app.begin_async_request();
    assert!(id2 > id1);
    assert!(app.is_active_request(id2));
    assert!(!app.is_active_request(id1));
}
