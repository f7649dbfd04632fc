use movie_mover::app::{retain_unexpired, App, State, UIManager};
use movie_mover::config::{Config, Target};
use movie_mover::explorer::{dir_content_from_listing, DirContent, DirEntry, EntryType, FileExplorerState, ListingItem, RawDirEntry};
use movie_mover::messenger::{Message, Urgency};
use movie_mover::query::{EpisodeQuerier, MovieQuerier, Querier};
use movie_mover::tvdb::{EpisodeEntry, MovieEntry};

fn entry(name: &str, entry_type: EntryType, info: u64) -> DirEntry {
    DirEntry { name: name.to_string(), entry_type, info }
}

fn config() -> Config {
    Config {
        tvdb_auth_token: "SECRET-REDACTED".to_string(),
        storage_path: "/media".to_string(),
        targets: vec![
            Target { label: "movies".to_string(), path: "/library/movies".to_string() },
            Target { label: "shows".to_string(), path: "/library/shows".to_string() },
            Target { label: "kids".to_string(), path: "/library/kids".to_string() },
        ],
    }
}

fn tree(content: DirContent) -> Vec<(String, DirContent)> {
    vec![("/".to_string(), vec![entry("media", EntryType::Dir, 0)]), ("media".to_string(), content)]
}

fn movie_app() -> App {
    let (fe, _) = FileExplorerState::new(tree(vec![
        entry("sub", EntryType::Dir, 0),
        entry("The.Matrix.1999.1080p.mkv", EntryType::Video, 100),
        entry("notes.txt", EntryType::Unknown, 5),
    ]));
    App::new(config(), fe)
}

fn episode_app() -> App {
    let (fe, _) = FileExplorerState::new(tree(vec![entry("Breaking.Bad.S02E05.mkv", EntryType::Video, 100)]));
    let mut app = App::new(config(), fe);
    app.change_mode();
    app
}

fn matrix() -> MovieEntry {
    MovieEntry {
        name: "The Matrix".to_string(),
        year: "1999".to_string(),
        tvdb_id: "169".to_string(),
        imdb_id: "tt0133093".to_string(),
    }
}

fn breakage() -> EpisodeEntry {
    EpisodeEntry {
        series_name: "Breaking Bad (2008)".to_string(),
        year: "2008".to_string(),
        tvdb_id: "81189".to_string(),
        imdb_id: "tt0903747".to_string(),
        season: "2".to_string(),
        episode: "5".to_string(),
        episode_name: "Breakage".to_string(),
    }
}

fn movie_name(app: &App) -> String {
    match &app.query_state {
        Querier::MovieQuerier(m) => m.query_params.name.clone(),
        Querier::EpisodeQuerier(_) => panic!("expected a movie search"),
    }
}

#[test]
fn new_app_searches_for_the_selected_video() {
    let app = movie_app();
    assert!(app.running);
    assert_eq!(app.target, "movies");
    assert_eq!(app.state, State::FileExplorer);
    assert!(app.messages.is_empty());
    assert_eq!(app.fe_state.selection, Some("The.Matrix.1999.1080p.mkv".to_string()));
    match &app.query_state {
        Querier::MovieQuerier(m) => {
            assert_eq!(m.query_params.name, "The Matrix");
            assert_eq!(m.query_params.year, "1999");
            assert!(m.next_query.is_some());
        },
        Querier::EpisodeQuerier(_) => panic!("expected a movie search"),
    }
    assert_eq!(app.ui_manager, UIManager { selected: 0, cursor_position: 10 });
}

#[test]
fn new_app_without_video_has_an_empty_search() {
    let (fe, _) = FileExplorerState::new(tree(vec![entry("sub", EntryType::Dir, 0)]));
    let app = App::new(config(), fe);
    assert_eq!(movie_name(&app), "");
    assert_eq!(app.ui_manager.cursor_position, 0);
}

#[test]
fn quit_stops_the_tool() {
    let mut app = movie_app();
    app.quit();
    assert!(!app.running);
}

#[test]
fn tick_keeps_fresh_messages() {
    let mut app = movie_app();
    app.messages.push(Message::info("hello".to_string()));
    app.tick();
    assert_eq!(app.messages.len(), 1);
    assert_eq!(app.messages[0].content, "hello");
}

#[test]
fn retain_unexpired_drops_marked_messages() {
    let messages = vec![Message::info("a".to_string()), Message::info("b".to_string()), Message::info("c".to_string())];
    let kept = retain_unexpired(&messages, &vec![false, true, false]);
    assert_eq!(kept.len(), 2);
    assert_eq!(kept[0].content, "a");
    assert_eq!(kept[1].content, "c");
}

#[test]
fn change_target_cycles_through_targets() {
    let mut app = movie_app();
    app.change_target();
    assert_eq!(app.target, "shows");
    app.change_target();
    assert_eq!(app.target, "kids");
    app.change_target();
    assert_eq!(app.target, "movies");
    app.target = "unknown".to_string();
    app.change_target();
    assert_eq!(app.target, "movies");
}

#[test]
fn moving_through_entries_searches_videos() {
    let mut app = movie_app();
    app.next_dir_entry();
    assert_eq!(app.fe_state.selection, Some("notes.txt".to_string()));
    assert_eq!(movie_name(&app), "The Matrix");
    app.prev_dir_entry();
    app.prev_dir_entry();
    assert_eq!(app.fe_state.selection, Some("sub".to_string()));
    assert!(app.try_next_dir_entry());
    assert_eq!(app.fe_state.selection, Some("The.Matrix.1999.1080p.mkv".to_string()));
    assert!(app.try_prev_dir_entry());
    assert_eq!(app.fe_state.selection, Some("sub".to_string()));
}

#[test]
fn entering_and_exiting_directories() {
    let mut app = movie_app();
    app.prev_dir_entry();
    assert_eq!(app.fe_state.selection, Some("sub".to_string()));
    let read = dir_content_from_listing(Ok(vec![ListingItem::Entry(RawDirEntry {
        name: "Heat.1995.mkv".to_string(),
        is_dir: false,
        size: 42,
    })]));
    app.enter_dir(read);
    assert!(app.messages.is_empty());
    assert_eq!(app.fe_state.curr_path(), "/media/sub");
    assert_eq!(movie_name(&app), "Heat");
    assert_eq!(app.ui_manager.cursor_position, 4);
    app.exit_dir();
    assert_eq!(app.fe_state.selection, Some("sub".to_string()));
    app.exit_dir();
    app.exit_dir();
    assert_eq!(app.messages.len(), 1);
    assert_eq!(app.messages[0].urgency, Urgency::Warning);
    assert_eq!(app.messages[0].content, "Could not exit dir: it's the base dir");
}

#[test]
fn entering_a_video_reports_an_error() {
    let mut app = movie_app();
    let read = dir_content_from_listing(Ok(Vec::new()));
    assert!(app.try_enter_dir(read));
    assert_eq!(app.messages.len(), 1);
    assert_eq!(app.messages[0].urgency, Urgency::Error);
    assert_eq!(app.messages[0].content, "cannot enter current selection as it is not a directory");
}

#[test]
fn typing_and_deleting_in_the_search() {
    let mut app = movie_app();
    app.ui_add('!');
    assert_eq!(movie_name(&app), "The Matrix!");
    assert_eq!(app.ui_manager.cursor_position, 11);
    app.ui_remove();
    assert_eq!(movie_name(&app), "The Matrix");
    assert_eq!(app.ui_manager.cursor_position, 10);
    app.ui_left();
    app.ui_left();
    app.ui_add('X');
    assert_eq!(movie_name(&app), "The MatrXix");
    assert_eq!(app.ui_manager.cursor_position, 9);
}

#[test]
fn deleting_at_the_start_changes_nothing() {
    let mut app = movie_app();
    app.ui_manager.cursor_position = 0;
    app.ui_remove();
    assert_eq!(movie_name(&app), "The Matrix");
    assert_eq!(app.ui_manager.cursor_position, 0);
}

#[test]
fn cursor_stays_within_the_field() {
    let mut app = movie_app();
    app.ui_right();
    assert_eq!(app.ui_manager.cursor_position, 10);
    app.ui_manager.cursor_position = 0;
    app.ui_left();
    assert_eq!(app.ui_manager.cursor_position, 0);
}

#[test]
fn switching_fields_moves_the_cursor_to_their_end() {
    let mut app = movie_app();
    app.ui_next();
    assert_eq!(app.ui_manager, UIManager { selected: 1, cursor_position: 4 });
    app.ui_add('9');
    match &app.query_state {
        Querier::MovieQuerier(m) => assert_eq!(m.query_params.year, "19999"),
        Querier::EpisodeQuerier(_) => panic!("expected a movie search"),
    }
    app.ui_next();
    assert_eq!(app.ui_manager, UIManager { selected: 0, cursor_position: 10 });
    app.ui_prev();
    assert_eq!(app.ui_manager.selected, 1);
}

#[test]
fn ui_manager_follows_the_selected_field() {
    let q = Querier::EpisodeQuerier(EpisodeQuerier::new());
    let mut ui = UIManager::new(&q);
    assert_eq!(ui, UIManager { selected: 0, cursor_position: 0 });
    ui.set_selected(-1, &q);
    assert_eq!(ui.selected, 3);
    ui.set_selected(6, &q);
    assert_eq!(ui.selected, 2);
    let mut m = MovieQuerier::new();
    m.query_filename("Heat.1995.mkv");
    let q = Querier::MovieQuerier(m);
    ui.set_selected(3, &q);
    assert_eq!(ui.selected, 1);
    ui.cursor_end(&q);
    assert_eq!(ui.cursor_position, 4);
    ui.set_cursor(-5, &q);
    assert_eq!(ui.cursor_position, 0);
    ui.set_cursor(2, &q);
    assert_eq!(ui.cursor_position, 2);
    ui.set_cursor(100, &q);
    assert_eq!(ui.cursor_position, 4);
}

#[test]
fn selecting_search_hits() {
    let mut app = movie_app();
    if let Querier::MovieQuerier(m) = &mut app.query_state {
        m.set_entries(Some(vec![matrix(), matrix()]));
    }
    app.select_next();
    app.select_next();
    app.select_prev();
    match &app.query_state {
        Querier::MovieQuerier(m) => assert_eq!(m.selected, 1),
        Querier::EpisodeQuerier(_) => panic!("expected a movie search"),
    }
}

#[test]
fn movie_plan_links_into_the_target() {
    let mut app = movie_app();
    if let Querier::MovieQuerier(m) = &mut app.query_state {
        m.set_entries(Some(vec![matrix()]));
    }
    let plan = app.failable_process_selection().unwrap();
    assert_eq!(plan.link_target, "/storage/The.Matrix.1999.1080p.mkv");
    assert_eq!(plan.folders, vec!["/library/movies/The Matrix (1999) [imdbid-tt0133093]".to_string()]);
    assert_eq!(
        plan.link_path,
        "/library/movies/The Matrix (1999) [imdbid-tt0133093]/The Matrix (1999) [imdbid-tt0133093].mkv"
    );
    app.change_target();
    let plan = app.failable_process_selection().unwrap();
    assert_eq!(plan.folders, vec!["/library/shows/The Matrix (1999) [imdbid-tt0133093]".to_string()]);
}

#[test]
fn episode_plan_links_into_show_and_season() {
    let mut app = episode_app();
    match &app.query_state {
        Querier::EpisodeQuerier(e) => {
            assert_eq!(e.query_params.name, "Breaking Bad");
            assert_eq!(e.query_params.season, "2");
            assert_eq!(e.query_params.episode, "5");
        },
        Querier::MovieQuerier(_) => panic!("expected an episode search"),
    }
    if let Querier::EpisodeQuerier(e) = &mut app.query_state {
        e.set_entries(Some(vec![breakage()]));
    }
    let plan = app.failable_process_selection().unwrap();
    assert_eq!(plan.link_target, "/storage/Breaking.Bad.S02E05.mkv");
    assert_eq!(
        plan.folders,
        vec![
            "/library/movies/Breaking Bad (2008) [tvdbid-81189]".to_string(),
            "/library/movies/Breaking Bad (2008) [tvdbid-81189]/Season 2".to_string(),
        ]
    );
    assert_eq!(
        plan.link_path,
        "/library/movies/Breaking Bad (2008) [tvdbid-81189]/Season 2/Breaking Bad (2008) - S02E05 - Breakage.mkv"
    );
}

#[test]
fn processing_a_non_video_is_refused() {
    let mut app = movie_app();
    app.next_dir_entry();
    let err = app.failable_process_selection().unwrap_err();
    assert_eq!(err.urgency, Urgency::Error);
    assert_eq!(err.content, "cannot process current selection: it is not a movie");
}

#[test]
fn processing_outside_storage_is_refused() {
    let mut app = movie_app();
    app.config.storage_path = "/elsewhere".to_string();
    let err = app.failable_process_selection().unwrap_err();
    assert_eq!(err.content, "cannot process object outside storage path");
    app.config.storage_path = "/med".to_string();
    let err = app.failable_process_selection().unwrap_err();
    assert_eq!(err.content, "cannot process object outside storage path");
}

#[test]
fn processing_needs_a_selected_hit() {
    let mut app = movie_app();
    let err = app.failable_process_selection().unwrap_err();
    assert_eq!(err.content, "cannot process object: no movie selected");
    if let Querier::MovieQuerier(m) = &mut app.query_state {
        m.set_entries(None);
    }
    let err = app.failable_process_selection().unwrap_err();
    assert_eq!(err.content, "cannot process object: no movies to choose");
}

#[test]
fn process_selection_records_the_outcome() {
    let mut app = movie_app();
    app.process_selection(Ok(()));
    assert_eq!(app.messages.len(), 1);
    assert_eq!(app.messages[0].urgency, Urgency::Info);
    assert_eq!(app.messages[0].content, "title processed correctly!");
    app.process_selection(Err(Message::error("cannot process object: disk full".to_string())));
    assert_eq!(app.messages.len(), 2);
    assert_eq!(app.messages[1].urgency, Urgency::Error);
    assert_eq!(app.messages[1].content, "cannot process object: disk full");
}

#[test]
fn change_mode_switches_the_search() {
    let mut app = movie_app();
    assert!(app.try_change_mode());
    match &app.query_state {
        Querier::EpisodeQuerier(e) => {
            assert_eq!(e.query_params.name, "The Matrix");
            assert_eq!(e.query_params.year, "1999");
            assert_eq!(e.query_params.season, "");
        },
        Querier::MovieQuerier(_) => panic!("expected an episode search"),
    }
    assert_eq!(app.ui_manager, UIManager { selected: 0, cursor_position: 10 });
    app.change_mode();
    assert_eq!(movie_name(&app), "The Matrix");
}

#[test]
fn change_mode_refuses_unreadable_numbers() {
    let (fe, _) = FileExplorerState::new(tree(vec![entry("Show.S99999999999E01.mkv", EntryType::Video, 1)]));
    let mut app = App::new(config(), fe);
    assert!(!app.try_change_mode());
    assert_eq!(movie_name(&app), "Show S99999999999E01");
}

#[test]
fn plan_with_subpath_uses_the_given_subpath() {
    let mut app = movie_app();
    if let Querier::MovieQuerier(m) = &mut app.query_state {
        m.set_entries(Some(vec![matrix()]));
    }
    let plan = app.plan_with_subpath(Some("films/heat.mkv".to_string())).unwrap();
    assert_eq!(plan.link_target, "/storage/films/heat.mkv");
    assert_eq!(plan.folders.len(), 1);
    let plan = app.plan_with_subpath(Some("/abs.mkv".to_string())).unwrap();
    assert_eq!(plan.link_target, "/abs.mkv");
    let err = app.plan_with_subpath(None).unwrap_err();
    assert_eq!(err.content, "cannot process object outside storage path");
}

#[test]
fn plan_stays_inside_the_target() {
    let mut app = episode_app();
    if let Querier::EpisodeQuerier(e) = &mut app.query_state {
        e.set_entries(Some(vec![breakage()]));
    }
    for _ in 0..3 {
        let target_path = app
            .config
            .targets
            .iter()
            .find(|t| t.label == app.target)
            .map(|t| t.path.clone())
            .unwrap();
        let plan = app.failable_process_selection().unwrap();
        for folder in &plan.folders {
            assert!(folder.starts_with(&target_path));
        }
        assert!(plan.link_path.starts_with(&target_path));
        app.change_target();
    }
}

#[test]
fn changing_target_cycles_back_after_every_label() {
    let mut app = movie_app();
    let labels: Vec<String> = app.config.targets.iter().map(|t| t.label.clone()).collect();
    app.change_target();
    let start = app.target.clone();
    let i0 = labels.iter().position(|l| *l == start).unwrap();
    for m in 1..=7 {
        app.change_target();
        assert_eq!(app.target, labels[(i0 + m) % labels.len()]);
    }
}

#[test]
fn outside_storage_is_reported_without_a_configured_target() {
    let mut app = movie_app();
    if let Querier::MovieQuerier(m) = &mut app.query_state {
        m.set_entries(Some(vec![matrix()]));
    }
    app.target = "unknown".to_string();
    app.config.storage_path = "/elsewhere".to_string();
    let err = app.try_process_selection().unwrap().unwrap_err();
    assert_eq!(err.content, "cannot process object outside storage path");
    let err = app.failable_process_selection().unwrap_err();
    assert_eq!(err.content, "cannot process object outside storage path");
    app.config.storage_path = "/media".to_string();
    assert!(app.try_process_selection().is_none());
    app.target = "shows".to_string();
    let plan = app.try_process_selection().unwrap().unwrap();
    assert_eq!(plan.folders, vec!["/library/shows/The Matrix (1999) [imdbid-tt0133093]".to_string()]);
}
