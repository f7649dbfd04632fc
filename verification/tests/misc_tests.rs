use movie_mover::app::State;
use movie_mover::config::{find_target, Target};
use movie_mover::handler::{
    handle_file_explorer_key_events, handle_key_events, handle_movie_selection_key_events, Action, KeyCode, KeyEvent,
    CONTROL,
};
use movie_mover::messenger::{Message, Urgency, WithMessages, MESSAGE_LIFETIME_NANOS};
use movie_mover::tvdb::{
    episode_entries, episode_name, generic_entries, movie_entries, GenericEntry, MovieEntry, QueryType, RawEpisodeEntry,
    RawGenericEntry, RemoteID, TvdbAPI,
};
use movie_mover::ui::{fit_title, message_box_height, spinner, spinner_frame};

fn key(code: KeyCode) -> KeyEvent {
    KeyEvent { code, modifiers: 0 }
}

fn remote(id: &str, source: &str) -> RemoteID {
    RemoteID { id: id.to_string(), remote_type: 2, source_name: source.to_string() }
}

fn raw_hit(name: Option<&str>, year: Option<&str>, tvdb: Option<&str>, ids: Option<Vec<RemoteID>>) -> RawGenericEntry {
    RawGenericEntry {
        name: name.map(|s| s.to_string()),
        year: year.map(|s| s.to_string()),
        tvdb_id: tvdb.map(|s| s.to_string()),
        remote_ids: ids,
    }
}

fn generic(name: &str, tvdb_id: &str) -> GenericEntry {
    GenericEntry {
        name: name.to_string(),
        year: "2008".to_string(),
        tvdb_id: tvdb_id.to_string(),
        imdb_id: "tt9".to_string(),
    }
}

#[test]
fn message_constructors_set_urgency() {
    assert_eq!(Message::info("i".to_string()).urgency, Urgency::Info);
    assert_eq!(Message::warning("w".to_string()).urgency, Urgency::Warning);
    let e = Message::error("e".to_string());
    assert_eq!(e.urgency, Urgency::Error);
    assert_eq!(e.content, "e");
    assert_eq!(Message::new("n".to_string(), Urgency::Warning).urgency, Urgency::Warning);
}

#[test]
fn urgency_round_trips() {
    let e = Message::error("x".to_string());
    let t = e.timestamp;
    let w = e.err_to_warn();
    assert_eq!(w.urgency, Urgency::Warning);
    assert_eq!(w.timestamp, t);
    let back = w.warn_to_err();
    assert_eq!(back.urgency, Urgency::Error);
    assert_eq!(back.content, "x");
    assert_eq!(Message::info("i".to_string()).err_to_warn().urgency, Urgency::Info);
    assert_eq!(Message::info("i".to_string()).warn_to_err().urgency, Urgency::Info);
    assert_eq!(Message::warning("w".to_string()).err_to_warn().urgency, Urgency::Warning);
    assert_eq!(Message::error("e".to_string()).warn_to_err().urgency, Urgency::Error);
}

#[test]
fn messages_expire_after_five_seconds() {
    assert_eq!(MESSAGE_LIFETIME_NANOS, 5_000_000_000);
    assert!(!Message::expired_after(0));
    assert!(!Message::expired_after(5_000_000_000));
    assert!(Message::expired_after(5_000_000_001));
    assert!(!Message::info("fresh".to_string()).has_expired());
}

#[test]
fn with_messages_carries_messages() {
    let w: WithMessages<Option<String>> = WithMessages::from_message(Message::warning("w".to_string()));
    assert_eq!(w.inner, None);
    assert_eq!(w.messages.len(), 1);
    let mut global = vec![Message::info("first".to_string())];
    let v = WithMessages::new(7u32, vec![Message::error("e1".to_string()), Message::error("e2".to_string())]);
    let inner = v.append_messages(&mut global);
    assert_eq!(inner, 7);
    assert_eq!(global.len(), 3);
    assert_eq!(global[0].content, "first");
    assert_eq!(global[2].content, "e2");
    let (x, msgs) = WithMessages::from_value(3u8).destructure();
    assert_eq!(x, 3);
    assert!(msgs.is_empty());
    let d: WithMessages<u8> = WithMessages::default();
    assert_eq!(d.inner, 0);
    assert!(d.messages.is_empty());
    let f: WithMessages<String> = WithMessages::from_messages(vec![Message::info("m".to_string())]);
    assert_eq!(f.inner, "");
    assert_eq!(f.messages[0].content, "m");
}

#[test]
fn with_messages_map_keeps_messages() {
    let w = WithMessages::new(2u32, vec![Message::info("kept".to_string())]);
    let m = w.map(|x| x * 3);
    assert_eq!(m.inner, 6);
    assert_eq!(m.messages.len(), 1);
    assert_eq!(m.messages[0].content, "kept");
}

#[test]
fn file_explorer_keys() {
    assert_eq!(handle_file_explorer_key_events(key(KeyCode::Esc)), Action::Quit);
    assert_eq!(handle_file_explorer_key_events(key(KeyCode::Char('q'))), Action::Quit);
    assert_eq!(handle_file_explorer_key_events(KeyEvent { code: KeyCode::Char('c'), modifiers: CONTROL }), Action::Quit);
    assert_eq!(handle_file_explorer_key_events(KeyEvent { code: KeyCode::Char('C'), modifiers: CONTROL }), Action::Quit);
    assert_eq!(handle_file_explorer_key_events(key(KeyCode::Char('c'))), Action::Nothing);
    assert_eq!(handle_file_explorer_key_events(KeyEvent { code: KeyCode::Char('c'), modifiers: CONTROL | 1 }), Action::Nothing);
    assert_eq!(handle_file_explorer_key_events(key(KeyCode::Enter)), Action::ProcessSelection);
    assert_eq!(handle_file_explorer_key_events(key(KeyCode::Char('h'))), Action::ExitDir);
    assert_eq!(handle_file_explorer_key_events(key(KeyCode::Left)), Action::ExitDir);
    assert_eq!(handle_file_explorer_key_events(key(KeyCode::Char('j'))), Action::NextDirEntry);
    assert_eq!(handle_file_explorer_key_events(key(KeyCode::Down)), Action::NextDirEntry);
    assert_eq!(handle_file_explorer_key_events(key(KeyCode::Char('k'))), Action::PrevDirEntry);
    assert_eq!(handle_file_explorer_key_events(key(KeyCode::Up)), Action::PrevDirEntry);
    assert_eq!(handle_file_explorer_key_events(key(KeyCode::Char('l'))), Action::EnterDir);
    assert_eq!(handle_file_explorer_key_events(key(KeyCode::Right)), Action::EnterDir);
    assert_eq!(handle_file_explorer_key_events(key(KeyCode::Char('s'))), Action::FocusMovieSelection);
    assert_eq!(handle_file_explorer_key_events(key(KeyCode::Char('m'))), Action::ChangeMode);
    assert_eq!(handle_file_explorer_key_events(key(KeyCode::Char('t'))), Action::ChangeTarget);
    assert_eq!(handle_file_explorer_key_events(key(KeyCode::Char('x'))), Action::Nothing);
    assert_eq!(handle_file_explorer_key_events(key(KeyCode::Tab)), Action::Nothing);
}

#[test]
fn movie_selection_keys() {
    assert_eq!(handle_movie_selection_key_events(key(KeyCode::Esc)), Action::FocusFileExplorer);
    assert_eq!(handle_movie_selection_key_events(key(KeyCode::Enter)), Action::FocusFileExplorer);
    assert_eq!(handle_movie_selection_key_events(key(KeyCode::Tab)), Action::UiNext);
    assert_eq!(handle_movie_selection_key_events(key(KeyCode::BackTab)), Action::UiPrev);
    assert_eq!(handle_movie_selection_key_events(key(KeyCode::Char('q'))), Action::UiAdd('q'));
    assert_eq!(handle_movie_selection_key_events(key(KeyCode::Backspace)), Action::UiRemove);
    assert_eq!(handle_movie_selection_key_events(key(KeyCode::Left)), Action::UiLeft);
    assert_eq!(handle_movie_selection_key_events(key(KeyCode::Right)), Action::UiRight);
    assert_eq!(handle_movie_selection_key_events(key(KeyCode::Up)), Action::SelectPrev);
    assert_eq!(handle_movie_selection_key_events(key(KeyCode::Down)), Action::SelectNext);
    assert_eq!(handle_movie_selection_key_events(key(KeyCode::Other)), Action::Nothing);
}

#[test]
fn keys_go_to_the_focused_part() {
    assert_eq!(handle_key_events(key(KeyCode::Char('q')), State::FileExplorer), Action::Quit);
    assert_eq!(handle_key_events(key(KeyCode::Char('q')), State::MovieSelection), Action::UiAdd('q'));
    assert_eq!(handle_key_events(key(KeyCode::Esc), State::MovieSelection), Action::FocusFileExplorer);
}

#[test]
fn spinner_cycles_every_quarter_second() {
    assert_eq!(spinner_frame(0), ".");
    assert_eq!(spinner_frame(249), ".");
    assert_eq!(spinner_frame(250), "..");
    assert_eq!(spinner_frame(500), "...");
    assert_eq!(spinner_frame(750), ".");
    let s = spinner().unwrap();
    assert!(s == "." || s == ".." || s == "...");
}

#[test]
fn fit_title_shortens_long_titles() {
    assert_eq!(fit_title("file explorer", 40), "╴file explorer╶");
    assert_eq!(fit_title("abcdefghij", 10), "╴abcde…╶");
    assert_eq!(fit_title("abcdef", 10), "╴abcdef╶");
    assert_eq!(fit_title("abcdefg", 10), "╴abcde…╶");
}

#[test]
fn generic_entries_keep_complete_hits() {
    let raws = vec![
        raw_hit(Some("AC/DC Live"), Some("1991"), Some("12"), Some(vec![remote("x", "TheMovieDB.com"), remote("tt1", "IMDB"), remote("tt2", "IMDB")])),
        raw_hit(None, Some("1991"), Some("13"), Some(vec![remote("tt3", "IMDB")])),
        raw_hit(Some("No Imdb"), Some("2001"), Some("14"), Some(vec![remote("y", "EIDR")])),
        raw_hit(Some("No Ids"), Some("2001"), Some("15"), None),
        raw_hit(Some("Kept"), Some("2002"), Some("16"), Some(vec![remote("tt/4", "IMDB")])),
    ];
    let hits = generic_entries(&raws);
    assert_eq!(hits.len(), 2);
    assert_eq!(hits[0].name, "AC+DC Live");
    assert_eq!(hits[0].imdb_id, "tt1");
    assert_eq!(hits[0].tvdb_id, "12");
    assert_eq!(hits[1].name, "Kept");
    assert_eq!(hits[1].imdb_id, "tt+4");
}

#[test]
fn movie_entries_convert_in_order() {
    let movies: Vec<MovieEntry> = movie_entries(vec![generic("A", "1"), generic("B", "2")]);
    assert_eq!(movies.len(), 2);
    assert_eq!(movies[0].name, "A");
    assert_eq!(movies[1].tvdb_id, "2");
    assert_eq!(movies[1].imdb_id, "tt9");
    let one = MovieEntry::from(generic("C", "3"));
    assert_eq!(one.year, "2008");
}

#[test]
fn episode_name_matches_the_decimal_number() {
    let episodes = vec![
        RawEpisodeEntry { name: "Pilot".to_string(), number: 1 },
        RawEpisodeEntry { name: "Cat's in the Bag/...".to_string(), number: 2 },
        RawEpisodeEntry { name: "Duplicate".to_string(), number: 2 },
    ];
    assert_eq!(episode_name(&episodes, &"2".to_string()), Some("Cat's in the Bag+...".to_string()));
    assert_eq!(episode_name(&episodes, &"02".to_string()), None);
    assert_eq!(episode_name(&episodes, &"3".to_string()), None);
}

#[test]
fn episode_entries_pair_series_with_names() {
    let series = vec![generic("Breaking Bad (2008)", "81189"), generic("Other", "2")];
    let names = vec![Some("Breakage".to_string()), None];
    let eps = episode_entries(series, names, &"2".to_string(), &"5".to_string());
    assert_eq!(eps.len(), 1);
    assert_eq!(eps[0].series_name, "Breaking Bad (2008)");
    assert_eq!(eps[0].tvdb_id, "81189");
    assert_eq!(eps[0].season, "2");
    assert_eq!(eps[0].episode, "5");
    assert_eq!(eps[0].episode_name, "Breakage");
}

#[test]
fn tvdb_request_parts() {
    assert_eq!(QueryType::Movie.to_string(), "movie");
    assert_eq!(QueryType::Series.to_string(), "series");
    let api = TvdbAPI::new("SECRET-REDACTED".to_string());
    assert_eq!(api.auth_token, "SECRET-REDACTED");
    assert_eq!(api.authorization(), "Bearer SECRET-REDACTED");
    let params = TvdbAPI::search_params(QueryType::Series, "Lost".to_string(), "2004".to_string());
    assert_eq!(
        params,
        vec![
            ("query".to_string(), "Lost".to_string()),
            ("type".to_string(), "series".to_string()),
            ("year".to_string(), "2004".to_string()),
        ]
    );
    assert_eq!(TvdbAPI::episodes_url("81189"), "https://api4.thetvdb.com/v4/series/81189/episodes/default");
}

#[test]
fn find_target_finds_the_first_label() {
    let targets = vec![
        Target { label: "movies".to_string(), path: "/m".to_string() },
        Target { label: "kids".to_string(), path: "/k".to_string() },
        Target { label: "movies".to_string(), path: "/m2".to_string() },
    ];
    assert_eq!(find_target(&targets, &"movies".to_string()), Some(0));
    assert_eq!(find_target(&targets, &"kids".to_string()), Some(1));
    assert_eq!(find_target(&targets, &"none".to_string()), None);
}

#[test]
fn message_box_height_counts_shown_lines() {
    assert_eq!(message_box_height(&vec![], 30), Some(1));
    assert_eq!(message_box_height(&vec![1, 2], 30), Some(6));
    assert_eq!(message_box_height(&vec![9, 0], 30), Some(7));
    assert_eq!(message_box_height(&vec![3, 3, 3], 10), Some(10));
    assert_eq!(message_box_height(&vec![65536], 30), Some(2));
    assert_eq!(message_box_height(&vec![4; 20000], 30), None);
}
