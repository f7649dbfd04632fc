use movie_mover::query::{
    season_episode_from_captures, title_from_blocks, EpisodeParams, EpisodeQuerier, MovieParams, MovieQuerier, Querier,
};
use movie_mover::tvdb::{EpisodeEntry, MovieEntry};

fn movie(name: &str) -> MovieEntry {
    MovieEntry {
        name: name.to_string(),
        year: "2000".to_string(),
        tvdb_id: "1".to_string(),
        imdb_id: "tt1".to_string(),
    }
}

fn episode(name: &str) -> EpisodeEntry {
    EpisodeEntry {
        series_name: name.to_string(),
        year: "2000".to_string(),
        tvdb_id: "1".to_string(),
        imdb_id: "tt1".to_string(),
        season: "1".to_string(),
        episode: "1".to_string(),
        episode_name: "Pilot".to_string(),
    }
}

#[test]
fn movie_params_read_title_and_year() {
    let p = MovieParams::new("The.Matrix.1999.1080p.mkv");
    assert_eq!(p.name, "The Matrix");
    assert_eq!(p.year, "1999");
}

#[test]
fn movie_params_without_year() {
    let p = MovieParams::new("Some Film h264.mkv");
    assert_eq!(p.name, "Some Film");
    assert_eq!(p.year, "");
}

#[test]
fn movie_params_stop_at_the_year() {
    let p = MovieParams::new("Blade Runner 2049 (2017) 2160p.mkv");
    assert_eq!(p.name, "Blade Runner");
    assert_eq!(p.year, "2049");
}

#[test]
fn episode_params_read_season_and_episode() {
    let p = EpisodeParams::new("Breaking.Bad.S02E05.720p.mkv");
    assert_eq!(p.name, "Breaking Bad");
    assert_eq!(p.year, "");
    assert_eq!(p.season, "2");
    assert_eq!(p.episode, "5");
}

#[test]
fn episode_params_read_the_x_form() {
    let p = EpisodeParams::new("The Office 2005 3x07.mp4");
    assert_eq!(p.name, "The Office");
    assert_eq!(p.year, "2005");
    assert_eq!(p.season, "3");
    assert_eq!(p.episode, "7");
}

#[test]
fn episode_params_stop_at_a_season_word() {
    let p = EpisodeParams::new("Show Name s01 e02.mkv");
    assert_eq!(p.name, "Show Name");
    assert_eq!(p.season, "1");
    assert_eq!(p.episode, "2");
}

#[test]
fn episode_params_without_marker() {
    let p = EpisodeParams::new("Documentary.mkv");
    assert_eq!(p.name, "Documentary");
    assert_eq!(p.season, "");
    assert_eq!(p.episode, "");
}

#[test]
fn episode_numbers_that_overflow_are_not_readable() {
    assert!(EpisodeParams::numbers_readable("Show.S01E02.mkv"));
    assert!(EpisodeParams::numbers_readable("Show.mkv"));
    assert!(!EpisodeParams::numbers_readable("Show.S99999999999E01.mkv"));
    assert!(EpisodeParams::try_new("Show.S99999999999E01.mkv").is_none());
    let p = EpisodeParams::try_new("Show.S01E02.mkv").unwrap();
    assert_eq!(p, EpisodeParams::new("Show.S01E02.mkv"));
}

#[test]
fn fresh_movie_querier_is_empty() {
    let q = MovieQuerier::new();
    assert_eq!(q.query_params, MovieParams::default());
    assert_eq!(q.entries.as_ref().map(|e| e.len()), Some(0));
    assert_eq!(q.selected, 0);
    assert!(q.next_query.is_none());
}

#[test]
fn movie_query_params_queue_a_new_search() {
    let mut q = MovieQuerier::new();
    q.selected = 3;
    q.query_filename("The.Matrix.1999.mkv");
    assert_eq!(q.query_params.name, "The Matrix");
    assert_eq!(q.selected, 0);
    let next = q.take_next_query().unwrap();
    assert_eq!(next, q.query_params);
    assert!(q.take_next_query().is_none());
}

#[test]
fn same_movie_search_changes_nothing() {
    let mut q = MovieQuerier::new();
    q.query_filename("The.Matrix.1999.mkv");
    let _ = q.take_next_query();
    q.selected = 2;
    q.query_filename("The.Matrix.1999.1080p.mkv");
    assert_eq!(q.selected, 2);
    assert!(q.next_query.is_none());
}

#[test]
fn movie_selection_wraps_around() {
    let mut q = MovieQuerier::new();
    q.set_entries(Some(vec![movie("a"), movie("b"), movie("c")]));
    q.select_next();
    assert_eq!(q.selected, 1);
    q.select_next();
    q.select_next();
    assert_eq!(q.selected, 0);
    q.select_prev();
    assert_eq!(q.selected, 2);
    q.select_next();
    assert_eq!(q.selected, 0);
}

#[test]
fn movie_selection_stays_without_hits() {
    let mut q = MovieQuerier::new();
    q.select_next();
    assert_eq!(q.selected, 0);
    q.set_entries(None);
    q.selected = 4;
    q.select_prev();
    assert_eq!(q.selected, 4);
}

#[test]
fn episode_selection_kept_when_only_numbers_change() {
    let mut q = EpisodeQuerier::new();
    q.query_filename("Show.S01E01.mkv");
    q.selected = 2;
    q.query_filename("Show.S01E02.mkv");
    assert_eq!(q.selected, 2);
    assert_eq!(q.next_query.as_ref().map(|p| p.episode.clone()), Some("2".to_string()));
    q.query_filename("Other.S01E02.mkv");
    assert_eq!(q.selected, 0);
}

#[test]
fn episode_selection_wraps_around() {
    let mut q = EpisodeQuerier::new();
    q.set_entries(Some(vec![episode("a"), episode("b")]));
    q.select_prev();
    assert_eq!(q.selected, 1);
    q.select_next();
    assert_eq!(q.selected, 0);
}

#[test]
fn querier_dispatches_to_its_mode() {
    let mut q = Querier::movie_querier();
    q.query_filename("Heat.1995.mkv");
    match &q {
        Querier::MovieQuerier(m) => assert_eq!(m.query_params.year, "1995"),
        Querier::EpisodeQuerier(_) => panic!("expected a movie search"),
    }
    let mut e = Querier::episode_querier();
    e.query_filename("Lost.S04E01.mkv");
    match &e {
        Querier::EpisodeQuerier(q) => {
            assert_eq!(q.query_params.name, "Lost");
            assert_eq!(q.query_params.season, "4");
        },
        Querier::MovieQuerier(_) => panic!("expected an episode search"),
    }
}

#[test]
fn querier_selection_round_trips() {
    let mut m = MovieQuerier::new();
    m.set_entries(Some(vec![movie("a"), movie("b"), movie("c"), movie("d")]));
    m.selected = 2;
    let mut q = Querier::MovieQuerier(m);
    q.select_next();
    q.select_prev();
    match &q {
        Querier::MovieQuerier(m) => assert_eq!(m.selected, 2),
        Querier::EpisodeQuerier(_) => panic!("expected a movie search"),
    }
}

fn strings(v: &[&str]) -> Vec<String> {
    v.iter().map(|s| s.to_string()).collect()
}

#[test]
fn title_from_blocks_joins_words_before_the_stop() {
    let blocks = strings(&["The", "", "Matrix", "1999", "Extra"]);
    assert_eq!(title_from_blocks(&blocks, &vec![false, false, false, true, false]), "The Matrix");
    assert_eq!(title_from_blocks(&blocks, &vec![false, false, false, false, false]), "The Matrix 1999 Extra");
    assert_eq!(title_from_blocks(&blocks, &vec![true, false, false, false, false]), "");
    assert_eq!(title_from_blocks(&blocks, &vec![false, true, false, true, false]), "The Matrix");
    assert_eq!(title_from_blocks(&blocks, &vec![false]), "The");
    assert_eq!(title_from_blocks(&Vec::new(), &Vec::new()), "");
}

#[test]
fn season_episode_from_captures_normalizes_numbers() {
    let groups = |v: &[Option<&str>]| -> Option<Vec<Option<String>>> {
        Some(v.iter().map(|g| g.map(|s| s.to_string())).collect())
    };
    assert_eq!(
        season_episode_from_captures(&groups(&[Some("S02E05"), Some("02"), Some("05"), None, None])),
        Some(("2".to_string(), "5".to_string()))
    );
    assert_eq!(
        season_episode_from_captures(&groups(&[Some("10x003"), None, None, Some("10"), Some("003")])),
        Some(("10".to_string(), "3".to_string()))
    );
    assert_eq!(season_episode_from_captures(&None), Some((String::new(), String::new())));
    assert_eq!(
        season_episode_from_captures(&groups(&[Some("S99999999999E1"), Some("99999999999"), Some("1"), None, None])),
        None
    );
    assert_eq!(season_episode_from_captures(&groups(&[Some("x")])), None);
}

#[test]
fn movie_year_is_read_after_blanking_tags() {
    let p = MovieParams::new("Film.2021080p.mkv");
    assert_eq!(p.year, "");
    assert_eq!(p.name, "Film 202");
    let q = MovieParams::new("Film.2010.1080p.mkv");
    assert_eq!(q.year, "2010");
    let e = EpisodeParams::new("Show.2021080p.S01E02.mkv");
    assert_eq!(e.year, "2021");
}
