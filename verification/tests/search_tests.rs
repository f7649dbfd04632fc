use movie_mover::query::{EpisodeQuerier, MovieQuerier, Querier};
use movie_mover::search::{SearchReply, SearchRequest, SearchTracker};
use movie_mover::tvdb::{MovieEntry, QueryType, TvdbAPI};

fn movie(name: &str) -> MovieEntry {
    MovieEntry {
        name: name.to_string(),
        year: "1999".to_string(),
        tvdb_id: "1".to_string(),
        imdb_id: "tt1".to_string(),
    }
}

fn hit_count(q: &Querier) -> Option<usize> {
    match q {
        Querier::MovieQuerier(m) => m.entries.as_ref().map(|e| e.len()),
        Querier::EpisodeQuerier(e) => e.entries.as_ref().map(|h| h.len()),
    }
}

#[test]
fn search_urls_carry_their_parameters() {
    assert_eq!(
        TvdbAPI::search_url(QueryType::Movie, "The Matrix".to_string(), "1999".to_string()),
        Some("https://api4.thetvdb.com/v4/search?query=The+Matrix&type=movie&year=1999".to_string())
    );
    assert_eq!(
        TvdbAPI::season_url("81189", "2".to_string()),
        Some("https://api4.thetvdb.com/v4/series/81189/episodes/default?season=2".to_string())
    );
}

#[test]
fn dispatch_hands_out_the_queued_search_once() {
    let mut tracker = SearchTracker::new();
    let mut m = MovieQuerier::new();
    m.query_filename("The.Matrix.1999.mkv");
    let mut q = Querier::MovieQuerier(m);
    let (request, tag) = tracker.dispatch(&mut q).unwrap();
    match request {
        SearchRequest::Movie(p) => assert_eq!(p.name, "The Matrix"),
        SearchRequest::Episode(_) => panic!("expected a movie search"),
    }
    assert_eq!(tag, 1);
    assert_eq!(hit_count(&q), None);
    assert!(tracker.dispatch(&mut q).is_none());
    tracker.record(&mut q, SearchReply::Movies(tag, vec![movie("a"), movie("b")]));
    assert_eq!(hit_count(&q), Some(2));
}

#[test]
fn stale_replies_are_dropped() {
    let mut tracker = SearchTracker::new();
    let mut m = MovieQuerier::new();
    m.query_filename("Heat.1995.mkv");
    let mut q = Querier::MovieQuerier(m);
    let (_, first) = tracker.dispatch(&mut q).unwrap();
    if let Querier::MovieQuerier(m) = &mut q {
        m.query_filename("Up.2009.mkv");
    }
    let (_, second) = tracker.dispatch(&mut q).unwrap();
    assert_ne!(first, second);
    tracker.record(&mut q, SearchReply::Movies(first, vec![movie("old")]));
    assert_eq!(hit_count(&q), None);
    tracker.record(&mut q, SearchReply::Movies(second, vec![movie("new")]));
    assert_eq!(hit_count(&q), Some(1));
}

#[test]
fn changing_mode_makes_earlier_searches_stale() {
    let mut tracker = SearchTracker::new();
    let mut m = MovieQuerier::new();
    m.query_filename("Heat.1995.mkv");
    let mut q = Querier::MovieQuerier(m);
    let (_, tag) = tracker.dispatch(&mut q).unwrap();
    let mut e = Querier::EpisodeQuerier(EpisodeQuerier::new());
    assert!(tracker.dispatch(&mut e).is_none());
    assert!(!tracker.movie_mode);
    tracker.record(&mut e, SearchReply::Movies(tag, vec![movie("x")]));
    assert_eq!(hit_count(&e), Some(0));
    let mut back = Querier::MovieQuerier(MovieQuerier::new());
    assert!(tracker.dispatch(&mut back).is_none());
    tracker.record(&mut back, SearchReply::Movies(tag, vec![movie("x")]));
    assert_eq!(hit_count(&back), Some(0));
}
