//! Searches sent to the service in the background: which search to send next, and
//! which replies still answer the search on screen.

use vstd::prelude::*;
use crate::query::{
    EpisodeParams, EpisodeQuerierView, MovieParams, MovieQuerierView, Querier, QuerierView,
};
use crate::tvdb::{EpisodeEntry, MovieEntry};

verus! {

/// A search to send to the service.
#[derive(Debug)]
pub enum SearchRequest {
    Movie(MovieParams),
    Episode(EpisodeParams),
}

/// The hits of a search, with the tag of the search they answer.
#[derive(Debug)]
pub enum SearchReply {
    Movies(u64, Vec<MovieEntry>),
    Episodes(u64, Vec<EpisodeEntry>),
}

/// The tag of the latest search sent and the mode the tool was in when it last looked.
/// Replies to earlier searches are stale; so is every search sent before a change of
/// mode, since the new mode starts a search state of its own.
#[derive(Debug, Clone, Copy, PartialEq, Eq, Structural)]
pub struct SearchTracker {
    pub latest: u64,
    pub movie_mode: bool,
}

/// The tag after `t` (tags wrap around after `u64::MAX`).
pub open spec fn bumped(t: u64) -> u64 {
    if t == u64::MAX {
        0
    } else {
        (t + 1) as u64
    }
}

fn bump(t: u64) -> (r: u64)
    ensures
        r == bumped(t),
{
    if t == u64::MAX {
        0
    } else {
        t + 1
    }
}

pub open spec fn is_movie(q: QuerierView) -> bool {
    q is Movie
}

impl SearchTracker {
    /// The tracker once it has seen the mode: a change of mode makes earlier searches stale.
    pub open spec fn seeing(self, movie_mode: bool) -> SearchTracker {
        if movie_mode != self.movie_mode {
            SearchTracker { latest: bumped(self.latest), movie_mode }
        } else {
            self
        }
    }

    /// What `dispatch` does: the tracker and search state after it, and the search it
    /// hands out with its tag.
    pub open spec fn dispatched(self, q: QuerierView) -> (SearchTracker, QuerierView, Option<(bool, u64)>) {
        let seen = self.seeing(is_movie(q));
        let sent = SearchTracker { latest: bumped(seen.latest), ..seen };
        match q {
            QuerierView::Movie(m) => match m.next_query {
                None => (seen, q, None),
                Some(_) => (
                    sent,
                    QuerierView::Movie(MovieQuerierView { next_query: None, entries: None, ..m }),
                    Some((true, sent.latest)),
                ),
            },
            QuerierView::Episode(e) => match e.next_query {
                None => (seen, q, None),
                Some(_) => (
                    sent,
                    QuerierView::Episode(EpisodeQuerierView { next_query: None, entries: None, ..e }),
                    Some((false, sent.latest)),
                ),
            },
        }
    }

    /// The search state after a reply: hits that answer the latest search, in the mode
    /// they were asked in, are recorded; any other reply changes nothing.
    pub open spec fn recorded(self, q: QuerierView, reply: SearchReply) -> QuerierView {
        match (reply, q) {
            (SearchReply::Movies(tag, hits), QuerierView::Movie(m)) => if tag == self.latest {
                QuerierView::Movie(MovieQuerierView { entries: Some(hits.deep_view()), ..m })
            } else {
                q
            },
            (SearchReply::Episodes(tag, hits), QuerierView::Episode(e)) => if tag == self.latest {
                QuerierView::Episode(EpisodeQuerierView { entries: Some(hits.deep_view()), ..e })
            } else {
                q
            },
            _ => q,
        }
    }

    /// No search sent yet, in movie mode.
    pub fn new() -> (r: Self)
        ensures
            r == (SearchTracker { latest: 0, movie_mode: true }),
    {
        SearchTracker { latest: 0, movie_mode: true }
    }

    /// Hands out the search that `querier` has queued, if any, with a new tag; the hits
    /// of the search state are then loading (`None`) and nothing is queued.
    pub fn dispatch(&mut self, querier: &mut Querier) -> (r: Option<(SearchRequest, u64)>)
        ensures
            *final(self) == old(self).dispatched(old(querier)@).0,
            final(querier)@ == old(self).dispatched(old(querier)@).1,
            match old(self).dispatched(old(querier)@).2 {
                None => r is None,
                Some((movie, tag)) => match r {
                    Some((SearchRequest::Movie(p), t)) => {
                        &&& movie
                        &&& t == tag
                        &&& old(querier)@ matches QuerierView::Movie(m) && m.next_query == Some(p@)
                    },
                    Some((SearchRequest::Episode(p), t)) => {
                        &&& !movie
                        &&& t == tag
                        &&& old(querier)@ matches QuerierView::Episode(e) && e.next_query == Some(p@)
                    },
                    None => false,
                },
            },
    {
        let movie_mode = match querier {
            Querier::MovieQuerier(_) => true,
            Querier::EpisodeQuerier(_) => false,
        };
        if movie_mode != self.movie_mode {
            self.movie_mode = movie_mode;
            self.latest = bump(self.latest);
        }
        match querier {
            Querier::MovieQuerier(m) => match m.take_next_query() {
                Some(p) => {
                    m.set_entries(None);
                    self.latest = bump(self.latest);
                    Some((SearchRequest::Movie(p), self.latest))
                },
                None => None,
            },
            Querier::EpisodeQuerier(e) => match e.take_next_query() {
                Some(p) => {
                    e.set_entries(None);
                    self.latest = bump(self.latest);
                    Some((SearchRequest::Episode(p), self.latest))
                },
                None => None,
            },
        }
    }

    /// Records the hits of a reply if it answers the latest search in the current mode;
    /// otherwise nothing changes.
    pub fn record(&self, querier: &mut Querier, reply: SearchReply)
        ensures
            final(querier)@ == self.recorded(old(querier)@, reply),
    {
        match (reply, querier) {
            (SearchReply::Movies(tag, hits), Querier::MovieQuerier(m)) => {
                if tag == self.latest {
                    m.set_entries(Some(hits));
                }
            },
            (SearchReply::Episodes(tag, hits), Querier::EpisodeQuerier(e)) => {
                if tag == self.latest {
                    e.set_entries(Some(hits));
                }
            },
            _ => {},
        }
    }
}

/// Once a new search has been sent, a reply to the search sent before it is not
/// recorded, whatever the search state then is.
pub proof fn law_stale_reply_ignored(t: SearchTracker, q: QuerierView, later: QuerierView, reply: SearchReply)
    requires
        t.dispatched(q).2 is Some,
        match reply {
            SearchReply::Movies(tag, _) => tag == t.latest,
            SearchReply::Episodes(tag, _) => tag == t.latest,
        },
    ensures
        t.dispatched(q).0.recorded(later, reply) == later,
{
}

} // verus!
