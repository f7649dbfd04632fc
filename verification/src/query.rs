//! What a file name asks the search service for, and the state of a running search.

use vstd::prelude::*;
use vstd::string::*;
use crate::patterns::{pattern_matches, split_pieces, replaced_all, found, captured, is_match, replace_all_matches, split_by, find_match, capture_groups};
use crate::text::{trim, trim_white_space, parse_u32, decimal, parse_u32_text, decimal_string};
use crate::tvdb::{MovieEntry, EpisodeEntry, TitleView, EpisodeView};

verus! {

/// Release tags that are blanked out of a file name before it is read.
pub const MEDIA_TAGS: &'static str = "\\.mkv|1080p|2160p|h265|h264|4k|1080|2160";

/// What separates the words of a file name.
pub const BLOCK_SEPARATOR: &'static str = "\\.|\\s";

/// A year of the 20th or 21st century.
pub const YEAR: &'static str = "19\\d\\d|20\\d\\d";

/// A word that is only a season marker, such as `S02`.
pub const SEASON_BLOCK: &'static str = "^[sS]\\d\\d*$";

/// A word that is only an episode marker, such as `e05`.
pub const EPISODE_BLOCK: &'static str = "^[eE]\\d\\d*$";

/// A season and episode marker, such as `S02E05`, `s2 e5` or `2x05`.
pub const SEASON_EPISODE: &'static str = "[sS](\\d\\d*)\\s*[eE](\\d\\d*)|(\\d\\d*)x(\\d\\d*)";

/// Whether a word of the file name ends the title.
pub open spec fn block_stops(block: Seq<char>, episode: bool) -> bool {
    ||| pattern_matches(YEAR@, block)
    ||| episode && (pattern_matches(SEASON_BLOCK@, block) || pattern_matches(EPISODE_BLOCK@, block) || pattern_matches(
        SEASON_EPISODE@,
        block,
    ))
}

/// The non-empty words before the first word marked as ending the title (`stops[i]`
/// marks `blocks[i]`), each preceded by a space.
pub open spec fn title_words(blocks: Seq<Seq<char>>, stops: Seq<bool>) -> Seq<char>
    decreases blocks.len(),
{
    if blocks.len() == 0 || stops.len() == 0 {
        Seq::empty()
    } else if blocks[0].len() == 0 {
        title_words(blocks.drop_first(), stops.drop_first())
    } else if stops[0] {
        Seq::empty()
    } else {
        seq![' '] + blocks[0] + title_words(blocks.drop_first(), stops.drop_first())
    }
}

/// Which words of a file name end the title.
pub open spec fn stop_flags(blocks: Seq<Seq<char>>, episode: bool) -> Seq<bool> {
    blocks.map_values(|b: Seq<char>| block_stops(b, episode))
}

/// The words of a file name: release tags blanked, the rest split at dots and spaces.
pub open spec fn blocks_of(filename: Seq<char>) -> Seq<Seq<char>> {
    split_pieces(BLOCK_SEPARATOR@, replaced_all(MEDIA_TAGS@, filename, " "@))
}

/// The title read from a file name: the words before the first stop word joined by
/// spaces.
pub open spec fn title_of(filename: Seq<char>, episode: bool) -> Seq<char> {
    trim(title_words(blocks_of(filename), stop_flags(blocks_of(filename), episode)))
}

/// The first year in a file name, or nothing.
pub open spec fn year_of(filename: Seq<char>) -> Seq<char> {
    match found(YEAR@, filename) {
        Some(m) => m,
        None => Seq::empty(),
    }
}

fn stops(block: &str, episode: bool) -> (r: bool)
    ensures
        r == block_stops(block@, episode),
{
    is_match(YEAR, block) || (episode && (is_match(SEASON_BLOCK, block) || is_match(
        EPISODE_BLOCK,
        block,
    ) || is_match(SEASON_EPISODE, block)))
}

/// Joins the non-empty words before the first one marked in `stops`, separated by single
/// spaces.
pub fn title_from_blocks(blocks: &Vec<String>, stops: &Vec<bool>) -> (r: String)
    ensures
        r@ == trim(title_words(blocks.deep_view(), stops@)),
{
    let ghost bl = blocks.deep_view();
    let ghost sl = stops@;
    let n = if blocks.len() < stops.len() { blocks.len() } else { stops.len() };
    let mut words = String::new();
    let mut i: usize = 0;
    let mut done = false;
    assert(bl.skip(0) =~= bl);
    assert(sl.skip(0) =~= sl);
    while i < n && !done
        invariant
            bl == blocks.deep_view(),
            sl == stops@,
            n <= blocks.len(),
            n <= stops.len(),
            n == blocks.len() || n == stops.len(),
            i <= n,
            !done ==> title_words(bl, sl) == words@ + title_words(bl.skip(i as int), sl.skip(i as int)),
            done ==> title_words(bl, sl) == words@,
        decreases n - i,
    {
        assert(bl.skip(i as int).drop_first() =~= bl.skip(i + 1));
        assert(sl.skip(i as int).drop_first() =~= sl.skip(i + 1));
        assert(bl.skip(i as int)[0] == bl[i as int]);
        assert(sl.skip(i as int)[0] == sl[i as int]);
        let block = blocks[i].as_str();
        if block.unicode_len() > 0 {
            if stops[i] {
                done = true;
                assert(words@ + Seq::<char>::empty() =~= words@);
            } else {
                let ghost w = words@;
                proof {
                    reveal_strlit(" ");
                }
                words.append(" ");
                words.append(block);
                assert(words@ + title_words(bl.skip(i + 1), sl.skip(i + 1)) =~= w + (seq![' '] + bl[i as int] + title_words(bl.skip(i + 1), sl.skip(i + 1))));
            }
        }
        i = i + 1;
    }
    if !done {
        if n == blocks.len() {
            assert(bl.skip(i as int) =~= Seq::<Seq<char>>::empty());
        } else {
            assert(sl.skip(i as int) =~= Seq::<bool>::empty());
        }
        assert(words@ + Seq::<char>::empty() =~= words@);
    }
    trim_white_space(words.as_str())
}

fn title_from_filename(filename: &str, episode: bool) -> (r: String)
    ensures
        r@ == title_of(filename@, episode),
{
    let cleaned = replace_all_matches(MEDIA_TAGS, filename, " ");
    let blocks = split_by(BLOCK_SEPARATOR, cleaned.as_str());
    let mut flags: Vec<bool> = Vec::new();
    let mut i: usize = 0;
    while i < blocks.len()
        invariant
            i <= blocks.len(),
            flags@ == stop_flags(blocks.deep_view().take(i as int), episode),
        decreases blocks.len() - i,
    {
        flags.push(stops(blocks[i].as_str(), episode));
        i = i + 1;
        assert(flags@ =~= stop_flags(blocks.deep_view().take(i as int), episode));
    }
    assert(blocks.deep_view().take(i as int) =~= blocks.deep_view());
    title_from_blocks(&blocks, &flags)
}

fn year_from_filename(filename: &str) -> (r: String)
    ensures
        r@ == year_of(filename@),
{
    match find_match(YEAR, filename) {
        Some(m) => m,
        None => String::new(),
    }
}

/// Search parameters of a movie.
#[derive(Debug)]
pub struct MovieParams {
    pub name: String,
    pub year: String,
}

pub struct MovieParamsView {
    pub name: Seq<char>,
    pub year: Seq<char>,
}

impl View for MovieParams {
    type V = MovieParamsView;

    open spec fn view(&self) -> MovieParamsView {
        MovieParamsView { name: self.name@, year: self.year@ }
    }
}

impl DeepView for MovieParams {
    type V = MovieParamsView;

    open spec fn deep_view(&self) -> MovieParamsView {
        self@
    }
}

impl Clone for MovieParams {
    fn clone(&self) -> (r: Self)
        ensures
            r == *self,
    {
        Self { name: self.name.clone(), year: self.year.clone() }
    }
}

impl Default for MovieParams {
    fn default() -> (r: Self)
        ensures
            r@ == (MovieParamsView { name: Seq::empty(), year: Seq::empty() }),
    {
        Self { name: String::new(), year: String::new() }
    }
}

impl PartialEq for MovieParams {
    fn eq(&self, other: &Self) -> (r: bool) {
        self.name == other.name && self.year == other.year
    }
}

impl vstd::std_specs::cmp::PartialEqSpecImpl for MovieParams {
    open spec fn obeys_eq_spec() -> bool {
        true
    }

    open spec fn eq_spec(&self, other: &Self) -> bool {
        self@ == other@
    }
}

/// The movie search a file name asks for: the title, and the first year once the
/// release tags are blanked out.
pub open spec fn movie_params_of(filename: Seq<char>) -> MovieParamsView {
    MovieParamsView { name: title_of(filename, false), year: year_of(replaced_all(MEDIA_TAGS@, filename, " "@)) }
}

impl MovieParams {
    /// Reads the title and the year from a movie file name; the year is looked for after
    /// the release tags are blanked out.
    pub fn new(filename: &str) -> (r: Self)
        ensures
            r@ == movie_params_of(filename@),
    {
        let cleaned = replace_all_matches(MEDIA_TAGS, filename, " ");
        let year = year_from_filename(cleaned.as_str());
        let name = title_from_filename(filename, false);
        Self { name, year }
    }
}

/// Search parameters of an episode.
#[derive(Debug)]
pub struct EpisodeParams {
    pub name: String,
    pub year: String,
    pub season: String,
    pub episode: String,
}

pub struct EpisodeParamsView {
    pub name: Seq<char>,
    pub year: Seq<char>,
    pub season: Seq<char>,
    pub episode: Seq<char>,
}

impl View for EpisodeParams {
    type V = EpisodeParamsView;

    open spec fn view(&self) -> EpisodeParamsView {
        EpisodeParamsView {
            name: self.name@,
            year: self.year@,
            season: self.season@,
            episode: self.episode@,
        }
    }
}

impl DeepView for EpisodeParams {
    type V = EpisodeParamsView;

    open spec fn deep_view(&self) -> EpisodeParamsView {
        self@
    }
}

impl Clone for EpisodeParams {
    fn clone(&self) -> (r: Self)
        ensures
            r == *self,
    {
        Self {
            name: self.name.clone(),
            year: self.year.clone(),
            season: self.season.clone(),
            episode: self.episode.clone(),
        }
    }
}

impl Default for EpisodeParams {
    fn default() -> (r: Self)
        ensures
            r@ == (EpisodeParamsView {
                name: Seq::empty(),
                year: Seq::empty(),
                season: Seq::empty(),
                episode: Seq::empty(),
            }),
    {
        Self { name: String::new(), year: String::new(), season: String::new(), episode: String::new() }
    }
}

impl PartialEq for EpisodeParams {
    fn eq(&self, other: &Self) -> (r: bool) {
        self.name == other.name && self.year == other.year && self.season == other.season
            && self.episode == other.episode
    }
}

impl vstd::std_specs::cmp::PartialEqSpecImpl for EpisodeParams {
    open spec fn obeys_eq_spec() -> bool {
        true
    }

    open spec fn eq_spec(&self, other: &Self) -> bool {
        self@ == other@
    }
}

/// Group `i` of a match, if the match has it.
pub open spec fn group(groups: Seq<Option<Seq<char>>>, i: int) -> Option<Seq<char>> {
    if 0 <= i < groups.len() {
        groups[i]
    } else {
        None
    }
}

/// Group `i`, or group `j` when `i` did not take part in the match.
pub open spec fn either_group(groups: Seq<Option<Seq<char>>>, i: int, j: int) -> Option<Seq<char>> {
    match group(groups, i) {
        Some(t) => Some(t),
        None => group(groups, j),
    }
}

/// Whether a captured number is there and reads as a `u32`.
pub open spec fn number_readable(g: Option<Seq<char>>) -> bool {
    match g {
        Some(d) => parse_u32(d) is Some,
        None => false,
    }
}

/// A captured number written again without leading zeros.
pub open spec fn number_text(g: Option<Seq<char>>) -> Seq<char> {
    match g {
        Some(d) => match parse_u32(d) {
            Some(v) => decimal(v as nat),
            None => Seq::empty(),
        },
        None => Seq::empty(),
    }
}

/// The season and episode numbers of a season and episode marker, written without
/// leading zeros: empty when there is no marker, nothing when a number of the marker
/// does not read as a `u32`.
pub open spec fn season_episode_of(caps: Option<Seq<Option<Seq<char>>>>) -> Option<(Seq<char>, Seq<char>)> {
    match caps {
        Some(gs) => if number_readable(either_group(gs, 1, 3)) && number_readable(either_group(gs, 2, 4)) {
            Some((number_text(either_group(gs, 1, 3)), number_text(either_group(gs, 2, 4))))
        } else {
            None
        },
        None => Some((Seq::empty(), Seq::empty())),
    }
}

/// Whether the season and episode numbers of a file name can be read: either there is
/// no season and episode marker, or both of its numbers read as a `u32`.
pub open spec fn episode_numbers_readable(filename: Seq<char>) -> bool {
    season_episode_of(captured(SEASON_EPISODE@, filename)) is Some
}

/// The episode search a file name asks for.
pub open spec fn episode_params_of(filename: Seq<char>) -> EpisodeParamsView {
    let numbers = season_episode_of(captured(SEASON_EPISODE@, filename));
    EpisodeParamsView {
        name: title_of(filename, true),
        year: year_of(filename),
        season: match numbers {
            Some(p) => p.0,
            None => Seq::empty(),
        },
        episode: match numbers {
            Some(p) => p.1,
            None => Seq::empty(),
        },
    }
}

fn either_captured(groups: &Vec<Option<String>>, i: usize, j: usize) -> (r: Option<&String>)
    ensures
        r.deep_view() == either_group(groups.deep_view(), i as int, j as int),
{
    if i < groups.len() {
        match &groups[i] {
            Some(t) => return Some(t),
            None => {},
        }
    }
    if j < groups.len() {
        match &groups[j] {
            Some(t) => Some(t),
            None => None,
        }
    } else {
        None
    }
}

fn normalized_number(g: Option<&String>) -> (r: Option<String>)
    ensures
        r is Some <==> number_readable(g.deep_view()),
        r matches Some(t) ==> t@ == number_text(g.deep_view()),
{
    match g {
        Some(d) => match parse_u32_text(d.as_str()) {
            Some(v) => Some(decimal_string(v)),
            None => None,
        },
        None => None,
    }
}

/// Reads the season and episode numbers from the groups of a season and episode marker
/// (group 1 or 3 the season, group 2 or 4 the episode); `("", "")` without a marker.
pub fn season_episode_from_captures(captures: &Option<Vec<Option<String>>>) -> (r: Option<(String, String)>)
    ensures
        r.deep_view() == season_episode_of(captures.deep_view()),
{
    match captures {
        Some(groups) => {
            let s = normalized_number(either_captured(groups, 1, 3));
            let e = normalized_number(either_captured(groups, 2, 4));
            match (s, e) {
                (Some(s), Some(e)) => Some((s, e)),
                _ => None,
            }
        },
        None => Some((String::new(), String::new())),
    }
}

impl EpisodeParams {
    /// Whether `new` can read the season and episode numbers of `filename`.
    pub fn numbers_readable(filename: &str) -> (r: bool)
        ensures
            r == episode_numbers_readable(filename@),
    {
        season_episode_from_captures(&capture_groups(SEASON_EPISODE, filename)).is_some()
    }

    /// Reads the title, year, season and episode from an episode file name.
    pub fn new(filename: &str) -> (r: Self)
        requires
            episode_numbers_readable(filename@),
        ensures
            r@ == episode_params_of(filename@),
    {
        let year = year_from_filename(filename);
        let (season, episode) = match season_episode_from_captures(&capture_groups(SEASON_EPISODE, filename)) {
            Some(numbers) => numbers,
            None => (String::new(), String::new()),
        };
        let name = title_from_filename(filename, true);
        Self { name, year, season, episode }
    }

    /// `new` where the numbers can be read, `None` where they cannot.
    pub fn try_new(filename: &str) -> (r: Option<Self>)
        ensures
            r is Some <==> episode_numbers_readable(filename@),
            r matches Some(p) ==> p@ == episode_params_of(filename@),
    {
        if Self::numbers_readable(filename) {
            Some(Self::new(filename))
        } else {
            None
        }
    }
}

/// The state of a movie search: its parameters, the hits once they have arrived
/// (`None` while a search runs), the selected hit, and the search still to be sent.
#[derive(Debug)]
pub struct MovieQuerier {
    pub query_params: MovieParams,
    pub entries: Option<Vec<MovieEntry>>,
    pub selected: usize,
    pub next_query: Option<MovieParams>,
}

pub struct MovieQuerierView {
    pub query_params: MovieParamsView,
    pub entries: Option<Seq<TitleView>>,
    pub selected: usize,
    pub next_query: Option<MovieParamsView>,
}

impl View for MovieQuerier {
    type V = MovieQuerierView;

    open spec fn view(&self) -> MovieQuerierView {
        MovieQuerierView {
            query_params: self.query_params@,
            entries: self.entries.deep_view(),
            selected: self.selected,
            next_query: self.next_query.deep_view(),
        }
    }
}

/// The selection after moving `step` hits forward (1) or back (-1), wrapping around;
/// unchanged while there are no hits.
pub open spec fn stepped(selected: usize, count: Option<nat>, forward: bool) -> usize {
    match count {
        Some(n) => if n > 0 {
            if forward {
                ((selected + n + 1) % (n as int)) as usize
            } else {
                ((selected + n - 1) % (n as int)) as usize
            }
        } else {
            selected
        },
        None => selected,
    }
}

/// Moving must not overflow: the selection plus the number of hits plus one fits in a `usize`.
pub open spec fn step_fits(selected: usize, count: Option<nat>) -> bool {
    match count {
        Some(n) => n > 0 ==> selected + n + 1 <= usize::MAX,
        None => true,
    }
}

pub open spec fn entry_count<T>(entries: Option<Seq<T>>) -> Option<nat> {
    match entries {
        Some(e) => Some(e.len()),
        None => None,
    }
}

impl MovieQuerierView {
    /// The state after asking for the search `p`: a different search resets the
    /// selection and is queued; the same search changes nothing.
    pub open spec fn with_params(self, p: MovieParamsView) -> MovieQuerierView {
        if p != self.query_params {
            MovieQuerierView { query_params: p, selected: 0, next_query: Some(p), ..self }
        } else {
            self
        }
    }

    pub open spec fn with_selected(self, selected: usize) -> MovieQuerierView {
        MovieQuerierView { selected, ..self }
    }
}

fn moved_selection(selected: usize, count: usize, forward: bool) -> (r: usize)
    requires
        count > 0 ==> selected + count + 1 <= usize::MAX,
    ensures
        r == stepped(selected, Some(count as nat), forward),
{
    if count == 0 {
        selected
    } else if forward {
        (selected + count + 1) % count
    } else {
        (selected + count - 1) % count
    }
}

/// A movie search with no parameters, no hits and nothing queued.
pub open spec fn fresh_movie_querier() -> MovieQuerierView {
    MovieQuerierView {
        query_params: MovieParamsView { name: Seq::empty(), year: Seq::empty() },
        entries: Some(Seq::empty()),
        selected: 0,
        next_query: None,
    }
}

impl MovieQuerier {
    /// A search state with no parameters, no hits and nothing queued.
    pub fn new() -> (r: Self)
        ensures
            r@ == fresh_movie_querier(),
    {
        let r = Self {
            query_params: MovieParams::default(),
            entries: Some(Vec::new()),
            selected: 0,
            next_query: None,
        };
        assert(r.entries.deep_view() == Some(Seq::<TitleView>::empty()));
        r
    }

    pub fn query_filename(&mut self, filename: &str)
        ensures
            final(self)@ == old(self)@.with_params(movie_params_of(filename@)),
    {
        self.query_params(MovieParams::new(filename));
    }

    /// Asks for the search `params`; a search equal to the current one is ignored.
    pub fn query_params(&mut self, params: MovieParams)
        ensures
            final(self)@ == old(self)@.with_params(params@),
    {
        if !params.eq(&self.query_params) {
            self.query_params = params;
            self.selected = 0;
            self.next_query = Some(self.query_params.clone());
        }
    }

    pub fn select_next(&mut self)
        requires
            step_fits(old(self).selected, entry_count(old(self)@.entries)),
        ensures
            final(self)@ == old(self)@.with_selected(
                stepped(old(self).selected, entry_count(old(self)@.entries), true),
            ),
    {
        match &self.entries {
            Some(entries) => {
                self.selected = moved_selection(self.selected, entries.len(), true);
            },
            None => {},
        }
    }

    pub fn select_prev(&mut self)
        requires
            step_fits(old(self).selected, entry_count(old(self)@.entries)),
        ensures
            final(self)@ == old(self)@.with_selected(
                stepped(old(self).selected, entry_count(old(self)@.entries), false),
            ),
    {
        match &self.entries {
            Some(entries) => {
                self.selected = moved_selection(self.selected, entries.len(), false);
            },
            None => {},
        }
    }

    /// Hands out the queued search, leaving nothing queued.
    pub fn take_next_query(&mut self) -> (r: Option<MovieParams>)
        ensures
            r.deep_view() == old(self)@.next_query,
            final(self)@ == (MovieQuerierView { next_query: None, ..old(self)@ }),
    {
        let r = self.next_query.take();
        r
    }

    /// Records the hits of the running search (`None` while it runs).
    pub fn set_entries(&mut self, entries: Option<Vec<MovieEntry>>)
        ensures
            final(self)@ == (MovieQuerierView { entries: entries.deep_view(), ..old(self)@ }),
    {
        self.entries = entries;
    }
}

/// The state of an episode search.
#[derive(Debug)]
pub struct EpisodeQuerier {
    pub query_params: EpisodeParams,
    pub entries: Option<Vec<EpisodeEntry>>,
    pub selected: usize,
    pub next_query: Option<EpisodeParams>,
}

pub struct EpisodeQuerierView {
    pub query_params: EpisodeParamsView,
    pub entries: Option<Seq<EpisodeView>>,
    pub selected: usize,
    pub next_query: Option<EpisodeParamsView>,
}

impl View for EpisodeQuerier {
    type V = EpisodeQuerierView;

    open spec fn view(&self) -> EpisodeQuerierView {
        EpisodeQuerierView {
            query_params: self.query_params@,
            entries: self.entries.deep_view(),
            selected: self.selected,
            next_query: self.next_query.deep_view(),
        }
    }
}

impl EpisodeQuerierView {
    /// The state after asking for the search `p`: a different search is queued, and the
    /// selection is reset when the title or the year changed; the same search changes
    /// nothing.
    pub open spec fn with_params(self, p: EpisodeParamsView) -> EpisodeQuerierView {
        if p != self.query_params {
            EpisodeQuerierView {
                query_params: p,
                selected: if self.query_params.name != p.name || self.query_params.year != p.year {
                    0
                } else {
                    self.selected
                },
                next_query: Some(p),
                ..self
            }
        } else {
            self
        }
    }

    pub open spec fn with_selected(self, selected: usize) -> EpisodeQuerierView {
        EpisodeQuerierView { selected, ..self }
    }
}

/// An episode search with no parameters, no hits and nothing queued.
pub open spec fn fresh_episode_querier() -> EpisodeQuerierView {
    EpisodeQuerierView {
        query_params: EpisodeParamsView {
            name: Seq::empty(),
            year: Seq::empty(),
            season: Seq::empty(),
            episode: Seq::empty(),
        },
        entries: Some(Seq::empty()),
        selected: 0,
        next_query: None,
    }
}

impl EpisodeQuerier {
    pub fn new() -> (r: Self)
        ensures
            r@ == fresh_episode_querier(),
    {
        let r = Self {
            query_params: EpisodeParams::default(),
            entries: Some(Vec::new()),
            selected: 0,
            next_query: None,
        };
        assert(r.entries.deep_view() == Some(Seq::<EpisodeView>::empty()));
        r
    }

    pub fn query_filename(&mut self, filename: &str)
        requires
            episode_numbers_readable(filename@),
        ensures
            final(self)@ == old(self)@.with_params(episode_params_of(filename@)),
    {
        self.query_params(EpisodeParams::new(filename));
    }

    pub fn query_params(&mut self, params: EpisodeParams)
        ensures
            final(self)@ == old(self)@.with_params(params@),
    {
        if !params.eq(&self.query_params) {
            if !(self.query_params.name == params.name) || !(self.query_params.year == params.year) {
                self.selected = 0;
            }
            self.query_params = params;
            self.next_query = Some(self.query_params.clone());
        }
    }

    pub fn select_next(&mut self)
        requires
            step_fits(old(self).selected, entry_count(old(self)@.entries)),
        ensures
            final(self)@ == old(self)@.with_selected(
                stepped(old(self).selected, entry_count(old(self)@.entries), true),
            ),
    {
        match &self.entries {
            Some(entries) => {
                self.selected = moved_selection(self.selected, entries.len(), true);
            },
            None => {},
        }
    }

    pub fn select_prev(&mut self)
        requires
            step_fits(old(self).selected, entry_count(old(self)@.entries)),
        ensures
            final(self)@ == old(self)@.with_selected(
                stepped(old(self).selected, entry_count(old(self)@.entries), false),
            ),
    {
        match &self.entries {
            Some(entries) => {
                self.selected = moved_selection(self.selected, entries.len(), false);
            },
            None => {},
        }
    }

    pub fn take_next_query(&mut self) -> (r: Option<EpisodeParams>)
        ensures
            r.deep_view() == old(self)@.next_query,
            final(self)@ == (EpisodeQuerierView { next_query: None, ..old(self)@ }),
    {
        let r = self.next_query.take();
        r
    }

    pub fn set_entries(&mut self, entries: Option<Vec<EpisodeEntry>>)
        ensures
            final(self)@ == (EpisodeQuerierView { entries: entries.deep_view(), ..old(self)@ }),
    {
        self.entries = entries;
    }
}

/// The search of the current mode.
#[derive(Debug)]
pub enum Querier {
    MovieQuerier(MovieQuerier),
    EpisodeQuerier(EpisodeQuerier),
}

pub enum QuerierView {
    Movie(MovieQuerierView),
    Episode(EpisodeQuerierView),
}

impl View for Querier {
    type V = QuerierView;

    open spec fn view(&self) -> QuerierView {
        match self {
            Querier::MovieQuerier(m) => QuerierView::Movie(m@),
            Querier::EpisodeQuerier(e) => QuerierView::Episode(e@),
        }
    }
}

impl QuerierView {
    /// Whether a file name can be read in this mode.
    pub open spec fn filename_readable(self, filename: Seq<char>) -> bool {
        match self {
            QuerierView::Movie(_) => true,
            QuerierView::Episode(_) => episode_numbers_readable(filename),
        }
    }

    /// The state after asking for the search that a file name gives.
    pub open spec fn after_filename(self, filename: Seq<char>) -> QuerierView {
        match self {
            QuerierView::Movie(m) => QuerierView::Movie(m.with_params(movie_params_of(filename))),
            QuerierView::Episode(e) => QuerierView::Episode(
                e.with_params(episode_params_of(filename)),
            ),
        }
    }

    pub open spec fn step_fits(self) -> bool {
        match self {
            QuerierView::Movie(m) => step_fits(m.selected, entry_count(m.entries)),
            QuerierView::Episode(e) => step_fits(e.selected, entry_count(e.entries)),
        }
    }

    /// The state after moving the selection forward or back.
    pub open spec fn stepped(self, forward: bool) -> QuerierView {
        match self {
            QuerierView::Movie(m) => QuerierView::Movie(
                m.with_selected(stepped(m.selected, entry_count(m.entries), forward)),
            ),
            QuerierView::Episode(e) => QuerierView::Episode(
                e.with_selected(stepped(e.selected, entry_count(e.entries), forward)),
            ),
        }
    }
}

impl Querier {
    pub fn movie_querier() -> (r: Self)
        ensures
            r@ == QuerierView::Movie(fresh_movie_querier()),
            r is MovieQuerier,
    {
        Querier::MovieQuerier(MovieQuerier::new())
    }

    pub fn episode_querier() -> (r: Self)
        ensures
            r@ == QuerierView::Episode(fresh_episode_querier()),
            r is EpisodeQuerier,
    {
        Querier::EpisodeQuerier(EpisodeQuerier::new())
    }

    pub fn query_filename(&mut self, filename: &str)
        requires
            old(self)@.filename_readable(filename@),
        ensures
            final(self)@ == old(self)@.after_filename(filename@),
    {
        match self {
            Querier::MovieQuerier(movie_querier) => movie_querier.query_filename(filename),
            Querier::EpisodeQuerier(episode_querier) => episode_querier.query_filename(filename),
        }
    }

    pub fn select_next(&mut self)
        requires
            old(self)@.step_fits(),
        ensures
            final(self)@ == old(self)@.stepped(true),
    {
        match self {
            Querier::MovieQuerier(movie_querier) => movie_querier.select_next(),
            Querier::EpisodeQuerier(episode_querier) => episode_querier.select_next(),
        }
    }

    pub fn select_prev(&mut self)
        requires
            old(self)@.step_fits(),
        ensures
            final(self)@ == old(self)@.stepped(false),
    {
        match self {
            Querier::MovieQuerier(movie_querier) => movie_querier.select_prev(),
            Querier::EpisodeQuerier(episode_querier) => episode_querier.select_prev(),
        }
    }
}

/// Moving the selection back after moving it forward returns to it, and moving it
/// forward after moving it back does too, whenever it points at a hit.
pub proof fn law_step_round_trip(selected: usize, n: nat)
    requires
        selected < n,
        n <= usize::MAX,
    ensures
        stepped(stepped(selected, Some(n), true), Some(n), false) == selected,
        stepped(stepped(selected, Some(n), false), Some(n), true) == selected,
{
    let s = selected as int;
    let m = n as int;
    if s + 1 < m {
        assert((s + m + 1) % m == s + 1) by (nonlinear_arith)
            requires
                0 <= s,
                s + 1 < m,
        {
            assert(s + m + 1 == 1 * m + (s + 1));
        }
        assert((s + 1 + m - 1) % m == s) by (nonlinear_arith)
            requires
                0 <= s,
                s < m,
        {
            assert(s + 1 + m - 1 == 1 * m + s);
        }
    } else {
        assert((s + m + 1) % m == 0) by (nonlinear_arith)
            requires
                s + 1 == m,
                m > 0,
        {
            assert(s + m + 1 == 2 * m);
        }
        assert((0 + m - 1) % m == s) by (nonlinear_arith)
            requires
                s + 1 == m,
                0 <= s,
        ;
    }
    if s >= 1 {
        assert((s + m - 1) % m == s - 1) by (nonlinear_arith)
            requires
                1 <= s,
                s < m,
        {
            assert(s + m - 1 == 1 * m + (s - 1));
        }
        assert((s - 1 + m + 1) % m == s) by (nonlinear_arith)
            requires
                1 <= s,
                s < m,
        {
            assert(s - 1 + m + 1 == 1 * m + s);
        }
    } else {
        assert((s + m - 1) % m == m - 1) by (nonlinear_arith)
            requires
                s == 0,
                m > 0,
        ;
        assert((m - 1 + m + 1) % m == 0) by (nonlinear_arith)
            requires
                m > 0,
        {
            assert(m - 1 + m + 1 == 2 * m);
        }
    }
}

/// Asking twice for the same search is the same as asking once.
pub proof fn law_query_params_idempotent(m: MovieQuerierView, e: EpisodeQuerierView, mp: MovieParamsView, ep: EpisodeParamsView)
    ensures
        m.with_params(mp).with_params(mp) == m.with_params(mp),
        e.with_params(ep).with_params(ep) == e.with_params(ep),
{
}

/// A word is a title marker: a year in any mode; in episode mode also a season word
/// (`S02`), an episode word (`e05`), or a season and episode marker (`S02E05`, `2x05`).
pub open spec fn title_marker(block: Seq<char>, episode: bool) -> bool {
    ||| pattern_matches(YEAR@, block)
    ||| episode && pattern_matches(SEASON_BLOCK@, block)
    ||| episode && pattern_matches(EPISODE_BLOCK@, block)
    ||| episode && pattern_matches(SEASON_EPISODE@, block)
}

/// The title ends before the first non-empty word that is a title marker: nothing from
/// that word on is part of it.
pub proof fn law_title_stops_at_marker(blocks: Seq<Seq<char>>, i: int, episode: bool)
    requires
        0 <= i < blocks.len(),
        blocks[i].len() > 0,
        title_marker(blocks[i], episode),
    ensures
        title_words(blocks, stop_flags(blocks, episode)) == title_words(
            blocks.take(i),
            stop_flags(blocks.take(i), episode),
        ),
    decreases i,
{
    let flags = stop_flags(blocks, episode);
    let tb = blocks.take(i);
    let tf = stop_flags(tb, episode);
    if i == 0 {
        assert(flags[0] == block_stops(blocks[0], episode));
        assert(tb.len() == 0);
    } else {
        let rest = blocks.drop_first();
        assert(flags.drop_first() =~= stop_flags(rest, episode));
        assert(rest[i - 1] == blocks[i]);
        law_title_stops_at_marker(rest, i - 1, episode);
        assert(tb.drop_first() =~= rest.take(i - 1));
        assert(tf.drop_first() =~= stop_flags(rest.take(i - 1), episode));
        assert(tb[0] == blocks[0]);
        assert(tf[0] == flags[0]);
    }
}

} // verus!
