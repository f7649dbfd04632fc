//! Search results of the TVDB service, and how raw replies become library entries.

use vstd::prelude::*;
use vstd::string::*;
use crate::text::{sanitize, slash_free, decimal, decimal_string};

verus! {

/// A movie found by a search.
#[derive(Debug)]
pub struct MovieEntry {
    pub name: String,
    pub year: String,
    pub tvdb_id: String,
    pub imdb_id: String,
}

/// An episode found by a search.
#[derive(Debug)]
pub struct EpisodeEntry {
    pub series_name: String,
    pub year: String,
    pub tvdb_id: String,
    pub imdb_id: String,
    pub season: String,
    pub episode: String,
    pub episode_name: String,
}

/// An identifier that the service gives a title in another database.
#[derive(Debug)]
pub struct RemoteID {
    pub id: String,
    pub remote_type: u32,
    pub source_name: String,
}

/// A search hit as the service sends it, with every field optional.
#[derive(Debug)]
pub struct RawGenericEntry {
    pub name: Option<String>,
    pub year: Option<String>,
    pub tvdb_id: Option<String>,
    pub remote_ids: Option<Vec<RemoteID>>,
}

/// A search hit with all the fields the library needs.
#[derive(Debug)]
pub struct GenericEntry {
    pub name: String,
    pub year: String,
    pub tvdb_id: String,
    pub imdb_id: String,
}

/// An episode as the service lists it for a season.
#[derive(Debug)]
pub struct RawEpisodeEntry {
    pub name: String,
    pub number: u32,
}

/// The kind of title a search looks for.
#[derive(Debug, Clone, Copy, PartialEq, Eq, Structural)]
pub enum QueryType {
    Movie,
    Series,
}

/// A client of the TVDB service, identified by its token.
#[derive(Debug)]
pub struct TvdbAPI {
    pub auth_token: String,
}

/// The text fields of a movie or search hit.
pub struct TitleView {
    pub name: Seq<char>,
    pub year: Seq<char>,
    pub tvdb_id: Seq<char>,
    pub imdb_id: Seq<char>,
}

pub struct EpisodeView {
    pub series_name: Seq<char>,
    pub year: Seq<char>,
    pub tvdb_id: Seq<char>,
    pub imdb_id: Seq<char>,
    pub season: Seq<char>,
    pub episode: Seq<char>,
    pub episode_name: Seq<char>,
}

pub struct RemoteIDView {
    pub id: Seq<char>,
    pub remote_type: u32,
    pub source_name: Seq<char>,
}

pub struct RawGenericView {
    pub name: Option<Seq<char>>,
    pub year: Option<Seq<char>>,
    pub tvdb_id: Option<Seq<char>>,
    pub remote_ids: Option<Seq<RemoteIDView>>,
}

impl View for MovieEntry {
    type V = TitleView;

    open spec fn view(&self) -> TitleView {
        TitleView { name: self.name@, year: self.year@, tvdb_id: self.tvdb_id@, imdb_id: self.imdb_id@ }
    }
}

impl DeepView for MovieEntry {
    type V = TitleView;

    open spec fn deep_view(&self) -> TitleView {
        self@
    }
}

impl View for GenericEntry {
    type V = TitleView;

    open spec fn view(&self) -> TitleView {
        TitleView { name: self.name@, year: self.year@, tvdb_id: self.tvdb_id@, imdb_id: self.imdb_id@ }
    }
}

impl DeepView for GenericEntry {
    type V = TitleView;

    open spec fn deep_view(&self) -> TitleView {
        self@
    }
}

impl View for EpisodeEntry {
    type V = EpisodeView;

    open spec fn view(&self) -> EpisodeView {
        EpisodeView {
            series_name: self.series_name@,
            year: self.year@,
            tvdb_id: self.tvdb_id@,
            imdb_id: self.imdb_id@,
            season: self.season@,
            episode: self.episode@,
            episode_name: self.episode_name@,
        }
    }
}

impl DeepView for EpisodeEntry {
    type V = EpisodeView;

    open spec fn deep_view(&self) -> EpisodeView {
        self@
    }
}

impl View for RemoteID {
    type V = RemoteIDView;

    open spec fn view(&self) -> RemoteIDView {
        RemoteIDView { id: self.id@, remote_type: self.remote_type, source_name: self.source_name@ }
    }
}

impl DeepView for RemoteID {
    type V = RemoteIDView;

    open spec fn deep_view(&self) -> RemoteIDView {
        self@
    }
}

impl View for RawGenericEntry {
    type V = RawGenericView;

    open spec fn view(&self) -> RawGenericView {
        RawGenericView {
            name: self.name.deep_view(),
            year: self.year.deep_view(),
            tvdb_id: self.tvdb_id.deep_view(),
            remote_ids: self.remote_ids.deep_view(),
        }
    }
}

impl DeepView for RawGenericEntry {
    type V = RawGenericView;

    open spec fn deep_view(&self) -> RawGenericView {
        self@
    }
}

impl From<GenericEntry> for MovieEntry {
    fn from(value: GenericEntry) -> (r: Self) {
        Self { name: value.name, year: value.year, tvdb_id: value.tvdb_id, imdb_id: value.imdb_id }
    }
}

impl vstd::std_specs::convert::FromSpecImpl<GenericEntry> for MovieEntry {
    open spec fn obeys_from_spec() -> bool {
        true
    }

    open spec fn from_spec(value: GenericEntry) -> MovieEntry {
        MovieEntry { name: value.name, year: value.year, tvdb_id: value.tvdb_id, imdb_id: value.imdb_id }
    }
}

impl QueryType {
    pub open spec fn name_spec(self) -> Seq<char> {
        match self {
            QueryType::Movie => "movie"@,
            QueryType::Series => "series"@,
        }
    }

    /// The value of the `type` search parameter.
    pub fn to_string(&self) -> (r: String)
        ensures
            r@ == self.name_spec(),
    {
        match self {
            QueryType::Movie => String::from_str("movie"),
            QueryType::Series => String::from_str("series"),
        }
    }
}

/// The identifier a hit has in IMDB: the id of its first remote id whose source is `IMDB`.
pub open spec fn imdb_id_of(ids: Seq<RemoteIDView>) -> Option<Seq<char>>
    decreases ids.len(),
{
    if ids.len() == 0 {
        None
    } else if ids[0].source_name == "IMDB"@ {
        Some(ids[0].id)
    } else {
        imdb_id_of(ids.drop_first())
    }
}

/// The hit that a raw search result gives, if it has a name, a year, a TVDB id and an
/// IMDB id; each field with `/` replaced by `+`.
pub open spec fn hit_of(raw: RawGenericView) -> Option<TitleView> {
    match (raw.name, raw.year, raw.tvdb_id, raw.remote_ids) {
        (Some(name), Some(year), Some(tvdb_id), Some(ids)) => match imdb_id_of(ids) {
            Some(imdb_id) => Some(
                TitleView {
                    name: slash_free(name),
                    year: slash_free(year),
                    tvdb_id: slash_free(tvdb_id),
                    imdb_id: slash_free(imdb_id),
                },
            ),
            None => None,
        },
        _ => None,
    }
}

/// The hits of a list of raw results, in order, skipping incomplete ones.
pub open spec fn hits_of(raws: Seq<RawGenericView>) -> Seq<TitleView>
    decreases raws.len(),
{
    if raws.len() == 0 {
        Seq::empty()
    } else {
        let prev = hits_of(raws.drop_last());
        match hit_of(raws.last()) {
            Some(h) => prev.push(h),
            None => prev,
        }
    }
}

fn copy_string(s: &String) -> (r: String)
    ensures
        r@ == s@,
{
    s.clone()
}

fn find_imdb_id(ids: &Vec<RemoteID>) -> (r: Option<String>)
    ensures
        r.deep_view() == imdb_id_of(ids.deep_view()),
{
    let imdb = String::from_str("IMDB");
    let mut i: usize = 0;
    assert(ids.deep_view().skip(0) =~= ids.deep_view());
    while i < ids.len()
        invariant
            i <= ids.len(),
            imdb@ == "IMDB"@,
            imdb_id_of(ids.deep_view()) == imdb_id_of(ids.deep_view().skip(i as int)),
        decreases ids.len() - i,
    {
        assert(ids.deep_view().skip(i as int).drop_first() =~= ids.deep_view().skip(i + 1));
        if ids[i].source_name == imdb {
            return Some(copy_string(&ids[i].id));
        }
        i = i + 1;
    }
    None
}

/// The complete hits among raw search results, in order, with `/` replaced by `+`.
pub fn generic_entries(raw: &Vec<RawGenericEntry>) -> (r: Vec<GenericEntry>)
    ensures
        r.deep_view() == hits_of(raw.deep_view()),
{
    let mut out: Vec<GenericEntry> = Vec::new();
    let mut i: usize = 0;
    while i < raw.len()
        invariant
            i <= raw.len(),
            out.deep_view() == hits_of(raw.deep_view().take(i as int)),
        decreases raw.len() - i,
    {
        let ghost before = out.deep_view();
        assert(raw.deep_view().take(i + 1).drop_last() =~= raw.deep_view().take(i as int));
        let e = &raw[i];
        match (&e.name, &e.year, &e.tvdb_id, &e.remote_ids) {
            (Some(name), Some(year), Some(tvdb_id), Some(ids)) => {
                match find_imdb_id(ids) {
                    Some(imdb_id) => {
                        let g = GenericEntry {
                            name: sanitize(copy_string(name)),
                            year: sanitize(copy_string(year)),
                            tvdb_id: sanitize(copy_string(tvdb_id)),
                            imdb_id: sanitize(imdb_id),
                        };
                        out.push(g);
                        assert(out.deep_view() =~= before.push(g.deep_view()));
                    },
                    None => {},
                }
            },
            _ => {},
        }
        i = i + 1;
    }
    assert(raw.deep_view().take(raw.len() as int) =~= raw.deep_view());
    out
}

/// Each hit as a movie entry, in order.
pub fn movie_entries(generic: Vec<GenericEntry>) -> (r: Vec<MovieEntry>)
    ensures
        r.deep_view() == generic.deep_view(),
{
    let mut generic = generic;
    let mut out: Vec<MovieEntry> = Vec::new();
    let ghost all = generic.deep_view();
    while generic.len() > 0
        invariant
            out.deep_view() + generic.deep_view() == all,
        decreases generic.len(),
    {
        let ghost before = out.deep_view();
        let g = generic.remove(0);
        let m = MovieEntry::from(g);
        out.push(m);
        assert(out.deep_view() =~= before.push(m.deep_view()));
        assert(out.deep_view() + generic.deep_view() =~= all);
    }
    assert(out.deep_view() =~= all);
    out
}

/// The name of the first listed episode whose number, written in decimal, is `episode`.
pub open spec fn episode_name_of(episodes: Seq<(Seq<char>, u32)>, episode: Seq<char>) -> Option<Seq<char>>
    decreases episodes.len(),
{
    if episodes.len() == 0 {
        None
    } else if decimal(episodes[0].1 as nat) == episode {
        Some(slash_free(episodes[0].0))
    } else {
        episode_name_of(episodes.drop_first(), episode)
    }
}

pub open spec fn raw_episodes(episodes: Seq<RawEpisodeEntry>) -> Seq<(Seq<char>, u32)> {
    episodes.map_values(|e: RawEpisodeEntry| (e.name@, e.number))
}

/// The name of episode `episode` among a season's episodes, with `/` replaced by `+`.
pub fn episode_name(episodes: &Vec<RawEpisodeEntry>, episode: &String) -> (r: Option<String>)
    ensures
        r.deep_view() == episode_name_of(raw_episodes(episodes@), episode@),
{
    let mut i: usize = 0;
    assert(raw_episodes(episodes@).skip(0) =~= raw_episodes(episodes@));
    while i < episodes.len()
        invariant
            i <= episodes.len(),
            episode_name_of(raw_episodes(episodes@), episode@) == episode_name_of(
                raw_episodes(episodes@).skip(i as int),
                episode@,
            ),
        decreases episodes.len() - i,
    {
        assert(raw_episodes(episodes@).skip(i as int).drop_first() =~= raw_episodes(
            episodes@,
        ).skip(i + 1));
        let number = decimal_string(episodes[i].number);
        if number == *episode {
            return Some(sanitize(copy_string(&episodes[i].name)));
        }
        i = i + 1;
    }
    None
}

/// The episode entries for the series whose episode lookup gave a name, in order.
pub open spec fn episodes_of(
    series: Seq<TitleView>,
    names: Seq<Option<Seq<char>>>,
    season: Seq<char>,
    episode: Seq<char>,
) -> Seq<EpisodeView>
    decreases series.len(),
{
    if series.len() == 0 || names.len() == 0 {
        Seq::empty()
    } else {
        let prev = episodes_of(series.drop_last(), names.drop_last(), season, episode);
        match names.last() {
            Some(n) => prev.push(
                EpisodeView {
                    series_name: series.last().name,
                    year: series.last().year,
                    tvdb_id: series.last().tvdb_id,
                    imdb_id: series.last().imdb_id,
                    season,
                    episode,
                    episode_name: n,
                },
            ),
            None => prev,
        }
    }
}

/// Pairs each series hit with the name its episode lookup gave (`names[i]` for
/// `series[i]`) and keeps those with a name.
pub fn episode_entries(
    series: Vec<GenericEntry>,
    names: Vec<Option<String>>,
    season: &String,
    episode: &String,
) -> (r: Vec<EpisodeEntry>)
    requires
        names.len() == series.len(),
    ensures
        r.deep_view() == episodes_of(series.deep_view(), names.deep_view(), season@, episode@),
{
    let mut out: Vec<EpisodeEntry> = Vec::new();
    let mut i: usize = 0;
    while i < series.len()
        invariant
            i <= series.len(),
            names.len() == series.len(),
            out.deep_view() == episodes_of(
                series.deep_view().take(i as int),
                names.deep_view().take(i as int),
                season@,
                episode@,
            ),
        decreases series.len() - i,
    {
        let ghost before = out.deep_view();
        assert(series.deep_view().take(i + 1).drop_last() =~= series.deep_view().take(i as int));
        assert(names.deep_view().take(i + 1).drop_last() =~= names.deep_view().take(i as int));
        match &names[i] {
            Some(n) => {
                let s = &series[i];
                let e = EpisodeEntry {
                    series_name: copy_string(&s.name),
                    year: copy_string(&s.year),
                    tvdb_id: copy_string(&s.tvdb_id),
                    imdb_id: copy_string(&s.imdb_id),
                    season: copy_string(season),
                    episode: copy_string(episode),
                    episode_name: copy_string(n),
                };
                out.push(e);
                assert(out.deep_view() =~= before.push(e.deep_view()));
            },
            None => {},
        }
        i = i + 1;
    }
    assert(series.deep_view().take(series.len() as int) =~= series.deep_view());
    assert(names.deep_view().take(names.len() as int) =~= names.deep_view());
    out
}

/// Address of the title search of the service.
pub const SEARCH_URL: &'static str = "https://api4.thetvdb.com/v4/search";

/// The text of the address that `reqwest::Url::parse_with_params` makes of `base` and the
/// query pairs `params`; nothing when `base` does not parse as an address.
pub uninterp spec fn url_with_params_result(base: Seq<char>, params: Seq<(Seq<char>, Seq<char>)>) -> Option<Seq<char>>;

/// Calls `reqwest::Url::parse_with_params` (the `url` crate's, re-exported), which parses
/// `base` and appends the pairs form-encoded as its query, and returns the address as text.
#[verifier::external_body]
fn url_with_params(base: &str, params: &Vec<(String, String)>) -> (r: Option<String>)
    ensures
        r.deep_view() == url_with_params_result(base@, params.deep_view()),
{
    match ::reqwest::Url::parse_with_params(base, params.iter()) {
        Ok(url) => Some(String::from(url)),
        Err(_) => None,
    }
}

/// The three search parameters of a title search.
pub open spec fn search_params_spec(search_type: QueryType, name: Seq<char>, year: Seq<char>) -> Seq<(Seq<char>, Seq<char>)> {
    seq![("query"@, name), ("type"@, search_type.name_spec()), ("year"@, year)]
}

impl TvdbAPI {
    pub fn new(auth_token: String) -> (r: Self)
        ensures
            r.auth_token == auth_token,
    {
        Self { auth_token }
    }

    /// The value of the `Authorization` header.
    pub fn authorization(&self) -> (r: String)
        ensures
            r@ == "Bearer "@ + self.auth_token@,
    {
        let mut r = String::from_str("Bearer ");
        r.append(self.auth_token.as_str());
        r
    }

    /// The query parameters of a title search: `query`, `type` and `year`.
    pub fn search_params(search_type: QueryType, name: String, year: String) -> (r: Vec<(String, String)>)
        ensures
            r.deep_view() == search_params_spec(search_type, name@, year@),
    {
        let mut v = Vec::new();
        v.push((String::from_str("query"), name));
        v.push((String::from_str("type"), search_type.to_string()));
        v.push((String::from_str("year"), year));
        assert(v.deep_view() =~= search_params_spec(search_type, name@, year@));
        v
    }

    /// The address of a title search for `name` and `year`, with its query parameters.
    pub fn search_url(search_type: QueryType, name: String, year: String) -> (r: Option<String>)
        ensures
            r.deep_view() == url_with_params_result(SEARCH_URL@, search_params_spec(search_type, name@, year@)),
    {
        let params = Self::search_params(search_type, name, year);
        url_with_params(SEARCH_URL, &params)
    }

    /// The address of the episode list of one season of a series.
    pub fn season_url(tvdb_id: &str, season: String) -> (r: Option<String>)
        ensures
            r.deep_view() == url_with_params_result(
                "https://api4.thetvdb.com/v4/series/"@ + tvdb_id@ + "/episodes/default"@,
                seq![("season"@, season@)],
            ),
    {
        let base = Self::episodes_url(tvdb_id);
        let mut params = Vec::new();
        params.push((String::from_str("season"), season));
        let ghost expected = seq![("season"@, season@)];
        assert(params.deep_view() =~= expected);
        url_with_params(base.as_str(), &params)
    }

    /// The address of a series' episode list.
    pub fn episodes_url(tvdb_id: &str) -> (r: String)
        ensures
            r@ == "https://api4.thetvdb.com/v4/series/"@ + tvdb_id@ + "/episodes/default"@,
    {
        let mut r = String::from_str("https://api4.thetvdb.com/v4/series/");
        r.append(tvdb_id);
        r.append("/episodes/default");
        r
    }
}

/// A hit keeps each text field of the raw result it comes from, with `/` replaced by
/// `+`, and takes its IMDB id from a remote id whose source is `IMDB`; a raw result that
/// has every field and an IMDB id gives a hit.
pub proof fn law_hit_fields(raw: RawGenericView)
    ensures
        hit_of(raw) matches Some(h) ==> {
            &&& raw.name matches Some(n) && h.name == slash_free(n)
            &&& raw.year matches Some(y) && h.year == slash_free(y)
            &&& raw.tvdb_id matches Some(t) && h.tvdb_id == slash_free(t)
            &&& raw.remote_ids matches Some(ids) && exists|i: int|
                0 <= i < ids.len() && ids[i].source_name == "IMDB"@ && h.imdb_id == slash_free(
                    #[trigger] ids[i].id,
                )
        },
        raw.name is Some && raw.year is Some && raw.tvdb_id is Some && raw.remote_ids is Some && (exists|i: int|
            0 <= i < raw.remote_ids.unwrap().len() && #[trigger] raw.remote_ids.unwrap()[i].source_name
                == "IMDB"@) ==> hit_of(raw) is Some,
{
    if let Some(ids) = raw.remote_ids {
        lemma_imdb_id_of(ids);
    }
}

proof fn lemma_imdb_id_of(ids: Seq<RemoteIDView>)
    ensures
        imdb_id_of(ids) matches Some(x) ==> exists|i: int|
            0 <= i < ids.len() && ids[i].source_name == "IMDB"@ && x == #[trigger] ids[i].id,
        (exists|i: int| 0 <= i < ids.len() && #[trigger] ids[i].source_name == "IMDB"@) ==> imdb_id_of(
            ids,
        ) is Some,
    decreases ids.len(),
{
    if ids.len() > 0 {
        let rest = ids.drop_first();
        lemma_imdb_id_of(rest);
        if ids[0].source_name != "IMDB"@ {
            if let Some(x) = imdb_id_of(rest) {
                let i = choose|i: int| 0 <= i < rest.len() && rest[i].source_name == "IMDB"@ && x == #[trigger] rest[i].id;
                assert(ids[i + 1] == rest[i]);
            }
            if exists|i: int| 0 <= i < ids.len() && #[trigger] ids[i].source_name == "IMDB"@ {
                let i = choose|i: int| 0 <= i < ids.len() && #[trigger] ids[i].source_name == "IMDB"@;
                assert(i > 0);
                assert(rest[i - 1] == ids[i]);
            }
        } else {
            assert(ids[0].source_name == "IMDB"@);
        }
    }
}

/// Every hit comes from one of the raw results.
pub proof fn law_hits_from_raws(raws: Seq<RawGenericView>)
    ensures
        forall|k: int|
            #![trigger hits_of(raws)[k]]
            0 <= k < hits_of(raws).len() ==> exists|j: int|
                0 <= j < raws.len() && hit_of(#[trigger] raws[j]) == Some(hits_of(raws)[k]),
    decreases raws.len(),
{
    if raws.len() > 0 {
        let prev = raws.drop_last();
        law_hits_from_raws(prev);
        assert forall|k: int|
            #![trigger hits_of(raws)[k]]
            0 <= k < hits_of(raws).len() implies exists|j: int|
                0 <= j < raws.len() && hit_of(#[trigger] raws[j]) == Some(hits_of(raws)[k]) by {
            if k < hits_of(prev).len() {
                let j = choose|j: int| 0 <= j < prev.len() && hit_of(#[trigger] prev[j]) == Some(hits_of(prev)[k]);
                assert(raws[j] == prev[j]);
            } else {
                assert(hit_of(raws[raws.len() - 1]) == Some(hits_of(raws)[k]));
            }
        }
    }
}

/// `r` is the episode entry for series hit `s`: the hit's own name, year and ids, the
/// name its lookup gave, and the season and episode asked for.
pub open spec fn entry_of_hit(
    r: EpisodeView,
    s: TitleView,
    name: Option<Seq<char>>,
    season: Seq<char>,
    episode: Seq<char>,
) -> bool {
    &&& r.series_name == s.name
    &&& r.year == s.year
    &&& r.tvdb_id == s.tvdb_id
    &&& r.imdb_id == s.imdb_id
    &&& name == Some(r.episode_name)
    &&& r.season == season
    &&& r.episode == episode
}

/// Each episode entry is made from one of the series hits whose lookup gave a name.
pub proof fn law_episode_entries_from_series(
    series: Seq<TitleView>,
    names: Seq<Option<Seq<char>>>,
    season: Seq<char>,
    episode: Seq<char>,
)
    requires
        names.len() == series.len(),
    ensures
        forall|k: int|
            #![trigger episodes_of(series, names, season, episode)[k]]
            0 <= k < episodes_of(series, names, season, episode).len() ==> exists|j: int|
                #![trigger series[j]]
                0 <= j < series.len() && entry_of_hit(
                    episodes_of(series, names, season, episode)[k],
                    series[j],
                    names[j],
                    season,
                    episode,
                ),
    decreases series.len(),
{
    if series.len() > 0 {
        let ps = series.drop_last();
        let pn = names.drop_last();
        law_episode_entries_from_series(ps, pn, season, episode);
        let all = episodes_of(series, names, season, episode);
        let prev = episodes_of(ps, pn, season, episode);
        assert forall|k: int|
            #![trigger all[k]]
            0 <= k < all.len() implies exists|j: int|
                #![trigger series[j]]
                0 <= j < series.len() && entry_of_hit(all[k], series[j], names[j], season, episode) by {
            if k < prev.len() {
                assert(all[k] == prev[k]);
                let j = choose|j: int|
                    #![trigger ps[j]]
                    0 <= j < ps.len() && entry_of_hit(prev[k], ps[j], pn[j], season, episode);
                assert(series[j] == ps[j]);
                assert(names[j] == pn[j]);
            } else {
                let j = series.len() - 1;
                assert(series[j] == series.last());
                assert(names[j] == names.last());
            }
        }
    }
}

} // verus!
