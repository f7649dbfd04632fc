//! The state of the tool and what each user action does to it.

use vstd::prelude::*;
use vstd::string::*;
use vstd::utf8::*;
use crate::config::{Config, ConfigView};
use crate::explorer::{DirContent, EntryType, ExplorerView, FileExplorerState};
use crate::messenger::{Message, MessageView, Urgency, WithMessages};
use crate::query::{
    EpisodeParams, EpisodeParamsView, EpisodeQuerier, MovieParams, MovieParamsView, MovieQuerier,
    Querier, QuerierView, fresh_episode_querier, fresh_movie_querier, episode_numbers_readable,
};
use crate::text::{byte_len, insert_char_at_byte, remove_char_at_byte, path_join, join_path, trim, trim_white_space, zero_padded, zero_pad, path_strip_prefix_result, strip_path_prefix};
use crate::config::{TargetView, first_labelled, find_target, has_label, lemma_has_label_first};
use crate::patterns::{replaced_first, replace_first_match};
use crate::tvdb::{TitleView, EpisodeView};
use crate::utils::{clamped, usize_clamp, u8_mod, wrapped_mod};

verus! {

/// Which part of the screen receives the keys.
#[derive(Debug, Clone, Copy, PartialEq, Eq, Structural)]
pub enum State {
    FileExplorer,
    MovieSelection,
}

/// The edited search field (`selected`) and the cursor in it, a byte offset.
#[derive(Debug, Clone, Copy, PartialEq, Eq, Structural)]
pub struct UIManager {
    pub selected: u8,
    pub cursor_position: usize,
}

/// The text of search field `selected`: name and year for movies; name, year, season
/// and episode for episodes.
pub open spec fn field_text(q: QuerierView, selected: u8) -> Option<Seq<char>> {
    match q {
        QuerierView::Movie(m) => if selected == 0 {
            Some(m.query_params.name)
        } else if selected == 1 {
            Some(m.query_params.year)
        } else {
            None
        },
        QuerierView::Episode(e) => if selected == 0 {
            Some(e.query_params.name)
        } else if selected == 1 {
            Some(e.query_params.year)
        } else if selected == 2 {
            Some(e.query_params.season)
        } else if selected == 3 {
            Some(e.query_params.episode)
        } else {
            None
        },
    }
}

/// The number of search fields of a mode.
pub open spec fn field_count(q: QuerierView) -> u8 {
    match q {
        QuerierView::Movie(_) => 2,
        QuerierView::Episode(_) => 4,
    }
}

/// What `str::len` returns for the text.
pub open spec fn text_len(t: Seq<char>) -> usize {
    byte_len(t) as usize
}

/// The field editor of a fresh search: the name field, cursor at its end.
pub open spec fn ui_new(q: QuerierView) -> UIManager {
    UIManager { selected: 0, cursor_position: text_len(field_text(q, 0).unwrap()) }
}

impl UIManager {
    pub open spec fn cursor_end_spec(self, q: QuerierView) -> UIManager {
        match field_text(q, self.selected) {
            Some(t) => UIManager { cursor_position: text_len(t), ..self },
            None => self,
        }
    }

    pub open spec fn set_cursor_spec(self, new_selected: i16, q: QuerierView) -> UIManager {
        match field_text(q, self.selected) {
            Some(t) => UIManager { cursor_position: clamped(0, new_selected, text_len(t)), ..self },
            None => self,
        }
    }

    pub open spec fn set_selected_fits(new_selected: i16, q: QuerierView) -> bool {
        let m = field_count(q);
        &&& new_selected + m <= i16::MAX
        &&& new_selected + m < 0 ==> (-(new_selected + m)) % (m as int) == 0
    }

    /// Clamps `val` to `min..=max` (see `usize_clamp`).
    fn clamp(min: usize, val: i16, max: usize) -> (r: usize)
        requires
            (min as i16) < val < (max as i16) ==> val >= 0,
        ensures
            r == clamped(min, val, max),
    {
        usize_clamp(min, val, max)
    }

    fn field_len(querier: &Querier, selected: u8) -> (r: Option<usize>)
        ensures
            match field_text(querier@, selected) {
                Some(t) => r == Some(text_len(t)),
                None => r is None,
            },
    {
        match querier {
            Querier::MovieQuerier(m) => if selected == 0 {
                Some(m.query_params.name.as_str().len())
            } else if selected == 1 {
                Some(m.query_params.year.as_str().len())
            } else {
                None
            },
            Querier::EpisodeQuerier(e) => if selected == 0 {
                Some(e.query_params.name.as_str().len())
            } else if selected == 1 {
                Some(e.query_params.year.as_str().len())
            } else if selected == 2 {
                Some(e.query_params.season.as_str().len())
            } else if selected == 3 {
                Some(e.query_params.episode.as_str().len())
            } else {
                None
            },
        }
    }

    /// The editor of a fresh search: the name field, with the cursor at its end.
    pub fn new(querier: &Querier) -> (r: Self)
        ensures
            r == ui_new(querier@),
    {
        let len = match Self::field_len(querier, 0) {
            Some(l) => l,
            None => 0,
        };
        Self { selected: 0, cursor_position: len }
    }

    /// Selects field `new_selected`, counted modulo the number of fields.
    pub fn set_selected(&mut self, new_selected: i16, querier: &Querier)
        requires
            UIManager::set_selected_fits(new_selected, querier@),
        ensures
            final(self).selected == wrapped_mod(new_selected, field_count(querier@)),
            final(self).selected < field_count(querier@),
            final(self).cursor_position == old(self).cursor_position,
    {
        match querier {
            Querier::MovieQuerier(_) => {
                self.selected = u8_mod(new_selected, 2);
            },
            Querier::EpisodeQuerier(_) => {
                self.selected = u8_mod(new_selected, 4);
            },
        }
    }

    /// Moves the cursor to the end of the selected field.
    pub fn cursor_end(&mut self, querier: &Querier)
        ensures
            *final(self) == old(self).cursor_end_spec(querier@),
    {
        match Self::field_len(querier, self.selected) {
            Some(l) => {
                self.cursor_position = l;
            },
            None => {},
        }
    }

    /// Moves the cursor to `new_selected`, clamped to the selected field.
    pub fn set_cursor(&mut self, new_selected: i16, querier: &Querier)
        ensures
            *final(self) == old(self).set_cursor_spec(new_selected, querier@),
    {
        match Self::field_len(querier, self.selected) {
            Some(l) => {
                self.cursor_position = Self::clamp(0, new_selected, l);
            },
            None => {},
        }
    }
}

/// The selection cycles through the fields of the current mode.
pub proof fn law_selected_field_exists(new_selected: i16, q: QuerierView)
    requires
        UIManager::set_selected_fits(new_selected, q),
    ensures
        field_text(q, wrapped_mod(new_selected, field_count(q))) is Some,
{
}

/// Everything on screen: the configuration, the chosen target library, the focused
/// part, the messages, the explorer, the search and its field editor.
#[derive(Debug)]
pub struct App {
    pub config: Config,
    pub running: bool,
    pub target: String,
    pub state: State,
    pub messages: Vec<Message>,
    pub fe_state: FileExplorerState,
    pub query_state: Querier,
    pub ui_manager: UIManager,
}

/// The state of the tool apart from its messages.
pub struct AppView {
    pub config: ConfigView,
    pub running: bool,
    pub target: Seq<char>,
    pub state: State,
    pub fe: ExplorerView,
    pub query: QuerierView,
    pub ui: UIManager,
}

impl View for App {
    type V = AppView;

    open spec fn view(&self) -> AppView {
        AppView {
            config: self.config@,
            running: self.running,
            target: self.target@,
            state: self.state,
            fe: self.fe_state@,
            query: self.query_state@,
            ui: self.ui_manager,
        }
    }
}

/// Messages `new` are `old` followed by messages that say `added`.
pub open spec fn appended(old: Seq<Message>, new: Seq<Message>, added: Seq<MessageView>) -> bool {
    &&& new.len() == old.len() + added.len()
    &&& new.take(old.len() as int) == old
    &&& forall|i: int| 0 <= i < added.len() ==> #[trigger] new[old.len() + i]@ == added[i]
}

/// The messages that stay after a tick: those not marked as expired, in order.
pub open spec fn kept(messages: Seq<Message>, expired: Seq<bool>) -> Seq<Message>
    decreases messages.len(),
{
    if messages.len() == 0 || expired.len() == 0 {
        Seq::empty()
    } else {
        let prev = kept(messages.drop_last(), expired.drop_last());
        if expired.last() {
            prev
        } else {
            prev.push(messages.last())
        }
    }
}

/// Whether `selection` in listing `content` is not a video, or is a video whose name can
/// be read by search `q`.
pub open spec fn readable_selection(
    q: QuerierView,
    content: Seq<crate::explorer::DirEntryView>,
    selection: Option<Seq<char>>,
) -> bool {
    match selection {
        Some(n) => match crate::explorer::first_named(content, n) {
            Some(i) => content[i].entry_type == EntryType::Video ==> q.filename_readable(n),
            None => true,
        },
        None => true,
    }
}

impl AppView {
    /// The explorer has a current directory and there is at least one target.
    pub open spec fn wf(self) -> bool {
        self.fe.wf() && self.config.targets.len() > 0
    }

    /// The selected name, if it names a video.
    pub open spec fn video_selection(self) -> Option<Seq<char>> {
        match self.fe.selection_name_type() {
            Some((n, t)) => if t == EntryType::Video {
                Some(n)
            } else {
                None
            },
            None => None,
        }
    }

    /// The state after searching for the selected video, if a video is selected.
    pub open spec fn requeried(self) -> AppView {
        match self.video_selection() {
            Some(n) => {
                let q = self.query.after_filename(n);
                AppView { query: q, ui: ui_new(q), ..self }
            },
            None => self,
        }
    }

    /// The selected video, if any, can be read in the current mode.
    pub open spec fn requery_readable(self) -> bool {
        match self.video_selection() {
            Some(n) => self.query.filename_readable(n),
            None => true,
        }
    }

    pub open spec fn with_fe(self, fe: ExplorerView) -> AppView {
        AppView { fe, ..self }
    }

    pub open spec fn with_ui(self, ui: UIManager) -> AppView {
        AppView { ui, ..self }
    }

    pub open spec fn with_query(self, query: QuerierView) -> AppView {
        AppView { query, ..self }
    }

    /// The explorer after entering the selected directory with listing `content`.
    pub open spec fn fe_after_enter(self, content: Seq<crate::explorer::DirEntryView>) -> ExplorerView {
        match self.fe.selection_name_type() {
            Some((_, t)) => if t == EntryType::Dir {
                self.fe.entered(content)
            } else {
                self.fe
            },
            None => self.fe,
        }
    }

    /// The explorer after going back to the parent directory.
    pub open spec fn fe_after_exit(self) -> ExplorerView {
        if self.fe.tree.len() > 1 {
            self.fe.exited()
        } else {
            self.fe
        }
    }

    pub open spec fn after_next_entry(self) -> AppView {
        self.with_fe(self.fe.with_selection(self.fe.next_selection())).requeried()
    }

    pub open spec fn after_prev_entry(self) -> AppView {
        self.with_fe(self.fe.with_selection(self.fe.prev_selection())).requeried()
    }

    pub open spec fn after_enter(self, content: Seq<crate::explorer::DirEntryView>) -> AppView {
        self.with_fe(self.fe_after_enter(content)).requeried()
    }
}

/// The messages that stay, given which ones have expired.
pub fn retain_unexpired(messages: &Vec<Message>, expired: &Vec<bool>) -> (r: Vec<Message>)
    requires
        expired.len() == messages.len(),
    ensures
        r@ == kept(messages@, expired@),
{
    let mut out: Vec<Message> = Vec::new();
    let mut i: usize = 0;
    while i < messages.len()
        invariant
            i <= messages.len(),
            expired.len() == messages.len(),
            out@ == kept(messages@.take(i as int), expired@.take(i as int)),
        decreases messages.len() - i,
    {
        assert(messages@.take(i + 1).drop_last() =~= messages@.take(i as int));
        assert(expired@.take(i + 1).drop_last() =~= expired@.take(i as int));
        if !expired[i] {
            let m = &messages[i];
            let copy = Message { timestamp: m.timestamp, urgency: m.urgency, content: m.content.clone() };
            out.push(copy);
        }
        i = i + 1;
    }
    assert(messages@.take(i as int) =~= messages@);
    assert(expired@.take(i as int) =~= expired@);
    out
}

impl App {
    /// The tool at start: the first target chosen, the explorer focused, no messages,
    /// and a movie search for the selected video, if a video is selected.
    pub fn new(config: Config, fe_state: FileExplorerState) -> (r: Self)
        requires
            config.targets.len() > 0,
            fe_state@.wf(),
        ensures
            r@.config == config@,
            r@.running,
            r@.target == config@.targets[0].label,
            r@.state == State::FileExplorer,
            r@.fe == fe_state@,
            r@.query == (match r@.video_selection() {
                Some(n) => QuerierView::Movie(fresh_movie_querier()).after_filename(n),
                None => QuerierView::Movie(fresh_movie_querier()),
            }),
            r@.ui == ui_new(r@.query),
            r.messages@.len() == 0,
    {
        let mut movie_querier = MovieQuerier::new();
        match fe_state.selection_name_type() {
            Some((name, EntryType::Video)) => {
                movie_querier.query_filename(name.as_str());
            },
            _ => {},
        }
        let query_state = Querier::MovieQuerier(movie_querier);
        let ui_manager = UIManager::new(&query_state);
        let target = config.targets[0].label.clone();
        Self {
            config,
            running: true,
            target,
            state: State::FileExplorer,
            messages: Vec::new(),
            fe_state,
            query_state,
            ui_manager,
        }
    }

    /// Drops the messages that have been shown long enough. Which ones that is depends on
    /// the clock; the others stay, in order.
    pub fn tick(&mut self)
        ensures
            final(self)@ == old(self)@,
            exists|expired: Seq<bool>|
                expired.len() == old(self).messages@.len() && final(self).messages@ == kept(
                    old(self).messages@,
                    expired,
                ),
    {
        let mut expired: Vec<bool> = Vec::new();
        let mut i: usize = 0;
        while i < self.messages.len()
            invariant
                i <= self.messages.len(),
                expired.len() == i,
            decreases self.messages.len() - i,
        {
            expired.push(self.messages[i].has_expired());
            i = i + 1;
        }
        self.messages = retain_unexpired(&self.messages, &expired);
    }

    pub fn quit(&mut self)
        ensures
            final(self)@ == (AppView { running: false, ..old(self)@ }),
            final(self).messages == old(self).messages,
    {
        self.running = false;
    }

    /// Searches for the selected video, if a video is selected.
    fn requery(&mut self)
        requires
            old(self)@.wf(),
            old(self)@.requery_readable(),
        ensures
            final(self)@ == old(self)@.requeried(),
            final(self).messages == old(self).messages,
    {
        match self.fe_state.selection_name_type() {
            Some((name, EntryType::Video)) => {
                self.query_state.query_filename(name.as_str());
                self.ui_manager = UIManager::new(&self.query_state);
            },
            _ => {},
        }
    }

    /// Enters the selected directory, given the result of reading it, and searches for
    /// the video that gets selected there.
    pub fn enter_dir(&mut self, read: WithMessages<DirContent>)
        requires
            old(self)@.wf(),
            old(self)@.with_fe(old(self)@.fe_after_enter(read.inner.deep_view())).requery_readable(),
        ensures
            final(self)@ == old(self)@.after_enter(read.inner.deep_view()),
            final(self)@.wf(),
            match old(self)@.fe.selection_name_type() {
                Some((_, t)) => t == EntryType::Dir,
                None => false,
            } ==> final(self).messages@ == old(self).messages@ + read.messages@,
            !(match old(self)@.fe.selection_name_type() {
                Some((_, t)) => t == EntryType::Dir,
                None => false,
            }) ==> appended(
                old(self).messages@,
                final(self).messages@,
                seq![
                    MessageView {
                        urgency: Urgency::Error,
                        content: "cannot enter current selection as it is not a directory"@,
                    },
                ],
            ),
    {
        let ghost old_msgs = self.messages@;
        let res = self.fe_state.enter_dir(read);
        let ghost added = res.messages@;
        let ghost dv = res.messages.deep_view();
        res.append_messages(&mut self.messages);
        proof {
            assert(self.messages@.take(old_msgs.len() as int) =~= old_msgs);
            assert(added.len() == dv.len());
            assert forall|i: int| 0 <= i < dv.len() implies #[trigger] self.messages@[old_msgs.len() + i]@ == dv[i] by {
                assert(self.messages@[old_msgs.len() + i] == added[i]);
            }
        }
        self.requery();
    }

    /// Goes back to the parent directory.
    pub fn exit_dir(&mut self)
        requires
            old(self)@.wf(),
        ensures
            final(self)@ == old(self)@.with_fe(old(self)@.fe_after_exit()),
            final(self)@.wf(),
            old(self)@.fe.tree.len() > 1 ==> final(self).messages@ == old(self).messages@,
            old(self)@.fe.tree.len() <= 1 ==> appended(
                old(self).messages@,
                final(self).messages@,
                seq![
                    MessageView {
                        urgency: Urgency::Warning,
                        content: "Could not exit dir: it's the base dir"@,
                    },
                ],
            ),
    {
        let ghost old_msgs = self.messages@;
        let res = self.fe_state.exit_dir();
        let ghost added = res.messages@;
        let ghost dv = res.messages.deep_view();
        res.append_messages(&mut self.messages);
        proof {
            assert(self.messages@.take(old_msgs.len() as int) =~= old_msgs);
            assert(added.len() == dv.len());
            assert forall|i: int| 0 <= i < dv.len() implies #[trigger] self.messages@[old_msgs.len() + i]@ == dv[i] by {
                assert(self.messages@[old_msgs.len() + i] == added[i]);
            }
            if old(self)@.fe.tree.len() > 1 {
                assert(self.messages@ =~= old_msgs);
            }
        }
    }

    /// Selects the next entry and searches for it if it is a video.
    pub fn next_dir_entry(&mut self)
        requires
            old(self)@.wf(),
            old(self)@.with_fe(old(self)@.fe.with_selection(old(self)@.fe.next_selection())).requery_readable(),
        ensures
            final(self)@ == old(self)@.after_next_entry(),
            final(self).messages@ == old(self).messages@,
    {
        let res = self.fe_state.select_next();
        res.append_messages(&mut self.messages);
        assert(self.messages@ =~= old(self).messages@);
        self.requery();
    }

    /// Selects the previous entry and searches for it if it is a video.
    pub fn prev_dir_entry(&mut self)
        requires
            old(self)@.wf(),
            old(self)@.with_fe(old(self)@.fe.with_selection(old(self)@.fe.prev_selection())).requery_readable(),
        ensures
            final(self)@ == old(self)@.after_prev_entry(),
            final(self).messages@ == old(self).messages@,
    {
        let res = self.fe_state.select_prev();
        res.append_messages(&mut self.messages);
        assert(self.messages@ =~= old(self).messages@);
        self.requery();
    }

    /// `next_dir_entry` when the video it would select can be read in the current mode;
    /// otherwise nothing changes and `false` is returned.
    pub fn try_next_dir_entry(&mut self) -> (r: bool)
        requires
            old(self)@.wf(),
        ensures
            r == old(self)@.with_fe(old(self)@.fe.with_selection(old(self)@.fe.next_selection())).requery_readable(),
            r ==> final(self)@ == old(self)@.after_next_entry(),
            !r ==> final(self)@ == old(self)@,
            final(self).messages@ == old(self).messages@,
    {
        let next = self.fe_state.next_selection();
        if !self.selection_readable(next) {
            return false;
        }
        self.next_dir_entry();
        true
    }

    /// `prev_dir_entry` when the video it would select can be read in the current mode;
    /// otherwise nothing changes and `false` is returned.
    pub fn try_prev_dir_entry(&mut self) -> (r: bool)
        requires
            old(self)@.wf(),
        ensures
            r == old(self)@.with_fe(old(self)@.fe.with_selection(old(self)@.fe.prev_selection())).requery_readable(),
            r ==> final(self)@ == old(self)@.after_prev_entry(),
            !r ==> final(self)@ == old(self)@,
            final(self).messages@ == old(self).messages@,
    {
        let prev = self.fe_state.prev_selection();
        if !self.selection_readable(prev) {
            return false;
        }
        self.prev_dir_entry();
        true
    }

    /// Whether selecting `selection` in the current listing leaves a readable selection.
    fn selection_readable(&self, selection: Option<String>) -> (r: bool)
        requires
            self@.wf(),
        ensures
            r == self@.with_fe(self@.fe.with_selection(selection.deep_view())).requery_readable(),
    {
        self.readable_in(self.fe_state.curr_content(), selection)
    }

    /// Whether `selection`, in a listing `content`, is not a video or can be read in the
    /// current mode.
    fn readable_in(&self, content: &DirContent, selection: Option<String>) -> (r: bool)
        ensures
            r == readable_selection(self@.query, content.deep_view(), selection.deep_view()),
    {
        match selection {
            Some(name) => {
                match crate::explorer::find_first_named(content, &name) {
                    Some(i) => {
                        if content[i].entry_type == EntryType::Video {
                            self.name_readable(name.as_str())
                        } else {
                            true
                        }
                    },
                    None => true,
                }
            },
            None => true,
        }
    }

    /// `enter_dir` when the video it would select can be read in the current mode;
    /// otherwise nothing changes and `false` is returned.
    pub fn try_enter_dir(&mut self, read: WithMessages<DirContent>) -> (r: bool)
        requires
            old(self)@.wf(),
        ensures
            r == old(self)@.with_fe(old(self)@.fe_after_enter(read.inner.deep_view())).requery_readable(),
            r ==> final(self)@ == old(self)@.after_enter(read.inner.deep_view()),
            !r ==> final(self)@ == old(self)@ && final(self).messages == old(self).messages,
    {
        let readable = match self.fe_state.selection_name_type() {
            Some((_, EntryType::Dir)) => {
                let mut unused = Vec::new();
                let selection = crate::explorer::get_autoselect(&read.inner).append_messages(&mut unused);
                self.readable_in(&read.inner, selection)
            },
            _ => self.readable_in(self.fe_state.curr_content(), self.fe_state.selection.clone()),
        };
        if !readable {
            return false;
        }
        self.enter_dir(read);
        true
    }

    /// Whether a video name can be read in the current mode.
    fn name_readable(&self, name: &str) -> (r: bool)
        ensures
            r == self@.query.filename_readable(name@),
    {
        match &self.query_state {
            Querier::MovieQuerier(_) => true,
            Querier::EpisodeQuerier(_) => EpisodeParams::numbers_readable(name),
        }
    }
}

/// A release year in parentheses at the end of a series name.
pub const YEAR_SUFFIX: &'static str = "\\((19\\d\\d|20\\d\\d)\\)$";

/// The search after replacing the text of field `selected` by `t`.
pub open spec fn edited_field(q: QuerierView, selected: u8, t: Seq<char>) -> QuerierView {
    match q {
        QuerierView::Movie(m) => {
            let p = m.query_params;
            QuerierView::Movie(
                m.with_params(
                    if selected == 0 {
                        MovieParamsView { name: t, ..p }
                    } else if selected == 1 {
                        MovieParamsView { year: t, ..p }
                    } else {
                        p
                    },
                ),
            )
        },
        QuerierView::Episode(e) => {
            let p = e.query_params;
            QuerierView::Episode(
                e.with_params(
                    if selected == 0 {
                        EpisodeParamsView { name: t, ..p }
                    } else if selected == 1 {
                        EpisodeParamsView { year: t, ..p }
                    } else if selected == 2 {
                        EpisodeParamsView { season: t, ..p }
                    } else if selected == 3 {
                        EpisodeParamsView { episode: t, ..p }
                    } else {
                        p
                    },
                ),
            )
        },
    }
}

/// The name of a movie's folder and file: `Name (Year) [imdbid-ID]`.
pub open spec fn movie_title(m: TitleView) -> Seq<char> {
    m.name + " ("@ + m.year + ") [imdbid-"@ + m.imdb_id + "]"@
}

/// A series name without a trailing `(Year)` and surrounding white space.
pub open spec fn show_name(e: EpisodeView) -> Seq<char> {
    trim(replaced_first(YEAR_SUFFIX@, e.series_name, ""@))
}

/// The name of a series' folder: `Show (Year) [tvdbid-ID]`.
pub open spec fn show_title(e: EpisodeView) -> Seq<char> {
    show_name(e) + " ("@ + e.year + ") [tvdbid-"@ + e.tvdb_id + "]"@
}

/// The name of a season's folder: `Season N`.
pub open spec fn season_title(e: EpisodeView) -> Seq<char> {
    "Season "@ + e.season
}

/// The name of an episode's file: `Show (Year) - S01E02 - Name.mkv`.
pub open spec fn episode_title(e: EpisodeView) -> Seq<char> {
    show_name(e) + " ("@ + e.year + ") - S"@ + zero_padded(e.season, 2) + "E"@ + zero_padded(
        e.episode,
        2,
    ) + " - "@ + e.episode_name + ".mkv"@
}

/// What processing the selection does to the file system: create `folders` (in order,
/// when missing) and make `link_path` a symbolic link to `link_target`.
#[derive(Debug)]
pub struct SelectionPlan {
    pub link_target: String,
    pub folders: Vec<String>,
    pub link_path: String,
}

pub struct SelectionPlanView {
    pub link_target: Seq<char>,
    pub folders: Seq<Seq<char>>,
    pub link_path: Seq<char>,
}

impl View for SelectionPlan {
    type V = SelectionPlanView;

    open spec fn view(&self) -> SelectionPlanView {
        SelectionPlanView {
            link_target: self.link_target@,
            folders: self.folders.deep_view(),
            link_path: self.link_path@,
        }
    }
}

impl AppView {
    /// The chosen target is one of the configured ones.
    pub open spec fn target_configured(self) -> bool {
        has_label(self.config.targets, self.target)
    }

    /// The path of the chosen target library.
    pub open spec fn target_path(self) -> Seq<char> {
        self.config.targets[first_labelled(self.config.targets, self.target).unwrap()].path
    }

    /// The path of the selected video below the storage path, as `Path::strip_prefix`
    /// gives it, if the video lies below it.
    pub open spec fn storage_subpath(self, name: Seq<char>) -> Option<Seq<char>> {
        path_strip_prefix_result(path_join(self.fe.curr_path(), name), self.config.storage_path)
    }

    /// The plan for a video whose path below the storage path is `subpath` (nothing when
    /// it lies outside), and the chosen search hit; or the error text.
    pub open spec fn plan_from(self, subpath: Option<Seq<char>>) -> Result<SelectionPlanView, Seq<char>> {
        match subpath {
            None => Err("cannot process object outside storage path"@),
            Some(sub) => {
                let endpoint = path_join("/storage"@, sub);
                match self.query {
                    QuerierView::Movie(m) => match m.entries {
                        None => Err("cannot process object: no movies to choose"@),
                        Some(es) => if m.selected < es.len() {
                            let title = movie_title(es[m.selected as int]);
                            let folder = path_join(self.target_path(), title);
                            Ok(
                                SelectionPlanView {
                                    link_target: endpoint,
                                    folders: seq![folder],
                                    link_path: path_join(folder, title + ".mkv"@),
                                },
                            )
                        } else {
                            Err("cannot process object: no movie selected"@)
                        },
                    },
                    QuerierView::Episode(q) => match q.entries {
                        None => Err("cannot process object: no movies to choose"@),
                        Some(es) => if q.selected < es.len() {
                            let e = es[q.selected as int];
                            let show_folder = path_join(self.target_path(), show_title(e));
                            let season_folder = path_join(show_folder, season_title(e));
                            Ok(
                                SelectionPlanView {
                                    link_target: endpoint,
                                    folders: seq![show_folder, season_folder],
                                    link_path: path_join(season_folder, episode_title(e)),
                                },
                            )
                        } else {
                            Err("cannot process object: no movie selected"@)
                        },
                    },
                }
            },
        }
    }

    /// The plan for the selected video and the chosen search hit, or the error text.
    pub open spec fn selection_plan(self) -> Result<SelectionPlanView, Seq<char>> {
        match self.video_selection() {
            None => Err("cannot process current selection: it is not a movie"@),
            Some(name) => self.plan_from(self.storage_subpath(name)),
        }
    }

    /// The state after typing into the selected field, whose text becomes `t`.
    pub open spec fn after_edit(self, t: Seq<char>, step: i16) -> AppView {
        let q = edited_field(self.query, self.ui.selected, t);
        AppView { query: q, ui: self.ui.set_cursor_spec(step, q), ..self }
    }

    /// The search of the other mode, for the selected video if there is one.
    pub open spec fn switched_query(self) -> QuerierView {
        let q0 = match self.query {
            QuerierView::Movie(_) => QuerierView::Episode(fresh_episode_querier()),
            QuerierView::Episode(_) => QuerierView::Movie(fresh_movie_querier()),
        };
        match self.video_selection() {
            Some(n) => q0.after_filename(n),
            None => q0,
        }
    }

    /// The selected video, if any, can be read in the other mode.
    pub open spec fn switch_readable(self) -> bool {
        match self.video_selection() {
            Some(n) => match self.query {
                QuerierView::Movie(_) => episode_numbers_readable(n),
                QuerierView::Episode(_) => true,
            },
            None => true,
        }
    }
}

/// The target after `current`: the one after the first target with that label, wrapping
/// to the first target; the first target when none has that label.
pub open spec fn next_target(targets: Seq<TargetView>, current: Seq<char>) -> Seq<char> {
    match first_labelled(targets, current) {
        Some(i) => if i + 1 < targets.len() {
            targets[i + 1].label
        } else {
            targets[0].label
        },
        None => targets[0].label,
    }
}

fn text_of(pieces: &str) -> (r: String)
    ensures
        r@ == pieces@,
{
    pieces.to_owned()
}

fn movie_title_of(m: &crate::tvdb::MovieEntry) -> (r: String)
    ensures
        r@ == movie_title(m@),
{
    let mut t = m.name.clone();
    t.append(" (");
    t.append(m.year.as_str());
    t.append(") [imdbid-");
    t.append(m.imdb_id.as_str());
    t.append("]");
    t
}

fn show_name_of(e: &crate::tvdb::EpisodeEntry) -> (r: String)
    ensures
        r@ == show_name(e@),
{
    let without_year = replace_first_match(YEAR_SUFFIX, e.series_name.as_str(), "");
    trim_white_space(without_year.as_str())
}

/// A search hit is selected: the hits have arrived and the selection points at one.
pub open spec fn hit_selected(q: QuerierView) -> bool {
    match q {
        QuerierView::Movie(m) => match m.entries {
            Some(es) => m.selected < es.len(),
            None => false,
        },
        QuerierView::Episode(e) => match e.entries {
            Some(es) => e.selected < es.len(),
            None => false,
        },
    }
}

impl AppView {
    /// Processing the selection gets as far as looking up the chosen target: a video is
    /// selected, it lies below the storage path, and a search hit is selected.
    pub open spec fn lookup_reached(self) -> bool {
        match self.video_selection() {
            Some(n) => self.storage_subpath(n) is Some && hit_selected(self.query),
            None => false,
        }
    }
}

impl App {
    /// Whether a search hit is selected.
    fn hit_is_selected(&self) -> (r: bool)
        ensures
            r == hit_selected(self@.query),
    {
        match &self.query_state {
            Querier::MovieQuerier(m) => match &m.entries {
                Some(es) => m.selected < es.len(),
                None => false,
            },
            Querier::EpisodeQuerier(e) => match &e.entries {
                Some(es) => e.selected < es.len(),
                None => false,
            },
        }
    }

    /// `failable_process_selection` where it does not need a configured target or the
    /// target is configured; nothing where processing would look up a target that no
    /// configured target has.
    pub fn try_process_selection(&self) -> (r: Option<Result<SelectionPlan, Message>>)
        requires
            self@.wf(),
        ensures
            r is None <==> self@.lookup_reached() && !self@.target_configured(),
            r matches Some(res) ==> match res {
                Ok(p) => self@.selection_plan() == Ok::<SelectionPlanView, Seq<char>>(p@),
                Err(m) => self@.selection_plan() == Err::<SelectionPlanView, Seq<char>>(m@.content)
                    && m@.urgency == Urgency::Error,
            },
    {
        proof {
            if self@.target_configured() {
                lemma_has_label_first(self@.config.targets, self@.target);
            }
        }
        if find_target(&self.config.targets, &self.target).is_some() {
            proof {
                let k = choose|k: int| crate::config::is_first_labelled(self@.config.targets, self@.target, k);
                assert(crate::config::is_first_labelled(self@.config.targets, self@.target, k));
                assert(has_label(self@.config.targets, self@.target));
            }
            return Some(self.failable_process_selection());
        }
        let reached = match self.fe_state.selection_name_type() {
            Some((name, EntryType::Video)) => {
                let selection_path = join_path(self.fe_state.curr_path().as_str(), name.as_str());
                strip_path_prefix(selection_path.as_str(), self.config.storage_path.as_str()).is_some()
                    && self.hit_is_selected()
            },
            _ => false,
        };
        if reached {
            None
        } else {
            Some(self.failable_process_selection())
        }
    }

    /// The path of the chosen target library.
    fn target_path_text(&self) -> (r: &str)
        requires
            self@.target_configured(),
        ensures
            r@ == self@.target_path(),
    {
        proof {
            lemma_has_label_first(self@.config.targets, self@.target);
        }
        let target_index = match find_target(&self.config.targets, &self.target) {
            Some(i) => i,
            None => vstd::pervasive::unreached(),
        };
        self.config.targets[target_index].path.as_str()
    }

    /// What processing the selection would do, or the error it stops with.
    pub fn failable_process_selection(&self) -> (r: Result<SelectionPlan, Message>)
        requires
            self@.wf(),
            self@.lookup_reached() ==> self@.target_configured(),
        ensures
            match r {
                Ok(p) => self@.selection_plan() == Ok::<SelectionPlanView, Seq<char>>(p@),
                Err(m) => self@.selection_plan() == Err::<SelectionPlanView, Seq<char>>(m@.content)
                    && m@.urgency == Urgency::Error,
            },
    {
        let name = match self.fe_state.selection_name_type() {
            Some((name, EntryType::Video)) => name,
            _ => {
                return Err(
                    Message::error(
                        String::from_str("cannot process current selection: it is not a movie"),
                    ),
                );
            },
        };
        let selection_path = join_path(self.fe_state.curr_path().as_str(), name.as_str());
        let subpath = strip_path_prefix(selection_path.as_str(), self.config.storage_path.as_str());
        self.plan_with_subpath(subpath)
    }

    /// What processing the selected video would do, given its path below the storage
    /// path (`None` when it lies outside), or the error it stops with.
    pub fn plan_with_subpath(&self, subpath: Option<String>) -> (r: Result<SelectionPlan, Message>)
        requires
            self@.wf(),
            subpath is Some && hit_selected(self@.query) ==> self@.target_configured(),
        ensures
            match r {
                Ok(p) => self@.plan_from(subpath.deep_view()) == Ok::<SelectionPlanView, Seq<char>>(p@),
                Err(m) => self@.plan_from(subpath.deep_view()) == Err::<SelectionPlanView, Seq<char>>(m@.content)
                    && m@.urgency == Urgency::Error,
            },
    {
        let endpoint = match subpath {
            Some(sub) => join_path("/storage", sub.as_str()),
            None => {
                return Err(
                    Message::error(String::from_str("cannot process object outside storage path")),
                );
            },
        };
        match &self.query_state {
            Querier::MovieQuerier(movie_querier) => {
                let entries = match &movie_querier.entries {
                    Some(entries) => entries,
                    None => {
                        return Err(
                            Message::error(
                                String::from_str("cannot process object: no movies to choose"),
                            ),
                        );
                    },
                };
                if movie_querier.selected >= entries.len() {
                    return Err(
                        Message::error(String::from_str("cannot process object: no movie selected")),
                    );
                }
                let target_path = self.target_path_text();
                let movie = &entries[movie_querier.selected];
                let title = movie_title_of(movie);
                let folder_path = join_path(target_path, title.as_str());
                let mut file_name = title.clone();
                file_name.append(".mkv");
                let link_path = join_path(folder_path.as_str(), file_name.as_str());
                let mut folders = Vec::new();
                folders.push(folder_path);
                let plan = SelectionPlan { link_target: endpoint, folders, link_path };
                assert(plan@.folders =~= seq![path_join(self@.target_path(), movie_title(movie@))]);
                Ok(plan)
            },
            Querier::EpisodeQuerier(episode_querier) => {
                let entries = match &episode_querier.entries {
                    Some(entries) => entries,
                    None => {
                        return Err(
                            Message::error(
                                String::from_str("cannot process object: no movies to choose"),
                            ),
                        );
                    },
                };
                if episode_querier.selected >= entries.len() {
                    return Err(
                        Message::error(String::from_str("cannot process object: no movie selected")),
                    );
                }
                let target_path = self.target_path_text();
                let episode = &entries[episode_querier.selected];
                let show = show_name_of(episode);
                let mut show_title = show.clone();
                show_title.append(" (");
                show_title.append(episode.year.as_str());
                show_title.append(") [tvdbid-");
                show_title.append(episode.tvdb_id.as_str());
                show_title.append("]");
                let mut season_title = text_of("Season ");
                season_title.append(episode.season.as_str());
                let mut episode_title = show.clone();
                episode_title.append(" (");
                episode_title.append(episode.year.as_str());
                episode_title.append(") - S");
                episode_title.append(zero_pad(episode.season.as_str(), 2).as_str());
                episode_title.append("E");
                episode_title.append(zero_pad(episode.episode.as_str(), 2).as_str());
                episode_title.append(" - ");
                episode_title.append(episode.episode_name.as_str());
                episode_title.append(".mkv");
                let show_folder_path = join_path(target_path, show_title.as_str());
                let season_folder_path = join_path(show_folder_path.as_str(), season_title.as_str());
                let episode_path = join_path(season_folder_path.as_str(), episode_title.as_str());
                let mut folders = Vec::new();
                folders.push(show_folder_path);
                folders.push(season_folder_path);
                let plan = SelectionPlan { link_target: endpoint, folders, link_path: episode_path };
                assert(plan@.folders =~= seq![
                    path_join(self@.target_path(), crate::app::show_title(episode@)),
                    path_join(path_join(self@.target_path(), crate::app::show_title(episode@)), crate::app::season_title(episode@)),
                ]);
                Ok(plan)
            },
        }
    }

    /// Records how processing the selection went: a confirmation, or its error.
    pub fn process_selection(&mut self, outcome: Result<(), Message>)
        ensures
            final(self)@ == old(self)@,
            match outcome {
                Ok(()) => appended(
                    old(self).messages@,
                    final(self).messages@,
                    seq![MessageView { urgency: Urgency::Info, content: "title processed correctly!"@ }],
                ),
                Err(m) => final(self).messages@ == old(self).messages@.push(m),
            },
    {
        let ghost old_msgs = self.messages@;
        match outcome {
            Ok(()) => {
                self.messages.push(Message::info(String::from_str("title processed correctly!")));
                assert(self.messages@.take(old_msgs.len() as int) =~= old_msgs);
            },
            Err(err) => self.messages.push(err),
        }
    }

    /// Selects the next search field and puts the cursor at its end.
    pub fn ui_next(&mut self)
        ensures
            final(self)@ == old(self)@.with_ui(
                UIManager {
                    selected: wrapped_mod((old(self).ui_manager.selected + 1) as i16, field_count(old(self)@.query)),
                    ..old(self).ui_manager
                }.cursor_end_spec(old(self)@.query),
            ),
            final(self).messages == old(self).messages,
    {
        self.ui_manager.set_selected(self.ui_manager.selected as i16 + 1, &self.query_state);
        self.ui_manager.cursor_end(&self.query_state);
    }

    /// Selects the previous search field and puts the cursor at its end.
    pub fn ui_prev(&mut self)
        ensures
            final(self)@ == old(self)@.with_ui(
                UIManager {
                    selected: wrapped_mod((old(self).ui_manager.selected - 1) as i16, field_count(old(self)@.query)),
                    ..old(self).ui_manager
                }.cursor_end_spec(old(self)@.query),
            ),
            final(self).messages == old(self).messages,
    {
        self.ui_manager.set_selected(self.ui_manager.selected as i16 - 1, &self.query_state);
        self.ui_manager.cursor_end(&self.query_state);
    }

    /// Moves the cursor one byte left, within the field.
    pub fn ui_left(&mut self)
        requires
            (old(self).ui_manager.cursor_position as i16) > i16::MIN,
        ensures
            final(self)@ == old(self)@.with_ui(
                old(self).ui_manager.set_cursor_spec(
                    ((old(self).ui_manager.cursor_position as i16) - 1) as i16,
                    old(self)@.query,
                ),
            ),
            final(self).messages == old(self).messages,
    {
        self.ui_manager.set_cursor(self.ui_manager.cursor_position as i16 - 1, &self.query_state);
    }

    /// Moves the cursor one byte right, within the field.
    pub fn ui_right(&mut self)
        requires
            (old(self).ui_manager.cursor_position as i16) < i16::MAX,
        ensures
            final(self)@ == old(self)@.with_ui(
                old(self).ui_manager.set_cursor_spec(
                    ((old(self).ui_manager.cursor_position as i16) + 1) as i16,
                    old(self)@.query,
                ),
            ),
            final(self).messages == old(self).messages,
    {
        self.ui_manager.set_cursor(self.ui_manager.cursor_position as i16 + 1, &self.query_state);
    }

    pub fn select_next(&mut self)
        requires
            old(self)@.query.step_fits(),
        ensures
            final(self)@ == old(self)@.with_query(old(self)@.query.stepped(true)),
            final(self).messages == old(self).messages,
    {
        self.query_state.select_next()
    }

    pub fn select_prev(&mut self)
        requires
            old(self)@.query.step_fits(),
        ensures
            final(self)@ == old(self)@.with_query(old(self)@.query.stepped(false)),
            final(self).messages == old(self).messages,
    {
        self.query_state.select_prev()
    }

    /// Switches between movie and episode search, searching for the selected video.
    pub fn change_mode(&mut self)
        requires
            old(self)@.wf(),
            old(self)@.switch_readable(),
        ensures
            final(self)@ == old(self)@.with_query(old(self)@.switched_query()).with_ui(
                ui_new(old(self)@.switched_query()),
            ),
            final(self).messages == old(self).messages,
    {
        let querier = match self.query_state {
            Querier::MovieQuerier(_) => {
                let mut episode_querier = EpisodeQuerier::new();
                match self.fe_state.selection_name_type() {
                    Some((name, EntryType::Video)) => {
                        episode_querier.query_filename(name.as_str());
                    },
                    _ => {},
                }
                Querier::EpisodeQuerier(episode_querier)
            },
            Querier::EpisodeQuerier(_) => {
                let mut movie_querier = MovieQuerier::new();
                match self.fe_state.selection_name_type() {
                    Some((name, EntryType::Video)) => {
                        movie_querier.query_filename(name.as_str());
                    },
                    _ => {},
                }
                Querier::MovieQuerier(movie_querier)
            },
        };
        self.query_state = querier;
        self.ui_manager = UIManager::new(&self.query_state);
    }

    /// `change_mode` when the selected video can be read in the other mode; otherwise
    /// nothing changes and `false` is returned.
    pub fn try_change_mode(&mut self) -> (r: bool)
        requires
            old(self)@.wf(),
        ensures
            r == old(self)@.switch_readable(),
            r ==> final(self)@ == old(self)@.with_query(old(self)@.switched_query()).with_ui(
                ui_new(old(self)@.switched_query()),
            ),
            !r ==> final(self)@ == old(self)@,
            final(self).messages == old(self).messages,
    {
        let readable = match &self.query_state {
            Querier::MovieQuerier(_) => match self.fe_state.selection_name_type() {
                Some((name, EntryType::Video)) => EpisodeParams::numbers_readable(name.as_str()),
                _ => true,
            },
            Querier::EpisodeQuerier(_) => true,
        };
        if !readable {
            return false;
        }
        self.change_mode();
        true
    }

    /// Chooses the target after the current one, wrapping to the first.
    pub fn change_target(&mut self)
        requires
            old(self)@.wf(),
        ensures
            final(self)@ == (AppView {
                target: next_target(old(self)@.config.targets, old(self)@.target),
                ..old(self)@
            }),
            final(self).messages == old(self).messages,
    {
        let first_target = self.config.targets[0].label.clone();
        let new_target = match find_target(&self.config.targets, &self.target) {
            Some(i) => if i < self.config.targets.len() - 1 {
                self.config.targets[i + 1].label.clone()
            } else {
                first_target
            },
            None => first_target,
        };
        self.target = new_target;
    }
}

impl App {
    /// Types `c` at the cursor of the selected field, searches again, and moves the cursor
    /// one byte right. The cursor must be at a character boundary of the field.
    pub fn ui_add(&mut self, c: char)
        requires
            match field_text(old(self)@.query, old(self).ui_manager.selected) {
                Some(t) => is_char_boundary(encode_utf8(t), old(self).ui_manager.cursor_position as int),
                None => true,
            },
            (old(self).ui_manager.cursor_position as i16) < i16::MAX,
        ensures
            match field_text(old(self)@.query, old(self).ui_manager.selected) {
                Some(t) => exists|k: int|
                    0 <= k <= t.len() && byte_len(t.take(k)) == old(self).ui_manager.cursor_position
                        && final(self)@ == old(self)@.after_edit(
                        t.insert(k, c),
                        ((old(self).ui_manager.cursor_position as i16) + 1) as i16,
                    ),
                None => final(self)@ == old(self)@,
            },
            final(self).messages == old(self).messages,
    {
        let cursor = self.ui_manager.cursor_position;
        let selected = self.ui_manager.selected;
        match &mut self.query_state {
            Querier::MovieQuerier(movie_querier) => {
                let mut params = movie_querier.query_params.clone();
                if selected == 0 {
                    insert_char_at_byte(&mut params.name, cursor, c);
                } else if selected == 1 {
                    insert_char_at_byte(&mut params.year, cursor, c);
                }
                movie_querier.query_params(params);
            },
            Querier::EpisodeQuerier(episode_querier) => {
                let mut params = episode_querier.query_params.clone();
                if selected == 0 {
                    insert_char_at_byte(&mut params.name, cursor, c);
                } else if selected == 1 {
                    insert_char_at_byte(&mut params.year, cursor, c);
                } else if selected == 2 {
                    insert_char_at_byte(&mut params.season, cursor, c);
                } else if selected == 3 {
                    insert_char_at_byte(&mut params.episode, cursor, c);
                }
                episode_querier.query_params(params);
            },
        };
        self.ui_right();
    }

    /// Deletes the character before the cursor in the selected field, searches again, and
    /// moves the cursor one byte left. The byte before the cursor must start a character.
    pub fn ui_remove(&mut self)
        requires
            old(self).ui_manager.cursor_position > 0 ==> match field_text(
                old(self)@.query,
                old(self).ui_manager.selected,
            ) {
                Some(t) => old(self).ui_manager.cursor_position - 1 < byte_len(t) && is_char_boundary(
                    encode_utf8(t),
                    old(self).ui_manager.cursor_position - 1,
                ),
                None => true,
            },
            old(self).ui_manager.cursor_position > 0 ==> (old(self).ui_manager.cursor_position as i16)
                > i16::MIN,
        ensures
            old(self).ui_manager.cursor_position == 0 ==> final(self)@ == old(self)@,
            old(self).ui_manager.cursor_position > 0 ==> match field_text(
                old(self)@.query,
                old(self).ui_manager.selected,
            ) {
                Some(t) => exists|k: int|
                    0 <= k < t.len() && byte_len(t.take(k)) == old(self).ui_manager.cursor_position - 1
                        && final(self)@ == old(self)@.after_edit(
                        t.remove(k),
                        ((old(self).ui_manager.cursor_position as i16) - 1) as i16,
                    ),
                None => final(self)@ == old(self)@,
            },
            final(self).messages == old(self).messages,
    {
        if self.ui_manager.cursor_position == 0 {
            return;
        }
        let remove_index = self.ui_manager.cursor_position - 1;
        let selected = self.ui_manager.selected;
        match &mut self.query_state {
            Querier::MovieQuerier(movie_querier) => {
                let mut params = movie_querier.query_params.clone();
                if selected == 0 {
                    remove_char_at_byte(&mut params.name, remove_index);
                } else if selected == 1 {
                    remove_char_at_byte(&mut params.year, remove_index);
                }
                movie_querier.query_params(params);
            },
            Querier::EpisodeQuerier(episode_querier) => {
                let mut params = episode_querier.query_params.clone();
                if selected == 0 {
                    remove_char_at_byte(&mut params.name, remove_index);
                } else if selected == 1 {
                    remove_char_at_byte(&mut params.year, remove_index);
                } else if selected == 2 {
                    remove_char_at_byte(&mut params.season, remove_index);
                } else if selected == 3 {
                    remove_char_at_byte(&mut params.episode, remove_index);
                }
                episode_querier.query_params(params);
            },
        };
        self.ui_left()
    }
}

/// Deleting the character before the cursor right after typing one restores the text of
/// the field and the cursor (when the cursor and the field stay clear of `i16::MAX`, the
/// bound of the cursor arithmetic). `k` is the position `ui_add` inserts at and `k2` the
/// one `ui_remove` deletes at, both given by the cursor's byte offset.
pub proof fn law_remove_undoes_add(a: AppView, c: char, k: int, k2: int)
    requires
        field_text(a.query, a.ui.selected) is Some,
        0 <= k <= field_text(a.query, a.ui.selected).unwrap().len(),
        byte_len(field_text(a.query, a.ui.selected).unwrap().take(k)) == a.ui.cursor_position,
        byte_len(field_text(a.query, a.ui.selected).unwrap()) + 4 <= i16::MAX,
        0 <= k2 < field_text(a.query, a.ui.selected).unwrap().insert(k, c).len(),
        byte_len(field_text(a.query, a.ui.selected).unwrap().insert(k, c).take(k2)) == a.ui.cursor_position,
    ensures
        ({
            let t = field_text(a.query, a.ui.selected).unwrap();
            let t2 = t.insert(k, c);
            let a1 = a.after_edit(t2, ((a.ui.cursor_position as i16) + 1) as i16);
            let a2 = a1.after_edit(t2.remove(k2), ((a1.ui.cursor_position as i16) - 1) as i16);
            &&& field_text(a1.query, a.ui.selected) == Some(t2)
            &&& a1.ui.cursor_position == a.ui.cursor_position + 1
            &&& t2.remove(k2) == t
            &&& field_text(a2.query, a.ui.selected) == Some(t)
            &&& a2.ui == a.ui
        }),
{
    let t = field_text(a.query, a.ui.selected).unwrap();
    let t2 = t.insert(k, c);
    let cur = a.ui.cursor_position;
    // the edited text and its byte length
    assert(t2 =~= t.take(k) + seq![c] + t.skip(k));
    assert(t =~= t.take(k) + t.skip(k));
    crate::text::lemma_byte_len_concat(t.take(k) + seq![c], t.skip(k));
    crate::text::lemma_byte_len_concat(t.take(k), seq![c]);
    crate::text::lemma_byte_len_concat(t.take(k), t.skip(k));
    crate::text::lemma_byte_len_single(c);
    assert(byte_len(t2) == byte_len(t) + byte_len(seq![c]));
    // the cursor names the same position in both texts
    assert(t2.take(k) =~= t.take(k));
    crate::text::lemma_byte_len_take_injective(t2, k, k2);
    assert(t2.remove(k2) =~= t);
    crate::text::lemma_byte_len_take_le(t, k);
    assert(t2 != t) by {
        assert(t2.len() != t.len());
    }
    let a1 = a.after_edit(t2, ((cur as i16) + 1) as i16);
    assert(a1.ui.cursor_position == cur + 1);
    let a2 = a1.after_edit(t, ((a1.ui.cursor_position as i16) - 1) as i16);
    assert(a2.ui.cursor_position == cur);
}

/// Changing the target always picks a configured target.
pub proof fn law_change_target_configured(targets: Seq<TargetView>, current: Seq<char>)
    requires
        targets.len() > 0,
    ensures
        has_label(targets, next_target(targets, current)),
{
    match first_labelled(targets, current) {
        Some(i) => {
            let k = choose|k: int| crate::config::is_first_labelled(targets, current, k);
            assert(crate::config::is_first_labelled(targets, current, k));
            if i + 1 < targets.len() {
                assert(targets[i + 1].label == next_target(targets, current));
            } else {
                assert(targets[0].label == next_target(targets, current));
            }
        },
        None => {
            assert(targets[0].label == next_target(targets, current));
        },
    }
}

/// The target after `m` target changes, starting at `current`.
pub open spec fn target_after_changes(targets: Seq<TargetView>, current: Seq<char>, m: nat) -> Seq<char>
    decreases m,
{
    if m == 0 {
        current
    } else {
        next_target(targets, target_after_changes(targets, current, (m - 1) as nat))
    }
}

/// No two targets share a label.
pub open spec fn distinct_labels(targets: Seq<TargetView>) -> bool {
    forall|i: int, j: int|
        0 <= i < targets.len() && 0 <= j < targets.len() && i != j ==> #[trigger] targets[i].label
            != #[trigger] targets[j].label
}

/// With distinct labels, changing the target `m` times from the target at position `i0`
/// gives the target at position `(i0 + m) % n`: the targets are visited in order, and
/// after `n` changes the first target is back.
pub proof fn law_change_target_cycles(targets: Seq<TargetView>, i0: int, m: nat)
    requires
        targets.len() > 0,
        distinct_labels(targets),
        0 <= i0 < targets.len(),
    ensures
        target_after_changes(targets, targets[i0].label, m) == targets[(i0 + m) % (targets.len() as int)].label,
    decreases m,
{
    let n = targets.len() as int;
    if m == 0 {
        vstd::arithmetic::div_mod::lemma_small_mod(i0 as nat, n as nat);
    } else {
        law_change_target_cycles(targets, i0, (m - 1) as nat);
        let j = (i0 + m - 1) % n;
        assert(0 <= j < n) by {
            vstd::arithmetic::div_mod::lemma_mod_bound(i0 + m - 1, n);
        }
        let label = targets[j].label;
        assert(crate::config::is_first_labelled(targets, label, j));
        crate::config::lemma_first_labelled_is(targets, label, j);
        vstd::arithmetic::div_mod::lemma_add_mod_noop(i0 + m - 1, 1, n);
        if n == 1 {
            assert((i0 + m) % n == 0) by {
                vstd::arithmetic::div_mod::lemma_mod_bound(i0 + m, n);
            }
        } else {
            vstd::arithmetic::div_mod::lemma_small_mod(1, n as nat);
            if j + 1 < n {
                vstd::arithmetic::div_mod::lemma_small_mod((j + 1) as nat, n as nat);
            } else {
                vstd::arithmetic::div_mod::lemma_mod_self_0(n);
            }
        }
    }
}

/// `s` begins with `prefix`.
pub open spec fn starts_with(s: Seq<char>, prefix: Seq<char>) -> bool {
    prefix.len() <= s.len() && s.take(prefix.len() as int) == prefix
}

/// A path component that does not begin with `/`, so that joining it keeps the base.
pub open spec fn relative(c: Seq<char>) -> bool {
    !(c.len() > 0 && c[0] == '/')
}

proof fn lemma_join_keeps_base(base: Seq<char>, c: Seq<char>)
    requires
        relative(c),
    ensures
        starts_with(path_join(base, c), base),
{
    if base.len() == 0 || base.last() == '/' {
        assert((base + c).take(base.len() as int) =~= base);
    } else {
        assert((base + seq!['/'] + c).take(base.len() as int) =~= base);
    }
}

proof fn lemma_starts_with_trans(a: Seq<char>, b: Seq<char>, c: Seq<char>)
    requires
        starts_with(a, b),
        starts_with(b, c),
    ensures
        starts_with(a, c),
{
    assert(a.take(c.len() as int) =~= b.take(c.len() as int));
}

/// The names that the plan for the selected hit puts first in a path component: the
/// movie's name, or the series name without its year.
pub open spec fn hit_names_relative(a: AppView) -> bool {
    match a.query {
        QuerierView::Movie(m) => match m.entries {
            Some(es) => m.selected < es.len() ==> relative(es[m.selected as int].name),
            None => true,
        },
        QuerierView::Episode(q) => match q.entries {
            Some(es) => q.selected < es.len() ==> relative(show_name(es[q.selected as int])),
            None => true,
        },
    }
}

/// Processing a selection creates folders and a link only inside the chosen target
/// library, as long as the names of the hit do not begin with `/` (the service's names
/// have every `/` replaced).
pub proof fn law_plan_inside_target(a: AppView)
    requires
        a.wf(),
        a.target_configured(),
        hit_names_relative(a),
    ensures
        a.selection_plan() matches Ok(plan) ==> {
            &&& forall|i: int| 0 <= i < plan.folders.len() ==> starts_with(#[trigger] plan.folders[i], a.target_path())
            &&& starts_with(plan.link_path, a.target_path())
        },
{
    reveal_strlit(" (");
    reveal_strlit("Season ");
    reveal_strlit(".mkv");
    if let Ok(plan) = a.selection_plan() {
        let t = a.target_path();
        match a.query {
            QuerierView::Movie(m) => {
                let es = m.entries.unwrap();
                let title = movie_title(es[m.selected as int]);
                let folder = path_join(t, title);
                assert(relative(title)) by {
                    if title.len() > 0 && title[0] == '/' {
                        let n = es[m.selected as int].name;
                        if n.len() > 0 {
                            assert(title[0] == n[0]);
                        } else {
                            assert(title[0] == ' ');
                        }
                    }
                }
                lemma_join_keeps_base(t, title);
                assert(relative(title + ".mkv"@)) by {
                    assert((title + ".mkv"@)[0] == title[0]);
                }
                lemma_join_keeps_base(folder, title + ".mkv"@);
                lemma_starts_with_trans(plan.link_path, folder, t);
                assert(plan.folders == seq![folder]);
            },
            QuerierView::Episode(q) => {
                let es = q.entries.unwrap();
                let e = es[q.selected as int];
                let show_folder = path_join(t, show_title(e));
                let season_folder = path_join(show_folder, season_title(e));
                assert(relative(show_title(e))) by {
                    let n = show_name(e);
                    if show_title(e).len() > 0 && show_title(e)[0] == '/' {
                        if n.len() > 0 {
                            assert(show_title(e)[0] == n[0]);
                        } else {
                            assert(show_title(e)[0] == ' ');
                        }
                    }
                }
                lemma_join_keeps_base(t, show_title(e));
                assert(season_title(e)[0] == 'S');
                lemma_join_keeps_base(show_folder, season_title(e));
                lemma_starts_with_trans(season_folder, show_folder, t);
                assert(relative(episode_title(e))) by {
                    let n = show_name(e);
                    if episode_title(e).len() > 0 && episode_title(e)[0] == '/' {
                        if n.len() > 0 {
                            assert(episode_title(e)[0] == n[0]);
                        } else {
                            assert(episode_title(e)[0] == ' ');
                        }
                    }
                }
                lemma_join_keeps_base(season_folder, episode_title(e));
                lemma_starts_with_trans(plan.link_path, season_folder, t);
                assert(plan.folders == seq![show_folder, season_folder]);
            },
        }
    }
}

/// `s` ends with `suffix`.
pub open spec fn ends_with(s: Seq<char>, suffix: Seq<char>) -> bool {
    suffix.len() <= s.len() && s.skip(s.len() - suffix.len()) == suffix
}

/// A season or episode number as an episode's file name writes it: two or more digits as
/// they are, one digit after a `0`, no digits as `00`.
pub open spec fn two_digits(x: Seq<char>) -> Seq<char> {
    if x.len() >= 2 {
        x
    } else if x.len() == 1 {
        seq!['0'] + x
    } else {
        seq!['0', '0']
    }
}

proof fn lemma_ends_with_join(base: Seq<char>, c: Seq<char>)
    ensures
        ends_with(path_join(base, c), c),
{
    let r = path_join(base, c);
    assert(r.skip(r.len() - c.len()) =~= c);
}

proof fn lemma_ends_with_concat(pre: Seq<char>, suffix: Seq<char>)
    ensures
        ends_with(pre + suffix, suffix),
{
    assert((pre + suffix).skip(pre.len() as int) =~= suffix);
}

proof fn lemma_ends_with_trans(a: Seq<char>, b: Seq<char>, c: Seq<char>)
    requires
        ends_with(a, b),
        ends_with(b, c),
    ensures
        ends_with(a, c),
{
    assert(a.skip(a.len() - c.len()) =~= b.skip(b.len() - c.len()));
}

proof fn lemma_zero_padded_two(x: Seq<char>)
    ensures
        zero_padded(x, 2) == two_digits(x),
{
    if x.len() == 1 {
        assert(Seq::new(1, |i: int| '0') + x =~= seq!['0'] + x);
    } else if x.len() == 0 {
        assert(Seq::new(2, |i: int| '0') + x =~= seq!['0', '0']);
    }
}

/// The link of an episode ends with `S`, the season in two digits, `E`, the episode in
/// two digits, ` - `, the episode's name and `.mkv`.
pub proof fn law_episode_file_name(a: AppView)
    ensures
        match (a.selection_plan(), a.query) {
            (Ok(p), QuerierView::Episode(q)) => match q.entries {
                Some(es) => {
                    let e = es[q.selected as int];
                    ends_with(
                        p.link_path,
                        seq!['S'] + two_digits(e.season) + seq!['E'] + two_digits(e.episode) + " - "@
                            + e.episode_name + ".mkv"@,
                    )
                },
                None => true,
            },
            _ => true,
        },
{
    if let (Ok(p), QuerierView::Episode(q)) = (a.selection_plan(), a.query) {
        if let Some(es) = q.entries {
            let e = es[q.selected as int];
            let t = a.target_path();
            let show_folder = path_join(t, show_title(e));
            let season_folder = path_join(show_folder, season_title(e));
            assert(p.link_path == path_join(season_folder, episode_title(e)));
            lemma_ends_with_join(season_folder, episode_title(e));
            lemma_zero_padded_two(e.season);
            lemma_zero_padded_two(e.episode);
            reveal_strlit(") - S");
            reveal_strlit(") - ");
            reveal_strlit("E");
            let suffix = seq!['S'] + two_digits(e.season) + seq!['E'] + two_digits(e.episode) + " - "@
                + e.episode_name + ".mkv"@;
            let pre = show_name(e) + " ("@ + e.year + ") - "@;
            assert(episode_title(e) =~= pre + suffix);
            lemma_ends_with_concat(pre, suffix);
            lemma_ends_with_trans(p.link_path, episode_title(e), suffix);
        }
    }
}

/// The search state reads its parameters from the file name `n`.
pub open spec fn searches_for(q: QuerierView, n: Seq<char>) -> bool {
    match q {
        QuerierView::Movie(m) => m.query_params == crate::query::movie_params_of(n),
        QuerierView::Episode(e) => e.query_params == crate::query::episode_params_of(n),
    }
}

/// After moving to the next or previous entry, or entering a directory, a selected video
/// is what the search looks for, in the same mode, with the field editor on a fresh
/// search.
pub proof fn law_moving_searches_selected_video(a: AppView, content: Seq<crate::explorer::DirEntryView>)
    ensures
        a.after_next_entry().fe.selection_name_type() matches Some((n, EntryType::Video)) ==> {
            &&& searches_for(a.after_next_entry().query, n)
            &&& (a.after_next_entry().query is Movie <==> a.query is Movie)
            &&& a.after_next_entry().ui == ui_new(a.after_next_entry().query)
        },
        a.after_prev_entry().fe.selection_name_type() matches Some((n, EntryType::Video)) ==> {
            &&& searches_for(a.after_prev_entry().query, n)
            &&& (a.after_prev_entry().query is Movie <==> a.query is Movie)
            &&& a.after_prev_entry().ui == ui_new(a.after_prev_entry().query)
        },
        a.after_enter(content).fe.selection_name_type() matches Some((n, EntryType::Video)) ==> {
            &&& searches_for(a.after_enter(content).query, n)
            &&& (a.after_enter(content).query is Movie <==> a.query is Movie)
            &&& a.after_enter(content).ui == ui_new(a.after_enter(content).query)
        },
{
}

} // verus!
