//! The file explorer: directory listings, their order, the automatic selection, and
//! moving through the directory tree.

use vstd::prelude::*;
use vstd::string::*;
use vstd::multiset::*;
use crate::messenger::{Message, MessageView, Urgency, WithMessages};
use crate::text::{path_join, join_path};

verus! {

broadcast use vstd::seq_lib::group_to_multiset_ensures;

#[derive(Debug, Clone, Copy, PartialEq, Eq, Structural)]
pub enum EntryType {
    Dir,
    Video,
    Unknown,
}

impl DeepView for EntryType {
    type V = EntryType;

    open spec fn deep_view(&self) -> EntryType {
        *self
    }
}

/// An entry of a directory listing; `info` is the size in bytes of a file, 0 for a directory.
#[derive(Debug)]
pub struct DirEntry {
    pub name: String,
    pub entry_type: EntryType,
    pub info: u64,
}

pub struct DirEntryView {
    pub name: Seq<char>,
    pub entry_type: EntryType,
    pub info: u64,
}

impl View for DirEntry {
    type V = DirEntryView;

    open spec fn view(&self) -> DirEntryView {
        DirEntryView { name: self.name@, entry_type: self.entry_type, info: self.info }
    }
}

impl DeepView for DirEntry {
    type V = DirEntryView;

    open spec fn deep_view(&self) -> DirEntryView {
        self@
    }
}

impl Clone for DirEntry {
    fn clone(&self) -> (r: Self)
        ensures
            r == *self,
    {
        DirEntry { name: self.name.clone(), entry_type: self.entry_type, info: self.info }
    }
}

pub type DirContent = Vec<DirEntry>;

// ---------------------------------------------------------------------------------
// Order of a listing
// ---------------------------------------------------------------------------------

/// `a` and `b` agree before position `k`, and at `k` either `a` has ended while `b` goes
/// on, or `a` has the smaller character.
pub open spec fn name_lt_at(a: Seq<char>, b: Seq<char>, k: int) -> bool {
    &&& 0 <= k <= a.len()
    &&& k <= b.len()
    &&& forall|j: int| 0 <= j < k ==> a[j] == b[j]
    &&& (k == a.len() && k < b.len()) || (k < a.len() && k < b.len() && (a[k] as u32) < (
    b[k] as u32))
}

/// Lexicographic order of names by code point, the order in which `str::cmp` puts them
/// (UTF-8 byte order and code point order agree).
pub open spec fn name_lt(a: Seq<char>, b: Seq<char>) -> bool {
    exists|k: int| name_lt_at(a, b, k)
}

pub proof fn lemma_name_lt_transitive(a: Seq<char>, b: Seq<char>, c: Seq<char>)
    requires
        name_lt(a, b),
        name_lt(b, c),
    ensures
        name_lt(a, c),
{
    let k1 = choose|k: int| name_lt_at(a, b, k);
    let k2 = choose|k: int| name_lt_at(b, c, k);
    let k = if k1 < k2 {
        k1
    } else {
        k2
    };
    assert(name_lt_at(a, c, k));
}

pub proof fn lemma_name_lt_irreflexive(a: Seq<char>)
    ensures
        !name_lt(a, a),
{
}

/// Whether `a` comes before `b` in a listing: directories first, then by name.
pub open spec fn entry_before(a: DirEntryView, b: DirEntryView) -> bool {
    ||| a.entry_type == EntryType::Dir && b.entry_type != EntryType::Dir
    ||| (a.entry_type == EntryType::Dir) == (b.entry_type == EntryType::Dir) && name_lt(
        a.name,
        b.name,
    )
}

pub proof fn lemma_entry_before_transitive(a: DirEntryView, b: DirEntryView, c: DirEntryView)
    requires
        entry_before(a, b),
        entry_before(b, c),
    ensures
        entry_before(a, c),
{
    if name_lt(a.name, b.name) && name_lt(b.name, c.name) {
        lemma_name_lt_transitive(a.name, b.name, c.name);
    }
}

/// A listing in which no entry comes before an earlier one.
pub open spec fn sorted_entries(s: Seq<DirEntryView>) -> bool {
    forall|i: int, j: int| 0 <= i < j < s.len() ==> !entry_before(#[trigger] s[j], #[trigger] s[i])
}

/// Entries that the order of a listing does not tell apart: both directories or both
/// not, with the same name.
pub open spec fn same_place(a: DirEntryView, b: DirEntryView) -> bool {
    (a.entry_type == EntryType::Dir) == (b.entry_type == EntryType::Dir) && a.name == b.name
}

/// The entries of `s` that the order does not tell apart from `k`, in the order of `s`.
pub open spec fn ties(s: Seq<DirEntryView>, k: DirEntryView) -> Seq<DirEntryView> {
    s.filter(|e: DirEntryView| same_place(e, k))
}

proof fn lemma_ties_none(s: Seq<DirEntryView>, k: DirEntryView)
    requires
        forall|i: int| 0 <= i < s.len() ==> !same_place(#[trigger] s[i], k),
    ensures
        ties(s, k) == Seq::<DirEntryView>::empty(),
    decreases s.len(),
{
    reveal(Seq::filter);
    if s.len() > 0 {
        lemma_ties_none(s.drop_last(), k);
    }
}

/// Inserting `x` into a sorted listing before the first entry that it comes before adds
/// `x` after the entries tied with it.
proof fn lemma_ties_after_insert(out: Seq<DirEntryView>, x: DirEntryView, p: int, k: DirEntryView)
    requires
        sorted_entries(out),
        0 <= p <= out.len(),
        p < out.len() ==> entry_before(x, out[p]),
    ensures
        ties(out.insert(p, x), k) == if same_place(x, k) {
            ties(out, k).push(x)
        } else {
            ties(out, k)
        },
{
    broadcast use Seq::filter_distributes_over_add, Seq::lemma_filter_prepend;

    let pred = |e: DirEntryView| same_place(e, k);
    let head = out.take(p);
    let tail = out.skip(p);
    assert(out.insert(p, x) =~= head + (seq![x] + tail));
    assert(out =~= head + tail);
    assert(ties(out.insert(p, x), k) == head.filter(pred) + (seq![x] + tail).filter(pred));
    assert(ties(out, k) == head.filter(pred) + tail.filter(pred));
    assert((seq![x] + tail).filter(pred) == (if same_place(x, k) {
        seq![x]
    } else {
        Seq::empty()
    }) + tail.filter(pred));
    if same_place(x, k) {
        assert forall|i: int| 0 <= i < tail.len() implies !same_place(#[trigger] tail[i], k) by {
            if same_place(tail[i], k) {
                let q = p + i;
                assert(tail[i] == out[q]);
                assert(entry_before(out[q], out[p]) == entry_before(x, out[p]));
                if q == p {
                    lemma_name_lt_irreflexive(out[p].name);
                } else {
                    assert(!entry_before(out[q], out[p]));
                }
            }
        }
        lemma_ties_none(tail, k);
        assert(tail.filter(pred) =~= Seq::<DirEntryView>::empty());
        assert(head.filter(pred) + (seq![x] + Seq::<DirEntryView>::empty()) =~= (head.filter(pred)
            + Seq::<DirEntryView>::empty()).push(x));
    } else {
        assert(Seq::<DirEntryView>::empty() + tail.filter(pred) =~= tail.filter(pred));
    }
}

/// Compares two names as `str::cmp` does, returning whether `a` is smaller.
pub fn name_less(a: &str, b: &str) -> (r: bool)
    ensures
        r == name_lt(a@, b@),
{
    let n = a.unicode_len();
    let m = b.unicode_len();
    let mut i: usize = 0;
    while i < n && i < m
        invariant
            n == a@.len(),
            m == b@.len(),
            i <= n,
            i <= m,
            forall|j: int| 0 <= j < i ==> a@[j] == b@[j],
        decreases n - i,
    {
        let ca = a.get_char(i);
        let cb = b.get_char(i);
        if (ca as u32) < (cb as u32) {
            assert(name_lt_at(a@, b@, i as int));
            return true;
        }
        if (cb as u32) < (ca as u32) {
            assert forall|k: int| !name_lt_at(a@, b@, k) by {
                if 0 <= k <= a@.len() && k <= b@.len() && (forall|j: int|
                    0 <= j < k ==> a@[j] == b@[j]) {
                    if k > i {
                        assert(a@[i as int] == b@[i as int]);
                    }
                }
            }
            return false;
        }
        assert((ca as u32) == (cb as u32));
        i = i + 1;
    }
    if n < m {
        assert(name_lt_at(a@, b@, n as int));
        true
    } else {
        assert forall|k: int| !name_lt_at(a@, b@, k) by {}
        false
    }
}

fn entry_goes_before(a: &DirEntry, b: &DirEntry) -> (r: bool)
    ensures
        r == entry_before(a@, b@),
{
    let a_dir = a.entry_type == EntryType::Dir;
    let b_dir = b.entry_type == EntryType::Dir;
    if a_dir && !b_dir {
        true
    } else if a_dir == b_dir {
        name_less(a.name.as_str(), b.name.as_str())
    } else {
        false
    }
}

/// Sorts a listing (directories first, then by name), keeping its entries; entries
/// that the order does not tell apart keep their order.
pub fn sort_entries(v: Vec<DirEntry>) -> (r: Vec<DirEntry>)
    ensures
        r.deep_view().to_multiset() == v.deep_view().to_multiset(),
        sorted_entries(r.deep_view()),
        forall|k: DirEntryView| #[trigger] ties(r.deep_view(), k) == ties(v.deep_view(), k),
{
    broadcast use vstd::multiset::group_multiset_axioms;

    let mut rest = v;
    let mut out: Vec<DirEntry> = Vec::new();
    assert(out.deep_view().to_multiset() =~= Multiset::empty());
    assert forall|k: DirEntryView| #[trigger] ties(out.deep_view(), k) + ties(rest.deep_view(), k) == ties(v.deep_view(), k) by {
        lemma_ties_none(out.deep_view(), k);
        assert(Seq::<DirEntryView>::empty() + ties(rest.deep_view(), k) =~= ties(rest.deep_view(), k));
    }
    while rest.len() > 0
        invariant
            out.deep_view().to_multiset().add(rest.deep_view().to_multiset())
                == v.deep_view().to_multiset(),
            sorted_entries(out.deep_view()),
            forall|k: DirEntryView| #[trigger] ties(out.deep_view(), k) + ties(rest.deep_view(), k) == ties(v.deep_view(), k),
        decreases rest.len(),
    {
        let ghost rest0 = rest.deep_view();
        let ghost out0 = out.deep_view();
        let x = rest.remove(0);
        assert(rest.deep_view() =~= rest0.remove(0));
        assert(rest0[0] == x.deep_view());
        let mut p: usize = 0;
        while p < out.len() && !entry_goes_before(&x, &out[p])
            invariant
                p <= out.len(),
                out.deep_view() == out0,
                forall|k: int| 0 <= k < p ==> !entry_before(x@, #[trigger] out0[k]),
            decreases out.len() - p,
        {
            p = p + 1;
        }
        out.insert(p, x);
        assert(out.deep_view() =~= out0.insert(p as int, x@));
        proof {
            assert forall|k: DirEntryView| #[trigger] ties(out.deep_view(), k) + ties(rest.deep_view(), k) == ties(v.deep_view(), k) by {
                lemma_ties_after_insert(out0, x@, p as int, k);
                assert(rest0 =~= seq![x@] + rest.deep_view());
                rest.deep_view().lemma_filter_prepend(x@, |e: DirEntryView| same_place(e, k));
                assert(ties(out0, k) + ties(rest0, k) == ties(v.deep_view(), k));
                if same_place(x@, k) {
                    assert(ties(out0, k).push(x@) + ties(rest.deep_view(), k) =~= ties(out0, k) + (seq![x@] + ties(rest.deep_view(), k)));
                } else {
                    assert(Seq::<DirEntryView>::empty() + ties(rest.deep_view(), k) =~= ties(rest.deep_view(), k));
                }
            }
            let s = out.deep_view();
            assert forall|i: int, j: int| 0 <= i < j < s.len() implies !entry_before(
                #[trigger] s[j],
                #[trigger] s[i],
            ) by {
                if i == p {
                    // s[i] is the new entry; s[j] is out0[j - 1], at or after position p
                    if entry_before(s[j], s[i]) {
                        assert(p < out0.len());
                        assert(entry_before(x@, out0[p as int]));
                        lemma_entry_before_transitive(s[j], x@, out0[p as int]);
                        if j - 1 == p {
                            lemma_name_lt_irreflexive(out0[p as int].name);
                        } else {
                            assert(!entry_before(out0[j - 1], out0[p as int]));
                        }
                    }
                } else if j == p {
                    assert(s[i] == out0[i]);
                } else {
                    let oi = if i < p {
                        i
                    } else {
                        i - 1
                    };
                    let oj = if j < p {
                        j
                    } else {
                        j - 1
                    };
                    assert(s[i] == out0[oi]);
                    assert(s[j] == out0[oj]);
                }
            }
            assert(s.to_multiset() =~= out0.to_multiset().insert(x@));
            assert(rest.deep_view().to_multiset() =~= rest0.to_multiset().remove(x@));
            assert(rest0.to_multiset().count(x@) > 0) by {
                assert(rest0.contains(x@)) by {
                    assert(rest0[0] == x@);
                }
            }
            assert(out.deep_view().to_multiset().add(rest.deep_view().to_multiset())
                =~= out0.to_multiset().add(rest0.to_multiset()));
        }
    }
    assert(rest.deep_view() =~= Seq::<DirEntryView>::empty());
    assert(out.deep_view().to_multiset().add(rest.deep_view().to_multiset()) =~= out.deep_view().to_multiset());
    assert forall|k: DirEntryView| #[trigger] ties(out.deep_view(), k) == ties(v.deep_view(), k) by {
        lemma_ties_none(rest.deep_view(), k);
        assert(ties(out.deep_view(), k) + Seq::<DirEntryView>::empty() =~= ties(out.deep_view(), k));
    }
    out
}

// ---------------------------------------------------------------------------------
// Reading a listing
// ---------------------------------------------------------------------------------

/// Position of the last `.` in `s`, or -1.
pub open spec fn last_dot_index(s: Seq<char>) -> int
    decreases s.len(),
{
    if s.len() == 0 {
        -1
    } else if s.last() == '.' {
        s.len() - 1
    } else {
        last_dot_index(s.drop_last())
    }
}

/// What `Path::extension` gives for a file name: the text after the last `.`, unless
/// there is no `.`, the only `.` starts the name, or the name is `..`.
pub open spec fn file_extension(name: Seq<char>) -> Option<Seq<char>> {
    if name == seq!['.', '.'] {
        None
    } else if last_dot_index(name) <= 0 {
        None
    } else {
        Some(name.skip(last_dot_index(name) + 1))
    }
}

/// The type of a listed entry: a directory, a video (extension `mkv` or `mp4`), or other.
pub open spec fn entry_type_of(name: Seq<char>, is_dir: bool) -> EntryType {
    if is_dir {
        EntryType::Dir
    } else if file_extension(name) == Some("mkv"@) || file_extension(name) == Some("mp4"@) {
        EntryType::Video
    } else {
        EntryType::Unknown
    }
}

pub fn extension(name: &str) -> (r: Option<String>)
    ensures
        r.deep_view() == file_extension(name@),
{
    let n = name.unicode_len();
    if n == 2 && name.get_char(0) == '.' && name.get_char(1) == '.' {
        assert(name@ =~= seq!['.', '.']);
        return None;
    }
    let mut j: usize = n;
    assert(name@.take(n as int) =~= name@);
    while j > 0 && name.get_char(j - 1) != '.'
        invariant
            n == name@.len(),
            j <= n,
            last_dot_index(name@) == last_dot_index(name@.take(j as int)),
        decreases j,
    {
        assert(name@.take(j as int).drop_last() =~= name@.take(j - 1));
        j = j - 1;
    }
    if j <= 1 {
        None
    } else {
        Some(name.substring_char(j, n).to_owned())
    }
}

pub fn entry_type_for(name: &str, is_dir: bool) -> (r: EntryType)
    ensures
        r == entry_type_of(name@, is_dir),
{
    if is_dir {
        return EntryType::Dir;
    }
    match extension(name) {
        Some(ext) => {
            let mkv = String::from_str("mkv");
            let mp4 = String::from_str("mp4");
            if ext == mkv || ext == mp4 {
                EntryType::Video
            } else {
                EntryType::Unknown
            }
        },
        None => EntryType::Unknown,
    }
}

/// What the file system reports of one directory entry: its name, whether it is a
/// directory, and the size of the entry itself (not followed if it is a link).
#[derive(Debug)]
pub struct RawDirEntry {
    pub name: String,
    pub is_dir: bool,
    pub size: u64,
}

/// One item of a directory read: an entry, or the text of a failure to read one.
#[derive(Debug)]
pub enum ListingItem {
    Entry(RawDirEntry),
    Failure(String),
}

/// The listing entry that a read item gives.
pub open spec fn listed_entry(item: ListingItem) -> Option<DirEntryView> {
    match item {
        ListingItem::Entry(e) => Some(
            DirEntryView {
                name: e.name@,
                entry_type: entry_type_of(e.name@, e.is_dir),
                info: if e.is_dir {
                    0
                } else {
                    e.size
                },
            },
        ),
        ListingItem::Failure(_) => None,
    }
}

pub open spec fn listed_entries(items: Seq<ListingItem>) -> Seq<DirEntryView>
    decreases items.len(),
{
    if items.len() == 0 {
        Seq::empty()
    } else {
        let prev = listed_entries(items.drop_last());
        match listed_entry(items.last()) {
            Some(e) => prev.push(e),
            None => prev,
        }
    }
}

/// The warnings that the failed items of a read give, in order.
pub open spec fn listing_warnings(items: Seq<ListingItem>) -> Seq<MessageView>
    decreases items.len(),
{
    if items.len() == 0 {
        Seq::empty()
    } else {
        let prev = listing_warnings(items.drop_last());
        match items.last() {
            ListingItem::Failure(t) => prev.push(MessageView { urgency: Urgency::Warning, content: t@ }),
            ListingItem::Entry(_) => prev,
        }
    }
}

/// Turns a directory read into a sorted listing. A read that failed as a whole gives an
/// empty listing and one warning; each failed item gives a warning.
pub fn dir_content_from_listing(listing: Result<Vec<ListingItem>, String>) -> (r: WithMessages<DirContent>)
    ensures
        match listing {
            Err(e) => r.inner@.len() == 0 && r.messages.deep_view() == seq![
                MessageView { urgency: Urgency::Warning, content: e@ },
            ],
            Ok(items) => {
                &&& r.inner.deep_view().to_multiset() == listed_entries(items@).to_multiset()
                &&& sorted_entries(r.inner.deep_view())
                &&& forall|k: DirEntryView| #[trigger] ties(r.inner.deep_view(), k) == ties(listed_entries(items@), k)
                &&& r.messages.deep_view() == listing_warnings(items@)
            },
        },
{
    match listing {
        Err(e) => {
            let mut messages = Vec::new();
            messages.push(Message::warning(e));
            let r = WithMessages::new(Vec::new(), messages);
            assert(r.messages.deep_view() =~= seq![MessageView { urgency: Urgency::Warning, content: e@ }]);
            r
        },
        Ok(items) => {
            let ghost all = items@;
            let mut output: Vec<DirEntry> = Vec::new();
            let mut messages: Vec<Message> = Vec::new();
            let mut items = items;
            let mut done: Ghost<Seq<ListingItem>> = Ghost(Seq::empty());
            while items.len() > 0
                invariant
                    done@ + items@ == all,
                    output.deep_view() == listed_entries(done@),
                    messages.deep_view() == listing_warnings(done@),
                decreases items.len(),
            {
                let ghost before_out = output.deep_view();
                let ghost before_msgs = messages.deep_view();
                let item = items.remove(0);
                proof {
                    assert(done@.push(item).drop_last() =~= done@);
                }
                match item {
                    ListingItem::Entry(e) => {
                        let entry_type = entry_type_for(e.name.as_str(), e.is_dir);
                        let info = if e.is_dir { 0 } else { e.size };
                        let d = DirEntry { name: e.name, entry_type, info };
                        output.push(d);
                        assert(output.deep_view() =~= before_out.push(d@));
                        assert(messages.deep_view() =~= before_msgs);
                        proof {
                            done@ = done@.push(ListingItem::Entry(e));
                        }
                    },
                    ListingItem::Failure(t) => {
                        let ghost tv = t@;
                        let m = Message::error(t).err_to_warn();
                        messages.push(m);
                        assert(messages.deep_view() =~= before_msgs.push(MessageView { urgency: Urgency::Warning, content: tv }));
                        assert(output.deep_view() =~= before_out);
                        proof {
                            done@ = done@.push(ListingItem::Failure(t));
                        }
                    },
                }
                assert(done@ + items@ =~= all);
            }
            assert(done@ =~= all);
            let sorted = sort_entries(output);
            WithMessages::new(sorted, messages)
        },
    }
}

// ---------------------------------------------------------------------------------
// Automatic selection
// ---------------------------------------------------------------------------------

/// Index of the largest video (the last one among equally large ones), if any.
pub open spec fn best_video(c: Seq<DirEntryView>) -> Option<int>
    decreases c.len(),
{
    if c.len() == 0 {
        None
    } else {
        let prev = best_video(c.drop_last());
        let i = c.len() - 1;
        if c[i].entry_type == EntryType::Video {
            match prev {
                None => Some(i),
                Some(b) => if c[i].info >= c[b].info {
                    Some(i)
                } else {
                    Some(b)
                },
            }
        } else {
            prev
        }
    }
}

pub proof fn lemma_best_video_in_range(c: Seq<DirEntryView>)
    ensures
        best_video(c) matches Some(i) ==> 0 <= i < c.len() && c[i].entry_type == EntryType::Video,
    decreases c.len(),
{
    if c.len() > 0 {
        lemma_best_video_in_range(c.drop_last());
    }
}

/// The entry selected when a listing is shown: the largest video, or else the first
/// entry; nothing in an empty listing.
pub open spec fn autoselect(c: Seq<DirEntryView>) -> Option<Seq<char>> {
    if c.len() == 0 {
        None
    } else {
        match best_video(c) {
            Some(i) => Some(c[i].name),
            None => Some(c[0].name),
        }
    }
}

pub fn get_autoselect(content: &DirContent) -> (r: WithMessages<Option<String>>)
    ensures
        r.inner.deep_view() == autoselect(content.deep_view()),
        r.messages@.len() == 0,
{
    if content.len() == 0 {
        return WithMessages::from_value(None);
    }
    let ghost c = content.deep_view();
    let mut best: Option<usize> = None;
    let mut i: usize = 0;
    while i < content.len()
        invariant
            c == content.deep_view(),
            i <= content.len(),
            match best {
                Some(b) => best_video(c.take(i as int)) == Some(b as int) && b < i,
                None => best_video(c.take(i as int)) is None,
            },
        decreases content.len() - i,
    {
        assert(c.take(i + 1).drop_last() =~= c.take(i as int));
        assert(c.take(i + 1)[i as int] == c[i as int]);
        if content[i].entry_type == EntryType::Video {
            match best {
                None => {
                    best = Some(i);
                },
                Some(b) => {
                    assert(c.take(i + 1)[b as int] == c[b as int]);
                    if content[i].info >= content[b].info {
                        best = Some(i);
                    }
                },
            }
        }
        i = i + 1;
    }
    assert(c.take(content.len() as int) =~= c);
    let chosen = match best {
        Some(b) => content[b].name.clone(),
        None => content[0].name.clone(),
    };
    WithMessages::from_value(Some(chosen))
}

// ---------------------------------------------------------------------------------
// The explorer
// ---------------------------------------------------------------------------------

/// The directories from the root to the current one, each with its listing, and the
/// name selected in the current listing.
#[derive(Debug)]
pub struct FileExplorerState {
    pub tree: Vec<(String, DirContent)>,
    pub selection: Option<String>,
}

pub struct ExplorerView {
    pub tree: Seq<(Seq<char>, Seq<DirEntryView>)>,
    pub selection: Option<Seq<char>>,
}

impl View for FileExplorerState {
    type V = ExplorerView;

    open spec fn view(&self) -> ExplorerView {
        ExplorerView { tree: self.tree.deep_view(), selection: self.selection.deep_view() }
    }
}

/// `i` is the first position of an entry named `n`.
pub open spec fn is_first_named(c: Seq<DirEntryView>, n: Seq<char>, i: int) -> bool {
    &&& 0 <= i < c.len()
    &&& c[i].name == n
    &&& forall|j: int| 0 <= j < i ==> c[j].name != n
}

/// `i` is the last position of an entry named `n`.
pub open spec fn is_last_named(c: Seq<DirEntryView>, n: Seq<char>, i: int) -> bool {
    &&& 0 <= i < c.len()
    &&& c[i].name == n
    &&& forall|j: int| i < j < c.len() ==> c[j].name != n
}

pub open spec fn first_named(c: Seq<DirEntryView>, n: Seq<char>) -> Option<int> {
    if exists|i: int| is_first_named(c, n, i) {
        Some(choose|i: int| is_first_named(c, n, i))
    } else {
        None
    }
}

pub open spec fn last_named(c: Seq<DirEntryView>, n: Seq<char>) -> Option<int> {
    if exists|i: int| is_last_named(c, n, i) {
        Some(choose|i: int| is_last_named(c, n, i))
    } else {
        None
    }
}

pub proof fn lemma_first_named_is(c: Seq<DirEntryView>, n: Seq<char>, i: int)
    requires
        is_first_named(c, n, i),
    ensures
        first_named(c, n) == Some(i),
{
    let k = choose|k: int| is_first_named(c, n, k);
    assert(is_first_named(c, n, k));
    if k < i {
        assert(c[k].name != n);
    } else if i < k {
        assert(c[i].name != n);
    }
}

pub proof fn lemma_last_named_is(c: Seq<DirEntryView>, n: Seq<char>, i: int)
    requires
        is_last_named(c, n, i),
    ensures
        last_named(c, n) == Some(i),
{
    let k = choose|k: int| is_last_named(c, n, k);
    assert(is_last_named(c, n, k));
    if k < i {
        assert(c[i].name != n);
    } else if i < k {
        assert(c[k].name != n);
    }
}

pub open spec fn first_name(c: Seq<DirEntryView>) -> Option<Seq<char>> {
    if c.len() > 0 {
        Some(c[0].name)
    } else {
        None
    }
}

pub open spec fn last_name(c: Seq<DirEntryView>) -> Option<Seq<char>> {
    if c.len() > 0 {
        Some(c.last().name)
    } else {
        None
    }
}

/// The path of the directories of a tree, joined as `Path::join` joins them.
pub open spec fn tree_path(tree: Seq<(Seq<char>, Seq<DirEntryView>)>) -> Seq<char>
    decreases tree.len(),
{
    if tree.len() == 0 {
        Seq::empty()
    } else {
        path_join(tree_path(tree.drop_last()), tree.last().0)
    }
}

impl ExplorerView {
    /// The explorer always has a current directory.
    pub open spec fn wf(self) -> bool {
        self.tree.len() > 0
    }

    pub open spec fn content(self) -> Seq<DirEntryView> {
        self.tree.last().1
    }

    pub open spec fn curr_path(self) -> Seq<char> {
        tree_path(self.tree)
    }

    /// The selected name and the type of the first entry of that name, if there is one.
    pub open spec fn selection_name_type(self) -> Option<(Seq<char>, EntryType)> {
        match self.selection {
            Some(n) => match first_named(self.content(), n) {
                Some(i) => Some((n, self.content()[i].entry_type)),
                None => None,
            },
            None => None,
        }
    }

    /// The selection after moving down: the entry after the first one with the selected
    /// name, wrapping to the first entry; the automatic selection when nothing is selected.
    pub open spec fn next_selection(self) -> Option<Seq<char>> {
        let c = self.content();
        match self.selection {
            None => autoselect(c),
            Some(n) => match first_named(c, n) {
                Some(i) => if i + 1 < c.len() {
                    Some(c[i + 1].name)
                } else {
                    first_name(c)
                },
                None => first_name(c),
            },
        }
    }

    /// The selection after moving up: the entry before the last one with the selected
    /// name, wrapping to the last entry; the automatic selection when nothing is selected.
    pub open spec fn prev_selection(self) -> Option<Seq<char>> {
        let c = self.content();
        match self.selection {
            None => autoselect(c),
            Some(n) => match last_named(c, n) {
                Some(i) => if i >= 1 {
                    Some(c[i - 1].name)
                } else {
                    last_name(c)
                },
                None => last_name(c),
            },
        }
    }

    pub open spec fn with_selection(self, selection: Option<Seq<char>>) -> ExplorerView {
        ExplorerView { tree: self.tree, selection }
    }

    /// The explorer after entering the selected directory, whose listing is `content`.
    pub open spec fn entered(self, content: Seq<DirEntryView>) -> ExplorerView {
        ExplorerView {
            tree: self.tree.push((self.selection_name_type().unwrap().0, content)),
            selection: autoselect(content),
        }
    }

    /// The explorer after going back to the parent, with the left directory selected.
    pub open spec fn exited(self) -> ExplorerView {
        ExplorerView { tree: self.tree.drop_last(), selection: Some(self.tree.last().0) }
    }
}

pub fn find_first_named(c: &DirContent, n: &String) -> (r: Option<usize>)
    ensures
        match r {
            Some(i) => first_named(c.deep_view(), n@) == Some(i as int),
            None => first_named(c.deep_view(), n@) is None,
        },
{
    let mut i: usize = 0;
    while i < c.len()
        invariant
            i <= c.len(),
            forall|j: int| 0 <= j < i ==> c.deep_view()[j].name != n@,
        decreases c.len() - i,
    {
        if c[i].name == *n {
            proof {
                lemma_first_named_is(c.deep_view(), n@, i as int);
            }
            return Some(i);
        }
        i = i + 1;
    }
    None
}

pub fn find_last_named(c: &DirContent, n: &String) -> (r: Option<usize>)
    ensures
        match r {
            Some(i) => last_named(c.deep_view(), n@) == Some(i as int),
            None => last_named(c.deep_view(), n@) is None,
        },
{
    let mut i: usize = c.len();
    while i > 0
        invariant
            i <= c.len(),
            forall|j: int| i <= j < c.len() ==> c.deep_view()[j].name != n@,
        decreases i,
    {
        if c[i - 1].name == *n {
            proof {
                lemma_last_named_is(c.deep_view(), n@, i - 1);
            }
            return Some(i - 1);
        }
        i = i - 1;
    }
    None
}

impl FileExplorerState {
    /// An explorer over `tree` (root first), with the automatic selection of its last
    /// listing. The second value holds the messages of the selection (there are none).
    pub fn new(tree: Vec<(String, DirContent)>) -> (r: (Self, Vec<Message>))
        ensures
            r.0@.tree == tree.deep_view(),
            r.0@.selection == (if tree@.len() > 0 {
                autoselect(tree.deep_view().last().1)
            } else {
                None
            }),
            r.1@.len() == 0,
    {
        let mut warnings = Vec::new();
        let selection = if tree.len() > 0 {
            get_autoselect(&tree[tree.len() - 1].1).append_messages(&mut warnings)
        } else {
            None
        };
        (Self { tree, selection }, warnings)
    }

    /// The path of the current directory.
    pub fn curr_path(&self) -> (r: String)
        ensures
            r@ == self@.curr_path(),
    {
        let mut path = String::new();
        let mut i: usize = 0;
        let ghost t = self@.tree;
        while i < self.tree.len()
            invariant
                t == self@.tree,
                i <= self.tree.len(),
                path@ == tree_path(t.take(i as int)),
            decreases self.tree.len() - i,
        {
            assert(t.take(i + 1).drop_last() =~= t.take(i as int));
            path = join_path(path.as_str(), self.tree[i].0.as_str());
            i = i + 1;
        }
        assert(t.take(i as int) =~= t);
        path
    }

    /// The listing of the current directory.
    pub fn curr_content(&self) -> (r: &DirContent)
        requires
            self@.wf(),
        ensures
            r.deep_view() == self@.content(),
    {
        &self.tree[self.tree.len() - 1].1
    }

    pub fn selection_name_type(&self) -> (r: Option<(String, EntryType)>)
        requires
            self@.wf(),
        ensures
            r.deep_view() == self@.selection_name_type(),
    {
        match &self.selection {
            Some(name) => {
                let content = self.curr_content();
                match find_first_named(content, name) {
                    Some(i) => Some((name.clone(), content[i].entry_type)),
                    None => None,
                }
            },
            None => None,
        }
    }

    /// The path of the directory that `enter_dir` would enter, if the selection is one.
    pub fn dir_to_enter(&self) -> (r: Option<String>)
        requires
            self@.wf(),
        ensures
            match self@.selection_name_type() {
                Some((n, EntryType::Dir)) => r.deep_view() == Some(path_join(self@.curr_path(), n)),
                _ => r is None,
            },
    {
        match self.selection_name_type() {
            Some((name, EntryType::Dir)) => {
                let path = self.curr_path();
                Some(join_path(path.as_str(), name.as_str()))
            },
            _ => None,
        }
    }

    /// Enters the selected directory, given the result of reading it. When the selection
    /// is not a directory, nothing changes and an error is returned.
    pub fn enter_dir(&mut self, read: WithMessages<DirContent>) -> (r: WithMessages<()>)
        requires
            old(self)@.wf(),
        ensures
            match old(self)@.selection_name_type() {
                Some((_, EntryType::Dir)) => {
                    &&& final(self)@ == old(self)@.entered(read.inner.deep_view())
                    &&& r.messages@ == read.messages@
                },
                _ => {
                    &&& final(self)@ == old(self)@
                    &&& r.messages.deep_view() == seq![
                        MessageView {
                            urgency: Urgency::Error,
                            content: "cannot enter current selection as it is not a directory"@,
                        },
                    ]
                },
            },
    {
        match self.selection_name_type() {
            Some((name, EntryType::Dir)) => {
                let (content, mut messages) = read.destructure();
                let ghost old_tree = self@.tree;
                let ghost cv = content.deep_view();
                let ghost nv = name@;
                self.selection = get_autoselect(&content).append_messages(&mut messages);
                self.tree.push((name, content));
                proof {
                    assert(messages@ =~= read.messages@);
                    assert(self@.tree =~= old_tree.push((nv, cv)));
                }
                WithMessages::from_messages(messages)
            },
            _ => {
                let r = WithMessages::from_message(
                    Message::error(
                        String::from_str("cannot enter current selection as it is not a directory"),
                    ),
                );
                assert(r.messages.deep_view() =~= seq![
                    MessageView {
                        urgency: Urgency::Error,
                        content: "cannot enter current selection as it is not a directory"@,
                    },
                ]);
                r
            },
        }
    }

    /// Goes back to the parent directory and selects the one that was left; at the root
    /// nothing changes and a warning is returned.
    pub fn exit_dir(&mut self) -> (r: WithMessages<()>)
        ensures
            old(self)@.tree.len() > 1 ==> final(self)@ == old(self)@.exited() && r.messages@.len() == 0,
            old(self)@.tree.len() <= 1 ==> final(self)@ == old(self)@ && r.messages.deep_view() == seq![
                MessageView {
                    urgency: Urgency::Warning,
                    content: "Could not exit dir: it's the base dir"@,
                },
            ],
    {
        if self.tree.len() > 1 {
            let ghost t = self@.tree;
            match self.tree.pop() {
                Some((name, _)) => {
                    self.selection = Some(name);
                },
                None => {},
            }
            assert(self@.tree =~= t.drop_last());
            WithMessages::default()
        } else {
            let r = WithMessages::from_message(
                Message::warning(String::from_str("Could not exit dir: it's the base dir")),
            );
            assert(r.messages.deep_view() =~= seq![
                MessageView {
                    urgency: Urgency::Warning,
                    content: "Could not exit dir: it's the base dir"@,
                },
            ]);
            r
        }
    }

    /// The name `select_next` moves to.
    pub fn next_selection(&self) -> (r: Option<String>)
        requires
            self@.wf(),
        ensures
            r.deep_view() == self@.next_selection(),
    {
        let content = self.curr_content();
        match &self.selection {
            None => {
                let mut unused = Vec::new();
                get_autoselect(content).append_messages(&mut unused)
            },
            Some(name) => {
                let first = if content.len() > 0 { Some(content[0].name.clone()) } else { None };
                match find_first_named(content, name) {
                    Some(i) => if i + 1 < content.len() {
                        Some(content[i + 1].name.clone())
                    } else {
                        first
                    },
                    None => first,
                }
            },
        }
    }

    /// The name `select_prev` moves to.
    pub fn prev_selection(&self) -> (r: Option<String>)
        requires
            self@.wf(),
        ensures
            r.deep_view() == self@.prev_selection(),
    {
        let content = self.curr_content();
        match &self.selection {
            None => {
                let mut unused = Vec::new();
                get_autoselect(content).append_messages(&mut unused)
            },
            Some(name) => {
                let last = if content.len() > 0 {
                    Some(content[content.len() - 1].name.clone())
                } else {
                    None
                };
                match find_last_named(content, name) {
                    Some(i) => if i >= 1 {
                        Some(content[i - 1].name.clone())
                    } else {
                        last
                    },
                    None => last,
                }
            },
        }
    }

    /// Moves the selection down one entry, wrapping around.
    pub fn select_next(&mut self) -> (r: WithMessages<()>)
        requires
            old(self)@.wf(),
        ensures
            final(self)@ == old(self)@.with_selection(old(self)@.next_selection()),
            r.messages@.len() == 0,
    {
        self.selection = self.next_selection();
        WithMessages::from_messages(Vec::new())
    }

    /// Moves the selection up one entry, wrapping around.
    pub fn select_prev(&mut self) -> (r: WithMessages<()>)
        requires
            old(self)@.wf(),
        ensures
            final(self)@ == old(self)@.with_selection(old(self)@.prev_selection()),
            r.messages@.len() == 0,
    {
        self.selection = self.prev_selection();
        WithMessages::from_messages(Vec::new())
    }
}

/// Going back to the parent after entering a directory restores the explorer as it was.
pub proof fn law_exit_undoes_enter(s: ExplorerView, content: Seq<DirEntryView>)
    requires
        s.wf(),
        s.selection_name_type() matches Some((_, t)) && t == EntryType::Dir,
    ensures
        s.entered(content).tree.len() > 1,
        s.entered(content).exited() == s,
{
    let e = s.entered(content);
    assert(e.tree.drop_last() =~= s.tree);
}

/// Names that occur at most once in a listing.
pub open spec fn distinct_names(c: Seq<DirEntryView>) -> bool {
    forall|i: int, j: int| 0 <= i < c.len() && 0 <= j < c.len() && i != j ==> #[trigger] c[i].name
        != #[trigger] c[j].name
}

/// In a listing whose names are distinct, moving up after moving down returns to the
/// selected entry, and so does moving down after moving up.
pub proof fn law_prev_undoes_next(s: ExplorerView)
    requires
        s.wf(),
        distinct_names(s.content()),
        s.selection matches Some(n) && first_named(s.content(), n) is Some,
    ensures
        s.with_selection(s.next_selection()).prev_selection() == s.selection,
        s.with_selection(s.prev_selection()).next_selection() == s.selection,
{
    let c = s.content();
    let n = s.selection.unwrap();
    let i = first_named(c, n).unwrap();
    let k = choose|k: int| is_first_named(c, n, k);
    assert(is_first_named(c, n, k));
    assert(i == k);
    assert(is_last_named(c, n, i));
    lemma_last_named_is(c, n, i);
    // down, then up
    let nx = if i + 1 < c.len() { i + 1 } else { 0 };
    assert(is_last_named(c, c[nx].name, nx));
    lemma_last_named_is(c, c[nx].name, nx);
    // up, then down
    let pv = if i >= 1 { i - 1 } else { c.len() - 1 };
    assert(is_first_named(c, c[pv].name, pv));
    lemma_first_named_is(c, c[pv].name, pv);
}

/// In a sorted listing every directory comes before every other entry.
pub proof fn law_directories_first(s: Seq<DirEntryView>)
    requires
        sorted_entries(s),
    ensures
        forall|i: int, j: int|
            0 <= i < j < s.len() && #[trigger] s[j].entry_type == EntryType::Dir ==> #[trigger] s[i].entry_type
                == EntryType::Dir,
{
    assert forall|i: int, j: int|
        0 <= i < j < s.len() && #[trigger] s[j].entry_type == EntryType::Dir implies #[trigger] s[i].entry_type
            == EntryType::Dir by {
        assert(!entry_before(s[j], s[i]));
    }
}

/// The automatic selection is the largest video when there is a video, and the first
/// entry otherwise.
pub proof fn law_autoselect_largest_video(c: Seq<DirEntryView>)
    ensures
        best_video(c) matches Some(b) ==> {
            &&& 0 <= b < c.len()
            &&& c[b].entry_type == EntryType::Video
            &&& forall|j: int|
                0 <= j < c.len() && c[j].entry_type == EntryType::Video ==> #[trigger] c[j].info
                    <= c[b].info
            &&& autoselect(c) == Some(c[b].name)
        },
        best_video(c) is None ==> forall|j: int|
            0 <= j < c.len() ==> #[trigger] c[j].entry_type != EntryType::Video,
        best_video(c) is None && c.len() > 0 ==> autoselect(c) == Some(c[0].name),
    decreases c.len(),
{
    lemma_best_video_in_range(c);
    if c.len() > 0 {
        let p = c.drop_last();
        law_autoselect_largest_video(p);
        lemma_best_video_in_range(p);
        assert forall|j: int| 0 <= j < c.len() - 1 implies #[trigger] c[j] == p[j] by {}
    }
}

} // verus!
