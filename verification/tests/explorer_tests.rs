use movie_mover::explorer::{
    dir_content_from_listing, entry_type_for, extension, find_first_named, find_last_named, get_autoselect,
    name_less, sort_entries, DirContent, DirEntry, EntryType, FileExplorerState, ListingItem, RawDirEntry,
};
use movie_mover::messenger::Urgency;

fn entry(name: &str, entry_type: EntryType, info: u64) -> DirEntry {
    DirEntry { name: name.to_string(), entry_type, info }
}

fn raw(name: &str, is_dir: bool, size: u64) -> ListingItem {
    ListingItem::Entry(RawDirEntry { name: name.to_string(), is_dir, size })
}

fn names(c: &DirContent) -> Vec<String> {
    c.iter().map(|e| e.name.clone()).collect()
}

fn sample_tree() -> Vec<(String, DirContent)> {
    vec![
        ("/".to_string(), vec![entry("media", EntryType::Dir, 0)]),
        (
            "media".to_string(),
            vec![
                entry("movies", EntryType::Dir, 0),
                entry("shows", EntryType::Dir, 0),
                entry("a.mkv", EntryType::Video, 10),
                entry("b.txt", EntryType::Unknown, 99),
            ],
        ),
    ]
}

#[test]
fn name_less_orders_by_code_point() {
    assert!(name_less("a", "b"));
    assert!(name_less("a", "ab"));
    assert!(!name_less("ab", "a"));
    assert!(!name_less("a", "a"));
    assert!(name_less("B", "a"));
    assert!(name_less("z", "é"));
}

#[test]
fn sort_entries_puts_directories_first_then_names() {
    let sorted = sort_entries(vec![
        entry("zeta.mkv", EntryType::Video, 1),
        entry("beta", EntryType::Dir, 0),
        entry("alpha.txt", EntryType::Unknown, 2),
        entry("alpha", EntryType::Dir, 0),
        entry("Zed", EntryType::Unknown, 3),
    ]);
    assert_eq!(names(&sorted), vec!["alpha", "beta", "Zed", "alpha.txt", "zeta.mkv"]);
    assert_eq!(sorted[2].info, 3);
}

#[test]
fn sort_entries_keeps_every_entry() {
    let sorted = sort_entries(vec![
        entry("b", EntryType::Unknown, 1),
        entry("a", EntryType::Unknown, 2),
        entry("b", EntryType::Unknown, 1),
    ]);
    assert_eq!(names(&sorted), vec!["a", "b", "b"]);
    assert!(sort_entries(Vec::new()).is_empty());
}

#[test]
fn extension_is_what_follows_the_last_dot() {
    assert_eq!(extension("movie.mkv"), Some("mkv".to_string()));
    assert_eq!(extension("a.b.mp4"), Some("mp4".to_string()));
    assert_eq!(extension("trailing."), Some(String::new()));
    assert_eq!(extension(".hidden"), None);
    assert_eq!(extension("noext"), None);
    assert_eq!(extension(".."), None);
    assert_eq!(extension(""), None);
}

#[test]
fn entry_type_for_recognises_videos() {
    assert_eq!(entry_type_for("film.mkv", false), EntryType::Video);
    assert_eq!(entry_type_for("film.mp4", false), EntryType::Video);
    assert_eq!(entry_type_for("film.MKV", false), EntryType::Unknown);
    assert_eq!(entry_type_for("film.avi", false), EntryType::Unknown);
    assert_eq!(entry_type_for("film.mkv", true), EntryType::Dir);
    assert_eq!(entry_type_for(".mkv", false), EntryType::Unknown);
}

#[test]
fn failed_read_gives_empty_listing_and_a_warning() {
    let r = dir_content_from_listing(Err("permission denied".to_string()));
    assert!(r.inner.is_empty());
    assert_eq!(r.messages.len(), 1);
    assert_eq!(r.messages[0].urgency, Urgency::Warning);
    assert_eq!(r.messages[0].content, "permission denied");
}

#[test]
fn listing_is_typed_sorted_and_warns_for_failed_items() {
    let r = dir_content_from_listing(Ok(vec![
        raw("z.mkv", false, 500),
        ListingItem::Failure("bad entry".to_string()),
        raw("docs", true, 4096),
        raw("a.txt", false, 7),
        ListingItem::Failure("second".to_string()),
    ]));
    assert_eq!(names(&r.inner), vec!["docs", "a.txt", "z.mkv"]);
    assert_eq!(r.inner[0].entry_type, EntryType::Dir);
    assert_eq!(r.inner[0].info, 0);
    assert_eq!(r.inner[1].entry_type, EntryType::Unknown);
    assert_eq!(r.inner[1].info, 7);
    assert_eq!(r.inner[2].entry_type, EntryType::Video);
    assert_eq!(r.inner[2].info, 500);
    assert_eq!(r.messages.len(), 2);
    assert_eq!(r.messages[0].urgency, Urgency::Warning);
    assert_eq!(r.messages[0].content, "bad entry");
    assert_eq!(r.messages[1].content, "second");
}

#[test]
fn autoselect_picks_the_largest_video() {
    let content = vec![
        entry("dir", EntryType::Dir, 0),
        entry("small.mkv", EntryType::Video, 10),
        entry("big.txt", EntryType::Unknown, 1000),
        entry("large.mp4", EntryType::Video, 500),
        entry("medium.mkv", EntryType::Video, 100),
    ];
    let r = get_autoselect(&content);
    assert_eq!(r.inner, Some("large.mp4".to_string()));
    assert!(r.messages.is_empty());
}

#[test]
fn autoselect_takes_the_last_of_equal_videos() {
    let content = vec![entry("one.mkv", EntryType::Video, 5), entry("two.mkv", EntryType::Video, 5)];
    assert_eq!(get_autoselect(&content).inner, Some("two.mkv".to_string()));
}

#[test]
fn autoselect_without_video_takes_the_first_entry() {
    let content = vec![entry("dir", EntryType::Dir, 0), entry("x.txt", EntryType::Unknown, 5)];
    assert_eq!(get_autoselect(&content).inner, Some("dir".to_string()));
    assert_eq!(get_autoselect(&Vec::new()).inner, None);
}

#[test]
fn find_named_positions() {
    let content = vec![entry("a", EntryType::Dir, 0), entry("b", EntryType::Dir, 0), entry("a", EntryType::Unknown, 1)];
    assert_eq!(find_first_named(&content, &"a".to_string()), Some(0));
    assert_eq!(find_last_named(&content, &"a".to_string()), Some(2));
    assert_eq!(find_first_named(&content, &"c".to_string()), None);
    assert_eq!(find_last_named(&content, &"c".to_string()), None);
}

#[test]
fn explorer_starts_with_the_autoselection() {
    let (fe, messages) = FileExplorerState::new(sample_tree());
    assert!(messages.is_empty());
    assert_eq!(fe.selection, Some("a.mkv".to_string()));
    assert_eq!(fe.curr_path(), "/media");
    assert_eq!(fe.curr_content().len(), 4);
    assert_eq!(fe.selection_name_type(), Some(("a.mkv".to_string(), EntryType::Video)));
    assert_eq!(fe.dir_to_enter(), None);
}

#[test]
fn explorer_selection_wraps_both_ways() {
    let (mut fe, _) = FileExplorerState::new(sample_tree());
    assert_eq!(fe.next_selection(), Some("b.txt".to_string()));
    fe.select_next();
    assert_eq!(fe.selection, Some("b.txt".to_string()));
    fe.select_next();
    assert_eq!(fe.selection, Some("movies".to_string()));
    fe.select_prev();
    assert_eq!(fe.selection, Some("b.txt".to_string()));
    fe.select_prev();
    assert_eq!(fe.selection, Some("a.mkv".to_string()));
}

#[test]
fn explorer_without_selection_moves_to_autoselection() {
    let (mut fe, _) = FileExplorerState::new(sample_tree());
    fe.selection = None;
    let r = fe.select_next();
    assert!(r.messages.is_empty());
    assert_eq!(fe.selection, Some("a.mkv".to_string()));
    fe.selection = Some("gone".to_string());
    fe.select_next();
    assert_eq!(fe.selection, Some("movies".to_string()));
    fe.selection = Some("gone".to_string());
    fe.select_prev();
    assert_eq!(fe.selection, Some("b.txt".to_string()));
    assert_eq!(fe.selection_name_type(), Some(("b.txt".to_string(), EntryType::Unknown)));
}

#[test]
fn entering_a_file_is_an_error() {
    let (mut fe, _) = FileExplorerState::new(sample_tree());
    let read = dir_content_from_listing(Ok(Vec::new()));
    let r = fe.enter_dir(read);
    assert_eq!(r.messages.len(), 1);
    assert_eq!(r.messages[0].urgency, Urgency::Error);
    assert_eq!(r.messages[0].content, "cannot enter current selection as it is not a directory");
    assert_eq!(fe.tree.len(), 2);
    assert_eq!(fe.selection, Some("a.mkv".to_string()));
}

#[test]
fn entering_then_exiting_restores_the_explorer() {
    let (mut fe, _) = FileExplorerState::new(sample_tree());
    fe.selection = Some("movies".to_string());
    assert_eq!(fe.dir_to_enter(), Some("/media/movies".to_string()));
    let read = dir_content_from_listing(Ok(vec![raw("Heat.1995.mkv", false, 3), raw("Up.2009.mp4", false, 9)]));
    let r = fe.enter_dir(read);
    assert!(r.messages.is_empty());
    assert_eq!(fe.tree.len(), 3);
    assert_eq!(fe.curr_path(), "/media/movies");
    assert_eq!(fe.selection, Some("Up.2009.mp4".to_string()));
    let r = fe.exit_dir();
    assert!(r.messages.is_empty());
    assert_eq!(fe.tree.len(), 2);
    assert_eq!(fe.selection, Some("movies".to_string()));
    assert_eq!(fe.curr_path(), "/media");
}

#[test]
fn entering_keeps_the_read_messages() {
    let (mut fe, _) = FileExplorerState::new(sample_tree());
    fe.selection = Some("shows".to_string());
    let read = dir_content_from_listing(Err("unreadable".to_string()));
    let r = fe.enter_dir(read);
    assert_eq!(r.messages.len(), 1);
    assert_eq!(r.messages[0].content, "unreadable");
    assert_eq!(fe.selection, None);
    assert!(fe.curr_content().is_empty());
}

#[test]
fn exiting_the_root_is_a_warning() {
    let (mut fe, _) = FileExplorerState::new(vec![("/".to_string(), vec![entry("media", EntryType::Dir, 0)])]);
    let r = fe.exit_dir();
    assert_eq!(r.messages.len(), 1);
    assert_eq!(r.messages[0].urgency, Urgency::Warning);
    assert_eq!(r.messages[0].content, "Could not exit dir: it's the base dir");
    assert_eq!(fe.tree.len(), 1);
    assert_eq!(fe.curr_path(), "/");
}

#[test]
fn sort_entries_keeps_the_order_of_ties() {
    let sorted = sort_entries(vec![
        entry("b", EntryType::Unknown, 2),
        entry("a", EntryType::Unknown, 9),
        entry("b", EntryType::Video, 1),
        entry("b", EntryType::Unknown, 3),
    ]);
    assert_eq!(names(&sorted), vec!["a", "b", "b", "b"]);
    let infos: Vec<u64> = sorted.iter().map(|e| e.info).collect();
    assert_eq!(infos, vec![9, 2, 1, 3]);
}
