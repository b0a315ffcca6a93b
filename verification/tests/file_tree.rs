use editor_core::explorer::{ExplorerState, TaskStep};
use editor_core::file_tree::{items_from_listing, DirEntry, FlatItem, FolderState, TreeItem, TreeTask};

fn folder(path: &str, state: FolderState) -> TreeItem {
    TreeItem::Folder { path: path.to_string(), state }
}

fn file(path: &str) -> TreeItem {
    TreeItem::File { path: path.to_string() }
}

fn row(path: &str, is_file: bool, is_opened: bool, depth: usize, root: &str) -> FlatItem {
    FlatItem {
        path: path.to_string(),
        is_opened,
        is_file,
        depth,
        root_path: root.to_string(),
    }
}

fn entry(path: &str, is_directory: bool) -> DirEntry {
    DirEntry { path: path.to_string(), is_directory }
}

#[test]
fn flat_lists_a_closed_folder_as_one_row() {
    let tree = folder("/proj", FolderState::Closed);
    let rows = tree.flat(0, &"/proj".to_string());
    assert_eq!(rows, vec![row("/proj", false, false, 0, "/proj")]);
}

#[test]
fn flat_lists_a_file_as_one_row() {
    let rows = file("/proj/a.rs").flat(3, &"/proj".to_string());
    assert_eq!(rows, vec![row("/proj/a.rs", true, false, 3, "/proj")]);
}

#[test]
fn flat_lists_children_one_level_deeper() {
    let tree = folder(
        "/proj",
        FolderState::Opened(vec![folder("/proj/src", FolderState::Closed), file("/proj/Cargo.toml")]),
    );
    let rows = tree.flat(0, &"/proj".to_string());
    assert_eq!(
        rows,
        vec![
            row("/proj", false, true, 0, "/proj"),
            row("/proj/src", false, false, 1, "/proj"),
            row("/proj/Cargo.toml", true, false, 1, "/proj"),
        ]
    );
}

#[test]
fn flat_walks_nested_folders_depth_first() {
    let tree = folder(
        "/p",
        FolderState::Opened(vec![
            folder("/p/a", FolderState::Opened(vec![file("/p/a/x"), file("/p/a/y")])),
            folder("/p/b", FolderState::Opened(vec![])),
            file("/p/z"),
        ]),
    );
    let rows = tree.flat(0, &"/p".to_string());
    assert_eq!(
        rows,
        vec![
            row("/p", false, true, 0, "/p"),
            row("/p/a", false, true, 1, "/p"),
            row("/p/a/x", true, false, 2, "/p"),
            row("/p/a/y", true, false, 2, "/p"),
            row("/p/b", false, true, 1, "/p"),
            row("/p/z", true, false, 1, "/p"),
        ]
    );
}

#[test]
fn tree_item_path_is_the_entry_path() {
    assert_eq!(file("/a/b.rs").path(), "/a/b.rs");
    assert_eq!(folder("/a", FolderState::Closed).path(), "/a");
}

#[test]
fn set_folder_state_opens_a_nested_folder() {
    let mut tree = folder(
        "/proj",
        FolderState::Opened(vec![folder("/proj/src", FolderState::Closed), file("/proj/Cargo.toml")]),
    );
    tree.set_folder_state(
        &"/proj/src".to_string(),
        &FolderState::Opened(vec![file("/proj/src/main.rs")]),
    );
    let expected = folder(
        "/proj",
        FolderState::Opened(vec![
            folder("/proj/src", FolderState::Opened(vec![file("/proj/src/main.rs")])),
            file("/proj/Cargo.toml"),
        ]),
    );
    assert_eq!(tree, expected);
}

#[test]
fn set_folder_state_closes_a_folder_again() {
    let mut tree = folder(
        "/proj",
        FolderState::Opened(vec![folder(
            "/proj/src",
            FolderState::Opened(vec![file("/proj/src/main.rs")]),
        )]),
    );
    tree.set_folder_state(&"/proj/src".to_string(), &FolderState::Closed);
    assert_eq!(
        tree,
        folder("/proj", FolderState::Opened(vec![folder("/proj/src", FolderState::Closed)]))
    );
}

#[test]
fn set_folder_state_matches_whole_components_only() {
    // "/proj/srcs" is no child of "/proj/src", though its text begins with it.
    let mut tree = folder(
        "/proj/src",
        FolderState::Opened(vec![folder("/proj/src/a", FolderState::Closed)]),
    );
    let before = tree.clone();
    tree.set_folder_state(&"/proj/srcs/a".to_string(), &FolderState::Opened(vec![]));
    assert_eq!(tree, before);
}

#[test]
fn set_folder_state_takes_paths_that_differ_in_a_trailing_slash_for_equal() {
    let mut tree = folder("/proj/src", FolderState::Closed);
    tree.set_folder_state(&"/proj/src/".to_string(), &FolderState::Opened(vec![]));
    assert_eq!(tree, folder("/proj/src", FolderState::Opened(vec![])));
}

#[test]
fn set_folder_state_does_not_look_into_closed_folders_or_files() {
    let mut tree = folder("/proj", FolderState::Closed);
    tree.set_folder_state(&"/proj/src".to_string(), &FolderState::Opened(vec![]));
    assert_eq!(tree, folder("/proj", FolderState::Closed));

    let mut leaf = file("/proj");
    leaf.set_folder_state(&"/proj".to_string(), &FolderState::Opened(vec![]));
    assert_eq!(leaf, file("/proj"));
}

#[test]
fn listing_puts_directories_before_files_and_keeps_their_order() {
    let items = items_from_listing(&vec![
        entry("/p/b.rs", false),
        entry("/p/src", true),
        entry("/p/a.rs", false),
        entry("/p/docs", true),
    ]);
    assert_eq!(
        items,
        vec![
            folder("/p/src", FolderState::Closed),
            folder("/p/docs", FolderState::Closed),
            file("/p/b.rs"),
            file("/p/a.rs"),
        ]
    );
}

#[test]
fn listing_of_nothing_is_empty() {
    assert_eq!(items_from_listing(&vec![]), Vec::<TreeItem>::new());
}

#[test]
fn click_on_a_file_asks_to_open_it() {
    let task = row("/p/a.rs", true, false, 1, "/p").click_task();
    assert_eq!(
        task,
        TreeTask::OpenFile { file_path: "/p/a.rs".to_string(), root_path: "/p".to_string() }
    );
}

#[test]
fn click_on_a_closed_folder_asks_to_open_it() {
    let task = row("/p/src", false, false, 1, "/p").click_task();
    assert_eq!(
        task,
        TreeTask::OpenFolder { folder_path: "/p/src".to_string(), root_path: "/p".to_string() }
    );
}

#[test]
fn click_on_an_open_folder_asks_to_close_it() {
    let task = row("/p/src", false, true, 1, "/p").click_task();
    assert_eq!(
        task,
        TreeTask::CloseFolder { folder_path: "/p/src".to_string(), root_path: "/p".to_string() }
    );
}

#[test]
fn opening_a_project_and_then_a_folder_in_it() {
    let mut explorer = ExplorerState::new();
    assert!(explorer.items().is_empty());

    // The folder /proj is opened with what its listing returned.
    let listing = vec![entry("/proj/Cargo.toml", false), entry("/proj/src", true)];
    explorer.open_folder(folder("/proj", FolderState::Opened(items_from_listing(&listing))));
    let rows = explorer.items();
    assert_eq!(
        rows,
        vec![
            row("/proj", false, true, 0, "/proj"),
            row("/proj/src", false, false, 1, "/proj"),
            row("/proj/Cargo.toml", true, false, 1, "/proj"),
        ]
    );

    // A click on src asks for the folder to be opened, which needs its listing.
    let task = rows[1].click_task();
    let step = explorer.begin_task(&task);
    assert_eq!(
        step,
        TaskStep::ListFolder { folder_path: "/proj/src".to_string(), root_path: "/proj".to_string() }
    );
    assert_eq!(explorer.items(), rows);

    // The listing comes back: the children show one level below src.
    let found = explorer.folder_listed(
        &"/proj".to_string(),
        &"/proj/src".to_string(),
        &vec![entry("/proj/src/main.rs", false), entry("/proj/src/bin", true)],
    );
    assert!(found);
    explorer.set_focused_item(1);
    assert_eq!(
        explorer.items(),
        vec![
            row("/proj", false, true, 0, "/proj"),
            row("/proj/src", false, true, 1, "/proj"),
            row("/proj/src/bin", false, false, 2, "/proj"),
            row("/proj/src/main.rs", true, false, 2, "/proj"),
            row("/proj/Cargo.toml", true, false, 1, "/proj"),
        ]
    );
    assert_eq!(explorer.focused_item, 1);

    // Another click on src closes it again, at once.
    let task = explorer.items()[1].click_task();
    assert_eq!(explorer.begin_task(&task), TaskStep::Done);
    assert_eq!(explorer.items(), rows);
}

#[test]
fn a_task_for_an_unknown_root_changes_nothing() {
    let mut explorer = ExplorerState::new();
    explorer.open_folder(folder("/a", FolderState::Opened(vec![folder("/a/b", FolderState::Opened(vec![]))])));
    let before = explorer.items();
    let step = explorer.begin_task(&TreeTask::CloseFolder {
        folder_path: "/a/b".to_string(),
        root_path: "/other".to_string(),
    });
    assert_eq!(step, TaskStep::UnknownRoot);
    assert_eq!(explorer.items(), before);
    assert!(!explorer.folder_listed(&"/other".to_string(), &"/a/b".to_string(), &vec![]));
    assert!(!explorer.set_folder_state(&"/other".to_string(), &"/a/b".to_string(), &FolderState::Closed));
}

#[test]
fn a_file_click_asks_for_the_file_to_be_read() {
    let mut explorer = ExplorerState::new();
    let step = explorer.begin_task(&TreeTask::OpenFile {
        file_path: "/a/x.rs".to_string(),
        root_path: "/a".to_string(),
    });
    assert_eq!(
        step,
        TaskStep::ReadFile { file_path: "/a/x.rs".to_string(), root_path: "/a".to_string() }
    );
}

#[test]
fn only_the_first_root_with_the_path_is_changed() {
    let mut explorer = ExplorerState::new();
    explorer.open_folder(folder("/a", FolderState::Opened(vec![folder("/a/b", FolderState::Closed)])));
    explorer.open_folder(folder("/a", FolderState::Opened(vec![folder("/a/b", FolderState::Closed)])));
    assert!(explorer.set_folder_state(&"/a".to_string(), &"/a/b".to_string(), &FolderState::Opened(vec![])));
    assert_eq!(
        explorer.folders,
        vec![
            folder("/a", FolderState::Opened(vec![folder("/a/b", FolderState::Opened(vec![]))])),
            folder("/a", FolderState::Opened(vec![folder("/a/b", FolderState::Closed)])),
        ]
    );
}

#[test]
fn focus_moves_down_and_stops_at_the_last_row() {
    let mut explorer = ExplorerState::new();
    explorer.focus_down(3);
    assert_eq!(explorer.focused_item, 1);
    explorer.focus_down(3);
    assert_eq!(explorer.focused_item, 2);
    explorer.focus_down(3);
    assert_eq!(explorer.focused_item, 2);
    explorer.focus_down(1);
    assert_eq!(explorer.focused_item, 2);
}

#[test]
fn focus_moves_up_and_stops_at_the_first_row() {
    let mut explorer = ExplorerState::new();
    explorer.set_focused_item(2);
    explorer.focus_up();
    assert_eq!(explorer.focused_item, 1);
    explorer.focus_up();
    assert_eq!(explorer.focused_item, 0);
    explorer.focus_up();
    assert_eq!(explorer.focused_item, 0);
}

#[test]
fn depths_fit_unless_the_tree_reaches_past_the_largest_depth() {
    let tree = folder("/p", FolderState::Opened(vec![folder("/p/a", FolderState::Opened(vec![file("/p/a/x")]))]));
    assert!(tree.fits(0));
    assert!(tree.fits(usize::MAX - 2));
    assert!(!tree.fits(usize::MAX - 1));
    assert!(!tree.fits(usize::MAX));
    assert!(file("/x").fits(usize::MAX));
    assert!(folder("/x", FolderState::Closed).fits(usize::MAX));
    let mut explorer = ExplorerState::new();
    assert!(explorer.can_flatten());
    explorer.open_folder(tree);
    assert!(explorer.can_flatten());
}
