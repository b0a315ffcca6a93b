//! The folder tree of the file explorer: which folders are open, and the
//! flat list of rows that the tree is shown as.

use vstd::prelude::*;
use crate::paths::{same_path, path_has_prefix, paths_equal, path_starts_with};

verus! {

/// Whether a folder's children are listed.
#[derive(Debug, PartialEq)]
pub enum FolderState {
    Opened(Vec<TreeItem>),
    Closed,
}

/// One entry of the tree.
#[derive(Debug, PartialEq)]
pub enum TreeItem {
    Folder { path: String, state: FolderState },
    File { path: String },
}

/// One row of the flattened tree.
#[derive(Debug, PartialEq)]
pub struct FlatItem {
    pub path: String,
    pub is_opened: bool,
    pub is_file: bool,
    pub depth: usize,
    pub root_path: String,
}

/// Mathematical model of a `FolderState`.
pub enum FolderStateView {
    Opened(Seq<TreeItemView>),
    Closed,
}

/// Mathematical model of a `TreeItem`.
pub enum TreeItemView {
    Folder { path: Seq<char>, state: FolderStateView },
    File { path: Seq<char> },
}

/// Mathematical model of a `FlatItem`.
pub struct FlatItemView {
    pub path: Seq<char>,
    pub is_opened: bool,
    pub is_file: bool,
    pub depth: nat,
    pub root_path: Seq<char>,
}

/// The models of a sequence of tree items, in order.
pub open spec fn tree_views(items: Seq<TreeItem>) -> Seq<TreeItemView>
    decreases items,
{
    Seq::new(
        items.len(),
        |i: int|
            if 0 <= i < items.len() {
                items[i].view()
            } else {
                arbitrary()
            },
    )
}

/// The models of a sequence of rows, in order.
pub open spec fn flat_views(items: Seq<FlatItem>) -> Seq<FlatItemView> {
    Seq::new(items.len(), |i: int| items[i]@)
}

impl View for FolderState {
    type V = FolderStateView;

    open spec fn view(&self) -> FolderStateView
        decreases self,
    {
        match self {
            FolderState::Opened(items) => FolderStateView::Opened(tree_views(items@)),
            FolderState::Closed => FolderStateView::Closed,
        }
    }
}

impl View for TreeItem {
    type V = TreeItemView;

    open spec fn view(&self) -> TreeItemView
        decreases self,
    {
        match self {
            TreeItem::Folder { path, state } => TreeItemView::Folder {
                path: path@,
                state: state.view(),
            },
            TreeItem::File { path } => TreeItemView::File { path: path@ },
        }
    }
}

impl View for FlatItem {
    type V = FlatItemView;

    open spec fn view(&self) -> FlatItemView {
        FlatItemView {
            path: self.path@,
            is_opened: self.is_opened,
            is_file: self.is_file,
            depth: self.depth as nat,
            root_path: self.root_path@,
        }
    }
}


impl TreeItemView {
    /// The entry's path.
    pub open spec fn path(self) -> Seq<char> {
        match self {
            TreeItemView::Folder { path, .. } => path,
            TreeItemView::File { path } => path,
        }
    }

    /// The row that shows this entry alone, at `depth` under the root
    /// folder `root_path`.
    pub open spec fn row(self, depth: nat, root_path: Seq<char>) -> FlatItemView {
        match self {
            TreeItemView::File { path } => FlatItemView {
                path,
                is_file: true,
                is_opened: false,
                depth,
                root_path,
            },
            TreeItemView::Folder { path, state } => FlatItemView {
                path,
                is_file: false,
                is_opened: state is Opened,
                depth,
                root_path,
            },
        }
    }

    /// How many levels of open folders lie under this entry: 0 for a file
    /// or a closed folder.
    pub open spec fn height(self) -> nat
        decreases self, 0nat,
    {
        match self {
            TreeItemView::Folder { state: FolderStateView::Opened(items), .. } => 1
                + max_height(items, items.len()),
            _ => 0,
        }
    }

    /// The rows of this entry and of everything shown under it: the entry
    /// itself, then, if it is an open folder, the rows of each child in
    /// order, one level deeper.
    pub open spec fn flat(self, depth: nat, root_path: Seq<char>) -> Seq<FlatItemView>
        decreases self, 0nat,
    {
        match self {
            TreeItemView::Folder { state: FolderStateView::Opened(items), .. } => seq![
                self.row(depth, root_path),
            ] + flat_children(items, items.len(), depth + 1, root_path),
            _ => seq![self.row(depth, root_path)],
        }
    }

    /// This entry after the folder at `folder_path` was given the state
    /// `state`. A folder whose path is `folder_path` takes the state. A
    /// folder that `folder_path` lies under hands the change down to each of
    /// its listed children. Every other entry stays as it is.
    pub open spec fn with_folder_state(
        self,
        folder_path: Seq<char>,
        state: FolderStateView,
    ) -> TreeItemView
        decreases self, 0nat,
    {
        match self {
            TreeItemView::Folder { path, state: current } => {
                if same_path(path, folder_path) {
                    TreeItemView::Folder { path, state }
                } else if path_has_prefix(folder_path, path) {
                    match current {
                        FolderStateView::Opened(items) => TreeItemView::Folder {
                            path,
                            state: FolderStateView::Opened(
                                children_with_folder_state(items, folder_path, state),
                            ),
                        },
                        FolderStateView::Closed => self,
                    }
                } else {
                    self
                }
            },
            TreeItemView::File { .. } => self,
        }
    }
}

/// The greatest height among the first `n` of `items`.
pub open spec fn max_height(items: Seq<TreeItemView>, n: nat) -> nat
    decreases items, n,
{
    if n == 0 || n > items.len() {
        0
    } else {
        let rest = max_height(items, (n - 1) as nat);
        let last = items[n - 1].height();
        if last > rest {
            last
        } else {
            rest
        }
    }
}

/// The rows of the first `n` of `items`, each flattened at `depth`.
pub open spec fn flat_children(
    items: Seq<TreeItemView>,
    n: nat,
    depth: nat,
    root_path: Seq<char>,
) -> Seq<FlatItemView>
    decreases items, n,
{
    if n == 0 || n > items.len() {
        Seq::empty()
    } else {
        flat_children(items, (n - 1) as nat, depth, root_path) + items[n - 1].flat(
            depth,
            root_path,
        )
    }
}

/// Each of `items` after the folder at `folder_path` was given `state`.
pub open spec fn children_with_folder_state(
    items: Seq<TreeItemView>,
    folder_path: Seq<char>,
    state: FolderStateView,
) -> Seq<TreeItemView>
    decreases items,
{
    Seq::new(
        items.len(),
        |i: int|
            if 0 <= i < items.len() {
                items[i].with_folder_state(folder_path, state)
            } else {
                arbitrary()
            },
    )
}


impl Clone for FolderState {
    fn clone(&self) -> (copy: Self)
        ensures
            copy@ == self@,
        decreases self,
    {
        match self {
            FolderState::Opened(items) => {
                let mut copies: Vec<TreeItem> = Vec::new();
                let mut i: usize = 0;
                while i < items.len()
                    invariant
                        i <= items.len(),
                        forall|j: int|
                            0 <= j < items.len() ==> decreases_to!(self => #[trigger] items[j]),
                        copies.len() == i,
                        forall|j: int| 0 <= j < i ==> copies[j]@ == items[j]@,
                    decreases items.len() - i,
                {
                    let copy = items[i].clone();
                    copies.push(copy);
                    i += 1;
                }
                assert(tree_views(copies@) =~= tree_views(items@));
                FolderState::Opened(copies)
            },
            FolderState::Closed => FolderState::Closed,
        }
    }
}

impl Clone for FlatItem {
    fn clone(&self) -> (copy: Self)
        ensures
            copy@ == self@,
    {
        FlatItem {
            path: self.path.clone(),
            is_opened: self.is_opened,
            is_file: self.is_file,
            depth: self.depth,
            root_path: self.root_path.clone(),
        }
    }
}

impl Clone for TreeItem {
    fn clone(&self) -> (copy: Self)
        ensures
            copy@ == self@,
        decreases self,
    {
        match self {
            TreeItem::Folder { path, state } => TreeItem::Folder {
                path: path.clone(),
                state: state.clone(),
            },
            TreeItem::File { path } => TreeItem::File { path: path.clone() },
        }
    }
}

impl TreeItem {
    /// The entry's path.
    pub fn path(&self) -> (path: &String)
        ensures
            path@ == self@.path(),
    {
        match self {
            TreeItem::Folder { path, .. } => path,
            TreeItem::File { path } => path,
        }
    }

    /// Gives the folder at `folder_path`, wherever it is listed in or under
    /// this entry, the state `folder_state`.
    pub fn set_folder_state(&mut self, folder_path: &String, folder_state: &FolderState)
        ensures
            final(self)@ == old(self)@.with_folder_state(folder_path@, folder_state@),
        decreases *old(self),
    {
        if let TreeItem::Folder { path, state } = self {
            if paths_equal(path.as_str(), folder_path.as_str()) {
                *state = folder_state.clone();
            } else if path_starts_with(folder_path.as_str(), path.as_str()) {
                if let FolderState::Opened(items) = state {
                    let ghost before = items@;
                    let mut i: usize = 0;
                    while i < items.len()
                        invariant
                            i <= items.len(),
                            items.len() == before.len(),
                            forall|j: int|
                                0 <= j < before.len() ==> decreases_to!(*old(self) => #[trigger] before[j]),
                            forall|j: int|
                                0 <= j < i ==> items[j]@ == before[j]@.with_folder_state(
                                    folder_path@,
                                    folder_state@,
                                ),
                            forall|j: int| i <= j < items.len() ==> items[j] == before[j],
                        decreases items.len() - i,
                    {
                        items[i].set_folder_state(folder_path, folder_state);
                        i += 1;
                    }
                    assert(tree_views(items@) =~= children_with_folder_state(
                        tree_views(before),
                        folder_path@,
                        folder_state@,
                    ));
                }
            }
        }
    }

    /// The row that shows this entry alone.
    fn into_flat(self, depth: usize, root_path: String) -> (row: FlatItem)
        ensures
            row@ == self@.row(depth as nat, root_path@),
    {
        match self {
            TreeItem::File { path } => FlatItem {
                path,
                is_file: true,
                is_opened: false,
                depth,
                root_path,
            },
            TreeItem::Folder { path, state } => {
                let is_opened = match state {
                    FolderState::Opened(_) => true,
                    FolderState::Closed => false,
                };
                FlatItem { path, is_file: false, is_opened, depth, root_path }
            },
        }
    }

    /// Whether the depths of this entry and of everything shown under it
    /// fit in `usize` when this entry stands at `depth`.
    pub fn fits(&self, depth: usize) -> (fits: bool)
        ensures
            fits == (depth + self@.height() <= usize::MAX),
        decreases self,
    {
        if let TreeItem::Folder { state: FolderState::Opened(items), .. } = self {
            if depth == usize::MAX {
                return false;
            }
            let ghost children = tree_views(items@);
            let mut i: usize = 0;
            while i < items.len()
                invariant
                    i <= items.len(),
                    depth < usize::MAX,
                    forall|j: int|
                        0 <= j < items.len() ==> decreases_to!(self => #[trigger] items[j]),
                    children == tree_views(items@),
                    self@.height() == 1 + max_height(children, children.len()),
                    depth + 1 + max_height(children, i as nat) <= usize::MAX,
                decreases items.len() - i,
            {
                assert(children[i as int] == items[i as int]@);
                if !items[i].fits(depth + 1) {
                    proof {
                        lemma_max_height_bounds(children, children.len(), i as int);
                    }
                    return false;
                }
                i += 1;
            }
            true
        } else {
            true
        }
    }

    /// The rows of this entry and of everything shown under it, with this
    /// entry at `depth` and `root_path` noted in every row.
    pub fn flat(&self, depth: usize, root_path: &String) -> (rows: Vec<FlatItem>)
        requires
            depth + self@.height() <= usize::MAX,
        ensures
            flat_views(rows@) == self@.flat(depth as nat, root_path@),
        decreases self,
    {
        let mut rows: Vec<FlatItem> = Vec::new();
        rows.push(self.clone().into_flat(depth, root_path.clone()));
        if let TreeItem::Folder { state: FolderState::Opened(items), .. } = self {
            let ghost children = tree_views(items@);
            let mut i: usize = 0;
            while i < items.len()
                invariant
                    i <= items.len(),
                    forall|j: int| 0 <= j < items.len() ==> decreases_to!(self => #[trigger] items[j]),
                    children == tree_views(items@),
                    depth + 1 + max_height(children, children.len()) <= usize::MAX,
                    flat_views(rows@) == seq![self@.row(depth as nat, root_path@)]
                        + flat_children(children, i as nat, (depth + 1) as nat, root_path@),
                decreases items.len() - i,
            {
                proof {
                    lemma_max_height_bounds(children, children.len(), i as int);
                }
                let mut inner = items[i].flat(depth + 1, root_path);
                let ghost before = rows@;
                let ghost added = inner@;
                rows.append(&mut inner);
                assert(flat_views(rows@) =~= flat_views(before) + flat_views(added));
                i += 1;
            }
        }
        rows
    }
}

/// Each of the first `n` items is no higher than their greatest height.
pub proof fn lemma_max_height_bounds(items: Seq<TreeItemView>, n: nat, i: int)
    requires
        0 <= i < n <= items.len(),
    ensures
        items[i].height() <= max_height(items, n),
    decreases n,
{
    if i < n - 1 {
        lemma_max_height_bounds(items, (n - 1) as nat, i);
    }
}


/// One entry of a directory listing, as the file system reports it.
#[derive(Debug, PartialEq)]
pub struct DirEntry {
    pub path: String,
    pub is_directory: bool,
}

/// Mathematical model of a `DirEntry`.
pub struct DirEntryView {
    pub path: Seq<char>,
    pub is_directory: bool,
}

impl View for DirEntry {
    type V = DirEntryView;

    open spec fn view(&self) -> DirEntryView {
        DirEntryView { path: self.path@, is_directory: self.is_directory }
    }
}

impl DirEntryView {
    /// The tree entry that a freshly listed directory entry becomes: a
    /// closed folder or a file.
    pub open spec fn item(self) -> TreeItemView {
        if self.is_directory {
            TreeItemView::Folder { path: self.path, state: FolderStateView::Closed }
        } else {
            TreeItemView::File { path: self.path }
        }
    }
}

/// The models of a directory listing, in order.
pub open spec fn entry_views(entries: Seq<DirEntry>) -> Seq<DirEntryView> {
    Seq::new(entries.len(), |i: int| entries[i]@)
}

/// The tree entries of those among the first `n` of `entries` that are
/// directories (if `directories`) or are not (otherwise), in listing order.
pub open spec fn listed(entries: Seq<DirEntryView>, n: nat, directories: bool) -> Seq<
    TreeItemView,
>
    decreases n,
{
    if n == 0 || n > entries.len() {
        Seq::empty()
    } else {
        let rest = listed(entries, (n - 1) as nat, directories);
        if entries[n - 1].is_directory == directories {
            rest.push(entries[n - 1].item())
        } else {
            rest
        }
    }
}

/// The children that a directory listing gives a folder: every directory as
/// a closed folder, then every other entry as a file, each group in listing
/// order.
pub fn items_from_listing(entries: &Vec<DirEntry>) -> (items: Vec<TreeItem>)
    ensures
        tree_views(items@) == listed(entry_views(entries@), entries.len() as nat, true) + listed(
            entry_views(entries@),
            entries.len() as nat,
            false,
        ),
{
    let mut folders: Vec<TreeItem> = Vec::new();
    let mut files: Vec<TreeItem> = Vec::new();
    let mut i: usize = 0;
    while i < entries.len()
        invariant
            i <= entries.len(),
            tree_views(folders@) == listed(entry_views(entries@), i as nat, true),
            tree_views(files@) == listed(entry_views(entries@), i as nat, false),
        decreases entries.len() - i,
    {
        let ghost folders_before = folders@;
        let ghost files_before = files@;
        let path = entries[i].path.clone();
        if entries[i].is_directory {
            folders.push(TreeItem::Folder { path, state: FolderState::Closed });
            assert(tree_views(folders@) =~= tree_views(folders_before).push(
                entry_views(entries@)[i as int].item(),
            ));
        } else {
            files.push(TreeItem::File { path });
            assert(tree_views(files@) =~= tree_views(files_before).push(
                entry_views(entries@)[i as int].item(),
            ));
        }
        i += 1;
    }
    let ghost folders_only = folders@;
    let ghost files_only = files@;
    folders.append(&mut files);
    assert(tree_views(folders@) =~= tree_views(folders_only) + tree_views(files_only));
    folders
}


/// What a click on a row of the explorer asks for.
#[derive(Debug, PartialEq)]
pub enum TreeTask {
    OpenFolder { folder_path: String, root_path: String },
    CloseFolder { folder_path: String, root_path: String },
    OpenFile { file_path: String, root_path: String },
}

/// Mathematical model of a `TreeTask`.
pub enum TreeTaskView {
    OpenFolder { folder_path: Seq<char>, root_path: Seq<char> },
    CloseFolder { folder_path: Seq<char>, root_path: Seq<char> },
    OpenFile { file_path: Seq<char>, root_path: Seq<char> },
}

impl View for TreeTask {
    type V = TreeTaskView;

    open spec fn view(&self) -> TreeTaskView {
        match self {
            TreeTask::OpenFolder { folder_path, root_path } => TreeTaskView::OpenFolder {
                folder_path: folder_path@,
                root_path: root_path@,
            },
            TreeTask::CloseFolder { folder_path, root_path } => TreeTaskView::CloseFolder {
                folder_path: folder_path@,
                root_path: root_path@,
            },
            TreeTask::OpenFile { file_path, root_path } => TreeTaskView::OpenFile {
                file_path: file_path@,
                root_path: root_path@,
            },
        }
    }
}

impl FlatItemView {
    /// The task that a click on this row asks for: a file is opened, an open
    /// folder is closed, a closed folder is opened.
    pub open spec fn click_task(self) -> TreeTaskView {
        if self.is_file {
            TreeTaskView::OpenFile { file_path: self.path, root_path: self.root_path }
        } else if self.is_opened {
            TreeTaskView::CloseFolder { folder_path: self.path, root_path: self.root_path }
        } else {
            TreeTaskView::OpenFolder { folder_path: self.path, root_path: self.root_path }
        }
    }
}

impl FlatItem {
    /// The task that a click on this row asks for.
    pub fn click_task(&self) -> (task: TreeTask)
        ensures
            task@ == self@.click_task(),
    {
        if self.is_file {
            TreeTask::OpenFile { file_path: self.path.clone(), root_path: self.root_path.clone() }
        } else if self.is_opened {
            TreeTask::CloseFolder {
                folder_path: self.path.clone(),
                root_path: self.root_path.clone(),
            }
        } else {
            TreeTask::OpenFolder {
                folder_path: self.path.clone(),
                root_path: self.root_path.clone(),
            }
        }
    }
}

} // verus!
