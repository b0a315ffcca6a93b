//! The file explorer's state: the folders that were opened as roots, the row
//! that has the keyboard focus, and what each click or key asks for.

use vstd::prelude::*;
use crate::file_tree::{
    flat_views, items_from_listing, listed, entry_views, tree_views, DirEntry, FlatItem,
    FlatItemView, FolderState, FolderStateView, TreeItem, TreeItemView, TreeTask, TreeTaskView,
};
use crate::paths::{paths_equal, same_path};

verus! {

/// The explorer's state.
#[derive(Debug, PartialEq)]
pub struct ExplorerState {
    pub folders: Vec<TreeItem>,
    pub focused_item: usize,
}

/// What the explorer needs from the file system before a task is done.
#[derive(Debug, PartialEq)]
pub enum TaskStep {
    /// List the folder, then report with `ExplorerState::folder_listed`.
    ListFolder { folder_path: String, root_path: String },
    /// Read the file, then open it in a tab.
    ReadFile { file_path: String, root_path: String },
    /// The task needed nothing more and is done.
    Done,
    /// The task names a root folder that the explorer does not hold.
    UnknownRoot,
}

/// Mathematical model of a `TaskStep`.
pub enum TaskStepView {
    ListFolder { folder_path: Seq<char>, root_path: Seq<char> },
    ReadFile { file_path: Seq<char>, root_path: Seq<char> },
    Done,
    UnknownRoot,
}

impl View for TaskStep {
    type V = TaskStepView;

    open spec fn view(&self) -> TaskStepView {
        match self {
            TaskStep::ListFolder { folder_path, root_path } => TaskStepView::ListFolder {
                folder_path: folder_path@,
                root_path: root_path@,
            },
            TaskStep::ReadFile { file_path, root_path } => TaskStepView::ReadFile {
                file_path: file_path@,
                root_path: root_path@,
            },
            TaskStep::Done => TaskStepView::Done,
            TaskStep::UnknownRoot => TaskStepView::UnknownRoot,
        }
    }
}

/// The first index at or after `from` of a root whose path is `root_path`.
pub open spec fn find_root(roots: Seq<TreeItemView>, root_path: Seq<char>, from: nat) -> Option<
    nat,
>
    decreases roots.len() - from,
{
    if from >= roots.len() {
        None
    } else if same_path(roots[from as int].path(), root_path) {
        Some(from)
    } else {
        find_root(roots, root_path, from + 1)
    }
}

/// The roots after the folder at `folder_path`, looked for under the first
/// root whose path is `root_path`, was given `state`. Without such a root
/// nothing changes.
pub open spec fn roots_with_folder_state(
    roots: Seq<TreeItemView>,
    root_path: Seq<char>,
    folder_path: Seq<char>,
    state: FolderStateView,
) -> Seq<TreeItemView> {
    match find_root(roots, root_path, 0) {
        Some(i) => roots.update(i as int, roots[i as int].with_folder_state(folder_path, state)),
        None => roots,
    }
}

/// The rows of the first `n` roots: each root flattened from depth 0, under
/// its own path as root path.
pub open spec fn explorer_rows(roots: Seq<TreeItemView>, n: nat) -> Seq<FlatItemView>
    decreases n,
{
    if n == 0 || n > roots.len() {
        Seq::empty()
    } else {
        explorer_rows(roots, (n - 1) as nat) + roots[n - 1].flat(0, roots[n - 1].path())
    }
}

/// Where the focus goes on ArrowDown, among `rows` rows: one row down,
/// unless it is on the last row or beyond.
pub open spec fn focus_after_down(focused: nat, rows: nat) -> nat {
    if focused + 1 < rows {
        focused + 1
    } else {
        focused
    }
}

/// Where the focus goes on ArrowUp: one row up, unless it is on the first.
pub open spec fn focus_after_up(focused: nat) -> nat {
    if focused > 0 {
        (focused - 1) as nat
    } else {
        focused
    }
}

impl ExplorerState {
    /// The models of the root folders, in order.
    pub open spec fn roots(&self) -> Seq<TreeItemView> {
        tree_views(self.folders@)
    }

    /// Whether every root can be flattened from depth 0 with depths that fit
    /// in `usize`.
    pub open spec fn depths_fit(&self) -> bool {
        forall|i: int| 0 <= i < self.folders.len() ==> self.roots()[i].height() <= usize::MAX
    }

    /// An explorer without folders, the focus on the first row.
    pub fn new() -> (explorer: Self)
        ensures
            explorer.roots() == Seq::<TreeItemView>::empty(),
            explorer.focused_item == 0,
    {
        ExplorerState { folders: Vec::new(), focused_item: 0 }
    }

    /// Adds `folder` as the last root.
    pub fn open_folder(&mut self, folder: TreeItem)
        ensures
            final(self).roots() == old(self).roots().push(folder@),
            final(self).focused_item == old(self).focused_item,
    {
        self.folders.push(folder);
        assert(self.roots() =~= old(self).roots().push(folder@));
    }

    /// Whether every root can be flattened: see `depths_fit`.
    pub fn can_flatten(&self) -> (fits: bool)
        ensures
            fits == self.depths_fit(),
    {
        let mut i: usize = 0;
        while i < self.folders.len()
            invariant
                i <= self.folders.len(),
                forall|j: int| 0 <= j < i ==> self.roots()[j].height() <= usize::MAX,
            decreases self.folders.len() - i,
        {
            assert(self.roots()[i as int] == self.folders[i as int]@);
            if !self.folders[i].fits(0) {
                return false;
            }
            i += 1;
        }
        true
    }

    /// The rows that the explorer shows, top to bottom.
    pub fn items(&self) -> (rows: Vec<FlatItem>)
        requires
            self.depths_fit(),
        ensures
            flat_views(rows@) == explorer_rows(self.roots(), self.folders.len() as nat),
    {
        let mut rows: Vec<FlatItem> = Vec::new();
        let mut i: usize = 0;
        while i < self.folders.len()
            invariant
                i <= self.folders.len(),
                self.depths_fit(),
                flat_views(rows@) == explorer_rows(self.roots(), i as nat),
            decreases self.folders.len() - i,
        {
            let root = &self.folders[i];
            assert(self.roots()[i as int] == root@);
            let mut inner = root.flat(0, root.path());
            let ghost before = rows@;
            let ghost added = inner@;
            rows.append(&mut inner);
            assert(flat_views(rows@) =~= flat_views(before) + flat_views(added));
            i += 1;
        }
        rows
    }

    /// Gives the folder at `folder_path` the state `folder_state`, looking
    /// for it under the first root whose path is `root_path`. Says whether
    /// there is such a root.
    pub fn set_folder_state(
        &mut self,
        root_path: &String,
        folder_path: &String,
        folder_state: &FolderState,
    ) -> (found: bool)
        ensures
            found == find_root(old(self).roots(), root_path@, 0).is_some(),
            final(self).roots() == roots_with_folder_state(
                old(self).roots(),
                root_path@,
                folder_path@,
                folder_state@,
            ),
            final(self).focused_item == old(self).focused_item,
    {
        let mut i: usize = 0;
        while i < self.folders.len()
            invariant
                i <= self.folders.len(),
                *self == *old(self),
                find_root(self.roots(), root_path@, 0) == find_root(
                    self.roots(),
                    root_path@,
                    i as nat,
                ),
            decreases self.folders.len() - i,
        {
            assert(self.roots()[i as int] == self.folders[i as int]@);
            if paths_equal(self.folders[i].path().as_str(), root_path.as_str()) {
                self.folders[i].set_folder_state(folder_path, folder_state);
                assert(self.roots() =~= old(self).roots().update(
                    i as int,
                    old(self).roots()[i as int].with_folder_state(folder_path@, folder_state@),
                ));
                return true;
            }
            i += 1;
        }
        false
    }

    /// Takes up `task`. Closing a folder is done at once. Opening a folder or
    /// a file first needs the file system: the step says what to fetch, and
    /// the explorer stays as it is.
    pub fn begin_task(&mut self, task: &TreeTask) -> (step: TaskStep)
        ensures
            final(self).focused_item == old(self).focused_item,
            match task@ {
                TreeTaskView::OpenFolder { folder_path, root_path } => {
                    &&& step@ == (TaskStepView::ListFolder { folder_path, root_path })
                    &&& final(self).roots() == old(self).roots()
                },
                TreeTaskView::OpenFile { file_path, root_path } => {
                    &&& step@ == (TaskStepView::ReadFile { file_path, root_path })
                    &&& final(self).roots() == old(self).roots()
                },
                TreeTaskView::CloseFolder { folder_path, root_path } => {
                    &&& step@ == if find_root(old(self).roots(), root_path, 0).is_some() {
                        TaskStepView::Done
                    } else {
                        TaskStepView::UnknownRoot
                    }
                    &&& final(self).roots() == roots_with_folder_state(
                        old(self).roots(),
                        root_path,
                        folder_path,
                        FolderStateView::Closed,
                    )
                },
            },
    {
        match task {
            TreeTask::OpenFolder { folder_path, root_path } => TaskStep::ListFolder {
                folder_path: folder_path.clone(),
                root_path: root_path.clone(),
            },
            TreeTask::OpenFile { file_path, root_path } => TaskStep::ReadFile {
                file_path: file_path.clone(),
                root_path: root_path.clone(),
            },
            TreeTask::CloseFolder { folder_path, root_path } => {
                if self.set_folder_state(root_path, folder_path, &FolderState::Closed) {
                    TaskStep::Done
                } else {
                    TaskStep::UnknownRoot
                }
            },
        }
    }

    /// Takes the listing of the folder at `folder_path` and opens that
    /// folder with it: directories first, then files. Says whether the
    /// explorer holds a root whose path is `root_path`.
    pub fn folder_listed(
        &mut self,
        root_path: &String,
        folder_path: &String,
        entries: &Vec<DirEntry>,
    ) -> (found: bool)
        ensures
            found == find_root(old(self).roots(), root_path@, 0).is_some(),
            final(self).roots() == roots_with_folder_state(
                old(self).roots(),
                root_path@,
                folder_path@,
                FolderStateView::Opened(
                    listed(entry_views(entries@), entries.len() as nat, true) + listed(
                        entry_views(entries@),
                        entries.len() as nat,
                        false,
                    ),
                ),
            ),
            final(self).focused_item == old(self).focused_item,
    {
        let state = FolderState::Opened(items_from_listing(entries));
        self.set_folder_state(root_path, folder_path, &state)
    }

    /// Moves the focus to the row at `index`.
    pub fn set_focused_item(&mut self, index: usize)
        ensures
            final(self).focused_item == index,
            final(self).folders == old(self).folders,
    {
        self.focused_item = index;
    }

    /// ArrowDown among `rows` shown rows.
    pub fn focus_down(&mut self, rows: usize)
        requires
            rows > 0,
        ensures
            final(self).focused_item == focus_after_down(old(self).focused_item as nat, rows as nat),
            final(self).folders == old(self).folders,
    {
        if self.focused_item < rows - 1 {
            self.focused_item += 1;
        }
    }

    /// ArrowUp.
    pub fn focus_up(&mut self)
        ensures
            final(self).focused_item == focus_after_up(old(self).focused_item as nat),
            final(self).folders == old(self).folders,
    {
        if self.focused_item > 0 {
            self.focused_item -= 1;
        }
    }
}

} // verus!
