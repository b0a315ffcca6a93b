//! The editor's root state: panels, each with its tabs, the focus among
//! them, and the language-server sessions. Every change to it is a method
//! here, with the state before and after spelled out.

use vstd::prelude::*;
use vstd::string::StringExecFns;
use crate::lsp::{
    bridge_of, with_bridge, with_indexed, LspBridge, LspConfig, LspEntryView, LspSessions, LspStart,
};
use crate::rope::text_len_lines;
use crate::paths::{file_name_of, file_uri_of, opt_text, path_file_name, path_file_uri};
use crate::keys::{lemma_keys_keep_path, repeats_of, scroll_after, Key, KeyOutcome, Modifiers};
use crate::text::{EditorData, EditorDataView, TextCursor};

verus! {

/// The part of the window that has the focus.
#[derive(Clone, Copy, Debug, PartialEq, Eq, Structural)]
pub enum EditorView {
    CodeEditor,
    FilesExplorer,
    Commander,
}

impl Default for EditorView {
    fn default() -> (view: Self)
        ensures
            view == EditorView::CodeEditor,
    {
        EditorView::CodeEditor
    }
}

impl EditorView {
    /// The name of the view as the status line shows it.
    pub fn label(&self) -> (label: String)
        ensures
            label@ == match self {
                EditorView::CodeEditor => "Code Editor"@,
                EditorView::FilesExplorer => "Files Explorer"@,
                EditorView::Commander => "Commander"@,
            },
    {
        match self {
            EditorView::CodeEditor => String::from_str("Code Editor"),
            EditorView::FilesExplorer => String::from_str("Files Explorer"),
            EditorView::Commander => String::from_str("Commander"),
        }
    }
}

/// What a tab bar shows of a tab.
#[derive(Debug, PartialEq, Eq)]
pub struct PanelTabData {
    pub edited: bool,
    pub title: String,
    pub id: String,
}

/// Mathematical model of a `PanelTabData`.
pub struct PanelTabDataView {
    pub edited: bool,
    pub title: Seq<char>,
    pub id: Seq<char>,
}

impl View for PanelTabData {
    type V = PanelTabDataView;

    open spec fn view(&self) -> PanelTabDataView {
        PanelTabDataView { edited: self.edited, title: self.title@, id: self.id@ }
    }
}

/// A tab: an open file or the settings page.
pub enum PanelTab {
    TextEditor(EditorData),
    Config,
}

/// Mathematical model of a `PanelTab`.
pub enum PanelTabView {
    TextEditor(EditorDataView),
    Config,
}

impl View for PanelTab {
    type V = PanelTabView;

    open spec fn view(&self) -> PanelTabView {
        match self {
            PanelTab::TextEditor(editor) => PanelTabView::TextEditor(editor@),
            PanelTab::Config => PanelTabView::Config,
        }
    }
}

impl PanelTabView {
    /// The key by which a tab is found again: the path of the file, or
    /// `config` for the settings page. A panel shows one tab per key.
    pub open spec fn id(self) -> Seq<char> {
        match self {
            PanelTabView::TextEditor(editor) => editor.path,
            PanelTabView::Config => "config"@,
        }
    }

    /// The title of the tab: the file's name, or `Config`. `None` for a
    /// file whose path has no file name.
    pub open spec fn title(self) -> Option<Seq<char>> {
        match self {
            PanelTabView::TextEditor(editor) => path_file_name(editor.path),
            PanelTabView::Config => Some("Config"@),
        }
    }

    /// Whether the cursor of the tab, if it is an open file, is on a line
    /// of the text and not past its end.
    pub open spec fn cursor_in_range(self) -> bool {
        match self {
            PanelTabView::TextEditor(editor) => editor.cursor_in_range(),
            PanelTabView::Config => true,
        }
    }

    /// Whether the tab holds unsaved edits.
    pub open spec fn edited(self) -> bool {
        match self {
            PanelTabView::TextEditor(editor) => editor.edited,
            PanelTabView::Config => false,
        }
    }
}

impl Clone for PanelTab {
    fn clone(&self) -> (copy: Self)
        ensures
            copy@ == self@,
    {
        match self {
            PanelTab::TextEditor(editor) => PanelTab::TextEditor(editor.clone()),
            PanelTab::Config => PanelTab::Config,
        }
    }
}

impl PanelTab {
    /// The tab's key.
    pub fn id(&self) -> (id: String)
        ensures
            id@ == self@.id(),
    {
        match self {
            PanelTab::Config => String::from_str("config"),
            PanelTab::TextEditor(editor) => editor.path().clone(),
        }
    }

    /// What the tab bar shows of the tab.
    pub fn get_data(&self) -> (data: PanelTabData)
        requires
            self@.title() is Some,
        ensures
            data@ == (PanelTabDataView {
                edited: self@.edited(),
                title: self@.title().unwrap(),
                id: self@.id(),
            }),
    {
        match self {
            PanelTab::Config => PanelTabData {
                id: String::from_str("config"),
                title: String::from_str("Config"),
                edited: false,
            },
            PanelTab::TextEditor(editor) => {
                let title = match file_name_of(editor.path().as_str()) {
                    Some(name) => name,
                    None => String::new(),
                };
                PanelTabData { id: editor.path().clone(), title, edited: editor.is_edited() }
            },
        }
    }

    /// What the tab bar shows of the tab, or `None` for a file whose path
    /// has no file name.
    pub fn try_get_data(&self) -> (data: Option<PanelTabData>)
        ensures
            data.is_some() == self@.title().is_some(),
            data matches Some(d) ==> d@ == (PanelTabDataView {
                edited: self@.edited(),
                title: self@.title().unwrap(),
                id: self@.id(),
            }),
    {
        let titled = match self {
            PanelTab::Config => true,
            PanelTab::TextEditor(editor) => file_name_of(editor.path().as_str()).is_some(),
        };
        if titled {
            Some(self.get_data())
        } else {
            None
        }
    }

    /// The buffer of the tab, to change, if the tab is an open file.
    pub fn as_text_editor_mut(&mut self) -> (editor: Option<&mut EditorData>)
        ensures
            match *old(self) {
                PanelTab::TextEditor(data) => editor matches Some(e) && *e == data && *final(self)
                    == PanelTab::TextEditor(*final(e)),
                PanelTab::Config => editor is None && *final(self) == *old(self),
            },
    {
        if let PanelTab::TextEditor(editor_data) = self {
            Some(editor_data)
        } else {
            None
        }
    }

    /// The buffer of the tab, if the tab is an open file.
    pub fn as_text_editor(&self) -> (editor: Option<&EditorData>)
        ensures
            match self {
                PanelTab::TextEditor(data) => editor == Some(data),
                PanelTab::Config => editor is None,
            },
    {
        if let PanelTab::TextEditor(editor_data) = self {
            Some(editor_data)
        } else {
            None
        }
    }
}


/// The models of a sequence of tabs, in order.
pub open spec fn tab_views(tabs: Seq<PanelTab>) -> Seq<PanelTabView> {
    Seq::new(tabs.len(), |i: int| tabs[i]@)
}

/// A panel: its tabs from left to right, and which of them is shown.
pub struct Panel {
    pub active_tab: Option<usize>,
    pub tabs: Vec<PanelTab>,
}

/// Mathematical model of a `Panel`.
pub struct PanelView {
    pub active_tab: Option<usize>,
    pub tabs: Seq<PanelTabView>,
}

impl View for Panel {
    type V = PanelView;

    open spec fn view(&self) -> PanelView {
        PanelView { active_tab: self.active_tab, tabs: tab_views(self.tabs@) }
    }
}

impl PanelView {
    /// Whether no two tabs have the same key.
    pub open spec fn keys_unique(self) -> bool {
        forall|i: int, j: int|
            0 <= i < j < self.tabs.len() ==> (#[trigger] self.tabs[i]).id() != (
            #[trigger] self.tabs[j]).id()
    }

    /// Whether the active tab, if there is one, is a tab of the panel, no
    /// two tabs have the same key, in every open file the cursor is on a
    /// line of the text and not past its end, and the tabs can be counted in
    /// `usize`.
    pub open spec fn wf(self) -> bool {
        &&& self.active_tab matches Some(active) ==> active < self.tabs.len()
        &&& self.keys_unique()
        &&& forall|i: int| 0 <= i < self.tabs.len() ==> (#[trigger] self.tabs[i]).cursor_in_range()
        &&& self.tabs.len() <= usize::MAX
    }

    /// The indices of the tabs whose key is `id`.
    pub open spec fn tabs_with(self, id: Seq<char>) -> Set<int> {
        Set::new(|i: int| 0 <= i < self.tabs.len() && self.tabs[i].id() == id)
    }

    /// The index of the first tab at or after `from` whose key is `id`.
    pub open spec fn find_tab(self, id: Seq<char>, from: nat) -> Option<nat>
        decreases self.tabs.len() - from,
    {
        if from >= self.tabs.len() {
            None
        } else if self.tabs[from as int].id() == id {
            Some(from)
        } else {
            self.find_tab(id, from + 1)
        }
    }

    /// The panel after `tab` was pushed. Where a tab with the same key is
    /// open, no tab is added, and with `focus` that tab becomes the active
    /// one. Otherwise `tab` comes last, and with `focus` it becomes the
    /// active one.
    pub open spec fn push_tab(self, tab: PanelTabView, focus: bool) -> PanelView {
        match self.find_tab(tab.id(), 0) {
            Some(index) => PanelView {
                active_tab: if focus {
                    Some(index as usize)
                } else {
                    self.active_tab
                },
                ..self
            },
            None => PanelView {
                active_tab: if focus {
                    Some(self.tabs.len() as usize)
                } else {
                    self.active_tab
                },
                tabs: self.tabs.push(tab),
            },
        }
    }

    /// The active tab after the tab at `editor` was closed. Where the
    /// closed tab was the active one, the tab that followed it takes its
    /// place, else the tab before it, else none. An active tab behind the
    /// closed one keeps its place in the row, one index down.
    pub open spec fn active_after_close(self, editor: usize) -> Option<usize> {
        match self.active_tab {
            Some(active) => if active == editor {
                if editor + 1 < self.tabs.len() {
                    Some(editor)
                } else if editor > 0 {
                    Some((editor - 1) as usize)
                } else {
                    None
                }
            } else if active > editor {
                Some((active - 1) as usize)
            } else {
                Some(active)
            },
            None => None,
        }
    }

    /// The panel after the tab at `editor` was closed.
    pub open spec fn close_editor(self, editor: usize) -> PanelView {
        PanelView {
            active_tab: self.active_after_close(editor),
            tabs: self.tabs.remove(editor as int),
        }
    }
}

/// What `find_tab` finds: the first tab at or after `from` with the key
/// `id`, or nothing where no tab from there on has that key.
pub proof fn lemma_find_tab(panel: PanelView, id: Seq<char>, from: nat)
    ensures
        match panel.find_tab(id, from) {
            Some(index) => {
                &&& from <= index < panel.tabs.len()
                &&& panel.tabs[index as int].id() == id
                &&& forall|j: int| from <= j < index ==> (#[trigger] panel.tabs[j]).id() != id
            },
            None => forall|j: int| from <= j < panel.tabs.len() ==> (#[trigger] panel.tabs[j]).id() != id,
        },
    decreases panel.tabs.len() - from,
{
    if from < panel.tabs.len() && panel.tabs[from as int].id() != id {
        lemma_find_tab(panel, id, from + 1);
    }
}

/// Pushing a tab keeps a panel valid.
pub proof fn lemma_push_tab_keeps_wf(panel: PanelView, tab: PanelTabView, focus: bool)
    requires
        panel.wf(),
        tab.cursor_in_range(),
        panel.push_tab(tab, focus).tabs.len() <= usize::MAX,
    ensures
        panel.push_tab(tab, focus).wf(),
{
    lemma_find_tab(panel, tab.id(), 0);
}

/// After a push the panel holds the pushed key, and still no key twice.
pub proof fn lemma_push_tab_holds_key_once(panel: PanelView, tab: PanelTabView, focus: bool)
    requires
        panel.keys_unique(),
    ensures
        panel.push_tab(tab, focus).keys_unique(),
        panel.push_tab(tab, focus).find_tab(tab.id(), 0) is Some,
{
    let pushed = panel.push_tab(tab, focus);
    lemma_find_tab(panel, tab.id(), 0);
    lemma_find_tab(pushed, tab.id(), 0);
    if panel.find_tab(tab.id(), 0) is None {
        assert(pushed.tabs[panel.tabs.len() as int].id() == tab.id());
    }
}

/// Pushing is idempotent on the key. After a tab was pushed, the panel
/// holds exactly one tab with its key. Pushing a tab with the same key
/// again adds nothing: without `focus` the panel stays as it is, with
/// `focus` the tab that is there becomes the active one.
pub proof fn lemma_push_tab_twice(
    panel: PanelView,
    first: PanelTabView,
    first_focus: bool,
    second: PanelTabView,
    second_focus: bool,
)
    requires
        panel.wf(),
        second.id() == first.id(),
    ensures
        ({
            let once = panel.push_tab(first, first_focus);
            let twice = once.push_tab(second, second_focus);
            &&& once.find_tab(first.id(), 0) matches Some(index) && once.tabs_with(first.id())
                == set![index as int] && twice.active_tab == if second_focus {
                Some(index as usize)
            } else {
                once.active_tab
            }
            &&& twice.tabs == once.tabs
        }),
{
    let once = panel.push_tab(first, first_focus);
    lemma_push_tab_holds_key_once(panel, first, first_focus);
    lemma_find_tab(once, first.id(), 0);
    let index = once.find_tab(first.id(), 0).unwrap();
    assert(once.tabs_with(first.id()) =~= set![index as int]) by {
        assert forall|i: int| once.tabs_with(first.id()).contains(i) implies i == index by {
            if i < index {
                assert(once.tabs[i].id() != once.tabs[index as int].id());
            } else if i > index {
                assert(once.tabs[index as int].id() != once.tabs[i].id());
            }
        }
    }
}

/// Which tab is shown after the shown tab was closed: the tab that
/// followed it, where there is one; else the tab before it; else none.
pub proof fn lemma_close_active_tab(panel: PanelView, editor: usize)
    requires
        editor < panel.tabs.len(),
        panel.active_tab == Some(editor),
    ensures
        ({
            let closed = panel.close_editor(editor);
            &&& closed.tabs.len() == panel.tabs.len() - 1
            &&& editor + 1 < panel.tabs.len() ==> closed.active_tab == Some(editor)
                && closed.tabs[editor as int] == panel.tabs[editor + 1]
            &&& editor + 1 == panel.tabs.len() && editor > 0 ==> closed.active_tab == Some(
                (editor - 1) as usize,
            ) && closed.tabs[editor - 1] == panel.tabs[editor - 1]
            &&& panel.tabs.len() == 1 ==> closed.active_tab is None && closed.tabs.len() == 0
        }),
{
}

/// A panel that shows a tab goes on showing one for as long as it has
/// tabs: closing a tab leaves no tab shown only where it was the last tab.
pub proof fn lemma_active_tab_is_lost_with_the_last_tab_only(panel: PanelView, editor: usize)
    requires
        panel.wf(),
        editor < panel.tabs.len(),
        panel.active_tab is Some,
    ensures
        panel.close_editor(editor).active_tab is None <==> panel.close_editor(editor).tabs.len() == 0,
{
}

/// Which tab is shown after another tab was closed: the same tab as
/// before, wherever it now stands.
pub proof fn lemma_close_other_tab(panel: PanelView, editor: usize, active: usize)
    requires
        editor < panel.tabs.len(),
        active < panel.tabs.len(),
        active != editor,
        panel.active_tab == Some(active),
    ensures
        panel.close_editor(editor).active_tab matches Some(shown) && shown
            < panel.close_editor(editor).tabs.len() && panel.close_editor(editor).tabs[shown as int]
            == panel.tabs[active as int],
{
}

/// Closing a tab keeps a panel valid.
pub proof fn lemma_close_editor_keeps_wf(panel: PanelView, editor: usize)
    requires
        panel.wf(),
        editor < panel.tabs.len(),
    ensures
        panel.close_editor(editor).wf(),
{
    let closed = panel.close_editor(editor);
    assert forall|i: int, j: int| 0 <= i < j < closed.tabs.len() implies (#[trigger] closed.tabs[i]).id()
        != (#[trigger] closed.tabs[j]).id() by {
        let oi = if i < editor { i } else { i + 1 };
        let oj = if j < editor { j } else { j + 1 };
        assert(closed.tabs[i] == panel.tabs[oi]);
        assert(closed.tabs[j] == panel.tabs[oj]);
    }
}

impl Panel {
    /// A panel without tabs.
    pub fn new() -> (panel: Self)
        ensures
            panel@ == (PanelView { active_tab: None, tabs: Seq::empty() }),
    {
        let panel = Panel { active_tab: None, tabs: Vec::new() };
        assert(panel@.tabs =~= Seq::<PanelTabView>::empty());
        panel
    }

    /// The index of the tab that is shown.
    pub fn active_tab(&self) -> (active: Option<usize>)
        ensures
            active == self@.active_tab,
    {
        self.active_tab
    }

    /// The tab at `editor`.
    pub fn tab(&self, editor: usize) -> (tab: &PanelTab)
        requires
            editor < self.tabs.len(),
        ensures
            *tab == self.tabs[editor as int],
            tab@ == self@.tabs[editor as int],
    {
        &self.tabs[editor]
    }

    /// The tab at `editor`, to change.
    pub fn tab_mut(&mut self, editor: usize) -> (tab: &mut PanelTab)
        requires
            editor < old(self).tabs.len(),
        ensures
            *tab == old(self).tabs[editor as int],
            final(self).tabs@ == old(self).tabs@.update(editor as int, *final(tab)),
            final(self).active_tab == old(self).active_tab,
    {
        &mut self.tabs[editor]
    }

    /// The tabs, from left to right.
    pub fn tabs(&self) -> (tabs: &[PanelTab])
        ensures
            tabs@ == self.tabs@,
    {
        self.tabs.as_slice()
    }

    /// Shows the tab at `active_tab`.
    pub fn set_active_tab(&mut self, active_tab: usize)
        requires
            active_tab < old(self).tabs.len(),
        ensures
            final(self)@ == (PanelView { active_tab: Some(active_tab), ..old(self)@ }),
            old(self)@.wf() ==> final(self)@.wf(),
    {
        self.active_tab = Some(active_tab);
    }

    /// Where the first tab with the key `id` stands.
    fn find_tab(&self, id: &String) -> (index: Option<usize>)
        ensures
            index.is_some() == self@.find_tab(id@, 0).is_some(),
            index matches Some(i) ==> i == self@.find_tab(id@, 0).unwrap() && i < self.tabs.len(),
    {
        let mut i: usize = 0;
        while i < self.tabs.len()
            invariant
                i <= self.tabs.len(),
                self@.find_tab(id@, 0) == self@.find_tab(id@, i as nat),
            decreases self.tabs.len() - i,
        {
            if self.tabs[i].id() == *id {
                return Some(i);
            }
            i += 1;
        }
        None
    }

    /// Pushes `tab`, unless a tab with the same key is open, and with
    /// `focus` shows the tab that has that key.
    pub fn push_tab(&mut self, tab: PanelTab, focus: bool)
        ensures
            final(self)@ == old(self)@.push_tab(tab@, focus),
            old(self)@.wf() ==> final(self)@.wf(),
    {
        proof {
            match &tab {
                PanelTab::TextEditor(editor) => {
                    use_type_invariant(editor);
                },
                PanelTab::Config => {},
            }
        }
        let id = tab.id();
        match self.find_tab(&id) {
            Some(index) => {
                proof {
                    if old(self)@.wf() {
                        lemma_push_tab_keeps_wf(old(self)@, tab@, focus);
                    }
                }
                if focus {
                    self.active_tab = Some(index);
                }
            },
            None => {
                self.tabs.push(tab);
                assert(self@.tabs =~= old(self)@.tabs.push(tab@));
                proof {
                    if old(self)@.wf() {
                        assert(self@.tabs.len() == self.tabs.len());
                        lemma_push_tab_keeps_wf(old(self)@, tab@, focus);
                    }
                }
                if focus {
                    self.active_tab = Some(self.tabs.len() - 1);
                }
            },
        }
    }

    /// Closes the tab at `editor` and settles which tab is shown.
    pub fn close_editor(&mut self, editor: usize)
        requires
            editor < old(self).tabs.len(),
        ensures
            final(self)@ == old(self)@.close_editor(editor),
            old(self)@.wf() ==> final(self)@.wf(),
    {
        proof {
            if old(self)@.wf() {
                lemma_close_editor_keeps_wf(old(self)@, editor);
            }
        }
        if let Some(active_tab) = self.active_tab {
            let prev_editor = editor > 0;
            let next_editor = editor + 1 < self.tabs.len();
            if active_tab == editor {
                self.active_tab = if next_editor {
                    Some(editor)
                } else if prev_editor {
                    Some(editor - 1)
                } else {
                    None
                };
            } else if active_tab >= editor {
                self.active_tab = Some(active_tab - 1);
            }
        }
        self.tabs.remove(editor);
        assert(self@.tabs =~= old(self)@.tabs.remove(editor as int));
    }
}

impl Clone for Panel {
    fn clone(&self) -> (copy: Self)
        ensures
            copy@ == self@,
    {
        let mut tabs: Vec<PanelTab> = Vec::new();
        let mut i: usize = 0;
        while i < self.tabs.len()
            invariant
                i <= self.tabs.len(),
                tabs.len() == i,
                forall|j: int| 0 <= j < i ==> tabs[j]@ == self.tabs[j]@,
            decreases self.tabs.len() - i,
        {
            tabs.push(self.tabs[i].clone());
            i += 1;
        }
        assert(tab_views(tabs@) =~= tab_views(self.tabs@));
        Panel { active_tab: self.active_tab, tabs }
    }
}


/// Why a file was not opened.
#[derive(Clone, Copy, Debug, PartialEq, Eq, Structural)]
pub enum OpenFileError {
    /// The path cannot be written as a `file` URI, so that no language
    /// server could be told about the file.
    NotAUri,
}

/// What opening a file did.
#[derive(Debug, PartialEq, Eq)]
pub struct OpenedFile {
    /// The file's URI.
    pub uri: String,
    /// Whether the file got a new tab. If so, its language server is to be
    /// told that the file was opened. If not, the file was open and its tab
    /// was shown.
    pub first_open: bool,
}

/// The models of a sequence of panels, in order.
pub open spec fn panel_views(panels: Seq<Panel>) -> Seq<PanelView> {
    Seq::new(panels.len(), |i: int| panels[i]@)
}

/// The font size of a new editor, 17.0, as the bits of an `f32`.
pub const DEFAULT_FONT_SIZE_BITS: u32 = 0x4188_0000;

/// The line height of a new editor, 1.2, as the bits of an `f32`.
pub const DEFAULT_LINE_HEIGHT_BITS: u32 = 0x3F99_999A;

/// The editor's root state.
///
/// The font size and the line height are kept as the bits of the `f32`
/// that the presentation layer works with: the state carries them and never
/// reads them.
pub struct EditorManager {
    pub is_focused: bool,
    pub previous_focused_view: Option<EditorView>,
    pub focused_view: EditorView,
    pub focused_panel: usize,
    pub panels: Vec<Panel>,
    pub font_size: u32,
    pub line_height: u32,
    pub language_servers: LspSessions,
}

/// Mathematical model of an `EditorManager`.
pub struct ManagerView {
    pub is_focused: bool,
    pub previous_focused_view: Option<EditorView>,
    pub focused_view: EditorView,
    pub focused_panel: usize,
    pub panels: Seq<PanelView>,
    pub font_size: u32,
    pub line_height: u32,
    pub language_servers: Seq<LspEntryView>,
}

impl View for EditorManager {
    type V = ManagerView;

    open spec fn view(&self) -> ManagerView {
        ManagerView {
            is_focused: self.is_focused,
            previous_focused_view: self.previous_focused_view,
            focused_view: self.focused_view,
            focused_panel: self.focused_panel,
            panels: panel_views(self.panels@),
            font_size: self.font_size,
            line_height: self.line_height,
            language_servers: self.language_servers@,
        }
    }
}

impl ManagerView {
    /// Whether there is a panel, the focused panel is one of them, and in
    /// every panel the active tab is one of its tabs.
    pub open spec fn wf(self) -> bool {
        &&& self.panels.len() > 0
        &&& self.focused_panel < self.panels.len()
        &&& forall|i: int| 0 <= i < self.panels.len() ==> (#[trigger] self.panels[i]).wf()
    }

    /// The state after `tab` was pushed to the panel at `panel`: the panel
    /// takes the tab as `PanelView::push_tab` says, and with `focus` it
    /// becomes the focused panel.
    pub open spec fn push_tab(self, tab: PanelTabView, panel: usize, focus: bool) -> ManagerView {
        ManagerView {
            focused_panel: if focus {
                panel
            } else {
                self.focused_panel
            },
            panels: self.panels.update(panel as int, self.panels[panel as int].push_tab(tab, focus)),
            ..self
        }
    }

    /// The state after the tab at `editor` of the panel at `panel` was
    /// closed.
    pub open spec fn close_editor(self, panel: usize, editor: usize) -> ManagerView {
        ManagerView {
            panels: self.panels.update(
                panel as int,
                self.panels[panel as int].close_editor(editor),
            ),
            ..self
        }
    }

    /// The state after `panel` was added as the last panel.
    pub open spec fn push_panel(self, panel: PanelView) -> ManagerView {
        ManagerView { panels: self.panels.push(panel), ..self }
    }

    /// The state after the panel at `panel` was closed. The only panel is
    /// never closed. Otherwise the panel leaves, and the focus moves one
    /// panel to the left unless it is on the first.
    pub open spec fn close_panel(self, panel: usize) -> ManagerView {
        if self.panels.len() > 1 {
            ManagerView {
                panels: self.panels.remove(panel as int),
                focused_panel: if self.focused_panel > 0 {
                    (self.focused_panel - 1) as usize
                } else {
                    self.focused_panel
                },
                ..self
            }
        } else {
            self
        }
    }

    /// The state after the focus went to the view `focused_view`: the view
    /// that had it is remembered.
    pub open spec fn set_focused_view(self, focused_view: EditorView) -> ManagerView {
        ManagerView {
            previous_focused_view: Some(self.focused_view),
            focused_view,
            ..self
        }
    }

    /// The state after the focus went back to the remembered view, which
    /// is then forgotten. Without a remembered view nothing changes.
    pub open spec fn set_focused_view_to_previous(self) -> ManagerView {
        match self.previous_focused_view {
            Some(previous) => ManagerView {
                focused_view: previous,
                previous_focused_view: None,
                ..self
            },
            None => self,
        }
    }

    /// The state after the tab at `editor` of the panel at `panel` got the
    /// focus.
    pub open spec fn focus_tab(self, panel: usize, editor: usize) -> ManagerView {
        ManagerView {
            focused_panel: panel,
            panels: self.panels.update(
                panel as int,
                PanelView { active_tab: Some(editor), ..self.panels[panel as int] },
            ),
            ..self
        }
    }

    /// The buffer of the tab at `editor` of the panel at `panel`, if there
    /// is such a tab and it is an open file.
    pub open spec fn editor_at(self, panel: usize, editor: usize) -> Option<EditorDataView> {
        if panel < self.panels.len() && editor < self.panels[panel as int].tabs.len() {
            match self.panels[panel as int].tabs[editor as int] {
                PanelTabView::TextEditor(data) => Some(data),
                PanelTabView::Config => None,
            }
        } else {
            None
        }
    }

    /// The state with `data` as the buffer of the tab at `editor` of the
    /// panel at `panel`.
    pub open spec fn with_editor(self, panel: usize, editor: usize, data: EditorDataView) -> ManagerView {
        ManagerView {
            panels: self.panels.update(
                panel as int,
                PanelView {
                    tabs: self.panels[panel as int].tabs.update(
                        editor as int,
                        PanelTabView::TextEditor(data),
                    ),
                    ..self.panels[panel as int]
                },
            ),
            ..self
        }
    }

    /// The state after Escape: the commander comes to the front, or, where
    /// it is in front, gives way to the view before it.
    pub open spec fn toggle_commander(self) -> ManagerView {
        if self.focused_view == EditorView::Commander {
            self.set_focused_view_to_previous()
        } else {
            self.set_focused_view(EditorView::Commander)
        }
    }

    /// The state after the key that switches between the files explorer
    /// and the code editor.
    pub open spec fn toggle_files_explorer(self) -> ManagerView {
        if self.focused_view == EditorView::FilesExplorer {
            self.set_focused_view(EditorView::CodeEditor)
        } else {
            self.set_focused_view(EditorView::FilesExplorer)
        }
    }

    /// The state after a panel was split off: an empty panel comes last,
    /// and the panel that was last before gets the focus.
    pub open spec fn split_panel(self) -> ManagerView {
        ManagerView {
            panels: self.panels.push(PanelView { active_tab: None, tabs: Seq::empty() }),
            focused_panel: (self.panels.len() - 1) as usize,
            ..self
        }
    }

    /// The cursor to show in the status line: that of the tab shown in the
    /// focused panel, if it is an open file.
    pub open spec fn focused_cursor(self) -> Option<TextCursor> {
        if self.focused_panel < self.panels.len() {
            match self.panels[self.focused_panel as int].active_tab {
                Some(active) => match self.editor_at(self.focused_panel, active) {
                    Some(data) => Some(data.cursor),
                    None => None,
                },
                None => None,
            }
        } else {
            None
        }
    }

    /// Whether keys go to the tab at `editor` of the panel at `panel`: the
    /// panel is focused, the code editor is the focused view, and the tab
    /// is the one shown.
    pub open spec fn takes_keys(self, panel: usize, editor: usize) -> bool {
        &&& self.focused_panel == panel
        &&& self.focused_view == EditorView::CodeEditor
        &&& self.panels[panel as int].active_tab == Some(editor)
    }
}

/// The only panel is never closed, and closing a panel of a valid state
/// leaves a valid state: there is always a panel.
pub proof fn lemma_close_panel_keeps_a_panel(manager: ManagerView, panel: usize)
    ensures
        manager.panels.len() == 1 ==> manager.close_panel(panel) == manager,
        manager.wf() && panel < manager.panels.len() ==> manager.close_panel(panel).wf()
            && manager.close_panel(panel).panels.len() > 0,
{
    if manager.wf() && panel < manager.panels.len() && manager.panels.len() > 1 {
        let closed = manager.close_panel(panel);
        assert forall|i: int| 0 <= i < closed.panels.len() implies (#[trigger] closed.panels[i]).wf() by {
            let oi = if i < panel { i } else { i + 1 };
            assert(closed.panels[i] == manager.panels[oi]);
        }
    }
}

/// Pushing is idempotent on the key, in whichever panel: after a tab was
/// pushed to a panel, pushing a tab with the same key to that panel adds no
/// tab anywhere, and with `focus` the panel gets the focus and shows the tab
/// that is there.
pub proof fn lemma_push_tab_is_idempotent(
    manager: ManagerView,
    panel: usize,
    first: PanelTabView,
    first_focus: bool,
    second: PanelTabView,
    second_focus: bool,
)
    requires
        manager.wf(),
        panel < manager.panels.len(),
        second.id() == first.id(),
    ensures
        ({
            let once = manager.push_tab(first, panel, first_focus);
            let twice = once.push_tab(second, panel, second_focus);
            let shown = once.panels[panel as int].find_tab(first.id(), 0);
            &&& shown is Some
            &&& once.panels[panel as int].tabs_with(first.id()) == set![shown.unwrap() as int]
            &&& forall|i: int|
                0 <= i < once.panels.len() ==> (#[trigger] twice.panels[i]).tabs
                    == once.panels[i].tabs
            &&& second_focus ==> twice.focused_panel == panel && twice.panels[panel as int].active_tab
                == Some(shown.unwrap() as usize)
            &&& !second_focus ==> twice == once
        }),
{
    lemma_push_tab_twice(manager.panels[panel as int], first, first_focus, second, second_focus);
    let once = manager.push_tab(first, panel, first_focus);
    let twice = once.push_tab(second, panel, second_focus);
    if !second_focus {
        assert(twice.panels =~= once.panels);
    }
}

impl EditorManager {
    /// A fresh state: one empty panel, focused, the code editor in front.
    pub fn new() -> (manager: Self)
        ensures
            manager@ == (ManagerView {
                is_focused: true,
                previous_focused_view: None,
                focused_view: EditorView::CodeEditor,
                focused_panel: 0,
                panels: seq![PanelView { active_tab: None, tabs: Seq::empty() }],
                font_size: DEFAULT_FONT_SIZE_BITS,
                line_height: DEFAULT_LINE_HEIGHT_BITS,
                language_servers: Seq::empty(),
            }),
            manager@.wf(),
    {
        let mut panels: Vec<Panel> = Vec::new();
        panels.push(Panel::new());
        let manager = EditorManager {
            is_focused: true,
            previous_focused_view: None,
            focused_view: EditorView::CodeEditor,
            focused_panel: 0,
            panels,
            font_size: DEFAULT_FONT_SIZE_BITS,
            line_height: DEFAULT_LINE_HEIGHT_BITS,
            language_servers: LspSessions::new(),
        };
        assert(manager@.panels =~= seq![PanelView { active_tab: None, tabs: Seq::empty() }]);
        manager
    }

    /// Sets the font size, given as the bits of an `f32`. The size is
    /// taken as it comes: bounds are the caller's matter.
    pub fn set_fontsize(&mut self, fontsize: u32)
        ensures
            final(self)@ == (ManagerView { font_size: fontsize, ..old(self)@ }),
    {
        self.font_size = fontsize;
    }

    /// Notes whether the window has the focus.
    pub fn set_focused(&mut self, focused: bool)
        ensures
            final(self)@ == (ManagerView { is_focused: focused, ..old(self)@ }),
    {
        self.is_focused = focused;
    }

    /// Whether the window has the focus.
    pub fn is_focused(&self) -> (focused: bool)
        ensures
            focused == self@.is_focused,
    {
        self.is_focused
    }

    /// Gives the view `focused_view` the focus and remembers the view that had it.
    pub fn set_focused_view(&mut self, focused_view: EditorView)
        ensures
            final(self)@ == old(self)@.set_focused_view(focused_view),
    {
        self.previous_focused_view = Some(self.focused_view);
        self.focused_view = focused_view;
    }

    /// The view that has the focus.
    pub fn focused_view(&self) -> (view: &EditorView)
        ensures
            *view == self@.focused_view,
    {
        &self.focused_view
    }

    /// Gives the focus back to the remembered view, if there is one.
    pub fn set_focused_view_to_previous(&mut self)
        ensures
            final(self)@ == old(self)@.set_focused_view_to_previous(),
    {
        if let Some(previous_focused_view) = self.previous_focused_view {
            self.focused_view = previous_focused_view;
            self.previous_focused_view = None;
        }
    }

    /// The font size, as the bits of an `f32`.
    pub fn font_size(&self) -> (bits: u32)
        ensures
            bits == self@.font_size,
    {
        self.font_size
    }

    /// The line height, as the bits of an `f32`.
    pub fn line_height(&self) -> (bits: u32)
        ensures
            bits == self@.line_height,
    {
        self.line_height
    }

    /// The index of the panel that has the focus.
    pub fn focused_panel(&self) -> (panel: usize)
        ensures
            panel == self@.focused_panel,
    {
        self.focused_panel
    }

    /// Pushes `tab` to the panel at `panel`, unless a tab with the same key
    /// is open there. With `focus` the panel becomes the focused one and
    /// shows the tab that has that key.
    pub fn push_tab(&mut self, tab: PanelTab, panel: usize, focus: bool)
        requires
            panel < old(self).panels.len(),
        ensures
            final(self)@ == old(self)@.push_tab(tab@, panel, focus),
            old(self)@.wf() ==> final(self)@.wf(),
    {
        self.panels[panel].push_tab(tab, focus);
        if focus {
            self.focused_panel = panel;
        }
        assert(self@.panels =~= old(self)@.panels.update(
            panel as int,
            old(self)@.panels[panel as int].push_tab(tab@, focus),
        ));
    }

    /// Closes the tab at `editor` of the panel at `panel`.
    pub fn close_editor(&mut self, panel: usize, editor: usize)
        requires
            panel < old(self).panels.len(),
            editor < old(self).panels[panel as int].tabs.len(),
        ensures
            final(self)@ == old(self)@.close_editor(panel, editor),
            old(self)@.wf() ==> final(self)@.wf(),
    {
        self.panels[panel].close_editor(editor);
        assert(self@.panels =~= old(self)@.panels.update(
            panel as int,
            old(self)@.panels[panel as int].close_editor(editor),
        ));
    }

    /// Adds `panel` as the last panel.
    pub fn push_panel(&mut self, panel: Panel)
        ensures
            final(self)@ == old(self)@.push_panel(panel@),
            old(self)@.wf() && panel@.wf() ==> final(self)@.wf(),
    {
        self.panels.push(panel);
        assert(self@.panels =~= old(self)@.panels.push(panel@));
    }

    /// The panels, from left to right.
    pub fn panels(&self) -> (panels: &[Panel])
        ensures
            panels@ == self.panels@,
    {
        self.panels.as_slice()
    }

    /// The panel at `panel`.
    pub fn panel(&self, panel: usize) -> (found: &Panel)
        requires
            panel < self.panels.len(),
        ensures
            *found == self.panels[panel as int],
            found@ == self@.panels[panel as int],
    {
        &self.panels[panel]
    }

    /// The panel at `panel`, to change.
    pub fn panel_mut(&mut self, panel: usize) -> (found: &mut Panel)
        requires
            panel < old(self).panels.len(),
        ensures
            *found == old(self).panels[panel as int],
            final(self).panels@ == old(self).panels@.update(panel as int, *final(found)),
            final(self).is_focused == old(self).is_focused,
            final(self).previous_focused_view == old(self).previous_focused_view,
            final(self).focused_view == old(self).focused_view,
            final(self).focused_panel == old(self).focused_panel,
            final(self).font_size == old(self).font_size,
            final(self).line_height == old(self).line_height,
            final(self).language_servers == old(self).language_servers,
    {
        &mut self.panels[panel]
    }

    /// Gives the panel at `panel` the focus.
    pub fn set_focused_panel(&mut self, panel: usize)
        requires
            panel < old(self).panels.len(),
        ensures
            final(self)@ == (ManagerView { focused_panel: panel, ..old(self)@ }),
            old(self)@.wf() ==> final(self)@.wf(),
    {
        self.focused_panel = panel;
    }

    /// Closes the panel at `panel`, unless it is the only one.
    pub fn close_panel(&mut self, panel: usize)
        requires
            old(self).panels.len() > 1 ==> panel < old(self).panels.len(),
        ensures
            final(self)@ == old(self)@.close_panel(panel),
            old(self)@.wf() ==> final(self)@.wf(),
    {
        if self.panels.len() > 1 {
            self.panels.remove(panel);
            if self.focused_panel > 0 {
                self.focused_panel -= 1;
            }
            assert(self@.panels =~= old(self)@.panels.remove(panel as int));
        }
    }
}


impl EditorManager {
    /// Gives the tab at `editor` of the panel at `panel` the focus.
    pub fn focus_tab(&mut self, panel: usize, editor: usize)
        requires
            panel < old(self).panels.len(),
            editor < old(self).panels[panel as int].tabs.len(),
        ensures
            final(self)@ == old(self)@.focus_tab(panel, editor),
            old(self)@.wf() ==> final(self)@.wf(),
    {
        self.focused_panel = panel;
        self.panels[panel].set_active_tab(editor);
        assert(self@.panels =~= old(self)@.panels.update(
            panel as int,
            PanelView { active_tab: Some(editor), ..old(self)@.panels[panel as int] },
        ));
    }

    /// Takes a click on the tab at `editor` of the panel at `panel`: the
    /// code editor comes to the front, and the tab gets the focus.
    pub fn click_editor(&mut self, panel: usize, editor: usize)
        requires
            panel < old(self).panels.len(),
            editor < old(self).panels[panel as int].tabs.len(),
        ensures
            final(self)@ == ({
                let fronted = if old(self)@.focused_view == EditorView::CodeEditor {
                    old(self)@
                } else {
                    old(self)@.set_focused_view(EditorView::CodeEditor)
                };
                if fronted.focused_panel == panel && fronted.panels[panel as int].active_tab
                    == Some(editor) {
                    fronted
                } else {
                    fronted.focus_tab(panel, editor)
                }
            }),
            old(self)@.wf() ==> final(self)@.wf(),
    {
        if self.focused_view != EditorView::CodeEditor {
            self.previous_focused_view = Some(self.focused_view);
            self.focused_view = EditorView::CodeEditor;
        }
        let is_editor_focused = self.focused_panel == panel && self.panels[panel].active_tab
            == Some(editor);
        if !is_editor_focused {
            self.focus_tab(panel, editor);
        }
    }

    /// Whether keys go to the tab at `editor` of the panel at `panel`.
    pub fn takes_keys(&self, panel: usize, editor: usize) -> (takes: bool)
        requires
            panel < self.panels.len(),
        ensures
            takes == self@.takes_keys(panel, editor),
    {
        self.focused_panel == panel && self.focused_view == EditorView::CodeEditor
            && self.panels[panel].active_tab == Some(editor)
    }

    /// Takes a key press meant for the tab at `editor` of the panel at
    /// `panel`. The key is applied if that tab takes keys and is an open
    /// file: as often as the modifiers ask for, with the scrolling they
    /// ask for. Otherwise nothing happens and `None` is returned.
    pub fn key_down(
        &mut self,
        panel: usize,
        editor: usize,
        key: Key,
        modifiers: Modifiers,
        scroll: i32,
        lines_jump: i32,
        min_height: i32,
    ) -> (outcome: Option<KeyOutcome>)
        requires
            min_height <= 0,
        ensures
            match old(self)@.editor_at(panel, editor) {
                Some(data) => if old(self)@.takes_keys(panel, editor) {
                    &&& outcome matches Some(done)
                    &&& final(self)@ == old(self)@.with_editor(
                        panel,
                        editor,
                        data.key_repeated(key, repeats_of(key, modifiers)).0,
                    )
                    &&& done.text_changes == data.key_repeated(key, repeats_of(key, modifiers)).1
                    &&& done.scroll == scroll_after(
                        key,
                        modifiers,
                        scroll as int,
                        lines_jump as int,
                        min_height as int,
                    )
                } else {
                    outcome is None && final(self)@ == old(self)@
                },
                None => outcome is None && final(self)@ == old(self)@,
            },
            old(self)@.wf() ==> final(self)@.wf(),
    {
        if panel >= self.panels.len() || editor >= self.panels[panel].tabs.len() {
            return None;
        }
        if !self.takes_keys(panel, editor) {
            return None;
        }
        proof {
            let data = old(self)@.editor_at(panel, editor);
            if data is Some {
                lemma_keys_keep_path(
                    data.unwrap(),
                    Seq::new(repeats_of(key, modifiers), |i: int| key),
                    repeats_of(key, modifiers),
                );
            }
        }
        let outcome = match &mut self.panels[panel].tabs[editor] {
            PanelTab::TextEditor(data) => Some(
                data.key_down(key, modifiers, scroll, lines_jump, min_height),
            ),
            PanelTab::Config => None,
        };
        proof {
            let new_tabs = self.panels[panel as int]@.tabs;
            let old_tabs = old(self)@.panels[panel as int].tabs;
            if outcome is Some {
                assert(new_tabs =~= old_tabs.update(editor as int, new_tabs[editor as int]));
                assert(self@.panels =~= old(self)@.panels.update(
                    panel as int,
                    PanelView { tabs: new_tabs, ..old(self)@.panels[panel as int] },
                ));
            } else {
                assert(new_tabs =~= old_tabs);
                assert(self@.panels =~= old(self)@.panels);
            }
        }
        outcome
    }

    /// Commits the position that was measured for a click in the tab at
    /// `editor` of the panel at `panel`: the cursor goes to line `row`, at
    /// column `col` or at the line's end where `col` lies past it. Says
    /// whether the cursor moved, which is when observers are owed a
    /// notification. `None`, and nothing changes, where there is no such
    /// open file or it has no line `row`.
    pub fn commit_cursor(&mut self, panel: usize, editor: usize, col: usize, row: usize) -> (changed: Option<bool>)
        ensures
            match old(self)@.editor_at(panel, editor) {
                Some(data) => if row < text_len_lines(data.text) {
                    &&& changed == Some(data.with_committed_cursor(col as nat, row as nat).cursor != data.cursor)
                    &&& final(self)@ == old(self)@.with_editor(
                        panel,
                        editor,
                        data.with_committed_cursor(col as nat, row as nat),
                    )
                } else {
                    changed is None && final(self)@ == old(self)@
                },
                None => changed is None && final(self)@ == old(self)@,
            },
            old(self)@.wf() ==> final(self)@.wf(),
    {
        if panel >= self.panels.len() || editor >= self.panels[panel].tabs.len() {
            return None;
        }
        let changed = match &mut self.panels[panel].tabs[editor] {
            PanelTab::TextEditor(data) => data.try_commit_cursor(col, row),
            PanelTab::Config => None,
        };
        proof {
            let new_tabs = self.panels[panel as int]@.tabs;
            let old_tabs = old(self)@.panels[panel as int].tabs;
            if changed is Some {
                assert(new_tabs =~= old_tabs.update(editor as int, new_tabs[editor as int]));
                assert(self@.panels =~= old(self)@.panels.update(
                    panel as int,
                    PanelView { tabs: new_tabs, ..old(self)@.panels[panel as int] },
                ));
            } else {
                assert(new_tabs =~= old_tabs);
                assert(self@.panels =~= old(self)@.panels);
            }
        }
        changed
    }
}


impl EditorManager {
    /// Escape: brings the commander to the front, or sends it away.
    pub fn toggle_commander(&mut self)
        ensures
            final(self)@ == old(self)@.toggle_commander(),
    {
        if self.focused_view == EditorView::Commander {
            self.set_focused_view_to_previous();
        } else {
            self.set_focused_view(EditorView::Commander);
        }
    }

    /// Switches between the files explorer and the code editor.
    pub fn toggle_files_explorer(&mut self)
        ensures
            final(self)@ == old(self)@.toggle_files_explorer(),
    {
        if self.focused_view == EditorView::FilesExplorer {
            self.set_focused_view(EditorView::CodeEditor);
        } else {
            self.set_focused_view(EditorView::FilesExplorer);
        }
    }

    /// A press of the mouse anywhere, or a command handed in: the
    /// commander, where it is in front, gives way to the view before it.
    pub fn dismiss_commander(&mut self)
        ensures
            final(self)@ == if old(self)@.focused_view == EditorView::Commander {
                old(self)@.set_focused_view_to_previous()
            } else {
                old(self)@
            },
    {
        if self.focused_view == EditorView::Commander {
            self.set_focused_view_to_previous();
        }
    }

    /// Brings the files explorer to the front where it is not, as is due
    /// when a task of the explorer is taken up. Says whether it did.
    pub fn focus_files_explorer(&mut self) -> (changed: bool)
        ensures
            changed == (old(self)@.focused_view != EditorView::FilesExplorer),
            final(self)@ == if changed {
                old(self)@.set_focused_view(EditorView::FilesExplorer)
            } else {
                old(self)@
            },
    {
        if self.focused_view != EditorView::FilesExplorer {
            self.set_focused_view(EditorView::FilesExplorer);
            true
        } else {
            false
        }
    }

    /// Splits a panel off: an empty panel comes last, and the panel that
    /// was last before gets the focus.
    pub fn split_panel(&mut self)
        requires
            old(self).panels.len() > 0,
        ensures
            final(self)@ == old(self)@.split_panel(),
            old(self)@.wf() ==> final(self)@.wf(),
    {
        let len_panels = self.panels.len();
        self.panels.push(Panel::new());
        self.focused_panel = len_panels - 1;
        assert(self@.panels =~= old(self)@.panels.push(
            PanelView { active_tab: None, tabs: Seq::empty() },
        ));
    }

    /// Opens the settings page in the focused panel, or shows it there if
    /// it is open.
    pub fn open_settings(&mut self)
        requires
            old(self).focused_panel < old(self).panels.len(),
        ensures
            final(self)@ == old(self)@.push_tab(PanelTabView::Config, old(self).focused_panel, true),
            old(self)@.wf() ==> final(self)@.wf(),
    {
        let focused_panel = self.focused_panel;
        self.push_tab(PanelTab::Config, focused_panel, true);
    }

    /// Opens the file at `path`, whose text is `content`, in the focused
    /// panel, or shows its tab there if the file is open. A path that has
    /// no `file` URI is turned down, and nothing changes.
    pub fn open_file(&mut self, path: String, content: &str) -> (opened: Result<
        OpenedFile,
        OpenFileError,
    >)
        requires
            old(self).focused_panel < old(self).panels.len(),
        ensures
            match path_file_uri(path@) {
                Some(uri) => {
                    &&& opened matches Ok(file)
                    &&& file.uri@ == uri
                    &&& file.first_open == old(self)@.panels[old(self).focused_panel as int].find_tab(
                        path@,
                        0,
                    ).is_none()
                    &&& final(self)@ == old(self)@.push_tab(
                        PanelTabView::TextEditor(
                            EditorDataView {
                                path: path@,
                                text: content@,
                                cursor: TextCursor { row: 0, col: 0 },
                                edited: false,
                            },
                        ),
                        old(self).focused_panel,
                        true,
                    )
                },
                None => opened == Err::<OpenedFile, OpenFileError>(OpenFileError::NotAUri)
                    && final(self)@ == old(self)@,
            },
            old(self)@.wf() ==> final(self)@.wf(),
    {
        let uri = match file_uri_of(path.as_str()) {
            Some(uri) => uri,
            None => {
                return Err(OpenFileError::NotAUri);
            },
        };
        let focused_panel = self.focused_panel;
        let first_open = self.panels[focused_panel].find_tab(&path).is_none();
        self.push_tab(PanelTab::TextEditor(EditorData::from_text(path, content)), focused_panel, true);
        Ok(OpenedFile { uri, first_open })
    }

    /// The cursor to show in the status line.
    pub fn focused_cursor(&self) -> (cursor: Option<TextCursor>)
        ensures
            cursor == self@.focused_cursor(),
    {
        if self.focused_panel >= self.panels.len() {
            return None;
        }
        let panel = &self.panels[self.focused_panel];
        match panel.active_tab {
            Some(active) => if active < panel.tabs.len() {
                match &panel.tabs[active] {
                    PanelTab::TextEditor(data) => Some(*data.cursor()),
                    PanelTab::Config => None,
                }
            } else {
                None
            },
            None => None,
        }
    }

    /// The session that `lsp_config` asks for, if it is registered.
    pub fn lsp(&self, lsp_config: &LspConfig) -> (bridge: Option<LspBridge>)
        ensures
            bridge == bridge_of(self@.language_servers, lsp_config.language_server@),
    {
        self.language_servers.lsp(lsp_config)
    }

    /// Registers `server` under `language_server`, in place of a session
    /// registered there before.
    pub fn insert_lsp(&mut self, language_server: String, server: LspBridge)
        ensures
            final(self)@ == (ManagerView {
                language_servers: with_bridge(
                    old(self)@.language_servers,
                    language_server@,
                    server,
                ),
                ..old(self)@
            }),
    {
        self.language_servers.insert(language_server, server);
    }

    /// The session that `lsp_config` asks for, registered now if it was
    /// not: see `LspSessions::get_or_insert`.
    pub fn get_or_insert_lsp(&mut self, lsp_config: &LspConfig) -> (start: LspStart)
        ensures
            match bridge_of(old(self)@.language_servers, lsp_config.language_server@) {
                Some(bridge) => {
                    &&& start == (LspStart { bridge, created: false })
                    &&& final(self)@ == old(self)@
                },
                None => {
                    &&& start == (LspStart {
                        bridge: LspBridge {
                            session: old(self)@.language_servers.len() as usize,
                            indexed: false,
                        },
                        created: true,
                    })
                    &&& final(self)@ == (ManagerView {
                        language_servers: old(self)@.language_servers.push(
                            LspEntryView {
                                language_server: lsp_config.language_server@,
                                bridge: start.bridge,
                            },
                        ),
                        ..old(self)@
                    })
                },
            },
    {
        self.language_servers.get_or_insert(lsp_config)
    }

    /// Notes whether the server of the session with the number `session`
    /// has finished indexing.
    pub fn set_lsp_indexed(&mut self, session: usize, indexed: bool)
        ensures
            final(self)@ == (ManagerView {
                language_servers: with_indexed(
                    old(self)@.language_servers,
                    session,
                    indexed,
                ),
                ..old(self)@
            }),
    {
        self.language_servers.set_indexed(session, indexed);
    }
}

} // verus!
