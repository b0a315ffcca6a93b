use editor_core::cursor_sync::CursorReference;
use editor_core::keys::{Key, KeyOutcome, Modifiers};
use editor_core::lsp::{LspBridge, LspConfig, LspStart};
use editor_core::manager::{
    EditorManager, EditorView, OpenFileError, OpenedFile, Panel, PanelTab, PanelTabData,
    DEFAULT_FONT_SIZE_BITS, DEFAULT_LINE_HEIGHT_BITS,
};
use editor_core::text::{EditorData, TextCursor};

const NONE: Modifiers = Modifiers { alt: false, control: false };
const ALT: Modifiers = Modifiers { alt: true, control: false };

fn editor_tab(path: &str) -> PanelTab {
    PanelTab::TextEditor(EditorData::from_text(path.to_string(), "one\ntwo\nthree"))
}

fn ids(manager: &EditorManager, panel: usize) -> Vec<String> {
    manager.panel(panel).tabs().iter().map(|tab| tab.id()).collect()
}

fn manager_with_tabs(paths: &[&str]) -> EditorManager {
    let mut manager = EditorManager::new();
    for path in paths {
        manager.push_tab(editor_tab(path), 0, false);
    }
    manager
}

fn config(server: &str) -> LspConfig {
    LspConfig { root_path: "/proj".to_string(), language_server: server.to_string() }
}

#[test]
fn a_new_manager_has_one_empty_focused_panel() {
    let manager = EditorManager::new();
    assert_eq!(manager.panels().len(), 1);
    assert_eq!(manager.focused_panel(), 0);
    assert_eq!(manager.panel(0).active_tab(), None);
    assert!(manager.panel(0).tabs().is_empty());
    assert_eq!(*manager.focused_view(), EditorView::CodeEditor);
    assert!(manager.is_focused());
    assert_eq!(manager.font_size(), DEFAULT_FONT_SIZE_BITS);
    assert_eq!(manager.line_height(), DEFAULT_LINE_HEIGHT_BITS);
    assert_eq!(f32::from_bits(manager.font_size()), 17.0);
    assert_eq!(f32::from_bits(manager.line_height()), 1.2);
    assert_eq!(manager.focused_cursor(), None);
}

#[test]
fn default_view_is_the_code_editor() {
    assert_eq!(EditorView::default(), EditorView::CodeEditor);
}

#[test]
fn view_labels() {
    assert_eq!(EditorView::CodeEditor.label(), "Code Editor");
    assert_eq!(EditorView::FilesExplorer.label(), "Files Explorer");
    assert_eq!(EditorView::Commander.label(), "Commander");
}

#[test]
fn font_size_is_taken_as_it_comes() {
    let mut manager = EditorManager::new();
    manager.set_fontsize(1000.0f32.to_bits());
    assert_eq!(f32::from_bits(manager.font_size()), 1000.0);
    manager.set_focused(false);
    assert!(!manager.is_focused());
}

#[test]
fn push_tab_appends_without_focus() {
    let mut manager = EditorManager::new();
    manager.push_panel(Panel::new());
    manager.push_tab(editor_tab("/a.rs"), 1, false);
    assert_eq!(ids(&manager, 1), vec!["/a.rs"]);
    assert_eq!(manager.panel(1).active_tab(), None);
    assert_eq!(manager.focused_panel(), 0);
    assert!(manager.panel(0).tabs().is_empty());
}

#[test]
fn push_tab_with_focus_shows_the_tab_and_focuses_the_panel() {
    let mut manager = EditorManager::new();
    manager.push_panel(Panel::new());
    manager.push_tab(editor_tab("/a.rs"), 1, false);
    manager.push_tab(editor_tab("/b.rs"), 1, true);
    assert_eq!(ids(&manager, 1), vec!["/a.rs", "/b.rs"]);
    assert_eq!(manager.panel(1).active_tab(), Some(1));
    assert_eq!(manager.focused_panel(), 1);
}

#[test]
fn pushing_an_open_path_again_adds_no_tab() {
    let mut manager = manager_with_tabs(&["/a.rs", "/b.rs", "/c.rs"]);
    manager.push_tab(editor_tab("/b.rs"), 0, false);
    assert_eq!(ids(&manager, 0), vec!["/a.rs", "/b.rs", "/c.rs"]);
    assert_eq!(manager.panel(0).active_tab(), None);
    manager.push_tab(editor_tab("/b.rs"), 0, true);
    assert_eq!(ids(&manager, 0), vec!["/a.rs", "/b.rs", "/c.rs"]);
    assert_eq!(manager.panel(0).active_tab(), Some(1));
    assert_eq!(ids(&manager, 0).iter().filter(|id| id.as_str() == "/b.rs").count(), 1);
}

#[test]
fn pushing_an_open_path_keeps_the_buffer_that_is_open() {
    let mut manager = manager_with_tabs(&["/a.rs"]);
    manager.focus_tab(0, 0);
    manager.key_down(0, 0, Key::Character('x'), NONE, 0, 0, 0);
    manager.push_tab(editor_tab("/a.rs"), 0, true);
    let editor = manager.panel(0).tab(0).as_text_editor().unwrap();
    assert_eq!(editor.text(), "xone\ntwo\nthree");
}

#[test]
fn the_settings_page_is_opened_once() {
    let mut manager = EditorManager::new();
    manager.open_settings();
    manager.push_tab(editor_tab("/a.rs"), 0, true);
    manager.open_settings();
    assert_eq!(ids(&manager, 0), vec!["config", "/a.rs"]);
    assert_eq!(manager.panel(0).active_tab(), Some(0));
    assert!(manager.panel(0).tab(0).as_text_editor().is_none());
}

#[test]
fn the_same_path_may_be_open_in_two_panels() {
    let mut manager = EditorManager::new();
    manager.push_panel(Panel::new());
    manager.push_tab(editor_tab("/a.rs"), 0, true);
    manager.push_tab(editor_tab("/a.rs"), 1, true);
    assert_eq!(ids(&manager, 0), vec!["/a.rs"]);
    assert_eq!(ids(&manager, 1), vec!["/a.rs"]);
    assert_eq!(manager.focused_panel(), 1);
}

#[test]
fn open_file_makes_a_tab_in_the_focused_panel() {
    let mut manager = EditorManager::new();
    manager.push_panel(Panel::new());
    manager.set_focused_panel(1);
    let opened = manager.open_file("/proj/src/main.rs".to_string(), "fn main() {}\n");
    assert_eq!(
        opened,
        Ok(OpenedFile { uri: "file:///proj/src/main.rs".to_string(), first_open: true })
    );
    assert_eq!(ids(&manager, 1), vec!["/proj/src/main.rs"]);
    assert_eq!(manager.panel(1).active_tab(), Some(0));
    let editor = manager.panel(1).tab(0).as_text_editor().unwrap();
    assert_eq!(editor.text(), "fn main() {}\n");
    assert_eq!(manager.focused_cursor(), Some(TextCursor::new(0, 0)));
}

#[test]
fn opening_an_open_file_again_shows_its_tab() {
    let mut manager = EditorManager::new();
    manager.open_file("/a.rs".to_string(), "a").unwrap();
    manager.open_file("/b c.rs".to_string(), "b").unwrap();
    manager.key_down(0, 1, Key::Character('x'), NONE, 0, 0, 0);
    let again = manager.open_file("/a.rs".to_string(), "changed on disk");
    assert_eq!(again, Ok(OpenedFile { uri: "file:///a.rs".to_string(), first_open: false }));
    assert_eq!(ids(&manager, 0), vec!["/a.rs", "/b c.rs"]);
    assert_eq!(manager.panel(0).active_tab(), Some(0));
    assert_eq!(manager.panel(0).tab(0).as_text_editor().unwrap().text(), "a");
    let spaced = manager.open_file("/b c.rs".to_string(), "");
    assert_eq!(spaced, Ok(OpenedFile { uri: "file:///b%20c.rs".to_string(), first_open: false }));
}

#[test]
fn a_path_that_is_no_uri_is_not_opened() {
    let mut manager = EditorManager::new();
    assert_eq!(
        manager.open_file("relative/main.rs".to_string(), "text"),
        Err(OpenFileError::NotAUri)
    );
    assert_eq!(manager.open_file(String::new(), "text"), Err(OpenFileError::NotAUri));
    assert!(manager.panel(0).tabs().is_empty());
    assert_eq!(manager.panel(0).active_tab(), None);
}

#[test]
fn tab_data_of_a_file_and_of_the_settings_page() {
    let tab = editor_tab("/proj/src/main.rs");
    assert_eq!(
        tab.get_data(),
        PanelTabData {
            edited: false,
            title: "main.rs".to_string(),
            id: "/proj/src/main.rs".to_string()
        }
    );
    assert_eq!(
        PanelTab::Config.get_data(),
        PanelTabData { edited: false, title: "Config".to_string(), id: "config".to_string() }
    );
    assert_eq!(PanelTab::Config.try_get_data(), Some(PanelTab::Config.get_data()));
    assert_eq!(tab.try_get_data(), Some(tab.get_data()));
}

#[test]
fn tab_data_marks_an_edited_file() {
    let mut tab = editor_tab("/proj/lib.rs");
    tab.as_text_editor_mut().unwrap().insert_char('x', 0);
    assert!(tab.get_data().edited);
    assert!(PanelTab::Config.clone().as_text_editor_mut().is_none());
}

#[test]
fn a_path_without_a_file_name_has_no_tab_data() {
    assert_eq!(editor_tab("/").try_get_data(), None);
    assert_eq!(editor_tab("/proj/..").try_get_data(), None);
    assert_eq!(editor_tab("/").id(), "/");
}

#[test]
fn closing_the_active_tab_shows_the_following_tab() {
    let mut manager = manager_with_tabs(&["/a", "/b", "/c"]);
    manager.focus_tab(0, 1);
    manager.close_editor(0, 1);
    assert_eq!(ids(&manager, 0), vec!["/a", "/c"]);
    assert_eq!(manager.panel(0).active_tab(), Some(1));
    assert_eq!(manager.panel(0).tab(1).id(), "/c");
}

#[test]
fn closing_the_active_last_tab_shows_the_tab_before() {
    let mut manager = manager_with_tabs(&["/a", "/b", "/c"]);
    manager.focus_tab(0, 2);
    manager.close_editor(0, 2);
    assert_eq!(ids(&manager, 0), vec!["/a", "/b"]);
    assert_eq!(manager.panel(0).active_tab(), Some(1));
}

#[test]
fn closing_the_only_tab_leaves_no_active_tab() {
    let mut manager = manager_with_tabs(&["/a"]);
    manager.focus_tab(0, 0);
    manager.close_editor(0, 0);
    assert!(ids(&manager, 0).is_empty());
    assert_eq!(manager.panel(0).active_tab(), None);
}

#[test]
fn closing_a_tab_before_the_active_one_moves_its_index_down() {
    let mut manager = manager_with_tabs(&["/a", "/b", "/c"]);
    manager.focus_tab(0, 2);
    manager.close_editor(0, 0);
    assert_eq!(manager.panel(0).active_tab(), Some(1));
    assert_eq!(manager.panel(0).tab(1).id(), "/c");
}

#[test]
fn closing_a_tab_behind_the_active_one_leaves_its_index() {
    let mut manager = manager_with_tabs(&["/a", "/b", "/c"]);
    manager.focus_tab(0, 0);
    manager.close_editor(0, 2);
    assert_eq!(manager.panel(0).active_tab(), Some(0));
    assert_eq!(ids(&manager, 0), vec!["/a", "/b"]);
}

#[test]
fn closing_a_tab_without_an_active_tab_just_removes_it() {
    let mut manager = manager_with_tabs(&["/a", "/b"]);
    manager.close_editor(0, 0);
    assert_eq!(manager.panel(0).active_tab(), None);
    assert_eq!(ids(&manager, 0), vec!["/b"]);
}

#[test]
fn the_only_panel_is_never_closed() {
    let mut manager = manager_with_tabs(&["/a"]);
    manager.close_panel(0);
    assert_eq!(manager.panels().len(), 1);
    assert_eq!(ids(&manager, 0), vec!["/a"]);
    manager.close_panel(7);
    assert_eq!(manager.panels().len(), 1);
    assert_eq!(manager.focused_panel(), 0);
}

#[test]
fn closing_a_panel_moves_the_focus_one_to_the_left() {
    let mut manager = EditorManager::new();
    manager.push_panel(Panel::new());
    manager.push_panel(Panel::new());
    manager.push_tab(editor_tab("/x"), 1, false);
    manager.set_focused_panel(2);
    manager.close_panel(0);
    assert_eq!(manager.panels().len(), 2);
    assert_eq!(manager.focused_panel(), 1);
    assert_eq!(ids(&manager, 0), vec!["/x"]);
    manager.close_panel(1);
    assert_eq!(manager.panels().len(), 1);
    assert_eq!(manager.focused_panel(), 0);
}

#[test]
fn closing_a_panel_with_the_focus_on_the_first_keeps_it_there() {
    let mut manager = EditorManager::new();
    manager.push_panel(Panel::new());
    manager.close_panel(1);
    assert_eq!(manager.panels().len(), 1);
    assert_eq!(manager.focused_panel(), 0);
}

#[test]
fn splitting_adds_a_panel_and_focuses_the_one_that_was_last() {
    let mut manager = EditorManager::new();
    manager.split_panel();
    assert_eq!(manager.panels().len(), 2);
    assert_eq!(manager.focused_panel(), 0);
    manager.split_panel();
    assert_eq!(manager.panels().len(), 3);
    assert_eq!(manager.focused_panel(), 1);
}

#[test]
fn panel_accessors() {
    let mut panel = Panel::new();
    panel.push_tab(editor_tab("/a"), false);
    panel.push_tab(PanelTab::Config, false);
    panel.set_active_tab(1);
    assert_eq!(panel.active_tab(), Some(1));
    assert_eq!(panel.tabs().len(), 2);
    assert_eq!(panel.tab(0).id(), "/a");
    *panel.tab_mut(1) = editor_tab("/b");
    assert_eq!(panel.tab(1).id(), "/b");
    let copy = panel.clone();
    panel.close_editor(0);
    assert_eq!(copy.tabs().len(), 2);
    assert_eq!(copy.active_tab(), Some(1));
    assert_eq!(panel.active_tab(), Some(0));

    let mut manager = EditorManager::new();
    manager.panel_mut(0).push_tab(PanelTab::Config, true);
    assert_eq!(manager.panel(0).active_tab(), Some(0));
}

#[test]
fn escape_toggles_the_commander() {
    let mut manager = EditorManager::new();
    manager.set_focused_view(EditorView::FilesExplorer);
    manager.toggle_commander();
    assert_eq!(*manager.focused_view(), EditorView::Commander);
    manager.toggle_commander();
    assert_eq!(*manager.focused_view(), EditorView::FilesExplorer);
    assert_eq!(manager.previous_focused_view, None);
}

#[test]
fn going_back_without_a_previous_view_changes_nothing() {
    let mut manager = EditorManager::new();
    manager.set_focused_view_to_previous();
    assert_eq!(*manager.focused_view(), EditorView::CodeEditor);
    manager.set_focused_view(EditorView::Commander);
    assert_eq!(manager.previous_focused_view, Some(EditorView::CodeEditor));
    manager.set_focused_view_to_previous();
    manager.set_focused_view_to_previous();
    assert_eq!(*manager.focused_view(), EditorView::CodeEditor);
}

#[test]
fn the_explorer_key_switches_between_explorer_and_editor() {
    let mut manager = EditorManager::new();
    manager.toggle_files_explorer();
    assert_eq!(*manager.focused_view(), EditorView::FilesExplorer);
    manager.toggle_files_explorer();
    assert_eq!(*manager.focused_view(), EditorView::CodeEditor);
    manager.set_focused_view(EditorView::Commander);
    manager.toggle_files_explorer();
    assert_eq!(*manager.focused_view(), EditorView::FilesExplorer);
}

#[test]
fn a_mouse_press_sends_the_commander_away() {
    let mut manager = EditorManager::new();
    manager.dismiss_commander();
    assert_eq!(*manager.focused_view(), EditorView::CodeEditor);
    assert_eq!(manager.previous_focused_view, None);
    manager.set_focused_view(EditorView::Commander);
    manager.dismiss_commander();
    assert_eq!(*manager.focused_view(), EditorView::CodeEditor);
}

#[test]
fn a_tree_task_brings_the_explorer_to_the_front() {
    let mut manager = EditorManager::new();
    assert!(manager.focus_files_explorer());
    assert_eq!(*manager.focused_view(), EditorView::FilesExplorer);
    assert_eq!(manager.previous_focused_view, Some(EditorView::CodeEditor));
    assert!(!manager.focus_files_explorer());
    assert_eq!(manager.previous_focused_view, Some(EditorView::CodeEditor));
}

#[test]
fn a_click_on_an_editor_fronts_the_code_editor_and_focuses_the_tab() {
    let mut manager = manager_with_tabs(&["/a", "/b"]);
    manager.push_panel(Panel::new());
    manager.push_tab(editor_tab("/c"), 1, true);
    manager.set_focused_view(EditorView::FilesExplorer);
    manager.click_editor(0, 1);
    assert_eq!(*manager.focused_view(), EditorView::CodeEditor);
    assert_eq!(manager.previous_focused_view, Some(EditorView::FilesExplorer));
    assert_eq!(manager.focused_panel(), 0);
    assert_eq!(manager.panel(0).active_tab(), Some(1));
    manager.click_editor(0, 1);
    assert_eq!(manager.previous_focused_view, Some(EditorView::FilesExplorer));
}

#[test]
fn keys_go_to_the_shown_tab_of_the_focused_panel_only() {
    let mut manager = manager_with_tabs(&["/a", "/b"]);
    manager.focus_tab(0, 1);
    assert!(manager.takes_keys(0, 1));
    assert!(!manager.takes_keys(0, 0));
    assert_eq!(manager.key_down(0, 0, Key::Character('x'), NONE, 0, 10, -100), None);
    assert_eq!(
        manager.key_down(0, 1, Key::Character('x'), NONE, -3, 10, -100),
        Some(KeyOutcome { text_changes: 1, scroll: -3 })
    );
    assert_eq!(manager.panel(0).tab(0).as_text_editor().unwrap().text(), "one\ntwo\nthree");
    assert_eq!(manager.panel(0).tab(1).as_text_editor().unwrap().text(), "xone\ntwo\nthree");
    assert_eq!(manager.focused_cursor(), Some(TextCursor::new(0, 1)));
}

#[test]
fn keys_are_dropped_while_another_view_is_in_front() {
    let mut manager = manager_with_tabs(&["/a"]);
    manager.focus_tab(0, 0);
    manager.set_focused_view(EditorView::Commander);
    assert_eq!(manager.key_down(0, 0, Key::Character('x'), NONE, 0, 10, -100), None);
    assert_eq!(manager.panel(0).tab(0).as_text_editor().unwrap().text(), "one\ntwo\nthree");
}

#[test]
fn keys_for_a_tab_that_is_not_there_or_no_file_are_dropped() {
    let mut manager = EditorManager::new();
    manager.open_settings();
    assert_eq!(manager.key_down(0, 0, Key::Character('x'), NONE, 0, 10, -100), None);
    assert_eq!(manager.key_down(0, 5, Key::Character('x'), NONE, 0, 10, -100), None);
    assert_eq!(manager.key_down(3, 0, Key::Character('x'), NONE, 0, 10, -100), None);
}

#[test]
fn alt_arrow_down_through_the_manager() {
    let mut manager = manager_with_tabs(&["/a"]);
    manager.focus_tab(0, 0);
    assert_eq!(
        manager.key_down(0, 0, Key::ArrowDown, ALT, 0, 100, -60),
        Some(KeyOutcome { text_changes: 0, scroll: -60 })
    );
    assert_eq!(manager.focused_cursor(), Some(TextCursor::new(2, 0)));
}

#[test]
fn commit_cursor_through_the_manager() {
    let mut manager = manager_with_tabs(&["/a"]);
    assert_eq!(manager.commit_cursor(0, 0, 99, 1), Some(true));
    assert_eq!(
        *manager.panel(0).tab(0).as_text_editor().unwrap().cursor(),
        TextCursor::new(1, 4)
    );
    assert_eq!(manager.commit_cursor(0, 0, 4, 1), Some(false));
    assert_eq!(manager.commit_cursor(0, 0, 0, 3), None);
    assert_eq!(manager.commit_cursor(0, 1, 0, 0), None);
    assert_eq!(manager.commit_cursor(1, 0, 0, 0), None);
}

#[test]
fn the_latest_click_wins_and_a_measurement_clears_the_slot() {
    let mut manager = manager_with_tabs(&["/a"]);
    let mut slot: CursorReference<(f32, f32)> = CursorReference::new();
    assert_eq!(slot.positions(), None);
    assert_eq!(slot.id(), None);
    slot.click((10.0, 4.0), 0);
    slot.click((33.5, 21.0), 2);
    assert_eq!(slot.positions(), Some(&(33.5, 21.0)));
    assert_eq!(slot.id(), Some(2));
    assert_eq!(slot.measured(&mut manager, 0, 0, 3, 2), Some(true));
    assert_eq!(slot.positions(), None);
    assert_eq!(slot.id(), Some(2));
    assert_eq!(
        *manager.panel(0).tab(0).as_text_editor().unwrap().cursor(),
        TextCursor::new(2, 3)
    );
    slot.click((33.5, 21.0), 2);
    assert_eq!(slot.measured(&mut manager, 0, 0, 3, 2), Some(false));
    assert_eq!(slot.positions(), None);
    slot.click((1.0, 1.0), 9);
    assert_eq!(slot.measured(&mut manager, 0, 0, 0, 9), None);
    assert_eq!(slot.positions(), None);
}

#[test]
fn a_session_is_registered_once_per_server() {
    let mut manager = EditorManager::new();
    assert_eq!(manager.lsp(&config("rust-analyzer")), None);
    let first = manager.get_or_insert_lsp(&config("rust-analyzer"));
    assert_eq!(first, LspStart { bridge: LspBridge { session: 0, indexed: false }, created: true });
    let again = manager.get_or_insert_lsp(&config("rust-analyzer"));
    assert_eq!(again, LspStart { bridge: LspBridge { session: 0, indexed: false }, created: false });
    let other = manager.get_or_insert_lsp(&config("pyright"));
    assert_eq!(other, LspStart { bridge: LspBridge { session: 1, indexed: false }, created: true });
    manager.set_lsp_indexed(0, true);
    assert_eq!(
        manager.lsp(&config("rust-analyzer")),
        Some(LspBridge { session: 0, indexed: true })
    );
    assert_eq!(manager.lsp(&config("pyright")), Some(LspBridge { session: 1, indexed: false }));
}

#[test]
fn insert_lsp_replaces_the_session_of_a_server() {
    let mut manager = EditorManager::new();
    manager.insert_lsp("gopls".to_string(), LspBridge { session: 4, indexed: false });
    manager.insert_lsp("clangd".to_string(), LspBridge { session: 5, indexed: true });
    manager.insert_lsp("gopls".to_string(), LspBridge { session: 6, indexed: true });
    assert_eq!(manager.lsp(&config("gopls")), Some(LspBridge { session: 6, indexed: true }));
    assert_eq!(manager.lsp(&config("clangd")), Some(LspBridge { session: 5, indexed: true }));
    assert_eq!(manager.lsp(&config("zls")), None);
}
