use editor_core::hover::{Hover, HoverContents, MarkedText};
use editor_core::lsp::{
    hover_request, status_text, HoverRequest, HoverState, HoverStep, LspAction, LspBridge, LspConfig,
    LspSessions, PointerStep,
};

fn config() -> LspConfig {
    LspConfig { root_path: "/proj".to_string(), language_server: "rust-analyzer".to_string() }
}

fn request(line: u32, character: u32) -> HoverRequest {
    HoverRequest { uri: "file:///proj/src/main.rs".to_string(), line, character }
}

fn markup(text: &str) -> Hover {
    Hover { contents: HoverContents::Markup(text.to_string()) }
}

fn code(language: &str, value: &str) -> MarkedText {
    MarkedText::Code { language: language.to_string(), value: value.to_string() }
}

#[test]
fn hover_text_of_markup() {
    assert_eq!(markup("**bold**").hover_to_text(), Some("**bold**".to_string()));
}

#[test]
fn hover_text_of_a_scalar() {
    let plain = Hover { contents: HoverContents::Scalar(MarkedText::Text("plain".to_string())) };
    assert_eq!(plain.hover_to_text(), Some("plain".to_string()));
    let block = Hover { contents: HoverContents::Scalar(code("rust", "fn main()")) };
    assert_eq!(block.hover_to_text(), Some("fn main()".to_string()));
}

#[test]
fn hover_text_of_an_array_is_joined_by_line_feeds() {
    let hover = Hover {
        contents: HoverContents::Array(vec![
            MarkedText::Text("a".to_string()),
            code("rust", "let b = 1;"),
            MarkedText::Text("c".to_string()),
        ]),
    };
    assert_eq!(hover.hover_to_text(), Some("a\nlet b = 1;\nc".to_string()));
    let one = Hover { contents: HoverContents::Array(vec![MarkedText::Text("only".to_string())]) };
    assert_eq!(one.hover_to_text(), Some("only".to_string()));
    let none = Hover { contents: HoverContents::Array(vec![]) };
    assert_eq!(none.hover_to_text(), Some(String::new()));
}

#[test]
fn the_unit_value_is_no_content() {
    assert_eq!(markup("()").hover_to_text(), None);
    let scalar = Hover { contents: HoverContents::Scalar(code("rust", "()")) };
    assert_eq!(scalar.hover_to_text(), None);
    let array = Hover { contents: HoverContents::Array(vec![MarkedText::Text("()".to_string())]) };
    assert_eq!(array.hover_to_text(), None);
    assert_eq!(markup("() ").hover_to_text(), Some("() ".to_string()));
    let two = Hover {
        contents: HoverContents::Array(vec![
            MarkedText::Text("(".to_string()),
            MarkedText::Text(")".to_string()),
        ]),
    };
    assert_eq!(two.hover_to_text(), Some("(\n)".to_string()));
}

#[test]
fn hover_answers_can_be_cloned() {
    let hover = Hover {
        contents: HoverContents::Array(vec![MarkedText::Text("a".to_string()), code("c", "b")]),
    };
    assert_eq!(hover.clone(), hover);
    assert_eq!(markup("m").clone(), markup("m"));
}

#[test]
fn a_query_without_a_session_is_dropped_as_not_running() {
    let sessions = LspSessions::new();
    let mut state = HoverState::new();
    state.pointer_moved(3, true);
    let step = state.act(&sessions, Some(&config()), LspAction::Hover(request(3, 1)));
    assert_eq!(step, HoverStep::NotRunning);
    assert_eq!(state.answer_line(), None);
}

#[test]
fn hover_while_indexing_and_after() {
    let mut sessions = LspSessions::new();
    let started = sessions.get_or_insert(&config());
    assert!(started.created);
    let mut state = HoverState::new();

    // While the server is still indexing the query is dropped.
    assert_eq!(state.pointer_moved(4, true), PointerStep::ScheduleHover);
    let step = state.act(&sessions, Some(&config()), LspAction::Hover(request(4, 2)));
    assert_eq!(step, HoverStep::StillIndexing);
    assert_eq!(state.answer_line(), None);
    assert_eq!(state.visible_text(4), None);

    // Once it has indexed, the same query goes out and its answer is kept for the line.
    sessions.set_indexed(started.bridge.session, true);
    let step = state.act(&sessions, Some(&config()), LspAction::Hover(request(4, 2)));
    assert_eq!(step, HoverStep::Send { session: started.bridge.session, request: request(4, 2) });
    state.answered(4, Some(markup("fn main()")));
    assert_eq!(state.answer_line(), Some(4));
    assert_eq!(state.visible_text(4), Some("fn main()".to_string()));
    assert_eq!(state.visible_text(5), None);
}

#[test]
fn an_answer_for_a_line_that_the_pointer_has_left_is_dropped() {
    let mut state = HoverState::new();
    state.pointer_moved(2, true);
    // The query for line 2 is under way when the pointer moves on to line 7.
    state.pointer_moved(7, true);
    state.answered(2, Some(markup("stale")));
    assert_eq!(state.answer_line(), None);
    assert_eq!(state.visible_text(2), None);
    assert_eq!(state.visible_text(7), None);
}

#[test]
fn a_stale_answer_also_empties_what_was_kept() {
    let mut state = HoverState::new();
    state.pointer_moved(7, true);
    state.answered(7, Some(markup("fresh")));
    assert_eq!(state.visible_text(7), Some("fresh".to_string()));
    state.answered(2, Some(markup("stale")));
    assert_eq!(state.answer_line(), None);
}

#[test]
fn an_answer_after_the_pointer_left_the_text_is_dropped() {
    let mut state = HoverState::new();
    state.pointer_moved(2, true);
    state.pointer_left();
    assert_eq!(state.hovered_line(), None);
    state.answered(2, Some(markup("late")));
    assert_eq!(state.answer_line(), None);
}

#[test]
fn an_empty_or_failed_answer_clears_the_hover() {
    let mut state = HoverState::new();
    state.pointer_moved(2, true);
    state.answered(2, Some(markup("text")));
    state.answered(2, None);
    assert_eq!(state.answer_line(), None);
}

#[test]
fn moving_beside_the_text_asks_to_clear() {
    let sessions = LspSessions::new();
    let mut state = HoverState::new();
    state.pointer_moved(2, true);
    state.answered(2, Some(markup("text")));
    assert_eq!(state.pointer_moved(2, false), PointerStep::Clear);
    assert_eq!(state.hovered_line(), None);
    // The answer stays until the clear action is taken up.
    assert_eq!(state.answer_line(), Some(2));
    assert_eq!(state.act(&sessions, Some(&config()), LspAction::Clear), HoverStep::Cleared);
    assert_eq!(state.answer_line(), None);
}

#[test]
fn a_file_without_a_language_server_ignores_all_actions() {
    let sessions = LspSessions::new();
    let mut state = HoverState::new();
    state.pointer_moved(2, true);
    state.answered(2, Some(markup("text")));
    assert_eq!(state.act(&sessions, None, LspAction::Clear), HoverStep::Ignored);
    assert_eq!(state.act(&sessions, None, LspAction::Hover(request(2, 0))), HoverStep::Ignored);
    assert_eq!(state.answer_line(), Some(2));
}

#[test]
fn a_unit_answer_is_kept_but_not_shown() {
    let mut state = HoverState::new();
    state.pointer_moved(1, true);
    state.answered(1, Some(markup("()")));
    assert_eq!(state.answer_line(), Some(1));
    assert_eq!(state.visible_text(1), None);
}

#[test]
fn sessions_are_found_by_server_name() {
    let mut sessions = LspSessions::new();
    sessions.insert("a".to_string(), LspBridge { session: 10, indexed: false });
    sessions.insert("b".to_string(), LspBridge { session: 10, indexed: false });
    sessions.insert("c".to_string(), LspBridge { session: 11, indexed: false });
    sessions.set_indexed(10, true);
    let named = |name: &str| LspConfig { root_path: "/".to_string(), language_server: name.to_string() };
    assert_eq!(sessions.lsp(&named("a")), Some(LspBridge { session: 10, indexed: true }));
    assert_eq!(sessions.lsp(&named("b")), Some(LspBridge { session: 10, indexed: true }));
    assert_eq!(sessions.lsp(&named("c")), Some(LspBridge { session: 11, indexed: false }));
    sessions.set_indexed(10, false);
    assert_eq!(sessions.lsp(&named("a")), Some(LspBridge { session: 10, indexed: false }));
    assert_eq!(sessions.lsp(&named("d")), None);
}

#[test]
fn a_hover_query_names_the_file_by_its_uri() {
    assert_eq!(hover_request("/proj/src/main.rs", 4, 2), Some(request(4, 2)));
    assert_eq!(hover_request("src/main.rs", 4, 2), None);
}

#[test]
fn a_hover_query_needs_a_position_that_fits_the_protocol() {
    let max = u32::MAX as usize;
    assert_eq!(
        hover_request("/a", max, max),
        Some(HoverRequest { uri: "file:///a".to_string(), line: u32::MAX, character: u32::MAX })
    );
    if usize::BITS > 32 {
        assert_eq!(hover_request("/a", max + 1, 0), None);
        assert_eq!(hover_request("/a", 0, max + 1), None);
    }
}

#[test]
fn the_status_line_shows_name_and_status() {
    assert_eq!(status_text("rust-analyzer", "indexing 3/10"), "rust-analyzer indexing 3/10");
    assert_eq!(status_text("", ""), " ");
}
