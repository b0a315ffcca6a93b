//! Language-server sessions: one per server name, started on first use and
//! shared from then on, and the hover queries that go to them.

use vstd::prelude::*;
use vstd::string::StringExecFns;
use crate::hover::{Hover, HoverContentsView};
use crate::paths::{file_uri_of, opt_text, path_file_uri};

verus! {

/// Which language server a file belongs to.
#[derive(Debug, PartialEq, Eq)]
pub struct LspConfig {
    pub root_path: String,
    pub language_server: String,
}

/// The handle of a session: its number, under which whoever runs the
/// server keeps the connection, and whether the server has finished
/// indexing.
#[derive(Clone, Copy, Debug, PartialEq, Eq, Structural)]
pub struct LspBridge {
    pub session: usize,
    pub indexed: bool,
}

/// How far a session has come.
#[derive(Clone, Copy, Debug, PartialEq, Eq, Structural)]
pub enum SessionState {
    Uninitialized,
    Starting,
    Indexed,
}

/// What `get_or_insert` found or made.
#[derive(Clone, Copy, Debug, PartialEq, Eq, Structural)]
pub struct LspStart {
    pub bridge: LspBridge,
    /// Whether the session was registered by this call: the server is then
    /// still to be started.
    pub created: bool,
}

/// One registered session.
pub struct LspEntry {
    language_server: String,
    bridge: LspBridge,
}

/// Mathematical model of a registered session.
pub struct LspEntryView {
    pub language_server: Seq<char>,
    pub bridge: LspBridge,
}

/// The registered sessions, in the order in which they were registered.
pub struct LspSessions {
    entries: Vec<LspEntry>,
}

impl View for LspSessions {
    type V = Seq<LspEntryView>;

    closed spec fn view(&self) -> Seq<LspEntryView> {
        Seq::new(
            self.entries.len() as nat,
            |i: int|
                LspEntryView {
                    language_server: self.entries[i].language_server@,
                    bridge: self.entries[i].bridge,
                },
        )
    }
}

/// The index of the first session at or after `from` that is registered
/// under `language_server`.
pub open spec fn find_session(
    sessions: Seq<LspEntryView>,
    language_server: Seq<char>,
    from: nat,
) -> Option<nat>
    decreases sessions.len() - from,
{
    if from >= sessions.len() {
        None
    } else if sessions[from as int].language_server == language_server {
        Some(from)
    } else {
        find_session(sessions, language_server, from + 1)
    }
}

/// The bridge registered under `language_server`.
pub open spec fn bridge_of(sessions: Seq<LspEntryView>, language_server: Seq<char>) -> Option<
    LspBridge,
> {
    match find_session(sessions, language_server, 0) {
        Some(i) => Some(sessions[i as int].bridge),
        None => None,
    }
}

/// How far the session under `language_server` has come.
pub open spec fn state_of(sessions: Seq<LspEntryView>, language_server: Seq<char>) -> SessionState {
    match bridge_of(sessions, language_server) {
        None => SessionState::Uninitialized,
        Some(bridge) => if bridge.indexed {
            SessionState::Indexed
        } else {
            SessionState::Starting
        },
    }
}

/// The sessions after `bridge` was registered under `language_server`: it
/// takes the place of the session registered there, or comes last.
pub open spec fn with_bridge(
    sessions: Seq<LspEntryView>,
    language_server: Seq<char>,
    bridge: LspBridge,
) -> Seq<LspEntryView> {
    match find_session(sessions, language_server, 0) {
        Some(i) => sessions.update(i as int, LspEntryView { language_server, bridge }),
        None => sessions.push(LspEntryView { language_server, bridge }),
    }
}

/// The sessions after every session with the number `session` was noted as
/// indexed or not.
pub open spec fn with_indexed(sessions: Seq<LspEntryView>, session: usize, indexed: bool) -> Seq<
    LspEntryView,
> {
    Seq::new(
        sessions.len(),
        |i: int|
            if sessions[i].bridge.session == session {
                LspEntryView {
                    language_server: sessions[i].language_server,
                    bridge: LspBridge { session, indexed },
                }
            } else {
                sessions[i]
            },
    )
}

impl LspSessions {
    /// No sessions.
    pub fn new() -> (sessions: Self)
        ensures
            sessions@ == Seq::<LspEntryView>::empty(),
    {
        let sessions = LspSessions { entries: Vec::new() };
        assert(sessions@ =~= Seq::<LspEntryView>::empty());
        sessions
    }

    /// Where the session under `language_server` is registered.
    fn position(&self, language_server: &String) -> (index: Option<usize>)
        ensures
            index.is_some() == find_session(self@, language_server@, 0).is_some(),
            index matches Some(i) ==> i == find_session(self@, language_server@, 0).unwrap()
                && i < self.entries.len(),
    {
        let mut i: usize = 0;
        while i < self.entries.len()
            invariant
                i <= self.entries.len(),
                find_session(self@, language_server@, 0) == find_session(
                    self@,
                    language_server@,
                    i as nat,
                ),
            decreases self.entries.len() - i,
        {
            if self.entries[i].language_server == *language_server {
                return Some(i);
            }
            i += 1;
        }
        None
    }

    /// The bridge of the session that `config` asks for, if it is
    /// registered.
    pub fn lsp(&self, config: &LspConfig) -> (bridge: Option<LspBridge>)
        ensures
            bridge == bridge_of(self@, config.language_server@),
    {
        match self.position(&config.language_server) {
            Some(i) => Some(self.entries[i].bridge),
            None => None,
        }
    }

    /// Registers `bridge` under `language_server`, in place of a session
    /// registered there before.
    pub fn insert(&mut self, language_server: String, bridge: LspBridge)
        ensures
            final(self)@ == with_bridge(old(self)@, language_server@, bridge),
    {
        match self.position(&language_server) {
            Some(i) => {
                self.entries[i] = LspEntry { language_server, bridge };
                assert(self@ =~= with_bridge(old(self)@, language_server@, bridge));
            },
            None => {
                self.entries.push(LspEntry { language_server, bridge });
                assert(self@ =~= with_bridge(old(self)@, language_server@, bridge));
            },
        }
    }

    /// The session that `config` asks for. Where none is registered, one is
    /// registered now, not yet indexed, under the next free number: of two
    /// callers that ask for the same server, only the first is told to
    /// start it.
    pub fn get_or_insert(&mut self, config: &LspConfig) -> (start: LspStart)
        ensures
            match bridge_of(old(self)@, config.language_server@) {
                Some(bridge) => {
                    &&& start == (LspStart { bridge, created: false })
                    &&& final(self)@ == old(self)@
                },
                None => {
                    &&& start == (LspStart {
                        bridge: LspBridge { session: old(self)@.len() as usize, indexed: false },
                        created: true,
                    })
                    &&& final(self)@ == old(self)@.push(
                        LspEntryView {
                            language_server: config.language_server@,
                            bridge: start.bridge,
                        },
                    )
                },
            },
    {
        match self.position(&config.language_server) {
            Some(i) => LspStart { bridge: self.entries[i].bridge, created: false },
            None => {
                let bridge = LspBridge { session: self.entries.len(), indexed: false };
                self.entries.push(
                    LspEntry { language_server: config.language_server.clone(), bridge },
                );
                assert(self@ =~= old(self)@.push(
                    LspEntryView { language_server: config.language_server@, bridge },
                ));
                LspStart { bridge, created: true }
            },
        }
    }

    /// Notes whether the server of the session with the number `session`
    /// has finished indexing.
    pub fn set_indexed(&mut self, session: usize, indexed: bool)
        ensures
            final(self)@ == with_indexed(old(self)@, session, indexed),
    {
        let mut i: usize = 0;
        while i < self.entries.len()
            invariant
                i <= self.entries.len(),
                self.entries.len() == old(self).entries.len(),
                forall|j: int|
                    0 <= j < i ==> {
                        &&& (#[trigger] self.entries[j]).language_server == old(
                            self,
                        ).entries[j].language_server
                        &&& self.entries[j].bridge == if old(self).entries[j].bridge.session
                            == session {
                            LspBridge { session, indexed }
                        } else {
                            old(self).entries[j].bridge
                        }
                    },
                forall|j: int| i <= j < self.entries.len() ==> self.entries[j] == old(self).entries[j],
            decreases self.entries.len() - i,
        {
            if self.entries[i].bridge.session == session {
                self.entries[i].bridge = LspBridge { session, indexed };
            }
            i += 1;
        }
        assert(self@ =~= with_indexed(old(self)@, session, indexed));
    }
}


/// What the status line shows of a server's report: the server's name, a
/// space, and the status it reported.
pub fn status_text(name: &str, status: &str) -> (text: String)
    ensures
        text@ == name@ + seq![' '] + status@,
{
    let mut text = String::from_str(name);
    proof {
        reveal_strlit(" ");
    }
    assert(" "@ =~= seq![' ']);
    text.append(" ");
    text.append(status);
    text
}

/// A hover query: where in which document the pointer rests.
#[derive(Debug, PartialEq, Eq)]
pub struct HoverRequest {
    pub uri: String,
    pub line: u32,
    pub character: u32,
}

/// Mathematical model of a `HoverRequest`.
pub struct HoverRequestView {
    pub uri: Seq<char>,
    pub line: u32,
    pub character: u32,
}

impl View for HoverRequest {
    type V = HoverRequestView;

    open spec fn view(&self) -> HoverRequestView {
        HoverRequestView { uri: self.uri@, line: self.line, character: self.character }
    }
}

/// The query for the character at `character` of line `line` of the file
/// at `path`, where there is one: the path has a `file` URI, and the line
/// and the character can be counted in `u32`, as the protocol wants them.
pub open spec fn hover_request_for(path: Seq<char>, line: usize, character: usize) -> Option<
    HoverRequestView,
> {
    match path_file_uri(path) {
        Some(uri) => if line <= u32::MAX && character <= u32::MAX {
            Some(HoverRequestView { uri, line: line as u32, character: character as u32 })
        } else {
            None
        },
        None => None,
    }
}

/// The model of an optional hover query.
pub open spec fn opt_request(request: Option<HoverRequest>) -> Option<HoverRequestView> {
    match request {
        Some(r) => Some(r@),
        None => None,
    }
}

/// The query for the character at `character` of line `line` of the file
/// at `path`.
pub fn hover_request(path: &str, line: usize, character: usize) -> (request: Option<HoverRequest>)
    ensures
        opt_request(request) == hover_request_for(path@, line, character),
{
    if line > u32::MAX as usize || character > u32::MAX as usize {
        return None;
    }
    match file_uri_of(path) {
        Some(uri) => Some(HoverRequest { uri, line: line as u32, character: character as u32 }),
        None => None,
    }
}

/// What the editor asks of the hover machinery.
#[derive(Debug, PartialEq, Eq)]
pub enum LspAction {
    Hover(HoverRequest),
    Clear,
}

/// What is to be done about an `LspAction`.
#[derive(Debug, PartialEq, Eq)]
pub enum HoverStep {
    /// Send the query to the server of the session, then report the answer
    /// with `HoverState::answered`.
    Send { session: usize, request: HoverRequest },
    /// The server is still indexing: the query is dropped.
    StillIndexing,
    /// No session is registered for the file: the query is dropped.
    NotRunning,
    /// The stored answer was cleared.
    Cleared,
    /// The file has no language server: nothing was done.
    Ignored,
}

/// Mathematical model of a `HoverStep`.
pub enum HoverStepView {
    Send { session: usize, request: HoverRequestView },
    StillIndexing,
    NotRunning,
    Cleared,
    Ignored,
}

impl View for HoverStep {
    type V = HoverStepView;

    open spec fn view(&self) -> HoverStepView {
        match self {
            HoverStep::Send { session, request } => HoverStepView::Send {
                session: *session,
                request: request@,
            },
            HoverStep::StillIndexing => HoverStepView::StillIndexing,
            HoverStep::NotRunning => HoverStepView::NotRunning,
            HoverStep::Cleared => HoverStepView::Cleared,
            HoverStep::Ignored => HoverStepView::Ignored,
        }
    }
}

/// What a move of the pointer asks for.
#[derive(Clone, Copy, Debug, PartialEq, Eq, Structural)]
pub enum PointerStep {
    /// Ask for a hover once the pointer has rested for the debounce delay.
    ScheduleHover,
    /// Hand `LspAction::Clear` to the hover machinery now.
    Clear,
}

/// The hover state of one editor: the line that the pointer is over, and
/// the answer that is kept, with the line it was asked for.
pub struct HoverState {
    hovered_line: Option<u32>,
    location: Option<(u32, Hover)>,
}

/// Mathematical model of a `HoverState`.
pub struct HoverStateView {
    pub hovered_line: Option<u32>,
    pub location: Option<(u32, HoverContentsView)>,
}

/// The model of an optional hover answer.
pub open spec fn opt_hover(answer: Option<Hover>) -> Option<HoverContentsView> {
    match answer {
        Some(hover) => Some(hover@),
        None => None,
    }
}

impl View for HoverState {
    type V = HoverStateView;

    closed spec fn view(&self) -> HoverStateView {
        HoverStateView {
            hovered_line: self.hovered_line,
            location: match self.location {
                Some((line, hover)) => Some((line, hover@)),
                None => None,
            },
        }
    }
}

impl HoverStateView {
    /// The state after the pointer moved over `line`, within the width of
    /// the line's text (`over_text`) or beside it.
    pub open spec fn pointer_moved(self, line: u32, over_text: bool) -> HoverStateView {
        HoverStateView {
            hovered_line: if over_text {
                Some(line)
            } else {
                None
            },
            ..self
        }
    }

    /// The state after the pointer left the text.
    pub open spec fn pointer_left(self) -> HoverStateView {
        HoverStateView { hovered_line: None, ..self }
    }

    /// The state after `action` was taken up for a file whose server is
    /// `language_server` (`None`: it has none), and what is to be done. A
    /// query goes out only to a session that is registered and indexed.
    /// Clearing empties the kept answer.
    pub open spec fn acted(
        self,
        sessions: Seq<LspEntryView>,
        language_server: Option<Seq<char>>,
        action: LspAction,
    ) -> (HoverStateView, HoverStepView) {
        match language_server {
            None => (self, HoverStepView::Ignored),
            Some(name) => match action {
                LspAction::Clear => (
                    HoverStateView { location: None, ..self },
                    HoverStepView::Cleared,
                ),
                LspAction::Hover(request) => match bridge_of(sessions, name) {
                    None => (self, HoverStepView::NotRunning),
                    Some(bridge) => if bridge.indexed {
                        (self, HoverStepView::Send { session: bridge.session, request: request@ })
                    } else {
                        (self, HoverStepView::StillIndexing)
                    },
                },
            },
        }
    }

    /// The state after the answer to a query for `line` came in. The answer
    /// is kept if it holds a hover and the pointer is still over `line`.
    /// Otherwise nothing is kept.
    pub open spec fn answered(self, line: u32, answer: Option<HoverContentsView>) -> HoverStateView {
        HoverStateView {
            location: match answer {
                Some(hover) => if self.hovered_line == Some(line) {
                    Some((line, hover))
                } else {
                    None
                },
                None => None,
            },
            ..self
        }
    }

    /// The tooltip text to show at line `line_index`: the text of the kept
    /// answer, if it was asked for that line and says anything.
    pub open spec fn visible_text(self, line_index: usize) -> Option<Seq<char>> {
        match self.location {
            Some((line, hover)) => if line == line_index {
                hover.text()
            } else {
                None
            },
            None => None,
        }
    }
}

/// The server name of an optional configuration.
pub open spec fn server_name(config: Option<&LspConfig>) -> Option<Seq<char>> {
    match config {
        Some(c) => Some(c.language_server@),
        None => None,
    }
}

impl HoverState {
    /// The pointer over no line, no answer kept.
    pub fn new() -> (state: Self)
        ensures
            state@ == (HoverStateView { hovered_line: None, location: None }),
    {
        HoverState { hovered_line: None, location: None }
    }

    /// The line that the pointer is over.
    pub fn hovered_line(&self) -> (line: Option<u32>)
        ensures
            line == self@.hovered_line,
    {
        self.hovered_line
    }

    /// The line that the kept answer was asked for.
    pub fn answer_line(&self) -> (line: Option<u32>)
        ensures
            line == match self@.location {
                Some((l, _)) => Some(l),
                None => None,
            },
    {
        match &self.location {
            Some((line, _)) => Some(*line),
            None => None,
        }
    }

    /// Notes that the pointer moved over `line`, and says what that asks
    /// for.
    pub fn pointer_moved(&mut self, line: u32, over_text: bool) -> (step: PointerStep)
        ensures
            final(self)@ == old(self)@.pointer_moved(line, over_text),
            step == if over_text {
                PointerStep::ScheduleHover
            } else {
                PointerStep::Clear
            },
    {
        if over_text {
            self.hovered_line = Some(line);
            PointerStep::ScheduleHover
        } else {
            self.hovered_line = None;
            PointerStep::Clear
        }
    }

    /// Notes that the pointer left the text. `LspAction::Clear` is then
    /// due.
    pub fn pointer_left(&mut self)
        ensures
            final(self)@ == old(self)@.pointer_left(),
    {
        self.hovered_line = None;
    }

    /// Takes up `action` and says what is to be done.
    pub fn act(&mut self, sessions: &LspSessions, config: Option<&LspConfig>, action: LspAction) -> (step: HoverStep)
        ensures
            (final(self)@, step@) == old(self)@.acted(sessions@, server_name(config), action),
    {
        match config {
            None => HoverStep::Ignored,
            Some(config) => match action {
                LspAction::Clear => {
                    self.location = None;
                    HoverStep::Cleared
                },
                LspAction::Hover(request) => match sessions.lsp(config) {
                    None => HoverStep::NotRunning,
                    Some(bridge) => if bridge.indexed {
                        HoverStep::Send { session: bridge.session, request }
                    } else {
                        HoverStep::StillIndexing
                    },
                },
            },
        }
    }

    /// Takes the answer to a query for `line`: `None` where the server had
    /// nothing to say or failed.
    pub fn answered(&mut self, line: u32, answer: Option<Hover>)
        ensures
            final(self)@ == old(self)@.answered(line, opt_hover(answer)),
    {
        self.location = match answer {
            Some(hover) => if self.hovered_line == Some(line) {
                Some((line, hover))
            } else {
                None
            },
            None => None,
        };
    }

    /// The tooltip text to show at line `line_index`.
    pub fn visible_text(&self, line_index: usize) -> (text: Option<String>)
        ensures
            opt_text(text) == self@.visible_text(line_index),
    {
        match &self.location {
            Some((line, hover)) => if *line as usize == line_index {
                hover.hover_to_text()
            } else {
                None
            },
            None => None,
        }
    }
}

/// A hover answer that was asked for line `asked` and comes in while the
/// pointer is over another line, or over none, is not kept: the state then
/// holds no answer, whatever it held before.
pub proof fn lemma_stale_answer_is_dropped(
    state: HoverStateView,
    asked: u32,
    answer: Option<HoverContentsView>,
)
    requires
        state.hovered_line != Some(asked),
    ensures
        state.answered(asked, answer).location is None,
        forall|line: usize| state.answered(asked, answer).visible_text(line) is None,
{
}

/// An answer is kept exactly where it holds a hover and the pointer is
/// still over the line it was asked for, and it is then shown at that line
/// only.
pub proof fn lemma_answer_is_kept_for_its_line(
    state: HoverStateView,
    asked: u32,
    hover: HoverContentsView,
)
    requires
        state.hovered_line == Some(asked),
    ensures
        state.answered(asked, Some(hover)).location == Some((asked, hover)),
        forall|line: usize|
            line != asked ==> state.answered(asked, Some(hover)).visible_text(line) is None,
{
}

/// A query goes out only to an indexed session: while the session is
/// starting or absent, taking up a hover query leaves the state as it is and
/// sends nothing.
pub proof fn lemma_no_query_before_indexed(
    state: HoverStateView,
    sessions: Seq<LspEntryView>,
    language_server: Seq<char>,
    request: HoverRequest,
)
    requires
        state_of(sessions, language_server) != SessionState::Indexed,
    ensures
        state.acted(sessions, Some(language_server), LspAction::Hover(request)).0 == state,
        !(state.acted(sessions, Some(language_server), LspAction::Hover(request)).1 is Send),
{
}

} // verus!
