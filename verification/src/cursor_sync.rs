//! Placing the cursor with the mouse. The editor cannot measure text: on a
//! click it leaves the pointer's position and the clicked line in a slot
//! that the layout engine reads, and the engine answers with a column and a
//! row, which are committed to the buffer.

use vstd::prelude::*;
use crate::manager::{EditorManager, ManagerView};
use crate::rope::text_len_lines;
use crate::store::{CursorCommit, StateStore, WriteStart};

verus! {

/// The slot between the editor and the layout engine. `P` is whatever the
/// engine takes as the pointer's position; the slot never looks inside.
pub struct CursorReference<P> {
    positions: Option<P>,
    id: Option<usize>,
}

/// Mathematical model of a `CursorReference`.
pub struct CursorReferenceView<P> {
    /// The position of the click that waits to be measured.
    pub positions: Option<P>,
    /// The line that was clicked last.
    pub id: Option<usize>,
}

impl<P> View for CursorReference<P> {
    type V = CursorReferenceView<P>;

    closed spec fn view(&self) -> CursorReferenceView<P> {
        CursorReferenceView { positions: self.positions, id: self.id }
    }
}

impl<P> CursorReference<P> {
    /// An empty slot.
    pub fn new() -> (slot: Self)
        ensures
            slot@ == (CursorReferenceView::<P> { positions: None, id: None }),
    {
        CursorReference { positions: None, id: None }
    }

    /// Takes a click at `positions` on the line `line_id`. A click that
    /// still waited to be measured is overwritten: the latest click wins,
    /// and at most one click waits.
    pub fn click(&mut self, positions: P, line_id: usize)
        ensures
            final(self)@ == (CursorReferenceView { positions: Some(positions), id: Some(line_id) }),
    {
        self.id = Some(line_id);
        self.positions = Some(positions);
    }

    /// The position of the click that waits to be measured.
    pub fn positions(&self) -> (positions: Option<&P>)
        ensures
            match positions {
                Some(p) => self@.positions == Some(*p),
                None => self@.positions is None,
            },
    {
        match &self.positions {
            Some(p) => Some(p),
            None => None,
        }
    }

    /// The line that was clicked last.
    pub fn id(&self) -> (id: Option<usize>)
        ensures
            id == self@.id,
    {
        self.id
    }

    /// Takes the engine's answer for the tab at `editor` of the panel at
    /// `panel`: the measured column and row are committed to its buffer as
    /// `EditorManager::commit_cursor` says, and the slot's position is
    /// cleared, so that the engine does not measure the same click again.
    /// Says whether the cursor moved; `None` where nothing could be
    /// committed.
    pub fn measured(
        &mut self,
        manager: &mut EditorManager,
        panel: usize,
        editor: usize,
        col: usize,
        row: usize,
    ) -> (changed: Option<bool>)
        ensures
            final(self)@ == (CursorReferenceView { positions: None, ..old(self)@ }),
            match old(manager)@.editor_at(panel, editor) {
                Some(data) => if row < text_len_lines(data.text) {
                    &&& changed == Some(
                        data.with_committed_cursor(col as nat, row as nat).cursor != data.cursor,
                    )
                    &&& final(manager)@ == old(manager)@.with_editor(
                        panel,
                        editor,
                        data.with_committed_cursor(col as nat, row as nat),
                    )
                } else {
                    changed is None && final(manager)@ == old(manager)@
                },
                None => changed is None && final(manager)@ == old(manager)@,
            },
            old(manager)@.wf() ==> final(manager)@.wf(),
    {
        let changed = manager.commit_cursor(panel, editor, col, row);
        self.positions = None;
        changed
    }

    /// Takes the engine's answer as a write to `store` on behalf of the
    /// observer `observer`: see `StateStore::commit_cursor`. The slot's
    /// position is cleared whatever becomes of the answer.
    pub fn respond(
        &mut self,
        store: &mut StateStore,
        observer: u64,
        panel: usize,
        editor: usize,
        col: usize,
        row: usize,
    ) -> (done: CursorCommit)
        ensures
            final(self)@ == (CursorReferenceView { positions: None, ..old(self)@ }),
            done.start == old(store)@.begin_for(observer).1,
            final(store)@.subscribers == old(store)@.subscribers,
            final(store)@.writing == old(store)@.writing,
            done.notified@.no_duplicates(),
            done.changed == if done.start == WriteStart::Started {
                match old(store)@.manager.editor_at(panel, editor) {
                    Some(data) => if row < text_len_lines(data.text) {
                        Some(
                            data.with_committed_cursor(col as nat, row as nat).cursor
                                != data.cursor,
                        )
                    } else {
                        None
                    },
                    None => None,
                }
            } else {
                None
            },
            final(store)@.manager == if done.changed is Some {
                old(store)@.manager.with_editor(
                    panel,
                    editor,
                    old(store)@.manager.editor_at(panel, editor).unwrap().with_committed_cursor(
                        col as nat,
                        row as nat,
                    ),
                )
            } else {
                old(store)@.manager
            },
            forall|id: u64|
                done.notified@.contains(id) <==> (done.changed == Some(true) && old(
                    store,
                )@.begin_for(observer).0.owes(id)),
            done.changed != Some(true) ==> done.notified@.len() == 0,
            old(store)@.manager.wf() ==> final(store)@.manager.wf(),
    {
        let done = store.commit_cursor(observer, panel, editor, col, row);
        self.positions = None;
        done
    }
}

} // verus!
