//! The state store: sole owner of the editor state and of the observer
//! registry. Reading is free. A change is made inside a write, of which
//! there is at most one at a time, and the end of a write names the
//! observers that are owed a notification.

use vstd::prelude::*;
use crate::keys::{repeats_of, scroll_after, Key, KeyOutcome, Modifiers};
use crate::manager::{EditorManager, ManagerView};
use crate::rope::text_len_lines;
use crate::subscription::{Subscribers, SubscriptionModel, WriteScope};

verus! {

/// How an attempt to begin a write ended.
#[derive(Clone, Copy, Debug, PartialEq, Eq, Structural)]
pub enum WriteStart {
    /// The write has begun.
    Started,
    /// Another write is in flight. Nothing was changed: the caller has a
    /// bug and is to fail loudly.
    Reentrant,
    /// The observer that asks is not registered. Nothing was changed.
    UnknownObserver,
}

/// What became of a measured cursor position that was handed to the store.
pub struct CursorCommit {
    /// Whether the write for it could begin.
    pub start: WriteStart,
    /// Whether the cursor moved; `None` where nothing was committed.
    pub changed: Option<bool>,
    /// The observers to notify: nobody unless the cursor moved.
    pub notified: Vec<u64>,
}

/// What became of a key press that was handed to the store.
pub struct KeyDone {
    /// Whether the write for it could begin.
    pub start: WriteStart,
    /// What the key did; `None` where it was not applied.
    pub outcome: Option<KeyOutcome>,
    /// The observers to notify: nobody unless the key was applied.
    pub notified: Vec<u64>,
}

/// The store.
pub struct StateStore {
    manager: EditorManager,
    subscribers: Subscribers,
    writing: Option<WriteScope>,
}

/// Mathematical model of a `StateStore`.
pub struct StoreView {
    pub manager: ManagerView,
    pub subscribers: Map<u64, SubscriptionModel>,
    /// The scope of the write in flight, if there is one.
    pub writing: Option<WriteScope>,
}

impl View for StateStore {
    type V = StoreView;

    closed spec fn view(&self) -> StoreView {
        StoreView {
            manager: self.manager@,
            subscribers: self.subscribers@,
            writing: self.writing,
        }
    }
}

impl StoreView {
    /// The store after an attempt to begin a write in `scope`, and how the
    /// attempt ended.
    pub open spec fn begin(self, scope: WriteScope) -> (StoreView, WriteStart) {
        if self.writing is Some {
            (self, WriteStart::Reentrant)
        } else {
            (StoreView { writing: Some(scope), ..self }, WriteStart::Started)
        }
    }

    /// The store after the observer `observer` tried to begin a write of
    /// its own, and how the attempt ended. The scope of such a write is the
    /// observer's registered interest.
    pub open spec fn begin_for(self, observer: u64) -> (StoreView, WriteStart) {
        if self.writing is Some {
            (self, WriteStart::Reentrant)
        } else if self.subscribers.contains_key(observer) {
            self.begin(WriteScope::Scoped(self.subscribers[observer]))
        } else {
            (self, WriteStart::UnknownObserver)
        }
    }

    /// Whether the observer `observer` is told when the write in flight
    /// ends.
    pub open spec fn owes(self, observer: u64) -> bool {
        &&& self.writing matches Some(scope)
        &&& self.subscribers.contains_key(observer)
        &&& scope.reaches(self.subscribers[observer])
    }
}

impl StateStore {
    /// A store that holds `manager`, with `root` as the one observer, who
    /// hears about everything.
    pub fn new(manager: EditorManager, root: u64) -> (store: Self)
        ensures
            store@ == (StoreView {
                manager: manager@,
                subscribers: Map::<u64, SubscriptionModel>::empty().insert(
                    root,
                    SubscriptionModel::All,
                ),
                writing: None,
            }),
    {
        StateStore { manager, subscribers: Subscribers::new(root), writing: None }
    }

    /// The state, to read.
    pub fn current(&self) -> (manager: &EditorManager)
        ensures
            manager@ == self@.manager,
    {
        &self.manager
    }

    /// Whether a write is in flight.
    pub fn is_writing(&self) -> (writing: bool)
        ensures
            writing == self@.writing.is_some(),
    {
        self.writing.is_some()
    }

    /// Registers the observer `id` with the interest `model`.
    pub fn subscribe(&mut self, id: u64, model: SubscriptionModel)
        ensures
            final(self)@ == (StoreView {
                subscribers: old(self)@.subscribers.insert(id, model),
                ..old(self)@
            }),
    {
        self.subscribers.subscribe(id, model);
    }

    /// Updates the interest of the observer `id`, if it is registered.
    pub fn update_model_if_necessary(&mut self, id: u64, model: SubscriptionModel)
        ensures
            final(self)@ == (StoreView {
                subscribers: if old(self)@.subscribers.contains_key(id) {
                    old(self)@.subscribers.insert(id, model)
                } else {
                    old(self)@.subscribers
                },
                ..old(self)@
            }),
    {
        self.subscribers.update_model_if_necessary(id, model);
    }

    /// Takes the observer `id` out, as is due when it is torn down.
    pub fn unsubscribe(&mut self, id: u64)
        ensures
            final(self)@ == (StoreView {
                subscribers: old(self)@.subscribers.remove(id),
                ..old(self)@
            }),
    {
        self.subscribers.unsubscribe(id);
    }

    /// Begins a write that concerns every observer.
    pub fn global_write(&mut self) -> (start: WriteStart)
        ensures
            (final(self)@, start) == old(self)@.begin(WriteScope::Global),
    {
        if self.writing.is_some() {
            WriteStart::Reentrant
        } else {
            self.writing = Some(WriteScope::Global);
            WriteStart::Started
        }
    }

    /// Begins a write on behalf of the observer `observer`, in the scope of
    /// its registered interest.
    pub fn write(&mut self, observer: u64) -> (start: WriteStart)
        ensures
            (final(self)@, start) == old(self)@.begin_for(observer),
    {
        if self.writing.is_some() {
            return WriteStart::Reentrant;
        }
        match self.subscribers.write_scope(observer) {
            Some(scope) => {
                self.writing = Some(scope);
                WriteStart::Started
            },
            None => WriteStart::UnknownObserver,
        }
    }

    /// The state, to change. `None` while no write is in flight.
    pub fn manager_mut(&mut self) -> (manager: Option<&mut EditorManager>)
        ensures
            manager.is_some() == old(self)@.writing.is_some(),
            manager is None ==> *final(self) == *old(self),
            manager matches Some(m) ==> {
                &&& m@ == old(self)@.manager
                &&& final(self)@ == (StoreView { manager: final(m)@, ..old(self)@ })
            },
    {
        if self.writing.is_some() {
            Some(&mut self.manager)
        } else {
            None
        }
    }

    /// Takes a measured cursor position for the tab at `editor` of the
    /// panel at `panel`, on behalf of the observer `observer`, as one write:
    /// the position is committed as `EditorManager::commit_cursor` says, and
    /// the observers that the write reaches are named if the cursor moved.
    /// A position that is where the cursor was changes nothing, and nobody
    /// is named.
    pub fn commit_cursor(
        &mut self,
        observer: u64,
        panel: usize,
        editor: usize,
        col: usize,
        row: usize,
    ) -> (done: CursorCommit)
        ensures
            done.start == old(self)@.begin_for(observer).1,
            final(self)@.subscribers == old(self)@.subscribers,
            final(self)@.writing == old(self)@.writing,
            done.notified@.no_duplicates(),
            done.changed == if done.start == WriteStart::Started {
                match old(self)@.manager.editor_at(panel, editor) {
                    Some(data) => if row < text_len_lines(data.text) {
                        Some(
                            data.with_committed_cursor(col as nat, row as nat).cursor
                                != data.cursor,
                        )
                    } else {
                        None
                    },
                    None => None,
                }
            } else {
                None
            },
            final(self)@.manager == if done.changed is Some {
                old(self)@.manager.with_editor(
                    panel,
                    editor,
                    old(self)@.manager.editor_at(panel, editor).unwrap().with_committed_cursor(
                        col as nat,
                        row as nat,
                    ),
                )
            } else {
                old(self)@.manager
            },
            forall|id: u64|
                done.notified@.contains(id) <==> (done.changed == Some(true) && old(
                    self,
                )@.begin_for(observer).0.owes(id)),
            done.changed != Some(true) ==> done.notified@.len() == 0,
            old(self)@.manager.wf() ==> final(self)@.manager.wf(),
    {
        let start = self.write(observer);
        if start != WriteStart::Started {
            return CursorCommit { start, changed: None, notified: Vec::new() };
        }
        let changed = self.manager.commit_cursor(panel, editor, col, row);
        if changed == Some(true) {
            CursorCommit { start, changed, notified: self.end_write() }
        } else {
            self.cancel_write();
            CursorCommit { start, changed, notified: Vec::new() }
        }
    }

    /// Takes a key press meant for the tab at `editor` of the panel at
    /// `panel`, on behalf of the observer `observer`, as one write: the key
    /// is applied as `EditorManager::key_down` says, and the observers that
    /// the write reaches are named if it was applied.
    pub fn key_down(
        &mut self,
        observer: u64,
        panel: usize,
        editor: usize,
        key: Key,
        modifiers: Modifiers,
        scroll: i32,
        lines_jump: i32,
        min_height: i32,
    ) -> (done: KeyDone)
        requires
            min_height <= 0,
        ensures
            done.start == old(self)@.begin_for(observer).1,
            final(self)@.subscribers == old(self)@.subscribers,
            final(self)@.writing == old(self)@.writing,
            done.notified@.no_duplicates(),
            done.outcome.is_some() == (done.start == WriteStart::Started && old(
                self,
            )@.manager.editor_at(panel, editor).is_some() && old(self)@.manager.takes_keys(
                panel,
                editor,
            )),
            done.outcome matches Some(outcome) ==> {
                let data = old(self)@.manager.editor_at(panel, editor).unwrap();
                &&& final(self)@.manager == old(self)@.manager.with_editor(
                    panel,
                    editor,
                    data.key_repeated(key, repeats_of(key, modifiers)).0,
                )
                &&& outcome.text_changes == data.key_repeated(key, repeats_of(key, modifiers)).1
                &&& outcome.scroll == scroll_after(
                    key,
                    modifiers,
                    scroll as int,
                    lines_jump as int,
                    min_height as int,
                )
            },
            done.outcome is None ==> final(self)@.manager == old(self)@.manager,
            forall|id: u64|
                done.notified@.contains(id) <==> (done.outcome is Some && old(self)@.begin_for(
                    observer,
                ).0.owes(id)),
            done.outcome is None ==> done.notified@.len() == 0,
            old(self)@.manager.wf() ==> final(self)@.manager.wf(),
    {
        let start = self.write(observer);
        if start != WriteStart::Started {
            return KeyDone { start, outcome: None, notified: Vec::new() };
        }
        let outcome = self.manager.key_down(
            panel,
            editor,
            key,
            modifiers,
            scroll,
            lines_jump,
            min_height,
        );
        if outcome.is_some() {
            KeyDone { start, outcome, notified: self.end_write() }
        } else {
            self.cancel_write();
            KeyDone { start, outcome, notified: Vec::new() }
        }
    }

    /// Ends the write in flight without naming anybody: for a write that
    /// turned out to change nothing, of which nobody needs to hear.
    pub fn cancel_write(&mut self)
        ensures
            final(self)@ == (StoreView { writing: None, ..old(self)@ }),
    {
        self.writing = None;
    }

    /// Ends the write in flight and names the observers to notify: each
    /// registered observer that the scope of the write reaches, once, in no
    /// particular order. Without a write in flight nobody is named.
    pub fn end_write(&mut self) -> (notified: Vec<u64>)
        ensures
            final(self)@ == (StoreView { writing: None, ..old(self)@ }),
            forall|id: u64| notified@.contains(id) <==> old(self)@.owes(id),
            notified@.no_duplicates(),
    {
        match self.writing {
            Some(scope) => {
                self.writing = None;
                self.subscribers.notified(scope)
            },
            None => Vec::new(),
        }
    }
}

/// A global write reaches every registered observer. A scoped write
/// reaches exactly the observers whose interest is the scope: an observer
/// with another interest hears nothing of it.
pub proof fn lemma_who_is_notified(store: StoreView, observer: u64)
    requires
        store.subscribers.contains_key(observer),
    ensures
        store.writing == Some(WriteScope::Global) ==> store.owes(observer),
        forall|scope: SubscriptionModel|
            store.writing == Some(WriteScope::Scoped(scope)) ==> (store.owes(observer) <==> scope
                == store.subscribers[observer]),
{
}

/// Only one write is in flight at a time: while one is, every attempt to
/// begin another is turned away and changes nothing.
pub proof fn lemma_single_writer(store: StoreView, scope: WriteScope, observer: u64)
    requires
        store.writing is Some,
    ensures
        store.begin(scope) == (store, WriteStart::Reentrant),
        store.begin_for(observer) == (store, WriteStart::Reentrant),
{
}

} // verus!
