//! Observer registry: who is told about a change to the shared editor state.

use vstd::prelude::*;
use std::collections::HashMap;
use vstd::std_specs::hash::spec_hash_map_iter;
use vstd::std_specs::iter::IteratorSpec;

verus! {

/// What an observer wants to hear about: every change, or the changes made
/// on behalf of one tab.
#[derive(Clone, Copy, Debug, PartialEq, Eq, Structural)]
pub enum SubscriptionModel {
    All,
    Tab { panel_index: usize, editor_index: usize },
}

impl SubscriptionModel {
    /// The interest scope of the tab at `editor` in panel `panel`.
    pub fn new_tab(panel: usize, editor: usize) -> (model: Self)
        ensures
            model == (SubscriptionModel::Tab { panel_index: panel, editor_index: editor }),
    {
        SubscriptionModel::Tab { panel_index: panel, editor_index: editor }
    }
}

/// On whose behalf a change is made.
#[derive(Clone, Copy, Debug, PartialEq, Eq, Structural)]
pub enum WriteScope {
    /// The change concerns everybody.
    Global,
    /// The change is made by a component whose own interest is the given
    /// one.
    Scoped(SubscriptionModel),
}

impl WriteScope {
    /// Whether a change made in this scope is told to an observer whose
    /// interest is `model`: a global change is told to every observer, a
    /// scoped one to the observers whose interest is that very scope.
    pub open spec fn reaches(self, model: SubscriptionModel) -> bool {
        match self {
            WriteScope::Global => true,
            WriteScope::Scoped(scope) => scope == model,
        }
    }

    fn tells(&self, model: &SubscriptionModel) -> (told: bool)
        ensures
            told == self.reaches(*model),
    {
        match self {
            WriteScope::Global => true,
            WriteScope::Scoped(scope) => *scope == *model,
        }
    }
}

/// The live observers, each under its identity, with what it wants to hear
/// about.
pub struct Subscribers {
    entries: HashMap<u64, SubscriptionModel>,
}

impl View for Subscribers {
    type V = Map<u64, SubscriptionModel>;

    closed spec fn view(&self) -> Map<u64, SubscriptionModel> {
        self.entries@
    }
}

impl Subscribers {
    /// A registry whose one observer, `root`, hears about everything.
    pub fn new(root: u64) -> (subscribers: Self)
        ensures
            subscribers@ == Map::<u64, SubscriptionModel>::empty().insert(
                root,
                SubscriptionModel::All,
            ),
    {
        broadcast use vstd::std_specs::hash::group_hash_axioms;

        let mut entries: HashMap<u64, SubscriptionModel> = HashMap::new();
        entries.insert(root, SubscriptionModel::All);
        Subscribers { entries }
    }

    /// Registers the observer `id` with the interest `model`; an earlier
    /// interest of the same observer is replaced.
    pub fn subscribe(&mut self, id: u64, model: SubscriptionModel)
        ensures
            final(self)@ == old(self)@.insert(id, model),
    {
        broadcast use vstd::std_specs::hash::group_hash_axioms;

        self.entries.insert(id, model);
    }

    /// Updates the interest of the observer `id` where it is registered
    /// with another one. An observer that is not registered stays out.
    pub fn update_model_if_necessary(&mut self, id: u64, model: SubscriptionModel)
        ensures
            final(self)@ == if old(self)@.contains_key(id) {
                old(self)@.insert(id, model)
            } else {
                old(self)@
            },
    {
        broadcast use vstd::std_specs::hash::group_hash_axioms;

        let registered = match self.entries.get(&id) {
            Some(entry) => Some(*entry),
            None => None,
        };
        match registered {
            Some(entry) => {
                if entry != model {
                    self.entries.insert(id, model);
                } else {
                    assert(self@ =~= old(self)@.insert(id, model));
                }
            },
            None => {},
        }
    }

    /// Takes the observer `id` out, as is due when it is torn down.
    pub fn unsubscribe(&mut self, id: u64)
        ensures
            final(self)@ == old(self)@.remove(id),
    {
        broadcast use vstd::std_specs::hash::group_hash_axioms;

        self.entries.remove(&id);
    }

    /// The interest that the observer `id` is registered with.
    pub fn model_of(&self, id: u64) -> (model: Option<SubscriptionModel>)
        ensures
            model == if self@.contains_key(id) {
                Some(self@[id])
            } else {
                None
            },
    {
        broadcast use vstd::std_specs::hash::group_hash_axioms;

        match self.entries.get(&id) {
            Some(entry) => Some(*entry),
            None => None,
        }
    }

    /// The scope of a change that the observer `id` makes for itself: its
    /// own interest. `None` where it is not registered.
    pub fn write_scope(&self, id: u64) -> (scope: Option<WriteScope>)
        ensures
            scope == if self@.contains_key(id) {
                Some(WriteScope::Scoped(self@[id]))
            } else {
                None
            },
    {
        match self.model_of(id) {
            Some(model) => Some(WriteScope::Scoped(model)),
            None => None,
        }
    }

    /// The observers that are told about a change made in `scope`: each one
    /// that the scope reaches, once, in no particular order.
    pub fn notified(&self, scope: WriteScope) -> (ids: Vec<u64>)
        ensures
            forall|id: u64| ids@.contains(id) <==> (self@.contains_key(id) && scope.reaches(self@[id])),
            ids@.no_duplicates(),
    {
        broadcast use vstd::std_specs::hash::group_hash_axioms;

        let mut ids: Vec<u64> = Vec::new();
        let ghost all = spec_hash_map_iter(&self.entries).remaining();
        let ghost mut seen: int = 0;
        for pair in it: self.entries.iter()
            invariant
                it.seq() == all,
                all == spec_hash_map_iter(&self.entries).remaining(),
                seen == it.index(),
                all.no_duplicates(),
                ids@.no_duplicates(),
                forall|id: u64|
                    ids@.contains(id) <==> (exists|j: int|
                        0 <= j < seen && *(#[trigger] all[j]).0 == id && scope.reaches(*all[j].1)),
        {
            let (id, model) = pair;
            let ghost k = seen;
            let ghost before = ids@;
            proof {
                seen = seen + 1;
            }
            assert(self@.contains_key(*all[k].0) && self@[*all[k].0] == *all[k].1);
            if scope.tells(model) {
                assert(!before.contains(*id)) by {
                    if before.contains(*id) {
                        let j = choose|j: int|
                            0 <= j < k && *(#[trigger] all[j]).0 == *id && scope.reaches(
                                *all[j].1,
                            );
                        assert(self@.contains_key(*all[j].0) && self@[*all[j].0] == *all[j].1);
                        assert(all[j] == all[k]);
                    }
                }
                ids.push(*id);
                assert forall|x: u64|
                    ids@.contains(x) <==> (exists|j: int|
                        0 <= j < seen && *(#[trigger] all[j]).0 == x && scope.reaches(
                            *all[j].1,
                        )) by {
                    if ids@.contains(x) {
                        let p = choose|p: int| 0 <= p < ids@.len() && ids@[p] == x;
                        if p < before.len() {
                            assert(before[p] == x);
                            assert(before.contains(x));
                        } else {
                            assert(*all[k].0 == x);
                        }
                    }
                    if exists|j: int|
                        0 <= j < seen && *(#[trigger] all[j]).0 == x && scope.reaches(*all[j].1) {
                        let j = choose|j: int|
                            0 <= j < seen && *(#[trigger] all[j]).0 == x && scope.reaches(
                                *all[j].1,
                            );
                        if j < k {
                            assert(before.contains(x));
                            let p = choose|p: int| 0 <= p < before.len() && before[p] == x;
                            assert(ids@[p] == x);
                        } else {
                            assert(ids@[before.len() as int] == x);
                        }
                    }
                }
            } else {
                assert forall|x: u64|
                    ids@.contains(x) <==> (exists|j: int|
                        0 <= j < seen && *(#[trigger] all[j]).0 == x && scope.reaches(
                            *all[j].1,
                        )) by {
                    if exists|j: int|
                        0 <= j < seen && *(#[trigger] all[j]).0 == x && scope.reaches(*all[j].1) {
                        let j = choose|j: int|
                            0 <= j < seen && *(#[trigger] all[j]).0 == x && scope.reaches(
                                *all[j].1,
                            );
                        assert(j < k);
                    }
                }
            }
        }
        assert forall|id: u64|
            ids@.contains(id) <==> (self@.contains_key(id) && scope.reaches(self@[id])) by {
            if self@.contains_key(id) && scope.reaches(self@[id]) {
                assert(all.contains((&id, &self@[id])));
                let j = choose|j: int| 0 <= j < all.len() && all[j] == (&id, &self@[id]);
                assert(*all[j].0 == id);
            }
            if ids@.contains(id) {
                let j = choose|j: int|
                    0 <= j < seen && *(#[trigger] all[j]).0 == id && scope.reaches(*all[j].1);
                assert(self@.contains_key(*all[j].0) && self@[*all[j].0] == *all[j].1);
            }
        }
        ids
    }
}

} // verus!
