use crate::fxmap::{fx_get, fx_insert, fx_into_entries, fx_new, fx_remove};
use crate::types::Id;
use crate::window::next_version;
use rustc_hash::FxHashMap;
use vstd::prelude::*;
use vstd::std_specs::hash::group_hash_axioms;

verus! {

broadcast use group_hash_axioms;

/// The user interface of one window, in one of its two forms. `C` is the
/// inert cache: layout and widget state that borrows nothing.
#[derive(Debug)]
pub enum Ui<C> {
    /// A live tree, built from `cache` against the program as it stood at
    /// `revision`.
    Tree { cache: C, revision: u64 },
    /// The cache alone, which outlives changes of the program.
    Cached(C),
}

/// The cache that a user interface is torn down into.
pub open spec fn cache_of<C>(ui: Ui<C>) -> C {
    match ui {
        Ui::Tree { cache, .. } => cache,
        Ui::Cached(cache) => cache,
    }
}

/// The tree built from `cache` against the program at `revision`.
pub open spec fn built_from<C>(cache: C, revision: u64) -> Ui<C> {
    Ui::Tree { cache, revision }
}

/// The user interfaces of all windows, with the revision of the program that
/// they may borrow. The program only changes between `begin_update` and
/// `finish_update`, while every interface is a cache; so no tree outlives a
/// change of the program.
pub struct Interfaces<C> {
    revision: u64,
    updating: bool,
    uis: FxHashMap<u64, Ui<C>>,
}

impl<C> Interfaces<C> {
    /// The revision of the program; it moves on with every change.
    pub closed spec fn revision(&self) -> u64 {
        self.revision
    }

    /// Whether the program is open for change.
    pub closed spec fn updating(&self) -> bool {
        self.updating
    }

    /// The interface of each window, by the window's identifier.
    pub closed spec fn uis(&self) -> Map<u64, Ui<C>> {
        self.uis@
    }

    /// Every tree borrows the program as it stands, and while the program is
    /// open for change no tree exists at all.
    pub open spec fn wf(&self) -> bool {
        forall|k: u64|
            #[trigger] self.uis().contains_key(k) ==> match self.uis()[k] {
                Ui::Tree { revision, .. } => revision == self.revision() && !self.updating(),
                Ui::Cached(_) => true,
            }
    }

    pub fn new() -> (r: Interfaces<C>)
        ensures
            r.wf(),
            r.revision() == 0,
            !r.updating(),
            forall|k: u64| !#[trigger] r.uis().contains_key(k),
    {
        Interfaces { revision: 0, updating: false, uis: fx_new() }
    }

    /// Whether window `id` has an interface.
    pub fn contains(&self, id: Id) -> (r: bool)
        ensures
            r == self.uis().contains_key(id.0),
    {
        fx_get(&self.uis, &id.0).is_some()
    }

    /// Whether the program is open for change.
    pub fn is_updating(&self) -> (r: bool)
        ensures
            r == self.updating(),
    {
        self.updating
    }

    /// Builds the tree of window `id` from `cache` against the program as it
    /// stands, replacing what the window had.
    pub fn build(&mut self, id: Id, cache: C)
        requires
            old(self).wf(),
            !old(self).updating(),
        ensures
            final(self).wf(),
            final(self).revision() == old(self).revision(),
            !final(self).updating(),
            final(self).uis() == old(self).uis().insert(id.0, built_from(cache, old(self).revision())),
    {
        let _ = fx_insert(&mut self.uis, id.0, Ui::Tree { cache, revision: self.revision });
    }

    /// Drops the interface of window `id`.
    pub fn remove(&mut self, id: Id) -> (r: Option<Ui<C>>)
        requires
            old(self).wf(),
        ensures
            final(self).wf(),
            final(self).revision() == old(self).revision(),
            final(self).updating() == old(self).updating(),
            final(self).uis() == old(self).uis().remove(id.0),
            r == (if old(self).uis().contains_key(id.0) {
                Some(old(self).uis()[id.0])
            } else {
                None
            }),
    {
        fx_remove(&mut self.uis, &id.0)
    }

    /// Tears the tree of window `id` down to its cache and builds it again
    /// against the program as it stands.
    pub fn rebuild(&mut self, id: Id)
        requires
            old(self).wf(),
            !old(self).updating(),
        ensures
            final(self).wf(),
            final(self).revision() == old(self).revision(),
            !final(self).updating(),
            final(self).uis() == (if old(self).uis().contains_key(id.0) {
                old(self).uis().insert(id.0, built_from(cache_of(old(self).uis()[id.0]), old(self).revision()))
            } else {
                old(self).uis()
            }),
    {
        match fx_remove(&mut self.uis, &id.0) {
            Some(ui) => {
                let cache = into_cache(ui);
                let _ = fx_insert(&mut self.uis, id.0, Ui::Tree { cache, revision: self.revision });
                assert(self.uis@ =~= old(self).uis().insert(
                    id.0,
                    built_from(cache_of(old(self).uis()[id.0]), old(self).revision()),
                ));
            },
            None => {},
        }
    }

    /// Tears every tree down to its cache and opens the program for change.
    pub fn begin_update(&mut self)
        requires
            old(self).wf(),
            !old(self).updating(),
        ensures
            final(self).wf(),
            final(self).updating(),
            final(self).revision() == old(self).revision(),
            final(self).uis().dom() == old(self).uis().dom(),
            forall|k: u64| #[trigger]
                final(self).uis().contains_key(k) ==> final(self).uis()[k] == Ui::Cached(
                    cache_of(old(self).uis()[k]),
                ),
    {
        let mut uis = fx_new();
        core::mem::swap(&mut self.uis, &mut uis);
        let ghost old_uis = uis@;
        let entries = fx_into_entries(uis);
        let mut entries = entries;
        let ghost all = entries@;
        self.updating = true;
        while entries.len() > 0
            invariant
                self.updating,
                self.revision == old(self).revision,
                all.len() >= entries@.len(),
                entries@ == all.take(entries@.len() as int),
                forall|i: int, j: int| 0 <= i < j < all.len() ==> all[i].0 != all[j].0,
                forall|i: int| 0 <= i < all.len() ==> #[trigger] old_uis.contains_key(all[i].0) && old_uis[all[i].0] == all[i].1,
                forall|k: u64| #[trigger] old_uis.contains_key(k) ==> exists|i: int| 0 <= i < all.len() && all[i].0 == k,
                forall|k: u64|
                    #[trigger] self.uis@.contains_key(k) <==> exists|i: int|
                        entries@.len() <= i < all.len() && all[i].0 == k,
                forall|k: u64| #[trigger]
                    self.uis@.contains_key(k) ==> self.uis@[k] == Ui::Cached(cache_of(old_uis[k])),
                old_uis == old(self).uis@,
            decreases entries@.len(),
        {
            let ghost before = entries@;
            let (k, ui) = entries.pop().unwrap();
            let ghost n = entries@.len();
            proof {
                assert(before[n as int] == all[n as int]);
                assert((k, ui) == before[n as int]);
                assert(old_uis.contains_key(all[n as int].0));
                assert(old_uis[k] == ui);
            }
            let cache = into_cache(ui);
            let _ = fx_insert(&mut self.uis, k, Ui::Cached(cache));
            proof {
                assert(all[n as int].0 == k);
                assert forall|x: u64| #[trigger] self.uis@.contains_key(x) <==> exists|i: int|
                    n <= i < all.len() && all[i].0 == x by {
                    if x == k {
                        assert(all[n as int].0 == x);
                    }
                    if exists|i: int| n <= i < all.len() && all[i].0 == x {
                        let i = choose|i: int| n <= i < all.len() && all[i].0 == x;
                        if i > n {
                            assert(exists|i2: int| n + 1 <= i2 < all.len() && all[i2].0 == x);
                        }
                    }
                }
            }
        }
        proof {
            assert forall|k: u64| #[trigger] old_uis.contains_key(k) implies self.uis@.contains_key(k) by {
                let i = choose|i: int| 0 <= i < all.len() && all[i].0 == k;
            }
            assert(self.uis@.dom() =~= old_uis.dom());
        }
    }

    /// Closes the program after a change: the revision moves on, and every
    /// cache of a window that `keep` lists is built into a tree against the
    /// changed program. The caches of other windows are dropped.
    pub fn finish_update(&mut self, keep: &Vec<Id>)
        requires
            old(self).wf(),
            old(self).updating(),
        ensures
            final(self).wf(),
            !final(self).updating(),
            final(self).revision() == next_version(old(self).revision()),
            forall|k: u64| #[trigger]
                final(self).uis().contains_key(k) <==> old(self).uis().contains_key(k) && keep@.contains(
                    Id(k),
                ),
            forall|k: u64| #[trigger]
                final(self).uis().contains_key(k) ==> final(self).uis()[k] == built_from(
                    cache_of(old(self).uis()[k]),
                    final(self).revision(),
                ),
    {
        self.revision = if self.revision == u64::MAX {
            0
        } else {
            self.revision + 1
        };
        let mut uis = fx_new();
        core::mem::swap(&mut self.uis, &mut uis);
        let ghost old_uis = uis@;
        self.updating = false;
        let mut i: usize = 0;
        while i < keep.len()
            invariant
                i <= keep@.len(),
                !self.updating,
                self.revision == next_version(old(self).revision),
                old_uis == old(self).uis@,
                forall|k: u64| #[trigger] uis@.contains_key(k) ==> old_uis.contains_key(k) && uis@[k] == old_uis[k],
                forall|k: u64|
                    #[trigger] old_uis.contains_key(k) ==> (uis@.contains_key(k) || self.uis@.contains_key(k)),
                forall|k: u64|
                    #[trigger] self.uis@.contains_key(k) <==> old_uis.contains_key(k) && exists|j: int|
                        0 <= j < i && keep@[j] == Id(k),
                forall|k: u64|
                    #[trigger] self.uis@.contains_key(k) ==> !uis@.contains_key(k) && self.uis@[k] == built_from(
                        cache_of(old_uis[k]),
                        self.revision,
                    ),
            decreases keep@.len() - i,
        {
            let id = keep[i];
            match fx_remove(&mut uis, &id.0) {
                Some(ui) => {
                    let cache = into_cache(ui);
                    let _ = fx_insert(&mut self.uis, id.0, Ui::Tree { cache, revision: self.revision });
                },
                None => {},
            }
            proof {
                assert forall|k: u64| #[trigger] self.uis@.contains_key(k) <==> old_uis.contains_key(k)
                    && exists|j: int| 0 <= j < i + 1 && keep@[j] == Id(k) by {
                    if k == id.0 {
                        assert(keep@[i as int] == Id(k));
                    }
                    if exists|j: int| 0 <= j < i + 1 && keep@[j] == Id(k) {
                        let j = choose|j: int| 0 <= j < i + 1 && keep@[j] == Id(k);
                        if j < i {
                            assert(exists|j2: int| 0 <= j2 < i && keep@[j2] == Id(k));
                        }
                    }
                }
            }
            i = i + 1;
        }
        proof {
            assert forall|k: u64| #[trigger] self.uis@.contains_key(k) implies keep@.contains(Id(k)) by {
                let j = choose|j: int| 0 <= j < keep@.len() && keep@[j] == Id(k);
            }
            assert forall|k: u64| old_uis.contains_key(k) && #[trigger] keep@.contains(Id(k)) implies self.uis@.contains_key(k) by {
                let j = choose|j: int| 0 <= j < keep@.len() && keep@[j] == Id(k);
            }
        }
    }
}

/// Tears a user interface down to its cache.
pub fn into_cache<C>(ui: Ui<C>) -> (r: C)
    ensures
        r == cache_of(ui),
{
    match ui {
        Ui::Tree { cache, .. } => cache,
        Ui::Cached(cache) => cache,
    }
}

/// Tearing a tree down to its cache and building it again against an
/// unchanged program gives back the same tree.
pub proof fn lemma_cache_round_trip<C>(ui: Ui<C>, revision: u64)
    requires
        ui matches Ui::Tree { revision: r, .. } && r == revision,
    ensures
        built_from(cache_of(ui), revision) == ui,
{
}

} // verus!
