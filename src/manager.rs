use crate::fxmap::{fx_get, fx_insert, fx_new, fx_remove};
use crate::redraw::{Instant, RedrawRequest};
use crate::types::Id;
use crate::conversion::SeatModifiers;
use crate::types::{Point, Size};
use crate::window::{next_version, InputMethod, State, Window};
use rustc_hash::FxHashMap;
use vstd::prelude::*;
use vstd::std_specs::hash::group_hash_axioms;

verus! {

broadcast use group_hash_axioms;

/// A registered window with its identifier and the key of its native
/// surface.
pub struct Entry<R> {
    pub id: Id,
    pub alias: u64,
    pub window: Window<R>,
}

/// Whether the identifiers of `s` increase strictly.
pub open spec fn sorted_by_id<R>(s: Seq<Entry<R>>) -> bool {
    forall|i: int, j: int| 0 <= i < j < s.len() ==> s[i].id.0 < s[j].id.0
}

/// Whether the alias map `a` and the entries `s` describe the same windows:
/// each entry's surface key resolves to it, and each key resolves to an entry
/// registered under it.
pub open spec fn aliases_consistent<R>(s: Seq<Entry<R>>, a: Map<u64, Id>) -> bool {
    &&& forall|i: int| 0 <= i < s.len() ==> #[trigger] a.contains_key(s[i].alias) && a[s[i].alias] == s[i].id
    &&& forall|k: u64|
        #[trigger] a.contains_key(k) ==> exists|i: int| 0 <= i < s.len() && s[i].alias == k && s[i].id == a[k]
}

/// Whether `s` holds an entry for `id`.
pub open spec fn has_id<R>(s: Seq<Entry<R>>, id: Id) -> bool {
    exists|i: int| 0 <= i < s.len() && s[i].id == id
}

/// The position of the entry for `id` in `s`, when `s` has one.
pub open spec fn index_of_id<R>(s: Seq<Entry<R>>, id: Id) -> int {
    choose|i: int| 0 <= i < s.len() && s[i].id == id
}

/// The window registered as `id` in `s`, when `s` has one.
pub open spec fn window_of<R>(s: Seq<Entry<R>>, id: Id) -> Window<R> {
    s[index_of_id(s, id)].window
}

/// The registry of open windows: the windows by identifier, in increasing
/// order, and the identifier of each window by the key of its native surface.
pub struct WindowManager<R> {
    aliases: FxHashMap<u64, Id>,
    entries: Vec<Entry<R>>,
}

impl<R> WindowManager<R> {
    /// The registered windows, in increasing order of identifier.
    pub closed spec fn entries(&self) -> Seq<Entry<R>> {
        self.entries@
    }

    /// The identifier registered under each surface key.
    pub closed spec fn aliases(&self) -> Map<u64, Id> {
        self.aliases@
    }

    pub open spec fn wf(&self) -> bool {
        &&& sorted_by_id(self.entries())
        &&& aliases_consistent(self.entries(), self.aliases())
    }

    pub fn new() -> (r: WindowManager<R>)
        ensures
            r.wf(),
            r.entries().len() == 0,
            forall|k: u64| !#[trigger] r.aliases().contains_key(k),
    {
        WindowManager { aliases: fx_new(), entries: Vec::new() }
    }

    pub fn len(&self) -> (r: usize)
        ensures
            r == self.entries().len(),
    {
        self.entries.len()
    }

    pub fn is_empty(&self) -> (r: bool)
        ensures
            r == (self.entries().len() == 0),
    {
        self.entries.len() == 0
    }

    /// Whether no window has a redraw scheduled or requested.
    pub fn is_idle(&self) -> (r: bool)
        ensures
            r == forall|i: int| 0 <= i < self.entries().len() ==> #[trigger] self.entries()[i].window.redraw_at is Wait,
    {
        let mut i: usize = 0;
        while i < self.entries.len()
            invariant
                i <= self.entries@.len(),
                forall|k: int| 0 <= k < i ==> #[trigger] self.entries@[k].window.redraw_at is Wait,
            decreases self.entries@.len() - i,
        {
            if !self.entries[i].window.redraw_at.is_wait() {
                return false;
            }
            i = i + 1;
        }
        true
    }

    /// The earliest instant at which a window has a redraw scheduled, if any
    /// has one.
    pub fn redraw_at(&self) -> (r: Option<Instant>)
        ensures
            r is None <==> forall|i: int|
                0 <= i < self.entries().len() ==> !(#[trigger] self.entries()[i].window.redraw_at is At),
            r matches Some(t) ==> {
                &&& exists|i: int|
                    0 <= i < self.entries().len() && #[trigger] self.entries()[i].window.redraw_at
                        == RedrawRequest::At(t)
                &&& forall|i: int|
                    0 <= i < self.entries().len() && (#[trigger] self.entries()[i].window.redraw_at is At)
                        ==> t.0 <= self.entries()[i].window.redraw_at->At_0.0
            },
    {
        let mut best: Option<Instant> = None;
        let mut i: usize = 0;
        while i < self.entries.len()
            invariant
                i <= self.entries@.len(),
                best is None <==> forall|k: int| 0 <= k < i ==> !(#[trigger] self.entries@[k].window.redraw_at is At),
                best matches Some(t) ==> {
                    &&& exists|k: int| 0 <= k < i && #[trigger] self.entries@[k].window.redraw_at == RedrawRequest::At(t)
                    &&& forall|k: int|
                        0 <= k < i && (#[trigger] self.entries@[k].window.redraw_at is At) ==> t.0
                            <= self.entries@[k].window.redraw_at->At_0.0
                },
            decreases self.entries@.len() - i,
        {
            if let RedrawRequest::At(at) = self.entries[i].window.redraw_at {
                match best {
                    Some(t) => {
                        if at.0 < t.0 {
                            best = Some(at);
                        }
                    },
                    None => {
                        best = Some(at);
                    },
                }
            }
            i = i + 1;
        }
        best
    }

    /// The position of `id` among the entries, if it is registered.
    fn position(&self, id: Id) -> (r: Option<usize>)
        ensures
            r matches Some(i) ==> i < self.entries@.len() && self.entries@[i as int].id == id,
            r is None ==> !has_id(self.entries@, id),
    {
        let mut i: usize = 0;
        while i < self.entries.len()
            invariant
                i <= self.entries@.len(),
                forall|k: int| 0 <= k < i ==> #[trigger] self.entries@[k].id != id,
            decreases self.entries@.len() - i,
        {
            if self.entries[i].id.0 == id.0 {
                return Some(i);
            }
            i = i + 1;
        }
        None
    }

    /// The identifier at position `i`.
    pub fn id_at(&self, i: usize) -> (r: Id)
        requires
            i < self.entries().len(),
        ensures
            r == self.entries()[i as int].id,
    {
        self.entries[i].id
    }

    /// The window at position `i`.
    pub fn window_at(&self, i: usize) -> (r: &Window<R>)
        requires
            i < self.entries().len(),
        ensures
            *r == self.entries()[i as int].window,
    {
        &self.entries[i].window
    }

    /// The window at position `i`, to change it in place.
    pub fn window_at_mut(&mut self, i: usize) -> (r: &mut Window<R>)
        requires
            i < old(self).entries().len(),
        ensures
            *r == old(self).entries()[i as int].window,
            final(self).entries() == with_window(old(self).entries(), i as int, *final(r)),
            final(self).aliases() == old(self).aliases(),
    {
        &mut self.entries[i].window
    }

    /// Sets the cursor position of the window at position `i`.
    pub fn set_cursor(&mut self, i: usize, position: Option<Point>)
        requires
            old(self).wf(),
            i < old(self).entries().len(),
        ensures
            final(self).wf(),
            final(self).entries() == with_window(
                old(self).entries(),
                i as int,
                Window {
                    state: State { cursor_position: position, ..old(self).entries()[i as int].window.state },
                    ..old(self).entries()[i as int].window
                },
            ),
            final(self).aliases() == old(self).aliases(),
    {
        proof {
            lemma_update_window(self.entries@, self.aliases@, i as int);
        }
        self.entries[i].window.state.update_cursor(position);
        assert(self.entries@ =~= with_window(old(self).entries@, i as int, self.entries@[i as int].window));
    }

    /// Sets the seat modifiers of the window at position `i`.
    pub fn set_modifiers(&mut self, i: usize, m: SeatModifiers)
        requires
            old(self).wf(),
            i < old(self).entries().len(),
        ensures
            final(self).wf(),
            final(self).entries() == with_window(
                old(self).entries(),
                i as int,
                Window {
                    state: State { modifiers: m, ..old(self).entries()[i as int].window.state },
                    ..old(self).entries()[i as int].window
                },
            ),
            final(self).aliases() == old(self).aliases(),
    {
        proof {
            lemma_update_window(self.entries@, self.aliases@, i as int);
        }
        self.entries[i].window.state.update_modifiers(m);
        assert(self.entries@ =~= with_window(old(self).entries@, i as int, self.entries@[i as int].window));
    }

    /// Records a redraw request for the window at position `i`; returns
    /// whether a frame callback must be asked of the compositor.
    pub fn request_redraw(&mut self, i: usize, request: RedrawRequest) -> (ask_frame: bool)
        requires
            old(self).wf(),
            i < old(self).entries().len(),
        ensures
            final(self).wf(),
            final(self).entries() == with_window(
                old(self).entries(),
                i as int,
                Window {
                    redraw_at: old(self).entries()[i as int].window.redraw_at.after_request(request),
                    ..old(self).entries()[i as int].window
                },
            ),
            final(self).aliases() == old(self).aliases(),
            ask_frame == (!(old(self).entries()[i as int].window.redraw_at is NextFrame) && request is NextFrame),
    {
        proof {
            lemma_update_window(self.entries@, self.aliases@, i as int);
        }
        let ask = self.entries[i].window.request_redraw(request);
        assert(self.entries@ =~= with_window(old(self).entries@, i as int, self.entries@[i as int].window));
        ask
    }

    /// Resets the redraw state of the window at position `i` once its frame
    /// callback runs.
    pub fn reset_redraw(&mut self, i: usize)
        requires
            old(self).wf(),
            i < old(self).entries().len(),
        ensures
            final(self).wf(),
            final(self).entries() == with_window(
                old(self).entries(),
                i as int,
                Window { redraw_at: RedrawRequest::Wait, ..old(self).entries()[i as int].window },
            ),
            final(self).aliases() == old(self).aliases(),
    {
        proof {
            lemma_update_window(self.entries@, self.aliases@, i as int);
        }
        self.entries[i].window.redraw_at = RedrawRequest::Wait;
        assert(self.entries@ =~= with_window(old(self).entries@, i as int, self.entries@[i as int].window));
    }

    /// Gives the window at position `i` a new physical size and asks for a
    /// frame; returns whether a frame callback must be asked of the
    /// compositor.
    pub fn resize(&mut self, i: usize, size: Size) -> (ask_frame: bool)
        requires
            old(self).wf(),
            i < old(self).entries().len(),
        ensures
            final(self).wf(),
            final(self).entries() == with_window(
                old(self).entries(),
                i as int,
                Window {
                    state: State {
                        physical_size: size,
                        viewport_version: next_version(old(self).entries()[i as int].window.state.viewport_version),
                        ..old(self).entries()[i as int].window.state
                    },
                    redraw_at: old(self).entries()[i as int].window.redraw_at.after_request(RedrawRequest::NextFrame),
                    ..old(self).entries()[i as int].window
                },
            ),
            final(self).aliases() == old(self).aliases(),
            ask_frame == !(old(self).entries()[i as int].window.redraw_at is NextFrame),
    {
        proof {
            lemma_update_window(self.entries@, self.aliases@, i as int);
        }
        self.entries[i].window.state.resize(size);
        let ask = self.entries[i].window.request_redraw(RedrawRequest::NextFrame);
        assert(self.entries@ =~= with_window(old(self).entries@, i as int, self.entries@[i as int].window));
        ask
    }

    /// Marks the window at position `i` as laid out for its current viewport.
    /// Returns the size to lay it out again for when the viewport changed
    /// since the last layout.
    pub fn sync_viewport(&mut self, i: usize) -> (r: Option<Size>)
        requires
            old(self).wf(),
            i < old(self).entries().len(),
        ensures
            final(self).wf(),
            final(self).entries() == with_window(
                old(self).entries(),
                i as int,
                Window {
                    viewport_version: old(self).entries()[i as int].window.state.viewport_version,
                    ..old(self).entries()[i as int].window
                },
            ),
            final(self).aliases() == old(self).aliases(),
            r == (if old(self).entries()[i as int].window.viewport_version
                != old(self).entries()[i as int].window.state.viewport_version {
                Some(old(self).entries()[i as int].window.state.physical_size)
            } else {
                None
            }),
    {
        proof {
            lemma_update_window(self.entries@, self.aliases@, i as int);
        }
        let current = self.entries[i].window.state.viewport_version;
        let r = if self.entries[i].window.viewport_version != current {
            Some(self.entries[i].window.state.physical_size)
        } else {
            None
        };
        self.entries[i].window.viewport_version = current;
        assert(self.entries@ =~= with_window(old(self).entries@, i as int, self.entries@[i as int].window));
        r
    }

    /// Applies what the user interface of the window at position `i` asks of
    /// the input method; returns whether the composition overlay must be
    /// shaped again.
    pub fn request_input_method(&mut self, i: usize, input_method: InputMethod) -> (reshape: bool)
        requires
            old(self).wf(),
            i < old(self).entries().len(),
        ensures
            final(self).wf(),
            final(self).entries().len() == old(self).entries().len(),
            final(self).aliases() == old(self).aliases(),
            forall|j: int| 0 <= j < final(self).entries().len() && j != i ==> #[trigger] final(self).entries()[j] == old(self).entries()[j],
            final(self).entries()[i as int].id == old(self).entries()[i as int].id,
            final(self).entries()[i as int].window.redraw_at == old(self).entries()[i as int].window.redraw_at,
            final(self).entries()[i as int].window.state == old(self).entries()[i as int].window.state,
            final(self).entries()[i as int].window.ime_state == (match input_method {
                InputMethod::Disabled => None,
                InputMethod::Enabled { position, purpose, .. } => Some((position, purpose)),
            }),
            input_method is Disabled ==> final(self).entries()[i as int].window.preedit is None && !reshape,
    {
        proof {
            lemma_update_window(self.entries@, self.aliases@, i as int);
        }
        let reshape = self.entries[i].window.request_input_method(input_method);
        assert(self.entries@ =~= with_window(old(self).entries@, i as int, self.entries@[i as int].window));
        reshape
    }

    /// Applies the program's title and scale to the window at position `i`.
    pub fn synchronize(&mut self, i: usize, title: String, rescaled: bool)
        requires
            old(self).wf(),
            i < old(self).entries().len(),
        ensures
            final(self).wf(),
            final(self).entries().len() == old(self).entries().len(),
            final(self).aliases() == old(self).aliases(),
            forall|j: int| 0 <= j < final(self).entries().len() && j != i ==> #[trigger] final(self).entries()[j] == old(self).entries()[j],
            final(self).entries()[i as int].id == old(self).entries()[i as int].id,
            final(self).entries()[i as int].window.redraw_at == old(self).entries()[i as int].window.redraw_at,
            final(self).entries()[i as int].window.state.title@ == title@,
            final(self).entries()[i as int].window.state.viewport_version == (if rescaled {
                next_version(old(self).entries()[i as int].window.state.viewport_version)
            } else {
                old(self).entries()[i as int].window.state.viewport_version
            }),
    {
        proof {
            lemma_update_window(self.entries@, self.aliases@, i as int);
        }
        self.entries[i].window.state.synchronize(title, rescaled);
        assert(self.entries@ =~= with_window(old(self).entries@, i as int, self.entries@[i as int].window));
    }

    /// The identifier and window of the native surface with key `alias`, to
    /// change the window in place.
    pub fn get_mut_alias(&mut self, alias: u64) -> (r: Option<(Id, &mut Window<R>)>)
        requires
            old(self).wf(),
        ensures
            r is None <==> !old(self).aliases().contains_key(alias),
            r is None ==> *final(self) == *old(self),
            r matches Some((id, w)) ==> {
                let i = index_of_id(old(self).entries(), id);
                &&& id == old(self).aliases()[alias]
                &&& 0 <= i < old(self).entries().len()
                &&& old(self).entries()[i].id == id
                &&& *w == old(self).entries()[i].window
                &&& final(self).entries() == with_window(old(self).entries(), i, *final(w))
            },
            final(self).aliases() == old(self).aliases(),
    {
        match self.index_of_alias(alias) {
            Some((id, i)) => {
                proof {
                    lemma_index_of_id(self.entries@, i as int);
                }
                Some((id, &mut self.entries[i].window))
            },
            None => None,
        }
    }

    /// The window with the lowest identifier.
    pub fn first(&self) -> (r: Option<&Window<R>>)
        ensures
            r is None <==> self.entries().len() == 0,
            r matches Some(w) ==> *w == self.entries()[0].window,
    {
        if self.entries.len() == 0 {
            None
        } else {
            Some(&self.entries[0].window)
        }
    }

    /// The window registered as `id`.
    pub fn get(&self, id: Id) -> (r: Option<&Window<R>>)
        ensures
            r is None <==> !has_id(self.entries(), id),
            r matches Some(w) ==> exists|i: int|
                0 <= i < self.entries().len() && #[trigger] self.entries()[i].id == id && self.entries()[i].window
                    == *w,
    {
        match self.position(id) {
            Some(i) => {
                assert(self.entries()[i as int].id == id);
                Some(&self.entries[i].window)
            },
            None => None,
        }
    }

    /// The position of the window registered as `id`.
    pub fn index_of(&self, id: Id) -> (r: Option<usize>)
        ensures
            r is None <==> !has_id(self.entries(), id),
            r matches Some(i) ==> i < self.entries().len() && self.entries()[i as int].id == id,
    {
        self.position(id)
    }

    /// The identifier and position of the window whose native surface has the
    /// key `alias`.
    pub fn index_of_alias(&self, alias: u64) -> (r: Option<(Id, usize)>)
        requires
            self.wf(),
        ensures
            r is None <==> !self.aliases().contains_key(alias),
            r matches Some((id, i)) ==> {
                &&& i < self.entries().len()
                &&& self.entries()[i as int].id == id
                &&& self.entries()[i as int].alias == alias
                &&& self.aliases()[alias] == id
            },
    {
        match fx_get(&self.aliases, &alias) {
            Some(id) => {
                let id = *id;
                match self.position(id) {
                    Some(i) => {
                        proof {
                            let j = choose|j: int|
                                0 <= j < self.entries@.len() && self.entries@[j].alias == alias
                                    && self.entries@[j].id == self.aliases@[alias];
                            assert(self.entries@[j].id == self.entries@[i as int].id);
                            assert(j == i) by {
                                if j < i {
                                    assert(self.entries@[j].id.0 < self.entries@[i as int].id.0);
                                } else if j > i {
                                    assert(self.entries@[i as int].id.0 < self.entries@[j].id.0);
                                }
                            }
                        }
                        Some((id, i))
                    },
                    None => {
                        proof {
                            let j = choose|j: int|
                                0 <= j < self.entries@.len() && self.entries@[j].alias == alias
                                    && self.entries@[j].id == self.aliases@[alias];
                            assert(has_id(self.entries@, id));
                        }
                        None
                    },
                }
            },
            None => None,
        }
    }

    /// The window registered as `id`, to change it in place.
    pub fn get_mut(&mut self, id: Id) -> (r: Option<&mut Window<R>>)
        ensures
            r is None <==> !has_id(old(self).entries(), id),
            r is None ==> *final(self) == *old(self),
            r matches Some(w) ==> exists|i: int|
                0 <= i < old(self).entries().len() && #[trigger] old(self).entries()[i].id == id && *w
                    == old(self).entries()[i].window && final(self).entries() == old(self).entries().update(
                    i,
                    Entry { window: *final(w), ..old(self).entries()[i] },
                ),
            final(self).aliases() == old(self).aliases(),
    {
        match self.position(id) {
            Some(i) => {
                assert(old(self).entries()[i as int].id == id);
                Some(&mut self.entries[i].window)
            },
            None => None,
        }
    }

    /// Unregisters the window `id` from both maps and hands it back.
    pub fn remove(&mut self, id: Id) -> (r: Option<Window<R>>)
        requires
            old(self).wf(),
        ensures
            final(self).wf(),
            r is None <==> !has_id(old(self).entries(), id),
            r is None ==> final(self).entries() == old(self).entries() && final(self).aliases() == old(
                self,
            ).aliases(),
            r matches Some(w) ==> exists|i: int|
                0 <= i < old(self).entries().len() && #[trigger] old(self).entries()[i].id == id
                    && old(self).entries()[i].window == w && final(self).entries() == old(
                    self,
                ).entries().remove(i) && final(self).aliases() == old(self).aliases().remove(
                    old(self).entries()[i].alias,
                ),
            forall|e: Entry<R>|
                #[trigger] final(self).entries().contains(e) <==> old(self).entries().contains(e) && e.id
                    != id,
    {
        match self.position(id) {
            Some(i) => {
                proof {
                    lemma_remove_keeps_wf(self.entries@, self.aliases@, i as int);
                }
                let e = self.entries.remove(i);
                let _ = fx_remove(&mut self.aliases, &e.alias);
                assert(old(self).entries()[i as int].id == id);
                Some(e.window)
            },
            None => {
                assert forall|e: Entry<R>| #[trigger] self.entries@.contains(e) implies e.id != id by {
                    let k = choose|k: int| 0 <= k < self.entries@.len() && self.entries@[k] == e;
                }
                None
            },
        }
    }

    /// Registers `window` as `id` under the surface key `alias`. A window that
    /// was registered under the same identifier or the same key is dropped
    /// first, so both maps keep describing the same windows.
    pub fn insert(&mut self, id: Id, alias: u64, window: Window<R>)
        requires
            old(self).wf(),
        ensures
            final(self).wf(),
            final(self).aliases().contains_key(alias),
            final(self).aliases()[alias] == id,
            forall|e: Entry<R>|
                #[trigger] final(self).entries().contains(e) <==> e == (Entry { id, alias, window }) || (old(
                    self,
                ).entries().contains(e) && e.id != id && e.alias != alias),
    {
        let ghost s0 = self.entries@;
        let _ = self.remove(id);
        let ghost s1 = self.entries@;
        match self.index_of_alias(alias) {
            Some((other, _)) => {
                let ghost a1 = self.aliases@;
                let _ = self.remove(other);
                proof {
                    assert forall|e: Entry<R>| #[trigger] s1.contains(e) implies (e.id != other <==> e.alias
                        != alias) by {
                        let k = choose|k: int| 0 <= k < s1.len() && s1[k] == e;
                        let j = choose|j: int| 0 <= j < s1.len() && s1[j].alias == alias && s1[j].id == a1[alias];
                        if e.alias == alias {
                            assert(a1[s1[k].alias] == s1[k].id);
                        }
                        if e.id == other {
                            if k < j {
                                assert(s1[k].id.0 < s1[j].id.0);
                            } else if j < k {
                                assert(s1[j].id.0 < s1[k].id.0);
                            }
                        }
                    }
                }
            },
            None => {
                assert forall|e: Entry<R>| #[trigger] s1.contains(e) implies e.alias != alias by {
                    let k = choose|k: int| 0 <= k < s1.len() && s1[k] == e;
                    assert(self.aliases@.contains_key(s1[k].alias));
                }
            },
        }
        assert(forall|e: Entry<R>| #[trigger] self.entries@.contains(e) ==> e.id != id && e.alias != alias);
        self.insert_fresh(Entry { id, alias, window });
    }

    /// Registers `entry`, whose identifier and key are both unused, at its
    /// place in the order of identifiers.
    fn insert_fresh(&mut self, entry: Entry<R>)
        requires
            old(self).wf(),
            forall|e: Entry<R>| #[trigger]
                old(self).entries().contains(e) ==> e.id != entry.id && e.alias != entry.alias,
        ensures
            final(self).wf(),
            final(self).aliases().contains_key(entry.alias),
            final(self).aliases()[entry.alias] == entry.id,
            forall|e: Entry<R>| #[trigger]
                final(self).entries().contains(e) <==> e == entry || old(self).entries().contains(e),
    {
        let ghost s2 = self.entries@;
        let mut pos: usize = 0;
        while pos < self.entries.len() && self.entries[pos].id.0 < entry.id.0
            invariant
                pos <= self.entries@.len(),
                self.entries@ == s2,
                forall|k: int| 0 <= k < pos ==> #[trigger] self.entries@[k].id.0 < entry.id.0,
            decreases self.entries@.len() - pos,
        {
            pos = pos + 1;
        }
        proof {
            assert forall|k: int| pos <= k < s2.len() implies entry.id.0 < #[trigger] s2[k].id.0 by {
                assert(s2.contains(s2[k]));
                if k > pos {
                    assert(s2[pos as int].id.0 < s2[k].id.0);
                }
                assert(s2.contains(s2[pos as int]));
            }
            lemma_insert_keeps_wf(s2, self.aliases@, pos as int, entry);
        }
        let alias = entry.alias;
        let id = entry.id;
        self.entries.insert(pos, entry);
        let _ = fx_insert(&mut self.aliases, alias, id);
    }
}

/// Inserting `ne` at `pos`, where it fits the order and its key and
/// identifier are unused, keeps the entries sorted and consistent with the
/// alias map that maps its key to its identifier.
proof fn lemma_insert_keeps_wf<R>(s2: Seq<Entry<R>>, a2: Map<u64, Id>, pos: int, ne: Entry<R>)
    requires
        sorted_by_id(s2),
        aliases_consistent(s2, a2),
        0 <= pos <= s2.len(),
        forall|k: int| 0 <= k < pos ==> #[trigger] s2[k].id.0 < ne.id.0,
        forall|k: int| pos <= k < s2.len() ==> ne.id.0 < #[trigger] s2[k].id.0,
        forall|e: Entry<R>| #[trigger] s2.contains(e) ==> e.id != ne.id && e.alias != ne.alias,
    ensures
        sorted_by_id(s2.insert(pos, ne)),
        aliases_consistent(s2.insert(pos, ne), a2.insert(ne.alias, ne.id)),
        forall|e: Entry<R>| #[trigger] s2.insert(pos, ne).contains(e) <==> e == ne || s2.contains(e),
{
    let s3 = s2.insert(pos, ne);
    let a3 = a2.insert(ne.alias, ne.id);
    assert forall|i: int, j: int| 0 <= i < j < s3.len() implies s3[i].id.0 < s3[j].id.0 by {
        if j < pos {
        } else if j == pos {
        } else if i < pos {
            assert(s3[j] == s2[j - 1]);
        } else if i == pos {
            assert(s3[j] == s2[j - 1]);
        } else {
            assert(s3[i] == s2[i - 1]);
            assert(s3[j] == s2[j - 1]);
        }
    }
    assert forall|i: int| 0 <= i < s3.len() implies #[trigger] a3.contains_key(s3[i].alias) && a3[s3[i].alias]
        == s3[i].id by {
        if i < pos {
            assert(s3[i] == s2[i]);
            assert(s2.contains(s2[i]));
        } else if i > pos {
            assert(s3[i] == s2[i - 1]);
            assert(s2.contains(s2[i - 1]));
        }
    }
    assert forall|k: u64| #[trigger] a3.contains_key(k) implies exists|i: int|
        0 <= i < s3.len() && s3[i].alias == k && s3[i].id == a3[k] by {
        if k == ne.alias {
            assert(s3[pos] == ne);
        } else {
            let j = choose|j: int| 0 <= j < s2.len() && s2[j].alias == k && s2[j].id == a2[k];
            if j < pos {
                assert(s3[j] == s2[j]);
            } else {
                assert(s3[j + 1] == s2[j]);
            }
        }
    }
    assert forall|e: Entry<R>| #[trigger] s3.contains(e) <==> e == ne || s2.contains(e) by {
        if s3.contains(e) {
            let k = choose|k: int| 0 <= k < s3.len() && s3[k] == e;
            if k < pos {
                assert(s2[k] == e);
            } else if k > pos {
                assert(s2[k - 1] == e);
            }
        }
        if s2.contains(e) {
            let k = choose|k: int| 0 <= k < s2.len() && s2[k] == e;
            if k < pos {
                assert(s3[k] == e);
            } else {
                assert(s3[k + 1] == e);
            }
        }
        if e == ne {
            assert(s3[pos] == e);
        }
    }
}

/// Removing the entry at `i` keeps the entries sorted and consistent with the
/// alias map once the entry's key is removed from it too, and drops exactly
/// the entries with that identifier.
proof fn lemma_remove_keeps_wf<R>(s: Seq<Entry<R>>, a: Map<u64, Id>, i: int)
    requires
        sorted_by_id(s),
        aliases_consistent(s, a),
        0 <= i < s.len(),
    ensures
        sorted_by_id(s.remove(i)),
        aliases_consistent(s.remove(i), a.remove(s[i].alias)),
        forall|e: Entry<R>| #[trigger] s.remove(i).contains(e) <==> s.contains(e) && e.id != s[i].id,
{
    let t = s.remove(i);
    let b = a.remove(s[i].alias);
    assert forall|x: int, y: int| 0 <= x < y < t.len() implies t[x].id.0 < t[y].id.0 by {
        if y < i {
        } else if x < i {
            assert(t[y] == s[y + 1]);
        } else {
            assert(t[x] == s[x + 1]);
            assert(t[y] == s[y + 1]);
        }
    }
    assert forall|k: int| 0 <= k < t.len() implies #[trigger] b.contains_key(t[k].alias) && b[t[k].alias]
        == t[k].id by {
        let j = if k < i { k } else { k + 1 };
        assert(t[k] == s[j]);
        assert(a.contains_key(s[j].alias));
        if s[j].alias == s[i].alias {
            assert(a[s[i].alias] == s[i].id);
            if j < i {
                assert(s[j].id.0 < s[i].id.0);
            } else {
                assert(s[i].id.0 < s[j].id.0);
            }
        }
    }
    assert forall|k: u64| #[trigger] b.contains_key(k) implies exists|x: int|
        0 <= x < t.len() && t[x].alias == k && t[x].id == b[k] by {
        let j = choose|j: int| 0 <= j < s.len() && s[j].alias == k && s[j].id == a[k];
        assert(j != i);
        if j < i {
            assert(t[j] == s[j]);
        } else {
            assert(t[j - 1] == s[j]);
        }
    }
    assert forall|e: Entry<R>| #[trigger] t.contains(e) <==> s.contains(e) && e.id != s[i].id by {
        if t.contains(e) {
            let k = choose|k: int| 0 <= k < t.len() && t[k] == e;
            let j = if k < i { k } else { k + 1 };
            assert(t[k] == s[j]);
            if j < i {
                assert(s[j].id.0 < s[i].id.0);
            } else {
                assert(s[i].id.0 < s[j].id.0);
            }
        }
        if s.contains(e) && e.id != s[i].id {
            let j = choose|j: int| 0 <= j < s.len() && s[j] == e;
            if j < i {
                assert(t[j] == e);
            } else {
                assert(t[j - 1] == e);
            }
        }
    }
}

/// In sorted entries, the entry found for an identifier is the one at `i`.
pub proof fn lemma_index_of_id<R>(s: Seq<Entry<R>>, i: int)
    requires
        sorted_by_id(s),
        0 <= i < s.len(),
    ensures
        index_of_id(s, s[i].id) == i,
        window_of(s, s[i].id) == s[i].window,
{
    let j = index_of_id(s, s[i].id);
    if j < i {
        assert(s[j].id.0 < s[i].id.0);
    } else if j > i {
        assert(s[i].id.0 < s[j].id.0);
    }
}

/// Entries with the same identifiers and keys, position by position, keep
/// the registry well formed.
pub proof fn lemma_same_keys<R>(s: Seq<Entry<R>>, t: Seq<Entry<R>>, a: Map<u64, Id>)
    requires
        sorted_by_id(s),
        aliases_consistent(s, a),
        s.len() == t.len(),
        forall|i: int| 0 <= i < s.len() ==> #[trigger] t[i].id == s[i].id && t[i].alias == s[i].alias,
    ensures
        sorted_by_id(t),
        aliases_consistent(t, a),
        forall|id: Id| has_id(s, id) <==> #[trigger] has_id(t, id),
{
    assert forall|i: int, j: int| 0 <= i < j < t.len() implies t[i].id.0 < t[j].id.0 by {
        assert(t[i].id == s[i].id);
        assert(t[j].id == s[j].id);
    }
    assert forall|i: int| 0 <= i < t.len() implies #[trigger] a.contains_key(t[i].alias) && a[t[i].alias] == t[i].id by {
        assert(t[i].id == s[i].id);
    }
    assert forall|k: u64| #[trigger] a.contains_key(k) implies exists|i: int|
        0 <= i < t.len() && t[i].alias == k && t[i].id == a[k] by {
        let i = choose|i: int| 0 <= i < s.len() && s[i].alias == k && s[i].id == a[k];
        assert(t[i].id == s[i].id);
    }
    assert forall|id: Id| has_id(s, id) <==> #[trigger] has_id(t, id) by {
        if has_id(s, id) {
            let i = choose|i: int| 0 <= i < s.len() && s[i].id == id;
            assert(t[i].id == s[i].id);
        }
        if has_id(t, id) {
            let i = choose|i: int| 0 <= i < t.len() && t[i].id == id;
            assert(t[i].id == s[i].id);
        }
    }
}

/// `s` with the window at `i` replaced by `w`.
pub open spec fn with_window<R>(s: Seq<Entry<R>>, i: int, w: Window<R>) -> Seq<Entry<R>> {
    s.update(i, Entry { window: w, ..s[i] })
}

/// Replacing the window at `i`, whatever the new window is, keeps the
/// registry well formed.
pub proof fn lemma_update_window<R>(s: Seq<Entry<R>>, a: Map<u64, Id>, i: int)
    requires
        sorted_by_id(s),
        aliases_consistent(s, a),
        0 <= i < s.len(),
    ensures
        forall|w: Window<R>|
            sorted_by_id(#[trigger] with_window(s, i, w)) && aliases_consistent(with_window(s, i, w), a),
{
    assert forall|w: Window<R>|
        sorted_by_id(#[trigger] with_window(s, i, w)) && aliases_consistent(with_window(s, i, w), a) by {
        lemma_same_keys(s, with_window(s, i, w), a);
    }
}

/// Whatever sequence of `insert` and `remove` calls built it, a registry
/// that `new` started stays well formed, and then each surface key resolves
/// to an entry registered under that key, and each entry's key resolves to
/// that entry.
pub proof fn lemma_aliases_resolve<R>(m: WindowManager<R>)
    requires
        m.wf(),
    ensures
        forall|k: u64|
            #[trigger] m.aliases().contains_key(k) ==> exists|i: int|
                0 <= i < m.entries().len() && m.entries()[i].alias == k && m.entries()[i].id == m.aliases()[k],
        forall|i: int|
            0 <= i < m.entries().len() ==> #[trigger] m.aliases().contains_key(m.entries()[i].alias)
                && m.aliases()[m.entries()[i].alias] == m.entries()[i].id,
{
    assert(aliases_consistent(m.entries(), m.aliases()));
    assert forall|i: int| 0 <= i < m.entries().len() implies #[trigger] m.aliases().contains_key(m.entries()[i].alias)
        && m.aliases()[m.entries()[i].alias] == m.entries()[i].id by {
        let s = m.entries();
        assert(m.aliases().contains_key(s[i].alias));
    }
}

} // verus!
