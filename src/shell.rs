use crate::conversion::{
    button, button_of, code, code_of, key, key_of, location, location_of, modifiers, modifiers_bits, Modifiers,
    Physical, SeatModifiers,
};
use crate::event::{Event, KeyboardEvent, LayerEvent, MouseEvent, TouchEvent, WindowEvent};
use crate::fxmap::{fx_get, fx_get_mut, fx_insert, fx_into_entries, fx_is_empty, fx_new, fx_remove};
use crate::manager::{sorted_by_id, has_id, index_of_id, lemma_index_of_id, lemma_same_keys, lemma_update_window, window_of, with_window, Entry, WindowManager};
use crate::window::{next_version, InputMethod, State, Window};
use crate::action::{Action, LayerSettings};
use crate::program::{cache_of, built_from, Interfaces};
use crate::redraw::{Instant, RedrawRequest};
use crate::types::{Id, Point, Size};
use rustc_hash::FxHashMap;
use vstd::prelude::*;
use vstd::std_specs::hash::group_hash_axioms;

verus! {

broadcast use group_hash_axioms;

/// A window whose layer surface was asked for and not yet configured by the
/// compositor. `R` is what the platform holds for it.
pub struct InProgressWindow<R> {
    pub id: Id,
    pub raw: R,
}

/// The events of `s` addressed to `id`, in arrival order.
pub open spec fn events_for(s: Seq<(Id, Event)>, id: Id) -> Seq<Event>
    decreases s.len(),
{
    if s.len() == 0 {
        Seq::empty()
    } else if s.last().0 == id {
        events_for(s.drop_last(), id).push(s.last().1)
    } else {
        events_for(s.drop_last(), id)
    }
}

/// The events of `s` addressed to other windows than `id`, in arrival order.
pub open spec fn events_except(s: Seq<(Id, Event)>, id: Id) -> Seq<(Id, Event)>
    decreases s.len(),
{
    if s.len() == 0 {
        Seq::empty()
    } else if s.last().0 == id {
        events_except(s.drop_last(), id)
    } else {
        events_except(s.drop_last(), id).push(s.last())
    }
}

/// The key press event of keysym `k` under the seat modifiers `m`.
pub open spec fn key_pressed(k: u32, raw_code: u32, m: SeatModifiers, text: Option<String>) -> Event {
    Event::Keyboard(
        KeyboardEvent::KeyPressed {
            key: key_of(k),
            modified_key: key_of(k),
            physical_key: match code_of(k) {
                Some(c) => Physical::Code(c),
                None => Physical::Unidentified(raw_code),
            },
            location: location_of(k),
            modifiers: Modifiers { bits: modifiers_bits(m) },
            text,
        },
    )
}

/// The key release event of keysym `k` under the seat modifiers `m`.
pub open spec fn key_released(k: u32, raw_code: u32, m: SeatModifiers) -> Event {
    Event::Keyboard(
        KeyboardEvent::KeyReleased {
            key: key_of(k),
            modified_key: key_of(k),
            physical_key: match code_of(k) {
                Some(c) => Physical::Code(c),
                None => Physical::Unidentified(raw_code),
            },
            location: location_of(k),
            modifiers: Modifiers { bits: modifiers_bits(m) },
        },
    )
}

/// When the loop's timer fires next.
#[derive(Clone, Copy, Debug, PartialEq, Eq, Structural)]
pub enum TimeoutAction {
    ToInstant(Instant),
    Drop,
}

/// The redraw state after a timer firing at `now` found `r`.
pub open spec fn after_timer(r: RedrawRequest, now: Instant) -> RedrawRequest {
    if r.is_due(now) {
        RedrawRequest::NextFrame
    } else {
        r
    }
}

/// The identifier of the finger of touch contact `c`: its bits, as unsigned.
pub open spec fn finger_id(c: i32) -> u64 {
    #[verifier::truncate]
    (c as u64)
}

fn finger(c: i32) -> (r: u64)
    ensures
        r == finger_id(c),
{
    #[verifier::truncate]
    (c as u64)
}

/// The event that tells window `v.0` that contact `c`, last at `v.1`, was lost.
pub open spec fn lost_event(c: i32, v: (Id, Point)) -> (Id, Event) {
    (v.0, Event::Touch(TouchEvent::FingerLost { id: finger_id(c), position: v.1 }))
}

/// Whether window `id` in `s` must ask the compositor for a frame callback
/// once it requests a frame: it has no frame requested yet.
pub open spec fn asks_frame<R>(s: Seq<Entry<R>>, id: Id) -> bool {
    exists|i: int| 0 <= i < s.len() && s[i].id == id && !(s[i].window.redraw_at is NextFrame)
}

/// Whether `after` is `before` with the tree of every window of `s` that has
/// one built again from its own cache against the same program revision.
pub open spec fn reloaded<C, R>(before: Interfaces<C>, after: Interfaces<C>, s: Seq<Entry<R>>) -> bool {
    &&& !after.updating()
    &&& after.revision() == before.revision()
    &&& forall|k: u64| #[trigger] after.uis().contains_key(k) <==> before.uis().contains_key(k)
    &&& forall|k: u64|
        #[trigger] after.uis().contains_key(k) ==> after.uis()[k] == (if has_id(s, Id(k)) {
            built_from(cache_of(before.uis()[k]), before.revision())
        } else {
            before.uis()[k]
        })
}

/// What a pointer did over a surface.
#[derive(Clone, Copy, Debug, PartialEq, Eq, Structural)]
pub enum PointerKind {
    Enter,
    Leave,
    Motion,
    /// A button, by its linux input code, was pressed.
    Press(u32),
    Release(u32),
    /// The wheel or touchpad scrolled, in the compositor's fixed-point unit.
    Axis { horizontal: i32, vertical: i32 },
}

/// One event of a pointer frame: the surface, by its key, and where on it.
#[derive(Clone, Copy, Debug, PartialEq, Eq, Structural)]
pub struct PointerEvent {
    pub surface: u64,
    pub position: Point,
    pub kind: PointerKind,
}

/// The event that the application sees for a pointer event.
pub open spec fn pointer_event_of(e: PointerEvent) -> Event {
    match e.kind {
        PointerKind::Enter => Event::Mouse(MouseEvent::CursorEntered),
        PointerKind::Leave => Event::Mouse(MouseEvent::CursorLeft),
        PointerKind::Motion => Event::Mouse(MouseEvent::CursorMoved { position: e.position }),
        PointerKind::Press(b) => Event::Mouse(MouseEvent::ButtonPressed(button_of(b))),
        PointerKind::Release(b) => Event::Mouse(MouseEvent::ButtonReleased(button_of(b))),
        PointerKind::Axis { horizontal, vertical } => Event::Mouse(
            MouseEvent::WheelScrolled { x: horizontal, y: vertical },
        ),
    }
}

/// The cursor position of a window after pointer event `e` over it.
pub open spec fn cursor_after(cursor: Option<Point>, e: PointerEvent) -> Option<Point> {
    match e.kind {
        PointerKind::Enter | PointerKind::Motion => Some(e.position),
        PointerKind::Leave => None,
        _ => cursor,
    }
}

/// The cursor position of window `id`, starting at `c`, after the pointer
/// events `evs`, given the surface keys `a`.
pub open spec fn cursor_through(a: Map<u64, Id>, id: Id, evs: Seq<PointerEvent>, c: Option<Point>) -> Option<Point>
    decreases evs.len(),
{
    if evs.len() == 0 {
        c
    } else if a.contains_key(evs.last().surface) && a[evs.last().surface] == id {
        cursor_after(cursor_through(a, id, evs.drop_last(), c), evs.last())
    } else {
        cursor_through(a, id, evs.drop_last(), c)
    }
}

/// `e` with its window's cursor position set to `c`.
pub open spec fn with_cursor<R>(e: Entry<R>, c: Option<Point>) -> Entry<R> {
    Entry { window: Window { state: State { cursor_position: c, ..e.window.state }, ..e.window }, ..e }
}

/// The events that the pointer events `evs` queue, given the surface keys
/// `a`: one for each event over a known surface, in order.
pub open spec fn routed(a: Map<u64, Id>, evs: Seq<PointerEvent>) -> Seq<(Id, Event)>
    decreases evs.len(),
{
    if evs.len() == 0 {
        Seq::empty()
    } else if a.contains_key(evs.last().surface) {
        routed(a, evs.drop_last()).push((a[evs.last().surface], pointer_event_of(evs.last())))
    } else {
        routed(a, evs.drop_last())
    }
}

/// What a configure event of the compositor leads to.
pub enum Configure<R> {
    /// A window being opened got its size: set up its renderer, then register
    /// it with `open_window`.
    Open(InProgressWindow<R>),
    /// An open window was resized; `ask_frame` when a frame callback must be
    /// asked of the compositor.
    Resized { id: Id, ask_frame: bool },
    /// The surface is not known.
    Unknown,
}

/// What a frame callback leads to.
#[derive(Clone, Copy, Debug, PartialEq, Eq, Structural)]
pub enum Frame {
    /// Nothing to draw: no renderer yet, an unknown surface or an empty one.
    Skip,
    /// Draw window `id` at position `index`; lay its user interface out again
    /// for `relayout` and reconfigure its surface first, when given.
    Draw { id: Id, index: usize, relayout: Option<Size> },
}

/// What a user interface reported after an update.
pub enum UiState {
    Updated { redraw_request: RedrawRequest, input_method: InputMethod },
    /// The cache underneath it must be rebuilt.
    Outdated,
}

/// What the platform side does for an action after the shell took its part.
pub enum Dispatch {
    /// Nothing more.
    Done,
    /// Create a layer surface with `settings`, then register it with
    /// `open_layer`.
    OpenLayer(Id, LayerSettings),
    /// Gather system information on a worker and reply.
    QueryInformation,
    /// Run the widget operation, and each one it chains to, over every user
    /// interface.
    ApplyWidgetOperation,
    /// Load the font into the renderer and reply.
    LoadFont(Vec<u8>),
    /// Ask the compositor for a frame callback for these windows.
    AskFrames(Vec<Id>),
}

/// The decisions of the event loop: which window events go to, when windows
/// are redrawn, and when the program may change. `M` is the program's
/// message, `R` what the platform and renderer hold for each window, and `C`
/// the cache of a user interface.
pub struct Shell<M, R, C> {
    window_manager: WindowManager<R>,
    interfaces: Interfaces<C>,
    events: Vec<(Id, Event)>,
    messages: Vec<M>,
    actions: usize,
    is_daemon: bool,
    exiting: bool,
    has_compositor: bool,
    uis_stale: bool,
    timer_deadline: Option<Instant>,
    in_progress_windows: FxHashMap<u64, InProgressWindow<R>>,
    keyboard_focuses: FxHashMap<u64, Id>,
    touches: FxHashMap<u64, FxHashMap<i32, (Id, Point)>>,
}

impl<M, R, C> Shell<M, R, C> {
    /// The registry of open windows.
    pub closed spec fn manager(&self) -> WindowManager<R> {
        self.window_manager
    }

    /// The user interfaces of the windows.
    pub closed spec fn ui_state(&self) -> Interfaces<C> {
        self.interfaces
    }

    /// The events waiting for the next idle pass, in arrival order.
    pub closed spec fn events(&self) -> Seq<(Id, Event)> {
        self.events@
    }

    /// The messages waiting for the program's update, in arrival order.
    pub closed spec fn messages(&self) -> Seq<M> {
        self.messages@
    }

    /// Whether no window is ever opened by default, so that closing the last
    /// one does not end the loop.
    pub closed spec fn is_daemon(&self) -> bool {
        self.is_daemon
    }

    /// Whether the loop was told to stop.
    pub closed spec fn exiting(&self) -> bool {
        self.exiting
    }

    /// Whether the graphics backend exists.
    pub closed spec fn has_compositor(&self) -> bool {
        self.has_compositor
    }

    /// The deadline that the loop's timer is armed with.
    pub closed spec fn timer_deadline(&self) -> Option<Instant> {
        self.timer_deadline
    }

    /// Whether an update of this pass found a user interface outdated.
    pub closed spec fn uis_stale(&self) -> bool {
        self.uis_stale
    }

    /// How many actions arrived since the last idle pass.
    pub closed spec fn actions(&self) -> usize {
        self.actions
    }

    /// The windows being opened, by the key of their native surface.
    pub closed spec fn in_progress(&self) -> Map<u64, InProgressWindow<R>> {
        self.in_progress_windows@
    }

    /// The window that has the focus of each keyboard.
    pub closed spec fn focuses(&self) -> Map<u64, Id> {
        self.keyboard_focuses@
    }

    /// How many contacts of touch device `t` are tracked.
    pub closed spec fn contact_count(&self, t: u64) -> nat {
        if self.touches@.contains_key(t) {
            self.touches@[t]@.dom().len()
        } else {
            0
        }
    }

    /// Whether `e` tells a window that one of the contacts of touch device
    /// `touch` was lost.
    pub open spec fn is_lost_event(&self, touch: u64, e: (Id, Event)) -> bool {
        exists|c: i32| #[trigger] self.contact(touch, c) is Some && e == lost_event(c, self.contact(touch, c)->0)
    }

    /// The window and position of contact `c` of touch device `t`, while it
    /// lasts.
    pub closed spec fn contact(&self, t: u64, c: i32) -> Option<(Id, Point)> {
        if self.touches@.contains_key(t) && self.touches@[t]@.contains_key(c) {
            Some(self.touches@[t]@[c])
        } else {
            None
        }
    }

    pub open spec fn wf(&self) -> bool {
        &&& self.manager().wf()
        &&& self.ui_state().wf()
    }

    /// A shell with no window; `is_daemon` when no window is opened at start.
    pub fn new(is_daemon: bool) -> (r: Shell<M, R, C>)
        ensures
            r.wf(),
            r.manager().entries().len() == 0,
            !r.ui_state().updating(),
            r.events().len() == 0,
            r.messages().len() == 0,
            r.is_daemon() == is_daemon,
            !r.exiting(),
            !r.has_compositor(),
            r.timer_deadline() is None,
            forall|k: u64| !#[trigger] r.in_progress().contains_key(k),
    {
        Shell {
            window_manager: WindowManager::new(),
            interfaces: Interfaces::new(),
            events: Vec::new(),
            messages: Vec::new(),
            actions: 0,
            is_daemon,
            exiting: false,
            has_compositor: false,
            uis_stale: false,
            timer_deadline: None,
            in_progress_windows: fx_new(),
            keyboard_focuses: fx_new(),
            touches: fx_new(),
        }
    }

    /// Whether the loop was told to stop.
    pub fn is_exiting(&self) -> (r: bool)
        ensures
            r == self.exiting(),
    {
        self.exiting
    }

    /// Tells the loop to stop.
    pub fn exit(&mut self)
        ensures
            final(self).exiting(),
            final(self).manager() == old(self).manager(),
            final(self).ui_state() == old(self).ui_state(),
            final(self).events() == old(self).events(),
            final(self).messages() == old(self).messages(),
    {
        self.exiting = true;
    }

    /// Records that the graphics backend was created.
    pub fn set_compositor_ready(&mut self)
        ensures
            final(self).has_compositor(),
            final(self).manager() == old(self).manager(),
            final(self).ui_state() == old(self).ui_state(),
            final(self).events() == old(self).events(),
            final(self).exiting() == old(self).exiting(),
    {
        self.has_compositor = true;
    }

    /// Queues `event` for window `id`.
    fn push_event(&mut self, id: Id, event: Event)
        ensures
            final(self).events() == old(self).events().push((id, event)),
            final(self).manager() == old(self).manager(),
            final(self).ui_state() == old(self).ui_state(),
            final(self).messages() == old(self).messages(),
            final(self).exiting() == old(self).exiting(),
            final(self).focuses() == old(self).focuses(),
    {
        self.events.push((id, event));
    }

    /// Queues `message` for the program's update.
    pub fn push_message(&mut self, message: M)
        ensures
            final(self).messages() == old(self).messages().push(message),
            final(self).events() == old(self).events(),
            final(self).manager() == old(self).manager(),
            final(self).ui_state() == old(self).ui_state(),
    {
        self.messages.push(message);
    }

    /// Takes out the events addressed to `id`, in arrival order; the others
    /// stay queued in their order.
    pub fn take_window_events(&mut self, id: Id) -> (r: Vec<Event>)
        ensures
            r@ == events_for(old(self).events(), id),
            final(self).events() == events_except(old(self).events(), id),
            final(self).messages() == old(self).messages(),
            final(self).manager() == old(self).manager(),
            final(self).ui_state() == old(self).ui_state(),
            final(self).exiting() == old(self).exiting(),
            final(self).uis_stale() == old(self).uis_stale(),
    {
        let mut input: Vec<(Id, Event)> = Vec::new();
        std::mem::swap(&mut input, &mut self.events);
        let ghost all = input@;
        let mut taken: Vec<Event> = Vec::new();
        let ghost mut i: int = 0;
        while input.len() > 0
            invariant
                0 <= i <= all.len(),
                input@ == all.subrange(i, all.len() as int),
                taken@ == events_for(all.take(i), id),
                self.events@ == events_except(all.take(i), id),
                self.messages == old(self).messages,
                self.window_manager == old(self).manager(),
                self.interfaces == old(self).ui_state(),
                self.exiting == old(self).exiting,
                self.uis_stale == old(self).uis_stale,
            decreases input@.len(),
        {
            let (wid, event) = input.remove(0);
            proof {
                assert(all.take(i + 1).drop_last() =~= all.take(i));
                assert(all.take(i + 1).last() == all[i]);
                assert(all[i] == (wid, event));
            }
            if wid.0 == id.0 {
                taken.push(event);
            } else {
                self.events.push((wid, event));
            }
            proof {
                i = i + 1;
            }
        }
        assert(all.take(i) =~= all);
        taken
    }

    /// Takes out every queued event, in arrival order.
    pub fn drain_events(&mut self) -> (r: Vec<(Id, Event)>)
        ensures
            r@ == old(self).events(),
            final(self).events().len() == 0,
            final(self).messages() == old(self).messages(),
            final(self).manager() == old(self).manager(),
            final(self).ui_state() == old(self).ui_state(),
    {
        let mut r: Vec<(Id, Event)> = Vec::new();
        std::mem::swap(&mut r, &mut self.events);
        r
    }

    /// Closes window `id`: its user interface and its entry go, and a
    /// `Closed` event is queued for it. When no window is left or being
    /// opened, the graphics backend is dropped, and unless the shell is a
    /// daemon the loop is told to stop.
    pub fn close_window(&mut self, id: Id)
        requires
            old(self).wf(),
        ensures
            final(self).wf(),
            final(self).ui_state().uis() == old(self).ui_state().uis().remove(id.0),
            final(self).ui_state().updating() == old(self).ui_state().updating(),
            final(self).ui_state().revision() == old(self).ui_state().revision(),
            forall|i: int|
                0 <= i < final(self).manager().entries().len()
                    ==> #[trigger] final(self).manager().entries()[i].id != id,
            final(self).manager().entries().len() == (if has_id(old(self).manager().entries(), id) {
                old(self).manager().entries().len() - 1
            } else {
                old(self).manager().entries().len() as int
            }),
            final(self).events() == (if has_id(old(self).manager().entries(), id) {
                old(self).events().push((id, Event::Window(WindowEvent::Closed)))
            } else {
                old(self).events()
            }),
            final(self).messages() == old(self).messages(),
            final(self).exiting() == (old(self).exiting() || (!old(self).is_daemon()
                && old(self).in_progress().dom().len() == 0 && final(self).manager().entries().len()
                == 0)),
            final(self).has_compositor() == (old(self).has_compositor()
                && final(self).manager().entries().len() > 0),
            final(self).actions() == old(self).actions(),
            final(self).uis_stale() == old(self).uis_stale(),
    {
        let _ = self.interfaces.remove(id);
        if let Some(_window) = self.window_manager.remove(id) {
            self.events.push((id, Event::Window(WindowEvent::Closed)));
        }
        if self.window_manager.is_empty() {
            self.has_compositor = false;
            if !self.is_daemon && fx_is_empty(&self.in_progress_windows) {
                self.exiting = true;
            }
        }
        proof {
            assert forall|i: int|
                0 <= i < self.window_manager.entries().len() implies #[trigger] self.window_manager.entries()[i].id
                != id by {
                assert(self.window_manager.entries().contains(self.window_manager.entries()[i]));
            }
            if has_id(old(self).manager().entries(), id) {
                let k = choose|k: int| 0 <= k < old(self).manager().entries().len()
                    && old(self).manager().entries()[k].id == id;
            }
        }
    }

    /// The registry of open windows.
    pub fn window_manager(&self) -> (r: &WindowManager<R>)
        ensures
            *r == self.manager(),
    {
        &self.window_manager
    }

    /// What the platform holds for the window at position `i`, to change it in
    /// place.
    pub fn raw_mut(&mut self, i: usize) -> (r: &mut R)
        requires
            old(self).wf(),
            i < old(self).manager().entries().len(),
        ensures
            final(self).wf(),
            *r == old(self).manager().entries()[i as int].window.raw,
            final(self).manager().entries() == with_window(
                old(self).manager().entries(),
                i as int,
                Window { raw: *final(r), ..old(self).manager().entries()[i as int].window },
            ),
            final(self).ui_state() == old(self).ui_state(),
            final(self).events() == old(self).events(),
            final(self).messages() == old(self).messages(),
    {
        proof {
            lemma_update_window(self.window_manager.entries(), self.window_manager.aliases(), i as int);
        }
        let w = self.window_manager.window_at_mut(i);
        &mut w.raw
    }

    /// Promotes every window whose scheduled redraw is due at `now` to a frame
    /// request. Returns the windows that must now ask the compositor for a
    /// frame callback, and when the timer fires next.
    pub fn on_timer_wake(&mut self, now: Instant) -> (r: (Vec<Id>, TimeoutAction))
        requires
            old(self).wf(),
        ensures
            final(self).wf(),
            final(self).manager().entries().len() == old(self).manager().entries().len(),
            forall|i: int|
                0 <= i < old(self).manager().entries().len() ==> #[trigger] final(self).manager().entries()[i]
                    == (Entry {
                    window: Window {
                        redraw_at: after_timer(old(self).manager().entries()[i].window.redraw_at, now),
                        ..old(self).manager().entries()[i].window
                    },
                    ..old(self).manager().entries()[i]
                }),
            forall|id: Id|
                r.0@.contains(id) <==> exists|i: int|
                    0 <= i < old(self).manager().entries().len() && #[trigger] old(self).manager().entries()[i].id
                        == id && old(self).manager().entries()[i].window.redraw_at.is_due(now),
            r.1 is Drop <==> forall|i: int|
                0 <= i < final(self).manager().entries().len() ==> !(
                #[trigger] final(self).manager().entries()[i].window.redraw_at is At),
            r.1 matches TimeoutAction::ToInstant(t) ==> t.0 > now.0 && exists|i: int|
                0 <= i < final(self).manager().entries().len() && #[trigger] final(self).manager().entries()[i].window.redraw_at
                    == RedrawRequest::At(t),
            r.1 matches TimeoutAction::ToInstant(t) ==> forall|i: int|
                0 <= i < final(self).manager().entries().len() && (
                #[trigger] final(self).manager().entries()[i].window.redraw_at is At) ==> t.0
                    <= final(self).manager().entries()[i].window.redraw_at->At_0.0,
            final(self).ui_state() == old(self).ui_state(),
            final(self).events() == old(self).events(),
            final(self).messages() == old(self).messages(),
    {
        let ghost s0 = self.window_manager.entries();
        let ghost a0 = self.window_manager.aliases();
        let mut asks: Vec<Id> = Vec::new();
        let mut i: usize = 0;
        while i < self.window_manager.len()
            invariant
                self.wf(),
                i <= s0.len(),
                self.window_manager.entries().len() == s0.len(),
                self.window_manager.aliases() == a0,
                self.interfaces == old(self).interfaces,
                self.events == old(self).events,
                self.messages == old(self).messages,
                forall|k: int| 0 <= k < i ==> #[trigger] self.window_manager.entries()[k] == (Entry {
                    window: Window { redraw_at: after_timer(s0[k].window.redraw_at, now), ..s0[k].window },
                    ..s0[k]
                }),
                forall|k: int| i <= k < s0.len() ==> #[trigger] self.window_manager.entries()[k] == s0[k],
                forall|id: Id|
                    asks@.contains(id) <==> exists|k: int|
                        0 <= k < i && #[trigger] s0[k].id == id && s0[k].window.redraw_at.is_due(now),
            decreases s0.len() - i,
        {
            let id = self.window_manager.id_at(i);
            let ghost before = self.window_manager.entries();
            let ghost asks0 = asks@;
            let due = self.window_manager.window_at(i).redraw_at.due(now);
            if due {
                let w = self.window_manager.window_at_mut(i);
                let ask = w.request_redraw(RedrawRequest::NextFrame);
                if ask {
                    asks.push(id);
                }
                proof {
                    lemma_same_keys(before, self.window_manager.entries(), a0);
                }
            }
            proof {
                assert(self.window_manager.entries()[i as int] == (Entry {
                    window: Window { redraw_at: after_timer(s0[i as int].window.redraw_at, now), ..s0[i as int].window },
                    ..s0[i as int]
                }));
                assert(id == s0[i as int].id);
                assert(due == s0[i as int].window.redraw_at.is_due(now));
                assert(asks@ == if due { asks0.push(id) } else { asks0 });
                assert forall|x: Id| asks@.contains(x) <==> exists|k: int|
                    0 <= k < i + 1 && #[trigger] s0[k].id == x && s0[k].window.redraw_at.is_due(now) by {
                    if exists|k: int| 0 <= k < i + 1 && #[trigger] s0[k].id == x && s0[k].window.redraw_at.is_due(now) {
                        let k = choose|k: int| 0 <= k < i + 1 && #[trigger] s0[k].id == x && s0[k].window.redraw_at.is_due(now);
                        if k == i {
                            assert(asks@[asks@.len() - 1] == x);
                        } else {
                            assert(asks0.contains(x));
                            let j = choose|j: int| 0 <= j < asks0.len() && asks0[j] == x;
                            assert(asks@[j] == x);
                        }
                    }
                    if asks@.contains(x) {
                        let j = choose|j: int| 0 <= j < asks@.len() && asks@[j] == x;
                        if j < asks0.len() {
                            assert(asks0[j] == x);
                            assert(asks0.contains(x));
                        } else {
                            assert(s0[i as int].id == x);
                        }
                    }
                }
            }
            i = i + 1;
        }
        let next = match self.window_manager.redraw_at() {
            Some(at) => TimeoutAction::ToInstant(at),
            None => TimeoutAction::Drop,
        };
        (asks, next)
    }

    /// Arms the timer for the earliest scheduled redraw when that comes before
    /// the deadline it is armed with, or when it is not armed. Returns the new
    /// deadline when the timer must be armed again; a deadline is only ever
    /// moved earlier.
    pub fn schedule_wake_if_needed(&mut self) -> (r: Option<Instant>)
        requires
            old(self).wf(),
        ensures
            final(self).wf(),
            final(self).manager() == old(self).manager(),
            final(self).ui_state() == old(self).ui_state(),
            final(self).events() == old(self).events(),
            final(self).messages() == old(self).messages(),
            final(self).exiting() == old(self).exiting(),
            match r {
                Some(t) => {
                    &&& final(self).timer_deadline() == Some(t)
                    &&& (old(self).timer_deadline() matches Some(d) ==> t.0 < d.0)
                    &&& exists|i: int|
                        0 <= i < old(self).manager().entries().len() && #[trigger] old(self).manager().entries()[i].window.redraw_at
                            == RedrawRequest::At(t)
                    &&& forall|i: int|
                        0 <= i < old(self).manager().entries().len() && (
                        #[trigger] old(self).manager().entries()[i].window.redraw_at is At) ==> t.0
                            <= old(self).manager().entries()[i].window.redraw_at->At_0.0
                },
                None => {
                    &&& final(self).timer_deadline() == old(self).timer_deadline()
                    &&& forall|i: int|
                        0 <= i < old(self).manager().entries().len() && (
                        #[trigger] old(self).manager().entries()[i].window.redraw_at is At)
                            ==> (old(self).timer_deadline() matches Some(d)
                            && d.0 <= old(self).manager().entries()[i].window.redraw_at->At_0.0)
                },
            },
    {
        match self.window_manager.redraw_at() {
            Some(new) => {
                let earlier = match self.timer_deadline {
                    Some(current) => current.0 > new.0,
                    None => true,
                };
                if earlier {
                    self.timer_deadline = Some(new);
                    Some(new)
                } else {
                    None
                }
            },
            None => None,
        }
    }

    /// Records that the timer fired and is no longer armed.
    pub fn timer_fired(&mut self)
        ensures
            final(self).timer_deadline() is None,
            final(self).manager() == old(self).manager(),
            final(self).ui_state() == old(self).ui_state(),
            final(self).events() == old(self).events(),
            final(self).messages() == old(self).messages(),
    {
        self.timer_deadline = None;
    }

    /// Keyboard `keyboard` entered the surface with key `alias`: the window
    /// takes its focus and is told so.
    pub fn enter(&mut self, keyboard: u64, alias: u64)
        requires
            old(self).wf(),
        ensures
            final(self).wf(),
            final(self).manager() == old(self).manager(),
            final(self).ui_state() == old(self).ui_state(),
            final(self).messages() == old(self).messages(),
            if old(self).manager().aliases().contains_key(alias) {
                let id = old(self).manager().aliases()[alias];
                &&& final(self).focuses() == old(self).focuses().insert(keyboard, id)
                &&& final(self).events() == old(self).events().push((id, Event::Window(WindowEvent::Focused)))
            } else {
                &&& final(self).focuses() == old(self).focuses()
                &&& final(self).events() == old(self).events()
            },
    {
        if let Some((id, _)) = self.window_manager.index_of_alias(alias) {
            let _ = fx_insert(&mut self.keyboard_focuses, keyboard, id);
            self.events.push((id, Event::Window(WindowEvent::Focused)));
        }
    }

    /// Keyboard `keyboard` left the surface with key `alias`: it focuses no
    /// window, and the window learns that no modifier is held and that it
    /// lost the focus.
    pub fn leave(&mut self, keyboard: u64, alias: u64)
        requires
            old(self).wf(),
        ensures
            final(self).wf(),
            final(self).ui_state() == old(self).ui_state(),
            final(self).messages() == old(self).messages(),
            final(self).focuses() == old(self).focuses().remove(keyboard),
            if old(self).manager().aliases().contains_key(alias) {
                let id = old(self).manager().aliases()[alias];
                &&& final(self).events() == old(self).events().push(
                    (id, Event::Keyboard(KeyboardEvent::ModifiersChanged(Modifiers { bits: 0 }))),
                ).push((id, Event::Window(WindowEvent::Unfocused)))
                &&& final(self).manager().entries() == with_window(
                    old(self).manager().entries(),
                    index_of_id(old(self).manager().entries(), id),
                    Window {
                        state: State {
                            modifiers: SeatModifiers {
                                ctrl: false,
                                alt: false,
                                shift: false,
                                caps_lock: false,
                                logo: false,
                                num_lock: false,
                            },
                            ..old(self).manager().entries()[index_of_id(old(self).manager().entries(), id)].window.state
                        },
                        ..old(self).manager().entries()[index_of_id(old(self).manager().entries(), id)].window
                    },
                )
            } else {
                &&& final(self).manager() == old(self).manager()
                &&& final(self).events() == old(self).events()
            },
    {
        let _ = fx_remove(&mut self.keyboard_focuses, &keyboard);
        if let Some((id, i)) = self.window_manager.index_of_alias(alias) {
            proof {
                lemma_index_of_id(self.window_manager.entries(), i as int);
            }
            self.window_manager.set_modifiers(i, SeatModifiers::none());
            self.events.push((id, Event::Keyboard(KeyboardEvent::ModifiersChanged(Modifiers::empty()))));
            self.events.push((id, Event::Window(WindowEvent::Unfocused)));
        }
    }

    /// The window that keyboard `keyboard` focuses, if it is open.
    fn focused_window(&self, keyboard: u64) -> (r: Option<(Id, usize)>)
        requires
            self.wf(),
        ensures
            r is Some <==> self.focuses().contains_key(keyboard) && has_id(
                self.manager().entries(),
                self.focuses()[keyboard],
            ),
            r matches Some((id, i)) ==> {
                &&& id == self.focuses()[keyboard]
                &&& i < self.manager().entries().len()
                &&& self.manager().entries()[i as int].id == id
                &&& index_of_id(self.manager().entries(), id) == i
            },
    {
        match fx_get(&self.keyboard_focuses, &keyboard) {
            Some(id) => {
                let id = *id;
                match self.window_manager.index_of(id) {
                    Some(i) => {
                        proof {
                            lemma_index_of_id(self.window_manager.entries(), i as int);
                        }
                        Some((id, i))
                    },
                    None => None,
                }
            },
            None => None,
        }
    }

    /// A key was pressed on keyboard `keyboard`: the window it focuses, if
    /// open, gets a key press carrying the converted key and the modifiers
    /// that the window last saw.
    pub fn press_key(&mut self, keyboard: u64, keysym: u32, raw_code: u32, text: Option<String>)
        requires
            old(self).wf(),
        ensures
            final(self).wf(),
            final(self).manager() == old(self).manager(),
            final(self).ui_state() == old(self).ui_state(),
            final(self).messages() == old(self).messages(),
            final(self).focuses() == old(self).focuses(),
            if old(self).focuses().contains_key(keyboard) && has_id(
                old(self).manager().entries(),
                old(self).focuses()[keyboard],
            ) {
                let id = old(self).focuses()[keyboard];
                let m = window_of(old(self).manager().entries(), id).state.modifiers;
                final(self).events() == old(self).events().push((id, key_pressed(keysym, raw_code, m, text)))
            } else {
                final(self).events() == old(self).events()
            },
    {
        if let Some((id, i)) = self.focused_window(keyboard) {
            let m = self.window_manager.window_at(i).state.modifiers();
            let k = key(keysym);
            let event = Event::Keyboard(
                KeyboardEvent::KeyPressed {
                    key: k,
                    modified_key: k,
                    physical_key: code(keysym, raw_code),
                    location: location(keysym),
                    modifiers: modifiers(m),
                    text,
                },
            );
            self.events.push((id, event));
        }
    }

    /// A key was released on keyboard `keyboard`: the window it focuses, if
    /// open, gets a key release.
    pub fn release_key(&mut self, keyboard: u64, keysym: u32, raw_code: u32)
        requires
            old(self).wf(),
        ensures
            final(self).wf(),
            final(self).manager() == old(self).manager(),
            final(self).ui_state() == old(self).ui_state(),
            final(self).messages() == old(self).messages(),
            final(self).focuses() == old(self).focuses(),
            if old(self).focuses().contains_key(keyboard) && has_id(
                old(self).manager().entries(),
                old(self).focuses()[keyboard],
            ) {
                let id = old(self).focuses()[keyboard];
                let m = window_of(old(self).manager().entries(), id).state.modifiers;
                final(self).events() == old(self).events().push((id, key_released(keysym, raw_code, m)))
            } else {
                final(self).events() == old(self).events()
            },
    {
        if let Some((id, i)) = self.focused_window(keyboard) {
            let m = self.window_manager.window_at(i).state.modifiers();
            let k = key(keysym);
            let event = Event::Keyboard(
                KeyboardEvent::KeyReleased {
                    key: k,
                    modified_key: k,
                    physical_key: code(keysym, raw_code),
                    location: location(keysym),
                    modifiers: modifiers(m),
                },
            );
            self.events.push((id, event));
        }
    }

    /// The modifiers of keyboard `keyboard` changed: the window it focuses, if
    /// open, keeps them and is told.
    pub fn update_modifiers(&mut self, keyboard: u64, m: SeatModifiers)
        requires
            old(self).wf(),
        ensures
            final(self).wf(),
            final(self).ui_state() == old(self).ui_state(),
            final(self).messages() == old(self).messages(),
            final(self).focuses() == old(self).focuses(),
            if old(self).focuses().contains_key(keyboard) && has_id(
                old(self).manager().entries(),
                old(self).focuses()[keyboard],
            ) {
                let id = old(self).focuses()[keyboard];
                let i = index_of_id(old(self).manager().entries(), id);
                &&& final(self).events() == old(self).events().push(
                    (id, Event::Keyboard(KeyboardEvent::ModifiersChanged(Modifiers { bits: modifiers_bits(m) }))),
                )
                &&& final(self).manager().entries() == with_window(
                    old(self).manager().entries(),
                    i,
                    Window {
                        state: State { modifiers: m, ..old(self).manager().entries()[i].window.state },
                        ..old(self).manager().entries()[i].window
                    },
                )
            } else {
                &&& final(self).manager() == old(self).manager()
                &&& final(self).events() == old(self).events()
            },
    {
        if let Some((id, i)) = self.focused_window(keyboard) {
            self.window_manager.set_modifiers(i, m);
            self.events.push((id, Event::Keyboard(KeyboardEvent::ModifiersChanged(modifiers(m)))));
        }
    }

    /// Keyboard `keyboard` went away with its seat's capability: the window
    /// it focused, if open, learns that no modifier is held and that it lost
    /// the focus.
    pub fn remove_keyboard(&mut self, keyboard: u64)
        requires
            old(self).wf(),
        ensures
            final(self).wf(),
            final(self).ui_state() == old(self).ui_state(),
            final(self).messages() == old(self).messages(),
            final(self).focuses() == old(self).focuses().remove(keyboard),
            if old(self).focuses().contains_key(keyboard) && has_id(
                old(self).manager().entries(),
                old(self).focuses()[keyboard],
            ) {
                let id = old(self).focuses()[keyboard];
                final(self).events() == old(self).events().push(
                    (id, Event::Keyboard(KeyboardEvent::ModifiersChanged(Modifiers { bits: 0 }))),
                ).push((id, Event::Window(WindowEvent::Unfocused)))
            } else {
                &&& final(self).manager() == old(self).manager()
                &&& final(self).events() == old(self).events()
            },
    {
        let focus = self.focused_window(keyboard);
        let _ = fx_remove(&mut self.keyboard_focuses, &keyboard);
        if let Some((id, i)) = focus {
            self.window_manager.set_modifiers(i, SeatModifiers::none());
            self.events.push((id, Event::Keyboard(KeyboardEvent::ModifiersChanged(Modifiers::empty()))));
            self.events.push((id, Event::Window(WindowEvent::Unfocused)));
        }
    }

    /// Contact `touch_id` of touch device `touch` went down on the surface
    /// with key `alias`: the contact is tracked with its window and position,
    /// the window's cursor moves there, and it gets a finger press.
    pub fn down(&mut self, touch: u64, alias: u64, touch_id: i32, position: Point)
        requires
            old(self).wf(),
        ensures
            final(self).wf(),
            final(self).ui_state() == old(self).ui_state(),
            final(self).messages() == old(self).messages(),
            final(self).focuses() == old(self).focuses(),
            if old(self).manager().aliases().contains_key(alias) {
                let id = old(self).manager().aliases()[alias];
                &&& final(self).contact(touch, touch_id) == Some((id, position))
                &&& forall|t: u64, c: i32|
                    (t != touch || c != touch_id) ==> #[trigger] final(self).contact(t, c) == old(self).contact(t, c)
                &&& final(self).events() == old(self).events().push(
                    (id, Event::Touch(TouchEvent::FingerPressed { id: finger_id(touch_id), position })),
                )
                &&& final(self).manager().aliases() == old(self).manager().aliases()
                &&& final(self).manager().entries().len() == old(self).manager().entries().len()
            } else {
                &&& final(self).manager() == old(self).manager()
                &&& final(self).events() == old(self).events()
                &&& forall|t: u64, c: i32| #[trigger] final(self).contact(t, c) == old(self).contact(t, c)
            },
    {
        if let Some((id, i)) = self.window_manager.index_of_alias(alias) {
            let ghost before = self.touches@;
            match fx_get_mut(&mut self.touches, &touch) {
                Some(contacts) => {
                    let _ = fx_insert(contacts, touch_id, (id, position));
                    assert(self.touches@[touch]@ == before[touch]@.insert(touch_id, (id, position)));
                },
                None => {
                    let mut contacts = fx_new();
                    let _ = fx_insert(&mut contacts, touch_id, (id, position));
                    let _ = fx_insert(&mut self.touches, touch, contacts);
                    assert(forall|c: i32| c != touch_id ==> !#[trigger] self.touches@[touch]@.contains_key(c));
                },
            }
            proof {
                assert forall|t: u64, c: i32| (t != touch || c != touch_id) implies #[trigger] self.contact(t, c)
                    == old(self).contact(t, c) by {
                    if t == touch && before.contains_key(t) {
                        assert(self.touches@[t]@ == before[t]@.insert(touch_id, (id, position)));
                    }
                }
                assert(self.contact(touch, touch_id) == Some((id, position)));
            }
            self.window_manager.set_cursor(i, Some(position));
            self.events.push((id, Event::Touch(TouchEvent::FingerPressed { id: finger(touch_id), position })));
        }
    }

    /// Contact `touch_id` of touch device `touch` lifted: it is no longer
    /// tracked, and its window gets a finger lift at its last position.
    pub fn up(&mut self, touch: u64, touch_id: i32)
        requires
            old(self).wf(),
        ensures
            final(self).wf(),
            final(self).manager() == old(self).manager(),
            final(self).ui_state() == old(self).ui_state(),
            final(self).messages() == old(self).messages(),
            final(self).contact(touch, touch_id) is None,
            forall|t: u64, c: i32|
                (t != touch || c != touch_id) ==> #[trigger] final(self).contact(t, c) == old(self).contact(t, c),
            final(self).events() == match old(self).contact(touch, touch_id) {
                Some((id, position)) => old(self).events().push(
                    (id, Event::Touch(TouchEvent::FingerLifted { id: finger_id(touch_id), position })),
                ),
                None => old(self).events(),
            },
    {
        let ghost before = self.touches@;
        match fx_get_mut(&mut self.touches, &touch) {
            Some(contacts) => {
                match fx_remove(contacts, &touch_id) {
                    Some((id, position)) => {
                        self.events.push(
                            (id, Event::Touch(TouchEvent::FingerLifted { id: finger(touch_id), position })),
                        );
                    },
                    None => {},
                }
            },
            None => {},
        }
        proof {
            assert forall|t: u64, c: i32| (t != touch || c != touch_id) implies #[trigger] self.contact(t, c)
                == old(self).contact(t, c) by {
                if t == touch && before.contains_key(t) {
                    assert(self.touches@[t]@ == before[t]@.remove(touch_id));
                }
            }
        }
    }

    /// Contact `touch_id` of touch device `touch` moved: while it is tracked
    /// and its window is open, its position and the window's cursor follow,
    /// and the window gets a finger move.
    pub fn motion(&mut self, touch: u64, touch_id: i32, position: Point)
        requires
            old(self).wf(),
        ensures
            final(self).wf(),
            final(self).ui_state() == old(self).ui_state(),
            final(self).messages() == old(self).messages(),
            match old(self).contact(touch, touch_id) {
                Some((id, _)) if has_id(old(self).manager().entries(), id) => {
                    &&& final(self).contact(touch, touch_id) == Some((id, position))
                    &&& final(self).events() == old(self).events().push(
                        (id, Event::Touch(TouchEvent::FingerMoved { id: finger_id(touch_id), position })),
                    )
                },
                _ => {
                    &&& final(self).contact(touch, touch_id) == old(self).contact(touch, touch_id)
                    &&& final(self).events() == old(self).events()
                    &&& final(self).manager() == old(self).manager()
                },
            },
            forall|t: u64, c: i32|
                (t != touch || c != touch_id) ==> #[trigger] final(self).contact(t, c) == old(self).contact(t, c),
    {
        let ghost before = self.touches@;
        let found = match fx_get(&self.touches, &touch) {
            Some(contacts) => match fx_get(contacts, &touch_id) {
                Some(entry) => Some(entry.0),
                None => None,
            },
            None => None,
        };
        if let Some(id) = found {
            if let Some(i) = self.window_manager.index_of(id) {
                match fx_get_mut(&mut self.touches, &touch) {
                    Some(contacts) => {
                        let _ = fx_insert(contacts, touch_id, (id, position));
                        assert(self.touches@[touch]@ == before[touch]@.insert(touch_id, (id, position)));
                    },
                    None => {},
                }
                proof {
                    assert forall|t: u64, c: i32| (t != touch || c != touch_id) implies #[trigger] self.contact(t, c)
                        == old(self).contact(t, c) by {
                        if t == touch && before.contains_key(t) {
                            assert(self.touches@[t]@ == before[t]@.insert(touch_id, (id, position)));
                        }
                    }
                }
                self.window_manager.set_cursor(i, Some(position));
                self.events.push((id, Event::Touch(TouchEvent::FingerMoved { id: finger(touch_id), position })));
            }
        }
    }

    /// Touch device `touch` was cancelled: all its contacts are dropped, and
    /// each one's window gets a finger loss, in an order that the contact
    /// table decides.
    pub fn cancel(&mut self, touch: u64)
        requires
            old(self).wf(),
        ensures
            final(self).wf(),
            final(self).manager() == old(self).manager(),
            final(self).ui_state() == old(self).ui_state(),
            final(self).messages() == old(self).messages(),
            forall|c: i32| #[trigger] final(self).contact(touch, c) is None,
            forall|t: u64, c: i32| t != touch ==> #[trigger] final(self).contact(t, c) == old(self).contact(t, c),
            final(self).events().len() == old(self).events().len() + old(self).contact_count(touch),
            final(self).events().subrange(0, old(self).events().len() as int) == old(self).events(),
            forall|j: int|
                old(self).events().len() <= j < final(self).events().len() ==> old(self).is_lost_event(
                    touch,
                    #[trigger] final(self).events()[j],
                ),
            forall|c: i32|
                #[trigger] old(self).contact(touch, c) is Some ==> exists|j: int|
                    old(self).events().len() <= j < final(self).events().len() && final(self).events()[j]
                        == lost_event(c, old(self).contact(touch, c)->0),
    {
        let ghost before = self.touches@;
        let ghost n0 = self.events@.len();
        match fx_remove(&mut self.touches, &touch) {
            Some(contacts) => {
                let ghost cm = contacts@;
                let entries = fx_into_entries(contacts);
                let mut i: usize = 0;
                while i < entries.len()
                    invariant
                        i <= entries@.len(),
                        self.touches@ == before.remove(touch),
                        before.contains_key(touch) && before[touch]@ == cm,
                        self.window_manager == old(self).window_manager,
                        self.interfaces == old(self).interfaces,
                        self.messages == old(self).messages,
                        self.events@.len() == n0 + i,
                        n0 == old(self).events@.len(),
                        self.events@.subrange(0, n0 as int) == old(self).events@,
                        forall|j: int| 0 <= j < entries@.len() ==> #[trigger] cm.contains_key(entries@[j].0) && cm[entries@[j].0] == entries@[j].1,
                        forall|c: i32| #[trigger] cm.contains_key(c) ==> exists|j: int| 0 <= j < entries@.len() && entries@[j].0 == c,
                        forall|j: int| 0 <= j < i ==> #[trigger] self.events@[n0 + j] == (
                            entries@[j].1.0,
                            Event::Touch(TouchEvent::FingerLost { id: finger_id(entries@[j].0), position: entries@[j].1.1 }),
                        ),
                    decreases entries@.len() - i,
                {
                    let (touch_id, (id, position)) = entries[i];
                    self.events.push((id, Event::Touch(TouchEvent::FingerLost { id: finger(touch_id), position })));
                    proof {
                        assert(self.events@.subrange(0, n0 as int) =~= old(self).events@);
                    }
                    i = i + 1;
                }
                proof {
                    assert forall|j: int|
                        n0 <= j < self.events@.len() implies old(self).is_lost_event(touch, #[trigger] self.events@[j]) by {
                        let k = j - n0;
                        assert(self.events@[n0 + k] == self.events@[j]);
                        let c = entries@[k].0;
                        assert(cm.contains_key(c));
                        assert(old(self).contact(touch, c) == Some(entries@[k].1));
                        assert(self.events@[j] == lost_event(c, old(self).contact(touch, c)->0));
                    }
                    assert forall|c: i32| #[trigger] old(self).contact(touch, c) is Some implies exists|j: int|
                        n0 <= j < self.events@.len() && self.events@[j] == lost_event(
                            c,
                            old(self).contact(touch, c)->0,
                        ) by {
                        assert(cm.contains_key(c));
                        let k = choose|k: int| 0 <= k < entries@.len() && entries@[k].0 == c;
                        assert(cm.contains_key(entries@[k].0));
                        assert(self.events@[n0 + k] == lost_event(c, old(self).contact(touch, c)->0));
                    }
                }
            },
            None => {
                assert(self.events@.subrange(0, n0 as int) =~= old(self).events@);
                assert(self.events@.len() == n0);
            },
        }
    }

    /// Routes the events of one pointer frame: each event over a known surface
    /// moves that window's cursor as `cursor_after` says (so each window ends
    /// where `cursor_through` says) and is queued for it; events over other
    /// surfaces are dropped.
    pub fn pointer_frame(&mut self, events: &Vec<PointerEvent>)
        requires
            old(self).wf(),
        ensures
            final(self).wf(),
            final(self).ui_state() == old(self).ui_state(),
            final(self).messages() == old(self).messages(),
            final(self).manager().aliases() == old(self).manager().aliases(),
            final(self).manager().entries().len() == old(self).manager().entries().len(),
            final(self).events() == old(self).events() + routed(old(self).manager().aliases(), events@),
            forall|k: int|
                0 <= k < old(self).manager().entries().len() ==> #[trigger] final(self).manager().entries()[k]
                    == with_cursor(
                    old(self).manager().entries()[k],
                    cursor_through(
                        old(self).manager().aliases(),
                        old(self).manager().entries()[k].id,
                        events@,
                        old(self).manager().entries()[k].window.state.cursor_position,
                    ),
                ),
    {
        let ghost a = self.window_manager.aliases();
        let ghost n = self.window_manager.entries().len();
        let ghost s0 = self.window_manager.entries();
        let mut i: usize = 0;
        while i < events.len()
            invariant
                self.wf(),
                i <= events@.len(),
                self.window_manager.aliases() == a,
                self.window_manager.entries().len() == n,
                self.interfaces == old(self).interfaces,
                self.messages@ == old(self).messages@,
                a == old(self).manager().aliases(),
                self.events@ == old(self).events@ + routed(a, events@.take(i as int)),
                s0 == old(self).manager().entries(),
                sorted_by_id(s0),
                forall|k: int|
                    0 <= k < n ==> #[trigger] self.window_manager.entries()[k] == with_cursor(
                        s0[k],
                        cursor_through(a, s0[k].id, events@.take(i as int), s0[k].window.state.cursor_position),
                    ),
            decreases events@.len() - i,
        {
            let e = events[i];
            let ghost before = self.window_manager.entries();
            proof {
                assert(events@.take(i + 1).drop_last() =~= events@.take(i as int));
                assert(events@.take(i + 1).last() == e);
            }
            if let Some((id, k)) = self.window_manager.index_of_alias(e.surface) {
                match e.kind {
                    PointerKind::Enter => {
                        self.window_manager.set_cursor(k, Some(e.position));
                        self.events.push((id, Event::Mouse(MouseEvent::CursorEntered)));
                    },
                    PointerKind::Motion => {
                        self.window_manager.set_cursor(k, Some(e.position));
                        self.events.push((id, Event::Mouse(MouseEvent::CursorMoved { position: e.position })));
                    },
                    PointerKind::Press(b) => {
                        self.events.push((id, Event::Mouse(MouseEvent::ButtonPressed(button(b)))));
                    },
                    PointerKind::Release(b) => {
                        self.events.push((id, Event::Mouse(MouseEvent::ButtonReleased(button(b)))));
                    },
                    PointerKind::Axis { horizontal, vertical } => {
                        self.events.push(
                            (id, Event::Mouse(MouseEvent::WheelScrolled { x: horizontal, y: vertical })),
                        );
                    },
                    PointerKind::Leave => {
                        self.window_manager.set_cursor(k, None);
                        self.events.push((id, Event::Mouse(MouseEvent::CursorLeft)));
                    },
                }
            }
            proof {
                assert(self.events@ =~= old(self).events@ + routed(a, events@.take(i + 1)));
                let t1 = events@.take(i + 1);
                assert forall|k: int| 0 <= k < n implies #[trigger] self.window_manager.entries()[k] == with_cursor(
                    s0[k],
                    cursor_through(a, s0[k].id, t1, s0[k].window.state.cursor_position),
                ) by {
                    let c0 = s0[k].window.state.cursor_position;
                    assert(before[k] == with_cursor(s0[k], cursor_through(a, s0[k].id, events@.take(i as int), c0)));
                    if a.contains_key(e.surface) && a[e.surface] == s0[k].id {
                        let j = choose|j: int| 0 <= j < before.len() && before[j].alias == e.surface && before[j].id == a[e.surface];
                        if j < k {
                            assert(s0[j].id.0 < s0[k].id.0);
                        } else if k < j {
                            assert(s0[k].id.0 < s0[j].id.0);
                        }
                        assert(self.window_manager.entries()[k] =~= with_cursor(s0[k], cursor_through(a, s0[k].id, t1, c0)));
                    } else {
                        if a.contains_key(e.surface) {
                            let j = choose|j: int| 0 <= j < before.len() && before[j].alias == e.surface && before[j].id == a[e.surface];
                            assert(s0[j].id != s0[k].id);
                            assert(j != k);
                        }
                        assert(self.window_manager.entries()[k] == before[k]);
                    }
                }
            }
            i = i + 1;
        }
        assert(events@.take(i as int) =~= events@);
    }

    /// A layer surface with key `alias` was asked of the compositor for window
    /// `id`; it waits for its first configure.
    pub fn open_layer(&mut self, alias: u64, id: Id, raw: R)
        ensures
            final(self).in_progress() == old(self).in_progress().insert(alias, InProgressWindow { id, raw }),
            final(self).manager() == old(self).manager(),
            final(self).ui_state() == old(self).ui_state(),
            final(self).events() == old(self).events(),
            final(self).messages() == old(self).messages(),
            final(self).exiting() == old(self).exiting(),
    {
        let _ = fx_insert(&mut self.in_progress_windows, alias, InProgressWindow { id, raw });
    }

    /// The compositor configured the surface with key `alias` to `size`. A
    /// window being opened leaves the pending set; an open window takes the
    /// size, moves its viewport version on by one, asks for a frame and gets a
    /// `Resized` event.
    pub fn configure(&mut self, alias: u64, size: Size) -> (r: Configure<R>)
        requires
            old(self).wf(),
        ensures
            final(self).wf(),
            final(self).ui_state() == old(self).ui_state(),
            final(self).messages() == old(self).messages(),
            final(self).in_progress() == old(self).in_progress().remove(alias),
            old(self).in_progress().contains_key(alias) ==> r == Configure::Open(old(self).in_progress()[alias])
                && final(self).manager() == old(self).manager() && final(self).events() == old(self).events(),
            !old(self).in_progress().contains_key(alias) && old(self).manager().aliases().contains_key(alias)
                ==> {
                let id = old(self).manager().aliases()[alias];
                let i = index_of_id(old(self).manager().entries(), id);
                let w = old(self).manager().entries()[i].window;
                &&& r == Configure::<R>::Resized { id, ask_frame: !(w.redraw_at is NextFrame) }
                &&& final(self).events() == old(self).events().push((id, Event::Window(WindowEvent::Resized(size))))
                &&& final(self).manager().entries() == with_window(
                    old(self).manager().entries(),
                    i,
                    Window {
                        state: State {
                            physical_size: size,
                            viewport_version: next_version(w.state.viewport_version),
                            ..w.state
                        },
                        redraw_at: RedrawRequest::NextFrame,
                        ..w
                    },
                )
            },
            !old(self).in_progress().contains_key(alias) && !old(self).manager().aliases().contains_key(alias)
                ==> r is Unknown && final(self).manager() == old(self).manager() && final(self).events() == old(
                self,
            ).events(),
    {
        match fx_remove(&mut self.in_progress_windows, &alias) {
            Some(p) => Configure::Open(p),
            None => match self.window_manager.index_of_alias(alias) {
                Some((id, i)) => {
                    proof {
                        lemma_index_of_id(self.window_manager.entries(), i as int);
                    }
                    let ask_frame = self.window_manager.resize(i, size);
                    self.events.push((id, Event::Window(WindowEvent::Resized(size))));
                    Configure::Resized { id, ask_frame }
                },
                None => Configure::Unknown,
            },
        }
    }

    /// Registers a configured window: `id` under surface key `alias`, of
    /// `size`, titled `title`, with its user interface built from `cache`. It
    /// gets an `Opened` event and asks for a frame; returns whether a frame
    /// callback must be asked of the compositor.
    pub fn open_window(&mut self, id: Id, alias: u64, raw: R, size: Size, title: String, cache: C) -> (ask_frame: bool)
        requires
            old(self).wf(),
            !old(self).ui_state().updating(),
        ensures
            final(self).wf(),
            ask_frame,
            has_id(final(self).manager().entries(), id),
            window_of(final(self).manager().entries(), id).redraw_at is NextFrame,
            window_of(final(self).manager().entries(), id).state.physical_size == size,
            final(self).manager().aliases().contains_key(alias),
            final(self).manager().aliases()[alias] == id,
            final(self).ui_state().uis() == old(self).ui_state().uis().insert(
                id.0,
                built_from(cache, old(self).ui_state().revision()),
            ),
            final(self).events() == old(self).events().push((id, Event::Layer(LayerEvent::Opened { size }))),
            final(self).messages() == old(self).messages(),
    {
        let state = State::new(title, size);
        let window = Window::new(raw, state);
        let ghost w = window;
        self.window_manager.insert(id, alias, window);
        self.interfaces.build(id, cache);
        self.events.push((id, Event::Layer(LayerEvent::Opened { size })));
        proof {
            let e = crate::manager::Entry { id, alias, window: w };
            assert(self.window_manager.entries().contains(e));
        }
        match self.window_manager.index_of(id) {
            Some(i) => {
                proof {
                    lemma_index_of_id(self.window_manager.entries(), i as int);
                    let e = crate::manager::Entry { id, alias, window: w };
                    let k = choose|k: int| 0 <= k < self.window_manager.entries().len() && self.window_manager.entries()[k] == e;
                    lemma_index_of_id(self.window_manager.entries(), k);
                }
                let ask = self.window_manager.request_redraw(i, RedrawRequest::NextFrame);
                proof {
                    assert(self.window_manager.entries()[i as int].id == id);
                    lemma_index_of_id(self.window_manager.entries(), i as int);
                }
                ask
            },
            None => {
                proof {
                    let e = crate::manager::Entry { id, alias, window: w };
                    let k = choose|k: int| 0 <= k < self.window_manager.entries().len() && self.window_manager.entries()[k] == e;
                    assert(self.window_manager.entries()[k].id == id);
                }
                false
            },
        }
    }

    /// The compositor closed the surface with key `alias`: its window closes.
    pub fn closed(&mut self, alias: u64)
        requires
            old(self).wf(),
        ensures
            final(self).wf(),
            !old(self).manager().aliases().contains_key(alias) ==> *final(self) == *old(self),
            old(self).manager().aliases().contains_key(alias) ==> forall|i: int|
                0 <= i < final(self).manager().entries().len() ==> #[trigger] final(self).manager().entries()[i].id
                    != old(self).manager().aliases()[alias],
    {
        if let Some((id, _)) = self.window_manager.index_of_alias(alias) {
            self.close_window(id);
        }
    }

    /// Asks every window for a frame; returns the windows that must ask the
    /// compositor for a frame callback.
    pub fn redraw_all(&mut self) -> (r: Vec<Id>)
        requires
            old(self).wf(),
        ensures
            final(self).wf(),
            final(self).manager().entries().len() == old(self).manager().entries().len(),
            forall|i: int|
                0 <= i < final(self).manager().entries().len() ==> (#[trigger] final(self).manager().entries()[i]).window.redraw_at
                    is NextFrame && final(self).manager().entries()[i].id == old(self).manager().entries()[i].id,
            forall|id: Id| r@.contains(id) <==> #[trigger] asks_frame(old(self).manager().entries(), id),
            final(self).ui_state() == old(self).ui_state(),
            final(self).events() == old(self).events(),
            final(self).messages() == old(self).messages(),
            final(self).exiting() == old(self).exiting(),
            final(self).uis_stale() == old(self).uis_stale(),
            final(self).actions() == old(self).actions(),
    {
        let ghost s0 = self.window_manager.entries();
        let mut asks: Vec<Id> = Vec::new();
        let mut i: usize = 0;
        while i < self.window_manager.len()
            invariant
                self.wf(),
                i <= s0.len(),
                self.window_manager.entries().len() == s0.len(),
                self.interfaces == old(self).interfaces,
                self.events == old(self).events,
                self.messages == old(self).messages,
                self.exiting == old(self).exiting,
                self.uis_stale == old(self).uis_stale,
                self.actions == old(self).actions,
                forall|k: int| 0 <= k < s0.len() ==> #[trigger] self.window_manager.entries()[k].id == s0[k].id,
                forall|k: int| 0 <= k < i ==> (#[trigger] self.window_manager.entries()[k]).window.redraw_at is NextFrame,
                forall|k: int| i <= k < s0.len() ==> #[trigger] self.window_manager.entries()[k] == s0[k],
                forall|id: Id|
                    asks@.contains(id) ==> exists|k: int|
                        0 <= k < s0.len() && #[trigger] s0[k].id == id && !(s0[k].window.redraw_at is NextFrame),
                forall|k: int| 0 <= k < i && !(s0[k].window.redraw_at is NextFrame) ==> asks@.contains(#[trigger] s0[k].id),
            decreases s0.len() - i,
        {
            let id = self.window_manager.id_at(i);
            let ghost asks0 = asks@;
            if self.window_manager.request_redraw(i, RedrawRequest::NextFrame) {
                asks.push(id);
            }
            proof {
                assert forall|x: Id| asks@.contains(x) implies exists|k: int|
                    0 <= k < s0.len() && #[trigger] s0[k].id == x && !(s0[k].window.redraw_at is NextFrame) by {
                    let j = choose|j: int| 0 <= j < asks@.len() && asks@[j] == x;
                    if j < asks0.len() {
                        assert(asks0[j] == x);
                        assert(asks0.contains(x));
                    } else {
                        assert(s0[i as int].id == x);
                    }
                }
            }
            proof {
                assert forall|k: int| 0 <= k < i + 1 && !(s0[k].window.redraw_at is NextFrame) implies asks@.contains(#[trigger] s0[k].id) by {
                    if k < i {
                        let j = choose|j: int| 0 <= j < asks0.len() && asks0[j] == s0[k].id;
                        assert(asks@[j] == s0[k].id);
                    } else {
                        assert(asks@[asks@.len() - 1] == s0[k].id);
                    }
                }
            }
            i = i + 1;
        }
        proof {
            assert forall|id: Id| asks@.contains(id) <==> #[trigger] asks_frame(s0, id) by {
                if asks_frame(s0, id) {
                    let k = choose|k: int| 0 <= k < s0.len() && s0[k].id == id && !(s0[k].window.redraw_at is NextFrame);
                    assert(asks@.contains(s0[k].id));
                }
            }
        }
        asks
    }

    /// The compositor is ready for a frame of the surface with key `alias`.
    /// The window's redraw state resets to `Wait`; unless there is no
    /// renderer, the surface is unknown or it covers no pixel, the window is
    /// to be drawn, laid out again first when its viewport changed since.
    pub fn frame(&mut self, alias: u64) -> (r: Frame)
        requires
            old(self).wf(),
        ensures
            final(self).wf(),
            final(self).ui_state() == old(self).ui_state(),
            final(self).events() == old(self).events(),
            final(self).messages() == old(self).messages(),
            final(self).manager().entries().len() == old(self).manager().entries().len(),
            final(self).manager().aliases() == old(self).manager().aliases(),
            !old(self).has_compositor() || !old(self).manager().aliases().contains_key(alias) ==> r is Skip
                && final(self).manager() == old(self).manager(),
            old(self).has_compositor() && old(self).manager().aliases().contains_key(alias) ==> {
                let id = old(self).manager().aliases()[alias];
                let i = index_of_id(old(self).manager().entries(), id);
                let w = old(self).manager().entries()[i].window;
                &&& final(self).manager().entries()[i].window.redraw_at is Wait
                &&& (w.state.physical_size.width == 0 || w.state.physical_size.height == 0) ==> r is Skip
                &&& !(w.state.physical_size.width == 0 || w.state.physical_size.height == 0) ==> r == Frame::Draw {
                    id,
                    index: i as usize,
                    relayout: if w.viewport_version != w.state.viewport_version {
                        Some(w.state.physical_size)
                    } else {
                        None
                    },
                }
                &&& final(self).manager().entries()[i].window.viewport_version == (if w.state.physical_size.width
                    == 0 || w.state.physical_size.height == 0 {
                    w.viewport_version
                } else {
                    w.state.viewport_version
                })
            },
    {
        if !self.has_compositor {
            return Frame::Skip;
        }
        match self.window_manager.index_of_alias(alias) {
            Some((id, i)) => {
                proof {
                    lemma_index_of_id(self.window_manager.entries(), i as int);
                }
                self.window_manager.reset_redraw(i);
                let size = self.window_manager.window_at(i).size();
                if size.is_zero_area() {
                    return Frame::Skip;
                }
                let relayout = self.window_manager.sync_viewport(i);
                Frame::Draw { id, index: i, relayout }
            },
            None => Frame::Skip,
        }
    }

    /// The user interface of the window drawn at position `i` reported
    /// `state` after the frame's redraw event: its redraw request and input
    /// method request are applied. Returns whether a frame callback must be
    /// asked of the compositor, and whether the composition overlay must be
    /// shaped again.
    pub fn frame_drawn(&mut self, i: usize, state: UiState) -> (r: (bool, bool))
        requires
            old(self).wf(),
            i < old(self).manager().entries().len(),
        ensures
            final(self).wf(),
            final(self).manager().entries().len() == old(self).manager().entries().len(),
            final(self).manager().entries()[i as int].id == old(self).manager().entries()[i as int].id,
            final(self).ui_state() == old(self).ui_state(),
            final(self).events() == old(self).events(),
            final(self).messages() == old(self).messages(),
            match state {
                UiState::Updated { redraw_request, input_method } => {
                    &&& final(self).manager().entries()[i as int].window.redraw_at
                        == old(self).manager().entries()[i as int].window.redraw_at.after_request(redraw_request)
                    &&& r.0 == (!(old(self).manager().entries()[i as int].window.redraw_at is NextFrame)
                        && redraw_request is NextFrame)
                    &&& final(self).manager().entries()[i as int].window.ime_state == (match input_method {
                        InputMethod::Disabled => None,
                        InputMethod::Enabled { position, purpose, .. } => Some((position, purpose)),
                    })
                    &&& (input_method is Disabled ==> final(self).manager().entries()[i as int].window.preedit is None
                        && !r.1)
                },
                UiState::Outdated => final(self).manager() == old(self).manager() && !r.0 && !r.1,
            },
    {
        match state {
            UiState::Updated { redraw_request, input_method } => {
                let ask = self.window_manager.request_redraw(i, redraw_request);
                let reshape = self.window_manager.request_input_method(i, input_method);
                (ask, reshape)
            },
            UiState::Outdated => (false, false),
        }
    }

    /// Presenting a frame failed. Running out of memory is fatal and the
    /// process must end; any other failure asks every window for a frame, to
    /// try again. Returns `None` when fatal, else the windows that must ask
    /// the compositor for a frame callback.
    pub fn present_failed(&mut self, out_of_memory: bool) -> (r: Option<Vec<Id>>)
        requires
            old(self).wf(),
        ensures
            final(self).wf(),
            r is None <==> out_of_memory,
            out_of_memory ==> *final(self) == *old(self),
            r matches Some(ids) ==> forall|id: Id|
                ids@.contains(id) <==> #[trigger] asks_frame(old(self).manager().entries(), id),
            !out_of_memory ==> forall|i: int|
                0 <= i < final(self).manager().entries().len() ==> (#[trigger] final(self).manager().entries()[i]).window.redraw_at
                    is NextFrame,
    {
        if out_of_memory {
            None
        } else {
            Some(self.redraw_all())
        }
    }

    /// Whether an idle pass has nothing to do: no event is queued, no message
    /// waits and every window is idle.
    pub open spec fn nothing_to_do(&self) -> bool {
        &&& self.events().len() == 0
        &&& self.messages().len() == 0
        &&& forall|i: int|
            0 <= i < self.manager().entries().len() ==> #[trigger] self.manager().entries()[i].window.redraw_at is Wait
    }

    /// Starts an idle pass: the count of actions since the last pass is
    /// cleared, and the pass goes on only when there is something to do.
    /// When it does not, nothing else changes: no event, message, window or
    /// user interface, and the program is not touched.
    pub fn begin_idle_pass(&mut self) -> (go_on: bool)
        requires
            old(self).wf(),
        ensures
            final(self).wf(),
            go_on == !old(self).nothing_to_do(),
            final(self).actions() == 0,
            final(self).manager() == old(self).manager(),
            final(self).ui_state() == old(self).ui_state(),
            final(self).events() == old(self).events(),
            final(self).messages() == old(self).messages(),
            final(self).exiting() == old(self).exiting(),
            go_on ==> !final(self).uis_stale(),
            !go_on ==> final(self).uis_stale() == old(self).uis_stale(),
            final(self).timer_deadline() == old(self).timer_deadline(),
            final(self).in_progress() == old(self).in_progress(),
            final(self).focuses() == old(self).focuses(),
            final(self).is_daemon() == old(self).is_daemon(),
            final(self).has_compositor() == old(self).has_compositor(),
            forall|t: u64, c: i32| #[trigger] final(self).contact(t, c) == old(self).contact(t, c),
    {
        self.actions = 0;
        if self.events.len() == 0 && self.messages.len() == 0 && self.window_manager.is_idle() {
            return false;
        }
        self.uis_stale = false;
        true
    }

    /// The events for window `id` in this pass, in arrival order; `None` when
    /// it has none and no message waits, so its update is skipped.
    pub fn window_batch(&mut self, id: Id) -> (r: Option<Vec<Event>>)
        ensures
            final(self).events() == events_except(old(self).events(), id),
            final(self).messages() == old(self).messages(),
            final(self).manager() == old(self).manager(),
            final(self).ui_state() == old(self).ui_state(),
            final(self).uis_stale() == old(self).uis_stale(),
            r is None <==> events_for(old(self).events(), id).len() == 0 && old(self).messages().len() == 0,
            r matches Some(batch) ==> batch@ == events_for(old(self).events(), id),
    {
        let batch = self.take_window_events(id);
        if batch.len() == 0 && self.messages.len() == 0 {
            None
        } else {
            Some(batch)
        }
    }

    /// The user interface of window `id` reported `state` after an update
    /// with its batch. An updated one has its redraw request applied, when
    /// the window is still open; an outdated one marks every user interface
    /// for a rebuild. Returns whether a frame callback must be asked of the
    /// compositor.
    pub fn interface_updated(&mut self, id: Id, state: UiState) -> (ask_frame: bool)
        requires
            old(self).wf(),
        ensures
            final(self).wf(),
            final(self).ui_state() == old(self).ui_state(),
            final(self).events() == old(self).events(),
            final(self).messages() == old(self).messages(),
            final(self).manager().aliases() == old(self).manager().aliases(),
            final(self).manager().entries().len() == old(self).manager().entries().len(),
            match state {
                UiState::Updated { redraw_request, .. } => {
                    &&& final(self).uis_stale() == old(self).uis_stale()
                    &&& has_id(old(self).manager().entries(), id) ==> {
                        let i = index_of_id(old(self).manager().entries(), id);
                        &&& ask_frame == (!(old(self).manager().entries()[i].window.redraw_at is NextFrame)
                            && redraw_request is NextFrame)
                        &&& final(self).manager().entries() == with_window(
                            old(self).manager().entries(),
                            i,
                            Window {
                                redraw_at: old(self).manager().entries()[i].window.redraw_at.after_request(
                                    redraw_request,
                                ),
                                ..old(self).manager().entries()[i].window
                            },
                        )
                    }
                    &&& !has_id(old(self).manager().entries(), id) ==> final(self).manager() == old(self).manager() && !ask_frame
                },
                UiState::Outdated => final(self).uis_stale() && final(self).manager() == old(self).manager()
                    && !ask_frame,
            },
    {
        match state {
            UiState::Updated { redraw_request, .. } => match self.window_manager.index_of(id) {
                Some(i) => {
                    proof {
                        lemma_index_of_id(self.window_manager.entries(), i as int);
                    }
                    self.window_manager.request_redraw(i, redraw_request)
                },
                None => false,
            },
            UiState::Outdated => {
                self.uis_stale = true;
                false
            },
        }
    }

    /// Whether the pass must change the program: a message waits, or a user
    /// interface is outdated.
    pub fn needs_commit(&self) -> (r: bool)
        ensures
            r == (self.messages().len() > 0 || self.uis_stale()),
    {
        self.messages.len() > 0 || self.uis_stale
    }

    /// Opens the program for change: every user interface is torn down to
    /// its cache first. Returns the waiting messages, in arrival order, for
    /// the program's update.
    pub fn begin_commit(&mut self) -> (r: Vec<M>)
        requires
            old(self).wf(),
            !old(self).ui_state().updating(),
        ensures
            final(self).wf(),
            r@ == old(self).messages(),
            final(self).messages().len() == 0,
            final(self).ui_state().updating(),
            final(self).ui_state().revision() == old(self).ui_state().revision(),
            final(self).ui_state().uis().dom() == old(self).ui_state().uis().dom(),
            forall|k: u64| #[trigger]
                final(self).ui_state().uis().contains_key(k) ==> final(self).ui_state().uis()[k]
                    == crate::program::Ui::Cached(cache_of(old(self).ui_state().uis()[k])),
            final(self).manager() == old(self).manager(),
            final(self).events() == old(self).events(),
    {
        self.interfaces.begin_update();
        let mut r: Vec<M> = Vec::new();
        std::mem::swap(&mut r, &mut self.messages);
        r
    }

    /// Applies the program's title for window `id`, and whether its scale
    /// factor changed, to the window's state.
    pub fn synchronize(&mut self, id: Id, title: String, rescaled: bool)
        requires
            old(self).wf(),
        ensures
            final(self).wf(),
            final(self).ui_state() == old(self).ui_state(),
            final(self).events() == old(self).events(),
            final(self).messages() == old(self).messages(),
            final(self).manager().entries().len() == old(self).manager().entries().len(),
            forall|i: int|
                0 <= i < final(self).manager().entries().len() ==> (#[trigger] final(self).manager().entries()[i]).id
                    == old(self).manager().entries()[i].id && final(self).manager().entries()[i].window.redraw_at
                    == old(self).manager().entries()[i].window.redraw_at,
    {
        if let Some(i) = self.window_manager.index_of(id) {
            self.window_manager.synchronize(i, title, rescaled);
        }
    }

    /// Closes the program after its update: every open window's user
    /// interface is built again from its cache against the changed program,
    /// and every window asks for a frame, since a change of the program may
    /// show in any of them. Returns the windows that must ask the compositor
    /// for a frame callback.
    pub fn finish_commit(&mut self) -> (r: Vec<Id>)
        requires
            old(self).wf(),
            old(self).ui_state().updating(),
        ensures
            final(self).wf(),
            !final(self).ui_state().updating(),
            final(self).ui_state().revision() == next_version(old(self).ui_state().revision()),
            forall|k: u64| #[trigger]
                final(self).ui_state().uis().contains_key(k) <==> old(self).ui_state().uis().contains_key(k)
                    && has_id(old(self).manager().entries(), Id(k)),
            forall|k: u64| #[trigger]
                final(self).ui_state().uis().contains_key(k) ==> final(self).ui_state().uis()[k] == built_from(
                    cache_of(old(self).ui_state().uis()[k]),
                    final(self).ui_state().revision(),
                ),
            final(self).manager().entries().len() == old(self).manager().entries().len(),
            forall|i: int|
                0 <= i < final(self).manager().entries().len() ==> (#[trigger] final(self).manager().entries()[i]).window.redraw_at
                    is NextFrame && final(self).manager().entries()[i].id == old(self).manager().entries()[i].id,
            !final(self).uis_stale(),
            final(self).events() == old(self).events(),
            final(self).messages() == old(self).messages(),
            forall|id: Id| r@.contains(id) <==> #[trigger] asks_frame(old(self).manager().entries(), id),
    {
        let ghost s0 = self.window_manager.entries();
        let mut keep: Vec<Id> = Vec::new();
        let mut i: usize = 0;
        while i < self.window_manager.len()
            invariant
                i <= s0.len(),
                self.window_manager.entries() == s0,
                keep@.len() == i,
                forall|k: int| 0 <= k < i ==> #[trigger] keep@[k] == s0[k].id,
            decreases s0.len() - i,
        {
            keep.push(self.window_manager.id_at(i));
            i = i + 1;
        }
        proof {
            assert forall|id: Id| keep@.contains(id) <==> #[trigger] has_id(s0, id) by {
                if keep@.contains(id) {
                    let k = choose|k: int| 0 <= k < keep@.len() && keep@[k] == id;
                    assert(s0[k].id == id);
                }
                if has_id(s0, id) {
                    let k = choose|k: int| 0 <= k < s0.len() && s0[k].id == id;
                    assert(keep@[k] == id);
                }
            }
        }
        self.interfaces.finish_update(&keep);
        self.uis_stale = false;
        self.redraw_all()
    }

    /// Runs one action from the channel. Output messages queue for the
    /// program's update, a close request closes its window, `Reload` builds
    /// every user interface again from its cache and asks for frames, and
    /// `Exit` stops the loop; what needs the platform or the renderer is
    /// handed back.
    pub fn run_action(&mut self, action: Action<M>) -> (r: Dispatch)
        requires
            old(self).wf(),
        ensures
            final(self).wf(),
            final(self).actions() == (if old(self).actions() == usize::MAX {
                usize::MAX
            } else {
                (old(self).actions() + 1) as usize
            }),
            match action {
                Action::Output(m) => {
                    &&& final(self).messages() == old(self).messages().push(m)
                    &&& final(self).manager() == old(self).manager()
                    &&& final(self).events() == old(self).events()
                    &&& r is Done
                    &&& final(self).ui_state() == old(self).ui_state()
                },
                Action::Open(id, settings) => r == Dispatch::OpenLayer(id, settings) && final(self).manager()
                    == old(self).manager(),
                Action::Close(id) => {
                    &&& r is Done
                    &&& forall|i: int|
                        0 <= i < final(self).manager().entries().len() ==> #[trigger] final(self).manager().entries()[i].id
                            != id
                },
                Action::QueryInformation => (r is QueryInformation <==> old(self).has_compositor()) && (r is Done
                    <==> !old(self).has_compositor()),
                Action::Widget => r is ApplyWidgetOperation,
                Action::LoadFont(bytes) => (old(self).has_compositor() ==> r == Dispatch::LoadFont(bytes)) && (
                !old(self).has_compositor() ==> r is Done),
                Action::Reload => {
                    &&& r matches Dispatch::AskFrames(ids) && forall|id: Id|
                        ids@.contains(id) <==> #[trigger] asks_frame(old(self).manager().entries(), id)
                    &&& (old(self).ui_state().updating() ==> final(self).ui_state() == old(self).ui_state())
                    &&& (!old(self).ui_state().updating() ==> reloaded(
                        old(self).ui_state(),
                        final(self).ui_state(),
                        old(self).manager().entries(),
                    ))
                    &&& final(self).manager().entries().len() == old(self).manager().entries().len()
                    &&& forall|i: int|
                        0 <= i < final(self).manager().entries().len()
                            ==> (#[trigger] final(self).manager().entries()[i]).window.redraw_at is NextFrame
                },
                Action::Exit => final(self).exiting() && r is Done,
                Action::Clipboard | Action::Window => r is Done && final(self).manager() == old(self).manager(),
            },
    {
        if self.actions < usize::MAX {
            self.actions = self.actions + 1;
        }
        match action {
            Action::Output(message) => {
                self.messages.push(message);
                Dispatch::Done
            },
            Action::Clipboard => Dispatch::Done,
            Action::Window => Dispatch::Done,
            Action::Open(id, settings) => Dispatch::OpenLayer(id, settings),
            Action::Close(id) => {
                self.close_window(id);
                Dispatch::Done
            },
            Action::QueryInformation => {
                if self.has_compositor {
                    Dispatch::QueryInformation
                } else {
                    Dispatch::Done
                }
            },
            Action::Widget => Dispatch::ApplyWidgetOperation,
            Action::LoadFont(bytes) => {
                if self.has_compositor {
                    Dispatch::LoadFont(bytes)
                } else {
                    Dispatch::Done
                }
            },
            Action::Reload => Dispatch::AskFrames(self.reload()),
            Action::Exit => {
                self.exiting = true;
                Dispatch::Done
            },
        }
    }

    /// Builds the user interface of every open window again from its cache,
    /// against the unchanged program, and asks every window for a frame.
    fn reload(&mut self) -> (r: Vec<Id>)
        requires
            old(self).wf(),
        ensures
            final(self).wf(),
            final(self).manager().entries().len() == old(self).manager().entries().len(),
            forall|i: int|
                0 <= i < final(self).manager().entries().len() ==> (#[trigger] final(self).manager().entries()[i]).window.redraw_at
                    is NextFrame,
            forall|id: Id| r@.contains(id) <==> #[trigger] asks_frame(old(self).manager().entries(), id),
            old(self).ui_state().updating() ==> final(self).ui_state() == old(self).ui_state(),
            !old(self).ui_state().updating() ==> reloaded(old(self).ui_state(), final(self).ui_state(), old(self).manager().entries()),
            final(self).actions() == old(self).actions(),
            final(self).exiting() == old(self).exiting(),
            final(self).messages() == old(self).messages(),
            final(self).events() == old(self).events(),
    {
        if !self.interfaces.is_updating() {
            let ghost u0 = self.interfaces;
            let ghost s0 = self.window_manager.entries();
            let mut i: usize = 0;
            while i < self.window_manager.len()
                invariant
                    self.wf(),
                    !self.interfaces.updating(),
                    self.window_manager == old(self).window_manager,
                    s0 == old(self).window_manager.entries(),
                    u0 == old(self).interfaces,
                    self.actions == old(self).actions,
                    self.exiting == old(self).exiting,
                    self.messages == old(self).messages,
                    self.events == old(self).events,
                    i <= s0.len(),
                    self.interfaces.revision() == u0.revision(),
                    forall|k: u64| #[trigger] self.interfaces.uis().contains_key(k) <==> u0.uis().contains_key(k),
                    forall|k: u64| #[trigger] self.interfaces.uis().contains_key(k) ==> self.interfaces.uis()[k] == (if has_id(s0.take(i as int), Id(k)) {
                        built_from(cache_of(u0.uis()[k]), u0.revision())
                    } else {
                        u0.uis()[k]
                    }),
                decreases s0.len() - i,
            {
                let id = self.window_manager.id_at(i);
                let ghost before = self.interfaces.uis();
                self.interfaces.rebuild(id);
                proof {
                    assert forall|k: u64| #[trigger] self.interfaces.uis().contains_key(k) implies self.interfaces.uis()[k] == (if has_id(s0.take(i + 1), Id(k)) {
                        built_from(cache_of(u0.uis()[k]), u0.revision())
                    } else {
                        u0.uis()[k]
                    }) by {
                        if k == id.0 {
                            assert(s0.take(i + 1)[i as int].id == Id(k));
                        } else {
                            if has_id(s0.take(i + 1), Id(k)) {
                                let t1 = s0.take(i + 1);
                                let j = choose|j: int| 0 <= j < t1.len() && #[trigger] t1[j].id == Id(k);
                                assert(j != i);
                                assert(s0.take(i as int)[j].id == Id(k));
                            }
                            if has_id(s0.take(i as int), Id(k)) {
                                let t0 = s0.take(i as int);
                                let j = choose|j: int| 0 <= j < t0.len() && #[trigger] t0[j].id == Id(k);
                                assert(s0.take(i + 1)[j].id == Id(k));
                            }
                        }
                    }
                }
                i = i + 1;
            }
            assert(s0.take(i as int) =~= s0);
        }
        self.redraw_all()
    }

    /// The window and position of contact `c` of touch device `t`.
    pub fn touch_contact(&self, t: u64, c: i32) -> (r: Option<(Id, Point)>)
        ensures
            r == self.contact(t, c),
    {
        match fx_get(&self.touches, &t) {
            Some(contacts) => match fx_get(contacts, &c) {
                Some(v) => Some(*v),
                None => None,
            },
            None => None,
        }
    }

    /// The window that keyboard `keyboard` focuses.
    pub fn keyboard_focus(&self, keyboard: u64) -> (r: Option<Id>)
        ensures
            r == (if self.focuses().contains_key(keyboard) {
                Some(self.focuses()[keyboard])
            } else {
                None
            }),
    {
        match fx_get(&self.keyboard_focuses, &keyboard) {
            Some(id) => Some(*id),
            None => None,
        }
    }

    /// The deadline that the loop's timer is armed with.
    pub fn deadline(&self) -> (r: Option<Instant>)
        ensures
            r == self.timer_deadline(),
    {
        self.timer_deadline
    }

    /// The number of messages waiting for the program's update.
    pub fn pending_messages(&self) -> (r: usize)
        ensures
            r == self.messages().len(),
    {
        self.messages.len()
    }

    /// The number of events waiting for the next idle pass.
    pub fn pending_events(&self) -> (r: usize)
        ensures
            r == self.events().len(),
    {
        self.events.len()
    }
}

} // verus!
