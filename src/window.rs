use crate::conversion::SeatModifiers;
use crate::redraw::RedrawRequest;
use crate::types::{Point, Size};
use vstd::prelude::*;

verus! {

/// The version that follows `v`; versions wrap around after `u64::MAX`.
pub open spec fn next_version(v: u64) -> u64 {
    if v == u64::MAX {
        0
    } else {
        (v + 1) as u64
    }
}

fn bump(v: u64) -> (r: u64)
    ensures
        r == next_version(v),
{
    if v == u64::MAX {
        0
    } else {
        v + 1
    }
}

/// The per-window state that the shell keeps beside the user interface: its
/// title, its viewport and a version of it, the cursor and the modifiers.
pub struct State {
    pub title: String,
    pub physical_size: Size,
    pub viewport_version: u64,
    pub cursor_position: Option<Point>,
    pub modifiers: SeatModifiers,
}

impl State {
    /// A state for a window of `physical_size` whose program names it `title`.
    pub fn new(title: String, physical_size: Size) -> (r: State)
        ensures
            r.title == title,
            r.physical_size == physical_size,
            r.viewport_version == 0,
            r.cursor_position is None,
            r.modifiers == (SeatModifiers {
                ctrl: false,
                alt: false,
                shift: false,
                caps_lock: false,
                logo: false,
                num_lock: false,
            }),
    {
        State {
            title,
            physical_size,
            viewport_version: 0,
            cursor_position: None,
            modifiers: SeatModifiers::none(),
        }
    }

    /// The version of the viewport; it changes each time the viewport does.
    pub fn viewport_version(&self) -> (r: u64)
        ensures
            r == self.viewport_version,
    {
        self.viewport_version
    }

    pub fn physical_size(&self) -> (r: Size)
        ensures
            r == self.physical_size,
    {
        self.physical_size
    }

    /// The cursor position, while the cursor is over the window.
    pub fn cursor(&self) -> (r: Option<Point>)
        ensures
            r == self.cursor_position,
    {
        self.cursor_position
    }

    pub fn modifiers(&self) -> (r: SeatModifiers)
        ensures
            r == self.modifiers,
    {
        self.modifiers
    }

    pub fn update_cursor(&mut self, position: Option<Point>)
        ensures
            *final(self) == (State { cursor_position: position, ..*old(self) }),
    {
        self.cursor_position = position;
    }

    pub fn update_modifiers(&mut self, modifiers: SeatModifiers)
        ensures
            *final(self) == (State { modifiers, ..*old(self) }),
    {
        self.modifiers = modifiers;
    }

    /// Takes a new physical size; the viewport version moves on by one.
    pub fn resize(&mut self, physical_size: Size)
        ensures
            *final(self) == (State {
                physical_size,
                viewport_version: next_version(old(self).viewport_version),
                ..*old(self)
            }),
    {
        self.physical_size = physical_size;
        self.viewport_version = bump(self.viewport_version);
    }

    /// Takes a new scale factor of the output; the size in physical pixels is
    /// kept and the viewport version moves on by one.
    pub fn rescale(&mut self)
        ensures
            *final(self) == (State {
                viewport_version: next_version(old(self).viewport_version),
                ..*old(self)
            }),
    {
        self.viewport_version = bump(self.viewport_version);
    }

    /// Takes the title and whether the scale factor that the program asks for
    /// changed; a changed scale moves the viewport version on by one.
    pub fn synchronize(&mut self, title: String, rescaled: bool)
        ensures
            final(self).title@ == title@,
            final(self).physical_size == old(self).physical_size,
            final(self).cursor_position == old(self).cursor_position,
            final(self).modifiers == old(self).modifiers,
            final(self).viewport_version == (if rescaled {
                next_version(old(self).viewport_version)
            } else {
                old(self).viewport_version
            }),
    {
        if self.title != title {
            self.title = title;
        }
        if rescaled {
            self.viewport_version = bump(self.viewport_version);
        }
    }
}

/// What text input is for, so that an input method can adapt.
#[derive(Clone, Copy, Debug, PartialEq, Eq, Structural)]
pub enum Purpose {
    Normal,
    Secure,
    Terminal,
}

/// Text being composed by an input method, with the selected byte range.
#[derive(Clone, Debug)]
pub struct PreeditRequest {
    pub content: String,
    pub selection: Option<(usize, usize)>,
}

/// What a user interface asks of the input method after an update.
#[derive(Clone, Debug)]
pub enum InputMethod {
    Disabled,
    Enabled { position: Point, purpose: Purpose, preedit: Option<PreeditRequest> },
}

/// The text of one span of the composition overlay.
#[derive(Clone, Copy, Debug, PartialEq, Eq, Structural)]
pub enum SpanText {
    /// The bytes `start..end` of the content.
    Range { start: usize, end: usize },
    /// The bytes from `start` to the end of the content.
    Rest { start: usize },
    /// A hair space that marks an empty selection.
    HairSpace,
}

/// One span of the composition overlay; a highlighted span is drawn in the
/// window's background color over the text color.
#[derive(Clone, Copy, Debug, PartialEq, Eq, Structural)]
pub struct Span {
    pub text: SpanText,
    pub highlighted: bool,
}

/// The spans that show `content` with `selection` marked: the text before,
/// the selection (a hair space when it is empty) and the text after; the
/// whole text when nothing is selected.
pub open spec fn spans_of(selection: Option<(usize, usize)>) -> Seq<Span> {
    match selection {
        Some((start, end)) => seq![
            Span { text: SpanText::Range { start: 0, end: start }, highlighted: false },
            if start == end {
                Span { text: SpanText::HairSpace, highlighted: true }
            } else {
                Span { text: SpanText::Range { start, end }, highlighted: true }
            },
            Span { text: SpanText::Rest { start: end }, highlighted: false },
        ],
        None => seq![Span { text: SpanText::Rest { start: 0 }, highlighted: false }],
    }
}

fn spans(selection: Option<(usize, usize)>) -> (r: Vec<Span>)
    ensures
        r@ == spans_of(selection),
{
    match selection {
        Some((start, end)) => {
            let middle = if start == end {
                Span { text: SpanText::HairSpace, highlighted: true }
            } else {
                Span { text: SpanText::Range { start, end }, highlighted: true }
            };
            let r = vec![
                Span { text: SpanText::Range { start: 0, end: start }, highlighted: false },
                middle,
                Span { text: SpanText::Rest { start: end }, highlighted: false },
            ];
            assert(r@ =~= spans_of(selection));
            r
        },
        None => {
            let r = vec![Span { text: SpanText::Rest { start: 0 }, highlighted: false }];
            assert(r@ =~= spans_of(selection));
            r
        },
    }
}

/// The overlay that shows text being composed, anchored at `position`.
pub struct Preedit {
    pub position: Point,
    pub content: String,
    pub selection: Option<(usize, usize)>,
}

impl Preedit {
    /// The spans that the overlay shows.
    pub fn spans(&self) -> (r: Vec<Span>)
        ensures
            r@ == spans_of(self.selection),
    {
        spans(self.selection)
    }

    /// An overlay that shows `request` at `position`.
    pub fn new(position: Point, request: PreeditRequest) -> (r: Preedit)
        ensures
            r.position == position,
            r.content == request.content,
            r.selection == request.selection,
    {
        Preedit { position, content: request.content, selection: request.selection }
    }

    /// Moves the overlay to `position` and shows `request`; returns whether the
    /// text changed, so that its paragraph must be shaped again.
    pub fn update(&mut self, position: Point, request: PreeditRequest) -> (changed: bool)
        ensures
            final(self).position == position,
            final(self).content@ == request.content@,
            final(self).selection == request.selection,
            changed == (old(self).content@ != request.content@ || old(self).selection
                != request.selection),
    {
        self.position = position;
        let same_selection = match (self.selection, request.selection) {
            (None, None) => true,
            (Some((a, b)), Some((c, d))) => a == c && b == d,
            _ => false,
        };
        let changed = !same_selection || self.content != request.content;
        if changed {
            self.selection = request.selection;
            self.content = request.content;
        }
        changed
    }
}

/// The runtime state of one open window. `R` holds what the platform and the
/// renderer own for it: its surface, renderer and cursor.
pub struct Window<R> {
    pub raw: R,
    pub state: State,
    /// The viewport version that the user interface was last laid out for.
    pub viewport_version: u64,
    pub redraw_at: RedrawRequest,
    pub preedit: Option<Preedit>,
    pub ime_state: Option<(Point, Purpose)>,
}

impl<R> Window<R> {
    /// A window that is laid out for its current viewport and has no redraw
    /// pending.
    pub fn new(raw: R, state: State) -> (r: Window<R>)
        ensures
            r.raw == raw,
            r.state == state,
            r.viewport_version == state.viewport_version,
            r.redraw_at is Wait,
            r.preedit is None,
            r.ime_state is None,
    {
        let viewport_version = state.viewport_version;
        Window { raw, state, viewport_version, redraw_at: RedrawRequest::Wait, preedit: None, ime_state: None }
    }

    /// The window's size in physical pixels.
    pub fn size(&self) -> (r: Size)
        ensures
            r == self.state.physical_size,
    {
        self.state.physical_size
    }

    /// Records a redraw request. A pending frame request is kept as it is.
    /// Returns whether a frame callback must now be asked of the compositor
    /// and the surface committed: when the state turns into `NextFrame`.
    pub fn request_redraw(&mut self, request: RedrawRequest) -> (ask_frame: bool)
        ensures
            final(self).redraw_at == old(self).redraw_at.after_request(request),
            ask_frame == (!(old(self).redraw_at is NextFrame) && request is NextFrame),
            final(self).raw == old(self).raw,
            final(self).state == old(self).state,
            final(self).viewport_version == old(self).viewport_version,
            final(self).preedit == old(self).preedit,
            final(self).ime_state == old(self).ime_state,
    {
        if let RedrawRequest::NextFrame = self.redraw_at {
            return false;
        }
        self.redraw_at = request;
        matches!(request, RedrawRequest::NextFrame)
    }

    /// Applies what the user interface asks of the input method. Returns
    /// whether the composition overlay's text must be shaped again.
    pub fn request_input_method(&mut self, input_method: InputMethod) -> (reshape: bool)
        ensures
            final(self).raw == old(self).raw,
            final(self).state == old(self).state,
            final(self).viewport_version == old(self).viewport_version,
            final(self).redraw_at == old(self).redraw_at,
            match input_method {
                InputMethod::Disabled => {
                    &&& final(self).ime_state is None
                    &&& final(self).preedit is None
                    &&& !reshape
                },
                InputMethod::Enabled { position, purpose, preedit } => {
                    &&& final(self).ime_state == Some((position, purpose))
                    &&& match preedit {
                        Some(p) if p.content@.len() > 0 => {
                            &&& final(self).preedit is Some
                            &&& final(self).preedit->0.position == position
                            &&& final(self).preedit->0.content@ == p.content@
                            &&& final(self).preedit->0.selection == p.selection
                            &&& reshape == (match old(self).preedit {
                                Some(o) => o.content@ != p.content@ || o.selection != p.selection,
                                None => true,
                            })
                        },
                        _ => final(self).preedit is None && !reshape,
                    }
                },
            },
    {
        match input_method {
            InputMethod::Disabled => {
                self.disable_ime();
                false
            },
            InputMethod::Enabled { position, purpose, preedit } => {
                self.enable_ime(position, purpose);
                match preedit {
                    Some(p) => {
                        if p.content.as_str().is_empty() {
                            self.preedit = None;
                            false
                        } else {
                            match self.preedit.take() {
                                Some(mut overlay) => {
                                    let changed = overlay.update(position, p);
                                    self.preedit = Some(overlay);
                                    changed
                                },
                                None => {
                                    self.preedit = Some(Preedit::new(position, p));
                                    true
                                },
                            }
                        }
                    },
                    None => {
                        self.preedit = None;
                        false
                    },
                }
            },
        }
    }

    fn enable_ime(&mut self, position: Point, purpose: Purpose)
        ensures
            *final(self) == (Window { ime_state: Some((position, purpose)), ..*old(self) }),
    {
        self.ime_state = Some((position, purpose));
    }

    fn disable_ime(&mut self)
        ensures
            *final(self) == (Window { ime_state: None, preedit: None, ..*old(self) }),
    {
        self.ime_state = None;
        self.preedit = None;
    }
}

} // verus!
