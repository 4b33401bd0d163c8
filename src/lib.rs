//! The verified core of a multi-window shell on top of a layer-shell
//! compositor: window registry, redraw scheduling, input routing, the
//! action channel and the program/UI lifecycle that drives updates.

mod action;
pub mod application;
mod clipboard;
mod conversion;
mod error;
mod event;
mod fxmap;
mod manager;
mod program;
mod proxy;
mod raw;
mod redraw;
mod shell;
mod types;
mod window;

pub use action::{
    initial_window, next_operation, select_output, Action, KeyboardInteractivity, Layer, LayerSettings,
    Margin, Outcome, ANCHOR_TOP,
};
pub use clipboard::Clipboard;
pub use conversion::{
    button, code, key, key_with_char, location, modifiers, Button, Code, Key, Location, Modifiers, Named, Physical,
    SeatModifiers, ALT, CTRL, LOGO, SHIFT,
};
pub use error::Error;
pub use event::{Event, KeyboardEvent, LayerEvent, MouseEvent, TouchEvent, WindowEvent};
pub use manager::{Entry, WindowManager};
pub use program::{into_cache, Interfaces, Ui};
pub use proxy::{new, Drained, PostAction, ProxySink, ProxySource, ProxySourceInner, Received, SendError, MAX_SIZE};
pub use raw::RawWindow;
pub use redraw::{Instant, RedrawRequest};
pub use shell::{
    Configure, Dispatch, Frame, InProgressWindow, PointerEvent, PointerKind, Shell, TimeoutAction,
    UiState,
};
pub use types::{Id, Point, Size};
pub use window::{InputMethod, Preedit, PreeditRequest, Purpose, Span, SpanText, State, Window};
