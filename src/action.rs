use crate::types::{Id, Size};
use vstd::prelude::*;

verus! {

/// The layer of the compositor's stacking that a layer surface sits in.
#[derive(Clone, Copy, Debug, PartialEq, Eq, Structural)]
pub enum Layer {
    Background,
    Bottom,
    Top,
    Overlay,
}

/// How a layer surface takes keyboard focus.
#[derive(Clone, Copy, Debug, PartialEq, Eq, Structural)]
pub enum KeyboardInteractivity {
    /// It never takes keyboard focus.
    Off,
    Exclusive,
    OnDemand,
}

/// Space kept around a layer surface, in logical pixels.
#[derive(Clone, Copy, Debug, PartialEq, Eq, Structural)]
pub struct Margin {
    pub top: i32,
    pub right: i32,
    pub bottom: i32,
    pub left: i32,
}

/// How a layer surface is asked for.
#[derive(Clone, Debug)]
pub struct LayerSettings {
    pub layer: Layer,
    pub namespace: Option<String>,
    pub size: Size,
    /// The edges it is anchored to, as the protocol's bits.
    pub anchor: u32,
    pub exclusive_zone: i32,
    pub margin: Margin,
    pub keyboard_interactivity: KeyboardInteractivity,
    /// The name of the output to show it on; the compositor picks when absent.
    pub output: Option<String>,
}

/// Whether output name `o` is `name`.
pub open spec fn named(o: Option<String>, name: String) -> bool {
    o matches Some(n) && n@ == name@
}

/// Picks the output that a layer surface asks for: the first of `outputs`,
/// by their names, that bears the name in `wanted`. No name asked for, or
/// none that matches, leaves the choice to the compositor.
pub fn select_output(outputs: &Vec<Option<String>>, wanted: &Option<String>) -> (r: Option<usize>)
    ensures
        wanted is None ==> r is None,
        wanted is Some ==> match r {
            Some(i) => {
                &&& i < outputs@.len()
                &&& named(outputs@[i as int], wanted->0)
                &&& forall|j: int| 0 <= j < i ==> !named(#[trigger] outputs@[j], wanted->0)
            },
            None => forall|j: int| 0 <= j < outputs@.len() ==> !named(#[trigger] outputs@[j], wanted->0),
        },
{
    if wanted.is_none() {
        return None;
    }
    let name = wanted.as_ref().unwrap();
    let mut i: usize = 0;
    while i < outputs.len()
        invariant
            wanted is Some,
            *name == wanted->0,
            i <= outputs@.len(),
            forall|j: int| 0 <= j < i ==> !named(#[trigger] outputs@[j], wanted->0),
        decreases outputs@.len() - i,
    {
        if let Some(n) = outputs[i].as_ref() {
            if n.eq(name) {
                return Some(i);
            }
        }
        i = i + 1;
    }
    None
}

/// The bit of the top edge among a layer surface's anchors.
pub const ANCHOR_TOP: u32 = 1;

/// How the shell starts: without a window asked for, it runs as a daemon
/// that opens no window; else it opens one layer surface on the top layer,
/// 400 by 400, anchored to the top edge 200 below it, taking keyboard focus
/// on demand. Returns whether it is a daemon, and the surface to open.
pub fn initial_window(window_requested: bool) -> (r: (bool, Option<LayerSettings>))
    ensures
        r.0 == !window_requested,
        r.1 is Some <==> window_requested,
        r.1 matches Some(s) ==> {
            &&& s.layer == Layer::Top
            &&& s.namespace is None
            &&& s.size == (Size { width: 400, height: 400 })
            &&& s.anchor == ANCHOR_TOP
            &&& s.exclusive_zone == 0
            &&& s.margin == (Margin { top: 200, right: 0, bottom: 0, left: 0 })
            &&& s.keyboard_interactivity == KeyboardInteractivity::OnDemand
            &&& s.output is None
        },
{
    if window_requested {
        let settings = LayerSettings {
            layer: Layer::Top,
            namespace: None,
            size: Size { width: 400, height: 400 },
            anchor: ANCHOR_TOP,
            exclusive_zone: 0,
            margin: Margin { top: 200, right: 0, bottom: 0, left: 0 },
            keyboard_interactivity: KeyboardInteractivity::OnDemand,
            output: None,
        };
        (false, Some(settings))
    } else {
        (true, None)
    }
}

/// What a widget operation reported once it ran over every user interface.
pub enum Outcome<O> {
    /// It finished with nothing to report.
    Finished,
    /// It finished with a result, handed back to its task.
    Output,
    /// Another operation to run next, in the same pass.
    Chain(O),
}

/// The operation to run next after one that reported `outcome`: the one it
/// chains to, if any; the chain ends otherwise.
pub fn next_operation<O>(outcome: Outcome<O>) -> (r: Option<O>)
    ensures
        outcome matches Outcome::Chain(o) ==> r == Some(o),
        !(outcome is Chain) ==> r is None,
{
    match outcome {
        Outcome::Chain(next) => Some(next),
        _ => None,
    }
}

/// An effect that a running task hands to the event loop.
#[derive(Debug)]
pub enum Action<T> {
    /// A message for the program's update.
    Output(T),
    /// An operation on the clipboard.
    Clipboard,
    /// An operation on a window.
    Window,
    /// Open a layer surface as window `Id`.
    Open(Id, LayerSettings),
    /// Close window `Id`.
    Close(Id),
    /// Gather information about the system and the graphics backend.
    QueryInformation,
    /// Run the pending widget operation over every user interface.
    Widget,
    /// Load a font from its bytes.
    LoadFont(Vec<u8>),
    /// Rebuild every user interface.
    Reload,
    /// Stop the event loop.
    Exit,
}

} // verus!
