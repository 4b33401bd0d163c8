use smithay_client_toolkit::reexports::client::protocol::wl_display::WlDisplay;
use smithay_client_toolkit::reexports::client::protocol::wl_surface::WlSurface;
use smithay_client_toolkit::shell::wlr_layer::LayerSurface;
use smithay_client_toolkit::shell::WaylandSurface;
use vstd::prelude::*;

verus! {

#[verifier::external_type_specification]
#[verifier::external_body]
pub struct ExWlDisplay(WlDisplay);

#[verifier::external_type_specification]
#[verifier::external_body]
pub struct ExWlSurface(WlSurface);

#[verifier::external_type_specification]
#[verifier::external_body]
pub struct ExLayerSurface(LayerSurface);

/// Relies on `Clone` for wayland-client's `WlDisplay`: another handle to the
/// same display.
pub assume_specification[ <WlDisplay as Clone>::clone ](display: &WlDisplay) -> WlDisplay;

/// Relies on `Clone` for smithay-client-toolkit's `LayerSurface`: another
/// handle to the same layer surface.
pub assume_specification[ <LayerSurface as Clone>::clone ](layer_surface: &LayerSurface) -> LayerSurface;

/// Relies on smithay-client-toolkit's `WaylandSurface::wl_surface` for a
/// layer surface: the surface that it wraps.
#[verifier::external_body]
fn wl_surface_of(layer_surface: &LayerSurface) -> (r: &WlSurface) {
    layer_surface.wl_surface()
}

/// The native handles of a window, as the compositor knows it.
#[derive(Debug, Clone)]
pub enum RawWindow {
    Layer(WlDisplay, LayerSurface),
}

impl RawWindow {
    /// The display connection that the window belongs to.
    pub fn display(&self) -> (r: &WlDisplay)
        ensures
            self matches RawWindow::Layer(d, _) && r == d,
    {
        match self {
            RawWindow::Layer(display, _) => display,
        }
    }

    /// The layer surface of the window.
    pub fn layer_surface(&self) -> (r: &LayerSurface)
        ensures
            self matches RawWindow::Layer(_, l) && r == l,
    {
        match self {
            RawWindow::Layer(_, layer_surface) => layer_surface,
        }
    }

    /// The surface that the window draws to.
    pub fn surface(&self) -> (r: &WlSurface) {
        match self {
            RawWindow::Layer(_, layer_surface) => wl_surface_of(layer_surface),
        }
    }
}

} // verus!
