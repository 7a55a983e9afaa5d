//! The active-context marker that gates all plotting operations.

use vstd::prelude::*;

verus! {

/// Marker for an active plotting context. The native library keeps the
/// context itself; a value of this type records that one has been created
/// and made current, and is required before any plotting call is made.
pub struct Context {}

impl Context {
    /// Records that an active native plotting context exists. To be called
    /// by the code that created the native context, right after doing so.
    pub fn new() -> Context {
        Context {}
    }

    /// Hands out the temporary reference used for building plots while this
    /// context is active.
    pub fn get_plot_ui(&self) -> PlotUi<'_> {
        PlotUi { context: self }
    }
}

/// A temporary reference for building plots. This does not really do
/// anything on its own at this point, but it is used to enforce that a
/// context is created and active for other features, such as creating plots.
pub struct PlotUi<'ui> {
    #[allow(dead_code)]
    context: &'ui Context,
}

} // verus!
