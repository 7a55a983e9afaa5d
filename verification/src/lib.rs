//! Verified bookkeeping layer for bindings to a native immediate-mode
//! plotting library.
//!
//! The native library does all plotting, rendering and hit-testing; this
//! crate holds the small amount of state and arithmetic that sits in front
//! of it and that is worth getting exactly right:
//!
//! - the fixed one-to-one mappings between named axis, marker, color,
//!   colormap, style-variable and location symbols and the integer
//!   identifiers the native library assigns them (a mismatch would be
//!   undefined behavior at the foreign-function boundary);
//! - the single-use tokens that account for pushes onto the native style
//!   stacks, where every push owes exactly one pop and popping a token twice
//!   is a usage error surfaced immediately.
//!
//! The foreign calls themselves live outside this crate; callers convert
//! enum values with the `native_value` methods here, hand the results to the
//! native entry points, and drive the style stacks through the tokens.

mod axis;
mod context;
mod style;
mod token;

pub use axis::lemma_axis_value_injective;
pub use axis::lemma_y_axis_choice_value_injective;
pub use axis::lemma_y_axis_option_value_injective;
pub use axis::y_axis_choice_option_to_i32;
pub use axis::y_axis_choice_value;
pub use axis::y_axis_option_value;
pub use axis::axis_value;
pub use axis::Axis;
pub use axis::YAxisChoice;
pub use axis::IMPLOT_AUTO;
pub use context::Context;
pub use context::PlotUi;
pub use style::colormap_value;
pub use style::lemma_colormap_value_injective;
pub use style::lemma_marker_value_injective;
pub use style::lemma_plot_color_element_value_injective;
pub use style::lemma_plot_location_value_injective;
pub use style::lemma_style_var_value_injective;
pub use style::marker_value;
pub use style::plot_color_element_value;
pub use style::plot_location_value;
pub use style::style_var_value;
pub use style::Colormap;
pub use style::Marker;
pub use style::PlotColorElement;
pub use style::PlotLocation;
pub use style::StyleVar;
pub use token::StyleColorToken;
pub use token::StyleVarToken;
pub use token::TokenError;
