//! Marker, color, colormap, style-variable and location symbols, each with
//! its fixed native integer value.
//!
//! Every mapping here is a one-to-one correspondence between a named symbol
//! and the integer constant the native library assigns it. The values must
//! match the native assignment exactly: a mismatch would address the wrong
//! native setting, which is undefined behavior at the foreign-function
//! boundary.

use vstd::prelude::*;

verus! {

/// Marker styles for the points of a plotted series.
#[derive(Clone, Copy, Debug)]
pub enum Marker {
    /// no marker
    NoMarker,
    /// a circle marker will be rendered at each point
    Circle,
    /// a square maker will be rendered at each point
    Square,
    /// a diamond marker will be rendered at each point
    Diamond,
    /// an upward-pointing triangle marker will up rendered at each point
    Up,
    /// an downward-pointing triangle marker will up rendered at each point
    Down,
    /// an leftward-pointing triangle marker will up rendered at each point
    Left,
    /// an rightward-pointing triangle marker will up rendered at each point
    Right,
    /// a cross marker will be rendered at each point (not filled)
    Cross,
    /// a plus marker will be rendered at each point (not filled)
    Plus,
    /// a asterisk marker will be rendered at each point (not filled)
    Asterisk,
}

/// The integer value the native library assigns each marker style.
pub open spec fn marker_value(marker: Marker) -> int {
    match marker {
        Marker::NoMarker => -1,
        Marker::Circle => 0,
        Marker::Square => 1,
        Marker::Diamond => 2,
        Marker::Up => 3,
        Marker::Down => 4,
        Marker::Left => 5,
        Marker::Right => 6,
        Marker::Cross => 7,
        Marker::Plus => 8,
        Marker::Asterisk => 9,
    }
}

impl Marker {
    /// Returns the integer value the native library uses for this marker.
    pub fn native_value(&self) -> (r: i32)
        ensures
            r == marker_value(*self),
    {
        match self {
            Marker::NoMarker => -1,
            Marker::Circle => 0,
            Marker::Square => 1,
            Marker::Diamond => 2,
            Marker::Up => 3,
            Marker::Down => 4,
            Marker::Left => 5,
            Marker::Right => 6,
            Marker::Cross => 7,
            Marker::Plus => 8,
            Marker::Asterisk => 9,
        }
    }
}

/// The marker mapping is one-to-one: two markers with the same native value
/// are the same marker.
pub proof fn lemma_marker_value_injective(a: Marker, b: Marker)
    ensures
        marker_value(a) == marker_value(b) ==> a == b,
{
}

/// Colorable plot elements: which part of a plot a pushed color applies to.
#[derive(Clone, Copy, Debug)]
pub enum PlotColorElement {
    /// Plot line/outline color (defaults to next unused color in current colormap)
    Line,
    /// Plot fill color for bars (defaults to the current line color)
    Fill,
    /// Marker outline color (defaults to the current line color)
    MarkerOutline,
    /// Marker fill color (defaults to the current line color)
    MarkerFill,
    /// Error bar color (defaults to text color)
    ErrorBar,
    /// Plot frame background color
    FrameBg,
    /// Plot area background color
    PlotBg,
    /// Plot area border color (defaults to text color)
    PlotBorder,
    /// Legend background color
    LegendBackground,
    /// Legend border color
    LegendBorder,
    /// Legend text color
    LegendText,
    /// Plot title text color
    TitleText,
    /// Color of text appearing inside of plots
    InlayText,
    /// Box-selection color (defaults to yellow)
    Selection,
    /// Crosshairs color
    Crosshairs,
}

/// The integer value the native library assigns each colorable element.
pub open spec fn plot_color_element_value(element: PlotColorElement) -> int {
    match element {
        PlotColorElement::Line => 0,
        PlotColorElement::Fill => 1,
        PlotColorElement::MarkerOutline => 2,
        PlotColorElement::MarkerFill => 3,
        PlotColorElement::ErrorBar => 4,
        PlotColorElement::FrameBg => 5,
        PlotColorElement::PlotBg => 6,
        PlotColorElement::PlotBorder => 7,
        PlotColorElement::LegendBackground => 8,
        PlotColorElement::LegendBorder => 9,
        PlotColorElement::LegendText => 10,
        PlotColorElement::TitleText => 11,
        PlotColorElement::InlayText => 12,
        PlotColorElement::Selection => 21,
        PlotColorElement::Crosshairs => 23,
    }
}

impl PlotColorElement {
    /// Returns the integer value the native library uses for this element.
    pub fn native_value(&self) -> (r: i32)
        ensures
            r == plot_color_element_value(*self),
    {
        match self {
            PlotColorElement::Line => 0,
            PlotColorElement::Fill => 1,
            PlotColorElement::MarkerOutline => 2,
            PlotColorElement::MarkerFill => 3,
            PlotColorElement::ErrorBar => 4,
            PlotColorElement::FrameBg => 5,
            PlotColorElement::PlotBg => 6,
            PlotColorElement::PlotBorder => 7,
            PlotColorElement::LegendBackground => 8,
            PlotColorElement::LegendBorder => 9,
            PlotColorElement::LegendText => 10,
            PlotColorElement::TitleText => 11,
            PlotColorElement::InlayText => 12,
            PlotColorElement::Selection => 21,
            PlotColorElement::Crosshairs => 23,
        }
    }
}

/// The colorable-element mapping is one-to-one: two elements with the same
/// native value are the same element.
pub proof fn lemma_plot_color_element_value_injective(
    a: PlotColorElement,
    b: PlotColorElement,
)
    ensures
        plot_color_element_value(a) == plot_color_element_value(b) ==> a == b,
{
}

/// Built-in colormap presets.
#[derive(Clone, Copy, Debug)]
pub enum Colormap {
    /// a.k.a. seaborn deep
    Deep,
    /// a.k.a. matplotlib "Set1"
    Dark,
    /// a.k.a. matplotlib "Pastel1"
    Pastel,
    /// a.k.a. matplotlib "Paired"
    Paired,
    /// a.k.a. matplotlib "viridis"
    Viridis,
    /// a.k.a. matplotlib "plasma"
    Plasma,
    /// a.k.a. matplotlib/MATLAB "hot"
    Hot,
    /// a.k.a. matplotlib/MATLAB "cool"
    Cool,
    /// a.k.a. matplotlib/MATLAB "pink"
    Pink,
    /// a.k.a. MATLAB "jet"
    Jet,
}

/// The integer value the native library assigns each colormap preset.
pub open spec fn colormap_value(colormap: Colormap) -> int {
    match colormap {
        Colormap::Deep => 1,
        Colormap::Dark => 2,
        Colormap::Pastel => 3,
        Colormap::Paired => 4,
        Colormap::Viridis => 5,
        Colormap::Plasma => 6,
        Colormap::Hot => 7,
        Colormap::Cool => 8,
        Colormap::Pink => 9,
        Colormap::Jet => 10,
    }
}

impl Colormap {
    /// Returns the integer value the native library uses for this preset.
    pub fn native_value(&self) -> (r: i32)
        ensures
            r == colormap_value(*self),
    {
        match self {
            Colormap::Deep => 1,
            Colormap::Dark => 2,
            Colormap::Pastel => 3,
            Colormap::Paired => 4,
            Colormap::Viridis => 5,
            Colormap::Plasma => 6,
            Colormap::Hot => 7,
            Colormap::Cool => 8,
            Colormap::Pink => 9,
            Colormap::Jet => 10,
        }
    }
}

/// The colormap mapping is one-to-one: two presets with the same native
/// value are the same preset.
pub proof fn lemma_colormap_value_injective(a: Colormap, b: Colormap)
    ensures
        colormap_value(a) == colormap_value(b) ==> a == b,
{
}

/// Style variable choice, as in "which thing will be affected by a style
/// setting".
#[derive(Clone, Copy, Debug)]
pub enum StyleVar {
    /// f32, line weight in pixels
    LineWeight,
    /// i32, marker specification
    Marker,
    /// f32, marker size in pixels (roughly the marker's "radius")
    MarkerSize,
    /// f32, outline weight of markers in pixels
    MarkerWeight,
    /// f32, alpha modifier applied to all plot item fills
    FillAlpha,
    /// f32, error bar whisker width in pixels
    ErrorBarSize,
    /// f32, error bar whisker weight in pixels
    ErrorBarWeight,
    /// f32, digital channels bit height (at 1) in pixels
    DigitalBitHeight,
    /// f32, digital channels bit padding gap in pixels
    DigitalBitGap,
    /// f32, thickness of border around plot area
    PlotBorderSize,
    /// f32, alpha multiplier applied to minor axis grid lines
    MinorAlpha,
    /// 2D vector, major tick lengths for X and Y axes
    MajorTickLen,
    /// 2D vector, minor tick lengths for X and Y axes
    MinorTickLen,
    /// 2D vector, line thickness of major ticks
    MajorTickSize,
    /// 2D vector, line thickness of minor ticks
    MinorTickSize,
    /// 2D vector, line thickness of major grid lines
    MajorGridSize,
    /// 2D vector, line thickness of minor grid lines
    MinorGridSize,
    /// 2D vector, padding between widget frame and plot area and/or labels
    PlotPadding,
    /// 2D vector, padding between axes labels, tick labels, and plot edge
    LabelPadding,
    /// 2D vector, legend padding from top-left of plot
    LegendPadding,
    /// 2D vector, legend inner padding from legend edges
    LegendInnerPadding,
    /// 2D vector, spacing between legend entries
    LegendSpacing,
    /// 2D vector, padding between plot edge and interior info text
    MousePosPadding,
    /// 2D vector, text padding around annotation labels
    AnnotationPadding,
    /// 2D vector, additional fit padding as a percentage of the fit extents
    FitPadding,
    /// 2D vector, default size used when a zero size is passed when a plot
    /// begins
    PlotDefaultSize,
    /// 2D vector, minimum size plot frame can be when shrunk
    PlotMinSize,
}

/// The integer value the native library assigns each style variable.
pub open spec fn style_var_value(var: StyleVar) -> int {
    match var {
        StyleVar::LineWeight => 0,
        StyleVar::Marker => 1,
        StyleVar::MarkerSize => 2,
        StyleVar::MarkerWeight => 3,
        StyleVar::FillAlpha => 4,
        StyleVar::ErrorBarSize => 5,
        StyleVar::ErrorBarWeight => 6,
        StyleVar::DigitalBitHeight => 7,
        StyleVar::DigitalBitGap => 8,
        StyleVar::PlotBorderSize => 9,
        StyleVar::MinorAlpha => 10,
        StyleVar::MajorTickLen => 11,
        StyleVar::MinorTickLen => 12,
        StyleVar::MajorTickSize => 13,
        StyleVar::MinorTickSize => 14,
        StyleVar::MajorGridSize => 15,
        StyleVar::MinorGridSize => 16,
        StyleVar::PlotPadding => 17,
        StyleVar::LabelPadding => 18,
        StyleVar::LegendPadding => 19,
        StyleVar::LegendInnerPadding => 20,
        StyleVar::LegendSpacing => 21,
        StyleVar::MousePosPadding => 22,
        StyleVar::AnnotationPadding => 23,
        StyleVar::FitPadding => 24,
        StyleVar::PlotDefaultSize => 25,
        StyleVar::PlotMinSize => 26,
    }
}

impl StyleVar {
    /// Returns the integer value the native library uses for this style
    /// variable.
    pub fn native_value(&self) -> (r: i32)
        ensures
            r == style_var_value(*self),
    {
        match self {
            StyleVar::LineWeight => 0,
            StyleVar::Marker => 1,
            StyleVar::MarkerSize => 2,
            StyleVar::MarkerWeight => 3,
            StyleVar::FillAlpha => 4,
            StyleVar::ErrorBarSize => 5,
            StyleVar::ErrorBarWeight => 6,
            StyleVar::DigitalBitHeight => 7,
            StyleVar::DigitalBitGap => 8,
            StyleVar::PlotBorderSize => 9,
            StyleVar::MinorAlpha => 10,
            StyleVar::MajorTickLen => 11,
            StyleVar::MinorTickLen => 12,
            StyleVar::MajorTickSize => 13,
            StyleVar::MinorTickSize => 14,
            StyleVar::MajorGridSize => 15,
            StyleVar::MinorGridSize => 16,
            StyleVar::PlotPadding => 17,
            StyleVar::LabelPadding => 18,
            StyleVar::LegendPadding => 19,
            StyleVar::LegendInnerPadding => 20,
            StyleVar::LegendSpacing => 21,
            StyleVar::MousePosPadding => 22,
            StyleVar::AnnotationPadding => 23,
            StyleVar::FitPadding => 24,
            StyleVar::PlotDefaultSize => 25,
            StyleVar::PlotMinSize => 26,
        }
    }
}

/// The style-variable mapping is one-to-one: two variables with the same
/// native value are the same variable.
pub proof fn lemma_style_var_value_injective(a: StyleVar, b: StyleVar)
    ensures
        style_var_value(a) == style_var_value(b) ==> a == b,
{
}

/// Used to position items on a plot (e.g. legends, labels, etc.).
#[derive(Clone, Copy, Debug)]
pub enum PlotLocation {
    /// Center-center
    Center,
    /// Top-center
    North,
    /// Bottom-center
    South,
    /// Center-left
    West,
    /// Center-right
    East,
    /// Top-left
    NorthWest,
    /// Top-right
    NorthEast,
    /// Bottom-left
    SouthWest,
    /// Bottom-right
    SouthEast,
}

/// The integer value the native library assigns each location. The native
/// encoding combines a north/south bit with a west/east bit, so the values
/// are not consecutive.
pub open spec fn plot_location_value(location: PlotLocation) -> int {
    match location {
        PlotLocation::Center => 0,
        PlotLocation::North => 1,
        PlotLocation::South => 2,
        PlotLocation::West => 4,
        PlotLocation::East => 8,
        PlotLocation::NorthWest => 5,
        PlotLocation::NorthEast => 9,
        PlotLocation::SouthWest => 6,
        PlotLocation::SouthEast => 10,
    }
}

impl PlotLocation {
    /// Returns the integer value the native library uses for this location.
    pub fn native_value(&self) -> (r: i32)
        ensures
            r == plot_location_value(*self),
    {
        match self {
            PlotLocation::Center => 0,
            PlotLocation::North => 1,
            PlotLocation::South => 2,
            PlotLocation::West => 4,
            PlotLocation::East => 8,
            PlotLocation::NorthWest => 5,
            PlotLocation::NorthEast => 9,
            PlotLocation::SouthWest => 6,
            PlotLocation::SouthEast => 10,
        }
    }
}

/// The location mapping is one-to-one: two locations with the same native
/// value are the same location.
pub proof fn lemma_plot_location_value_injective(a: PlotLocation, b: PlotLocation)
    ensures
        plot_location_value(a) == plot_location_value(b) ==> a == b,
{
}

} // verus!
