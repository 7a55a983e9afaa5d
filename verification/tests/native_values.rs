//! The enum mappings must match the native library's integer assignments
//! exactly; these tests hold every variant against the constant the
//! generated low-level bindings carry for it.

use implot::{
    y_axis_choice_option_to_i32, Axis, Colormap, Marker, PlotColorElement, PlotLocation,
    StyleVar, YAxisChoice, IMPLOT_AUTO,
};
use implot_sys as sys;

#[test]
fn y_axis_choice_values_match_native() {
    assert_eq!(
        YAxisChoice::First.native_value(),
        sys::ImPlotYAxis__ImPlotYAxis_1 as i32
    );
    assert_eq!(
        YAxisChoice::Second.native_value(),
        sys::ImPlotYAxis__ImPlotYAxis_2 as i32
    );
    assert_eq!(
        YAxisChoice::Third.native_value(),
        sys::ImPlotYAxis__ImPlotYAxis_3 as i32
    );
}

#[test]
fn y_axis_choice_option_conversion() {
    assert_eq!(y_axis_choice_option_to_i32(Some(YAxisChoice::First)), 0);
    assert_eq!(y_axis_choice_option_to_i32(Some(YAxisChoice::Second)), 1);
    assert_eq!(y_axis_choice_option_to_i32(Some(YAxisChoice::Third)), 2);
    assert_eq!(y_axis_choice_option_to_i32(None), -1);
    assert_eq!(IMPLOT_AUTO, -1);
}

#[test]
fn axis_values_and_y_axis_choices() {
    let axes = [Axis::X1, Axis::X2, Axis::X3, Axis::Y1, Axis::Y2, Axis::Y3];
    for (i, axis) in axes.iter().enumerate() {
        assert_eq!(axis.native_value(), i as i32);
    }
    assert!(Axis::X1.y_axis_choice().is_none());
    assert!(Axis::X2.y_axis_choice().is_none());
    assert!(Axis::X3.y_axis_choice().is_none());
    assert_eq!(Axis::Y1.y_axis_choice().map(|c| c.native_value()), Some(0));
    assert_eq!(Axis::Y2.y_axis_choice().map(|c| c.native_value()), Some(1));
    assert_eq!(Axis::Y3.y_axis_choice().map(|c| c.native_value()), Some(2));
}

#[test]
fn marker_values_match_native() {
    let pairs = [
        (Marker::NoMarker, sys::ImPlotMarker__ImPlotMarker_None),
        (Marker::Circle, sys::ImPlotMarker__ImPlotMarker_Circle),
        (Marker::Square, sys::ImPlotMarker__ImPlotMarker_Square),
        (Marker::Diamond, sys::ImPlotMarker__ImPlotMarker_Diamond),
        (Marker::Up, sys::ImPlotMarker__ImPlotMarker_Up),
        (Marker::Down, sys::ImPlotMarker__ImPlotMarker_Down),
        (Marker::Left, sys::ImPlotMarker__ImPlotMarker_Left),
        (Marker::Right, sys::ImPlotMarker__ImPlotMarker_Right),
        (Marker::Cross, sys::ImPlotMarker__ImPlotMarker_Cross),
        (Marker::Plus, sys::ImPlotMarker__ImPlotMarker_Plus),
        (Marker::Asterisk, sys::ImPlotMarker__ImPlotMarker_Asterisk),
    ];
    for (marker, native) in pairs {
        assert_eq!(marker.native_value(), native as i32);
    }
}

#[test]
fn plot_color_element_values_match_native() {
    let pairs = [
        (PlotColorElement::Line, sys::ImPlotCol__ImPlotCol_Line),
        (PlotColorElement::Fill, sys::ImPlotCol__ImPlotCol_Fill),
        (
            PlotColorElement::MarkerOutline,
            sys::ImPlotCol__ImPlotCol_MarkerOutline,
        ),
        (
            PlotColorElement::MarkerFill,
            sys::ImPlotCol__ImPlotCol_MarkerFill,
        ),
        (PlotColorElement::ErrorBar, sys::ImPlotCol__ImPlotCol_ErrorBar),
        (PlotColorElement::FrameBg, sys::ImPlotCol__ImPlotCol_FrameBg),
        (PlotColorElement::PlotBg, sys::ImPlotCol__ImPlotCol_PlotBg),
        (
            PlotColorElement::PlotBorder,
            sys::ImPlotCol__ImPlotCol_PlotBorder,
        ),
        (
            PlotColorElement::LegendBackground,
            sys::ImPlotCol__ImPlotCol_LegendBg,
        ),
        (
            PlotColorElement::LegendBorder,
            sys::ImPlotCol__ImPlotCol_LegendBorder,
        ),
        (
            PlotColorElement::LegendText,
            sys::ImPlotCol__ImPlotCol_LegendText,
        ),
        (
            PlotColorElement::TitleText,
            sys::ImPlotCol__ImPlotCol_TitleText,
        ),
        (
            PlotColorElement::InlayText,
            sys::ImPlotCol__ImPlotCol_InlayText,
        ),
        (
            PlotColorElement::Selection,
            sys::ImPlotCol__ImPlotCol_Selection,
        ),
        (
            PlotColorElement::Crosshairs,
            sys::ImPlotCol__ImPlotCol_Crosshairs,
        ),
    ];
    for (element, native) in pairs {
        assert_eq!(element.native_value(), native as i32);
    }
}

#[test]
fn colormap_values_match_native() {
    let pairs = [
        (Colormap::Deep, sys::ImPlotColormap__ImPlotColormap_Deep),
        (Colormap::Dark, sys::ImPlotColormap__ImPlotColormap_Dark),
        (Colormap::Pastel, sys::ImPlotColormap__ImPlotColormap_Pastel),
        (Colormap::Paired, sys::ImPlotColormap__ImPlotColormap_Paired),
        (Colormap::Viridis, sys::ImPlotColormap__ImPlotColormap_Viridis),
        (Colormap::Plasma, sys::ImPlotColormap__ImPlotColormap_Plasma),
        (Colormap::Hot, sys::ImPlotColormap__ImPlotColormap_Hot),
        (Colormap::Cool, sys::ImPlotColormap__ImPlotColormap_Cool),
        (Colormap::Pink, sys::ImPlotColormap__ImPlotColormap_Pink),
        (Colormap::Jet, sys::ImPlotColormap__ImPlotColormap_Jet),
    ];
    for (colormap, native) in pairs {
        assert_eq!(colormap.native_value(), native as i32);
    }
}

#[test]
fn style_var_values_match_native() {
    let pairs = [
        (StyleVar::LineWeight, sys::ImPlotStyleVar__ImPlotStyleVar_LineWeight),
        (StyleVar::Marker, sys::ImPlotStyleVar__ImPlotStyleVar_Marker),
        (StyleVar::MarkerSize, sys::ImPlotStyleVar__ImPlotStyleVar_MarkerSize),
        (
            StyleVar::MarkerWeight,
            sys::ImPlotStyleVar__ImPlotStyleVar_MarkerWeight,
        ),
        (StyleVar::FillAlpha, sys::ImPlotStyleVar__ImPlotStyleVar_FillAlpha),
        (
            StyleVar::ErrorBarSize,
            sys::ImPlotStyleVar__ImPlotStyleVar_ErrorBarSize,
        ),
        (
            StyleVar::ErrorBarWeight,
            sys::ImPlotStyleVar__ImPlotStyleVar_ErrorBarWeight,
        ),
        (
            StyleVar::DigitalBitHeight,
            sys::ImPlotStyleVar__ImPlotStyleVar_DigitalBitHeight,
        ),
        (
            StyleVar::DigitalBitGap,
            sys::ImPlotStyleVar__ImPlotStyleVar_DigitalBitGap,
        ),
        (
            StyleVar::PlotBorderSize,
            sys::ImPlotStyleVar__ImPlotStyleVar_PlotBorderSize,
        ),
        (StyleVar::MinorAlpha, sys::ImPlotStyleVar__ImPlotStyleVar_MinorAlpha),
        (
            StyleVar::MajorTickLen,
            sys::ImPlotStyleVar__ImPlotStyleVar_MajorTickLen,
        ),
        (
            StyleVar::MinorTickLen,
            sys::ImPlotStyleVar__ImPlotStyleVar_MinorTickLen,
        ),
        (
            StyleVar::MajorTickSize,
            sys::ImPlotStyleVar__ImPlotStyleVar_MajorTickSize,
        ),
        (
            StyleVar::MinorTickSize,
            sys::ImPlotStyleVar__ImPlotStyleVar_MinorTickSize,
        ),
        (
            StyleVar::MajorGridSize,
            sys::ImPlotStyleVar__ImPlotStyleVar_MajorGridSize,
        ),
        (
            StyleVar::MinorGridSize,
            sys::ImPlotStyleVar__ImPlotStyleVar_MinorGridSize,
        ),
        (
            StyleVar::PlotPadding,
            sys::ImPlotStyleVar__ImPlotStyleVar_PlotPadding,
        ),
        (
            StyleVar::LabelPadding,
            sys::ImPlotStyleVar__ImPlotStyleVar_LabelPadding,
        ),
        (
            StyleVar::LegendPadding,
            sys::ImPlotStyleVar__ImPlotStyleVar_LegendPadding,
        ),
        (
            StyleVar::LegendInnerPadding,
            sys::ImPlotStyleVar__ImPlotStyleVar_LegendInnerPadding,
        ),
        (
            StyleVar::LegendSpacing,
            sys::ImPlotStyleVar__ImPlotStyleVar_LegendSpacing,
        ),
        (
            StyleVar::MousePosPadding,
            sys::ImPlotStyleVar__ImPlotStyleVar_MousePosPadding,
        ),
        (
            StyleVar::AnnotationPadding,
            sys::ImPlotStyleVar__ImPlotStyleVar_AnnotationPadding,
        ),
        (StyleVar::FitPadding, sys::ImPlotStyleVar__ImPlotStyleVar_FitPadding),
        (
            StyleVar::PlotDefaultSize,
            sys::ImPlotStyleVar__ImPlotStyleVar_PlotDefaultSize,
        ),
        (
            StyleVar::PlotMinSize,
            sys::ImPlotStyleVar__ImPlotStyleVar_PlotMinSize,
        ),
    ];
    for (var, native) in pairs {
        assert_eq!(var.native_value(), native as i32);
    }
}

#[test]
fn plot_location_values_match_native() {
    let pairs = [
        (PlotLocation::Center, sys::ImPlotLocation__ImPlotLocation_Center),
        (PlotLocation::North, sys::ImPlotLocation__ImPlotLocation_North),
        (PlotLocation::South, sys::ImPlotLocation__ImPlotLocation_South),
        (PlotLocation::West, sys::ImPlotLocation__ImPlotLocation_West),
        (PlotLocation::East, sys::ImPlotLocation__ImPlotLocation_East),
        (
            PlotLocation::NorthWest,
            sys::ImPlotLocation__ImPlotLocation_NorthWest,
        ),
        (
            PlotLocation::NorthEast,
            sys::ImPlotLocation__ImPlotLocation_NorthEast,
        ),
        (
            PlotLocation::SouthWest,
            sys::ImPlotLocation__ImPlotLocation_SouthWest,
        ),
        (
            PlotLocation::SouthEast,
            sys::ImPlotLocation__ImPlotLocation_SouthEast,
        ),
    ];
    for (location, native) in pairs {
        assert_eq!(location.native_value(), native as i32);
    }
}

#[test]
fn native_values_are_pairwise_distinct() {
    // One-to-one: no two variants of a mapping share a native value.
    let markers = [
        Marker::NoMarker,
        Marker::Circle,
        Marker::Square,
        Marker::Diamond,
        Marker::Up,
        Marker::Down,
        Marker::Left,
        Marker::Right,
        Marker::Cross,
        Marker::Plus,
        Marker::Asterisk,
    ];
    for (i, a) in markers.iter().enumerate() {
        for (j, b) in markers.iter().enumerate() {
            assert_eq!(i == j, a.native_value() == b.native_value());
        }
    }
    let locations = [
        PlotLocation::Center,
        PlotLocation::North,
        PlotLocation::South,
        PlotLocation::West,
        PlotLocation::East,
        PlotLocation::NorthWest,
        PlotLocation::NorthEast,
        PlotLocation::SouthWest,
        PlotLocation::SouthEast,
    ];
    for (i, a) in locations.iter().enumerate() {
        for (j, b) in locations.iter().enumerate() {
            assert_eq!(i == j, a.native_value() == b.native_value());
        }
    }
}
