//! Axis identifiers and their native integer values.

use vstd::prelude::*;

verus! {

/// Sentinel value understood by the native library as "pick the axis
/// automatically" wherever an axis identifier is expected. It has to match
/// the native header's definition for things to work properly.
pub const IMPLOT_AUTO: i32 = -1;

/// Choice of Y axis. This is an enum instead of just an integer so as to make
/// it impossible to select a Y axis that is not present - this makes it
/// easier to avoid `Result`-type return values on functions that could
/// otherwise not really fail.
#[derive(Clone, Copy, Debug)]
pub enum YAxisChoice {
    /// The default Y axis.
    First,
    /// The first optional extra Y axis.
    Second,
    /// The second optional extra Y axis.
    Third,
}

/// The integer identifier the native library assigns each Y axis. Every
/// variant must match the native assignment exactly: a mismatch would select
/// the wrong axis, or no axis at all, at the foreign-function boundary.
pub open spec fn y_axis_choice_value(choice: YAxisChoice) -> int {
    match choice {
        YAxisChoice::First => 0,
        YAxisChoice::Second => 1,
        YAxisChoice::Third => 2,
    }
}

impl YAxisChoice {
    /// Returns the integer identifier the native library uses for this
    /// Y axis.
    pub fn native_value(&self) -> (r: i32)
        ensures
            r == y_axis_choice_value(*self),
    {
        match self {
            YAxisChoice::First => 0,
            YAxisChoice::Second => 1,
            YAxisChoice::Third => 2,
        }
    }
}

/// The Y-axis mapping is one-to-one: two choices with the same native value
/// are the same choice.
pub proof fn lemma_y_axis_choice_value_injective(a: YAxisChoice, b: YAxisChoice)
    ensures
        y_axis_choice_value(a) == y_axis_choice_value(b) ==> a == b,
{
}

/// The native value for an optional Y-axis choice: the identifier of the
/// chosen axis, or `IMPLOT_AUTO` when no axis is given.
pub open spec fn y_axis_option_value(choice: Option<YAxisChoice>) -> int {
    match choice {
        Some(c) => y_axis_choice_value(c),
        None => IMPLOT_AUTO as int,
    }
}

/// Turn an `Option<YAxisChoice>` into an i32. Picks `IMPLOT_AUTO` for `None`.
pub fn y_axis_choice_option_to_i32(y_axis_choice: Option<YAxisChoice>) -> (r: i32)
    ensures
        r == y_axis_option_value(y_axis_choice),
{
    match y_axis_choice {
        Some(choice) => choice.native_value(),
        None => IMPLOT_AUTO,
    }
}

/// The optional mapping is still one-to-one: the `IMPLOT_AUTO` sentinel never
/// collides with the identifier of a real Y axis, so the native value alone
/// determines which choice was made.
pub proof fn lemma_y_axis_option_value_injective(
    a: Option<YAxisChoice>,
    b: Option<YAxisChoice>,
)
    ensures
        y_axis_option_value(a) == y_axis_option_value(b) ==> a == b,
{
}

/// Identifier for one of the plot's axes, the X axes first and the Y axes
/// after them, each in declaration order.
#[derive(Clone, Copy, Debug)]
pub enum Axis {
    /// The default X axis.
    X1,
    /// The first optional extra X axis.
    X2,
    /// The second optional extra X axis.
    X3,
    /// The default Y axis.
    Y1,
    /// The first optional extra Y axis.
    Y2,
    /// The second optional extra Y axis.
    Y3,
}

/// The integer identifier of each axis in the combined numbering, X axes
/// before Y axes.
pub open spec fn axis_value(axis: Axis) -> int {
    match axis {
        Axis::X1 => 0,
        Axis::X2 => 1,
        Axis::X3 => 2,
        Axis::Y1 => 3,
        Axis::Y2 => 4,
        Axis::Y3 => 5,
    }
}

impl Axis {
    /// Returns the integer identifier of this axis in the combined
    /// numbering.
    pub fn native_value(&self) -> (r: i32)
        ensures
            r == axis_value(*self),
    {
        match self {
            Axis::X1 => 0,
            Axis::X2 => 1,
            Axis::X3 => 2,
            Axis::Y1 => 3,
            Axis::Y2 => 4,
            Axis::Y3 => 5,
        }
    }

    /// The Y-axis choice this axis corresponds to: `Some` exactly for the
    /// three Y axes, whose position among the Y axes equals the chosen
    /// axis's position in the combined numbering shifted past the X axes.
    pub fn y_axis_choice(&self) -> (r: Option<YAxisChoice>)
        ensures
            r is Some <==> axis_value(*self) >= 3,
            r matches Some(c) ==> y_axis_choice_value(c) + 3 == axis_value(*self),
    {
        match self {
            Axis::X1 => None,
            Axis::X2 => None,
            Axis::X3 => None,
            Axis::Y1 => Some(YAxisChoice::First),
            Axis::Y2 => Some(YAxisChoice::Second),
            Axis::Y3 => Some(YAxisChoice::Third),
        }
    }
}

/// The axis mapping is one-to-one: two axes with the same identifier are the
/// same axis.
pub proof fn lemma_axis_value_injective(a: Axis, b: Axis)
    ensures
        axis_value(a) == axis_value(b) ==> a == b,
{
}

} // verus!
