//! Style value types.
//!
//! These are the opaque, immutable values the builder copies into styles and
//! commands but never interprets: lengths, rects, colors and layout enums.
//! Lengths carry integer payloads whose unit of measure is the caller's
//! business; the builder only moves them around.

use vstd::prelude::*;

verus! {

/// A length or position value for one style field.
#[derive(Clone, Copy, PartialEq, Eq, Structural, Debug)]
pub enum Val {
    Auto,
    Px(i64),
    Percent(i64),
    Vw(i64),
    Vh(i64),
    VMin(i64),
    VMax(i64),
}

/// An RGBA color with 8-bit channels.
#[derive(Clone, Copy, PartialEq, Eq, Structural, Debug)]
pub struct Color {
    pub red: u8,
    pub green: u8,
    pub blue: u8,
    pub alpha: u8,
}

impl Color {
    pub open spec fn spec_black() -> Color {
        Color { red: 0, green: 0, blue: 0, alpha: 255 }
    }

    #[verifier::when_used_as_spec(spec_black)]
    pub fn black() -> (c: Color)
        ensures
            c == Color::spec_black(),
    {
        Color { red: 0, green: 0, blue: 0, alpha: 255 }
    }

    pub open spec fn spec_white() -> Color {
        Color { red: 255, green: 255, blue: 255, alpha: 255 }
    }

    #[verifier::when_used_as_spec(spec_white)]
    pub fn white() -> (c: Color)
        ensures
            c == Color::spec_white(),
    {
        Color { red: 255, green: 255, blue: 255, alpha: 255 }
    }
}

/// Shared background default for container styles.
pub open spec fn spec_bg_color() -> Color {
    Color { red: 128, green: 128, blue: 128, alpha: 64 }
}

#[verifier::when_used_as_spec(spec_bg_color)]
pub fn bg_color() -> (c: Color)
    ensures
        c == spec_bg_color(),
{
    Color { red: 128, green: 128, blue: 128, alpha: 64 }
}

/// Background used for card-like blocks.
pub open spec fn spec_card_color() -> Color {
    Color { red: 179, green: 153, blue: 51, alpha: 204 }
}

#[verifier::when_used_as_spec(spec_card_color)]
pub fn card_color() -> (c: Color)
    ensures
        c == spec_card_color(),
{
    Color { red: 179, green: 153, blue: 51, alpha: 204 }
}

/// Shared text-color default.
pub open spec fn spec_text_color() -> Color {
    Color { red: 255, green: 255, blue: 255, alpha: 255 }
}

#[verifier::when_used_as_spec(spec_text_color)]
pub fn text_color() -> (c: Color)
    ensures
        c == spec_text_color(),
{
    Color { red: 255, green: 255, blue: 255, alpha: 255 }
}

/// Shared border-color default.
pub open spec fn spec_border_color() -> Color {
    Color { red: 51, green: 51, blue: 51, alpha: 204 }
}

#[verifier::when_used_as_spec(spec_border_color)]
pub fn border_color() -> (c: Color)
    ensures
        c == spec_border_color(),
{
    Color { red: 51, green: 51, blue: 51, alpha: 204 }
}

/// Per-edge values, used for margins, padding and borders.
#[derive(Clone, Copy, PartialEq, Eq, Structural, Debug)]
pub struct UiRect {
    pub left: Val,
    pub right: Val,
    pub top: Val,
    pub bottom: Val,
}

impl UiRect {
    pub open spec fn spec_all(v: Val) -> UiRect {
        UiRect { left: v, right: v, top: v, bottom: v }
    }

    #[verifier::when_used_as_spec(spec_all)]
    pub fn all(v: Val) -> (r: UiRect)
        ensures
            r == UiRect::spec_all(v),
    {
        UiRect { left: v, right: v, top: v, bottom: v }
    }

    pub open spec fn spec_zero() -> UiRect {
        UiRect::spec_all(Val::Px(0))
    }

    #[verifier::when_used_as_spec(spec_zero)]
    pub fn zero() -> (r: UiRect)
        ensures
            r == UiRect::spec_zero(),
    {
        UiRect::all(Val::Px(0))
    }
}

/// Per-corner radii.
#[derive(Clone, Copy, PartialEq, Eq, Structural, Debug)]
pub struct BorderRadius {
    pub top_left: Val,
    pub top_right: Val,
    pub bottom_left: Val,
    pub bottom_right: Val,
}

impl BorderRadius {
    pub open spec fn spec_all(v: Val) -> BorderRadius {
        BorderRadius { top_left: v, top_right: v, bottom_left: v, bottom_right: v }
    }

    #[verifier::when_used_as_spec(spec_all)]
    pub fn all(v: Val) -> (r: BorderRadius)
        ensures
            r == BorderRadius::spec_all(v),
    {
        BorderRadius { top_left: v, top_right: v, bottom_left: v, bottom_right: v }
    }

    pub open spec fn spec_zero() -> BorderRadius {
        BorderRadius::spec_all(Val::Px(0))
    }

    /// Square corners.
    #[verifier::when_used_as_spec(spec_zero)]
    pub fn zero() -> (r: BorderRadius)
        ensures
            r == BorderRadius::spec_zero(),
    {
        BorderRadius::all(Val::Px(0))
    }

    pub open spec fn spec_max() -> BorderRadius {
        BorderRadius::spec_all(Val::Percent(50))
    }

    /// Fully rounded corners.
    #[verifier::when_used_as_spec(spec_max)]
    pub fn max() -> (r: BorderRadius)
        ensures
            r == BorderRadius::spec_max(),
    {
        BorderRadius::all(Val::Percent(50))
    }
}

/// Layout algorithm of a container.
#[derive(Clone, Copy, PartialEq, Eq, Structural, Debug)]
pub enum Display {
    Flex,
    Grid,
    Block,
    Hidden,
}

#[derive(Clone, Copy, PartialEq, Eq, Structural, Debug)]
pub enum PositionType {
    Relative,
    Absolute,
}

#[derive(Clone, Copy, PartialEq, Eq, Structural, Debug)]
pub enum OverflowAxis {
    Visible,
    Clip,
    Hidden,
    Scroll,
}

#[derive(Clone, Copy, PartialEq, Eq, Structural, Debug)]
pub struct Overflow {
    pub x: OverflowAxis,
    pub y: OverflowAxis,
}

impl Overflow {
    pub open spec fn spec_visible() -> Overflow {
        Overflow { x: OverflowAxis::Visible, y: OverflowAxis::Visible }
    }

    #[verifier::when_used_as_spec(spec_visible)]
    pub fn visible() -> (r: Overflow)
        ensures
            r == Overflow::spec_visible(),
    {
        Overflow { x: OverflowAxis::Visible, y: OverflowAxis::Visible }
    }
}

#[derive(Clone, Copy, PartialEq, Eq, Structural, Debug)]
pub enum OverflowClipBox {
    ContentBox,
    PaddingBox,
    BorderBox,
}

#[derive(Clone, Copy, PartialEq, Eq, Structural, Debug)]
pub struct OverflowClipMargin {
    pub visual_box: OverflowClipBox,
    pub margin: i64,
}

impl OverflowClipMargin {
    pub open spec fn spec_base() -> OverflowClipMargin {
        OverflowClipMargin { visual_box: OverflowClipBox::ContentBox, margin: 0 }
    }

    #[verifier::when_used_as_spec(spec_base)]
    pub fn base() -> (r: OverflowClipMargin)
        ensures
            r == OverflowClipMargin::spec_base(),
    {
        OverflowClipMargin { visual_box: OverflowClipBox::ContentBox, margin: 0 }
    }
}

#[derive(Clone, Copy, PartialEq, Eq, Structural, Debug)]
pub enum AlignItems {
    Default,
    Start,
    End,
    FlexStart,
    FlexEnd,
    Center,
    Baseline,
    Stretch,
}

#[derive(Clone, Copy, PartialEq, Eq, Structural, Debug)]
pub enum JustifyItems {
    Default,
    Start,
    End,
    Center,
    Baseline,
    Stretch,
}

#[derive(Clone, Copy, PartialEq, Eq, Structural, Debug)]
pub enum AlignSelf {
    Auto,
    Start,
    End,
    FlexStart,
    FlexEnd,
    Center,
    Baseline,
    Stretch,
}

#[derive(Clone, Copy, PartialEq, Eq, Structural, Debug)]
pub enum JustifySelf {
    Auto,
    Start,
    End,
    Center,
    Baseline,
    Stretch,
}

#[derive(Clone, Copy, PartialEq, Eq, Structural, Debug)]
pub enum AlignContent {
    Default,
    Start,
    End,
    FlexStart,
    FlexEnd,
    Center,
    Stretch,
    SpaceBetween,
    SpaceEvenly,
    SpaceAround,
}

#[derive(Clone, Copy, PartialEq, Eq, Structural, Debug)]
pub enum JustifyContent {
    Default,
    Start,
    End,
    FlexStart,
    FlexEnd,
    Center,
    Stretch,
    SpaceBetween,
    SpaceEvenly,
    SpaceAround,
}

#[derive(Clone, Copy, PartialEq, Eq, Structural, Debug)]
pub enum FlexDirection {
    Row,
    Column,
    RowReverse,
    ColumnReverse,
}

#[derive(Clone, Copy, PartialEq, Eq, Structural, Debug)]
pub enum FlexWrap {
    NoWrap,
    Wrap,
    WrapReverse,
}

#[derive(Clone, Copy, PartialEq, Eq, Structural, Debug)]
pub enum GridAutoFlow {
    Row,
    Column,
    RowDense,
    ColumnDense,
}

/// Placement of an item in a grid; zero stands for automatic placement.
#[derive(Clone, Copy, PartialEq, Eq, Structural, Debug)]
pub struct GridPlacement {
    pub start: i16,
    pub span: u16,
    pub end: i16,
}

impl GridPlacement {
    pub open spec fn spec_auto() -> GridPlacement {
        GridPlacement { start: 0, span: 1, end: 0 }
    }

    #[verifier::when_used_as_spec(spec_auto)]
    pub fn auto() -> (r: GridPlacement)
        ensures
            r == GridPlacement::spec_auto(),
    {
        GridPlacement { start: 0, span: 1, end: 0 }
    }
}

/// Sizing of one grid track.
#[derive(Clone, Copy, PartialEq, Eq, Structural, Debug)]
pub enum GridTrack {
    Auto,
    Px(i64),
    Percent(i64),
    Fraction(i64),
    MinContent,
    MaxContent,
}

/// A grid track repeated a fixed number of times.
#[derive(Clone, Copy, PartialEq, Eq, Structural, Debug)]
pub struct RepeatedGridTrack {
    pub repetitions: u16,
    pub track: GridTrack,
}

/// A grid template: a short fixed sequence of repeated-track groups,
/// listed front to back with unused slots absent.  The builder copies
/// templates without interpreting them.
#[derive(Clone, Copy, PartialEq, Eq, Structural, Debug)]
pub struct GridTemplate {
    pub first: Option<RepeatedGridTrack>,
    pub second: Option<RepeatedGridTrack>,
    pub third: Option<RepeatedGridTrack>,
    pub fourth: Option<RepeatedGridTrack>,
}

impl GridTemplate {
    pub open spec fn spec_unspecified() -> GridTemplate {
        GridTemplate { first: None, second: None, third: None, fourth: None }
    }

    #[verifier::when_used_as_spec(spec_unspecified)]
    pub fn unspecified() -> (r: GridTemplate)
        ensures
            r == GridTemplate::spec_unspecified(),
    {
        GridTemplate { first: None, second: None, third: None, fourth: None }
    }

    /// A template of one repeated-track group.
    pub fn of(group: RepeatedGridTrack) -> (r: GridTemplate)
        ensures
            r == (GridTemplate {
                first: Some(group),
                second: None,
                third: None,
                fourth: None,
            }),
    {
        GridTemplate { first: Some(group), second: None, third: None, fourth: None }
    }
}

/// Track sizes for implicitly created rows or columns: a short fixed
/// sequence with unused slots absent.
#[derive(Clone, Copy, PartialEq, Eq, Structural, Debug)]
pub struct GridAutoTracks {
    pub first: Option<GridTrack>,
    pub second: Option<GridTrack>,
    pub third: Option<GridTrack>,
    pub fourth: Option<GridTrack>,
}

impl GridAutoTracks {
    pub open spec fn spec_unspecified() -> GridAutoTracks {
        GridAutoTracks { first: None, second: None, third: None, fourth: None }
    }

    #[verifier::when_used_as_spec(spec_unspecified)]
    pub fn unspecified() -> (r: GridAutoTracks)
        ensures
            r == GridAutoTracks::spec_unspecified(),
    {
        GridAutoTracks { first: None, second: None, third: None, fourth: None }
    }
}

#[derive(Clone, Copy, PartialEq, Eq, Structural, Debug)]
pub enum BoxSizing {
    BorderBox,
    ContentBox,
}

/// Reference to a loaded font asset in the external store.
#[derive(Clone, Copy, PartialEq, Eq, Structural, Debug)]
pub struct FontHandle {
    pub id: u64,
}

impl FontHandle {
    pub open spec fn spec_base() -> FontHandle {
        FontHandle { id: 0 }
    }

    #[verifier::when_used_as_spec(spec_base)]
    pub fn base() -> (r: FontHandle)
        ensures
            r == FontHandle::spec_base(),
    {
        FontHandle { id: 0 }
    }
}

/// A drop shadow around one node.
#[derive(Clone, Copy, PartialEq, Eq, Structural, Debug)]
pub struct BoxShadow {
    pub color: Color,
    pub x_offset: Val,
    pub y_offset: Val,
    pub spread: Val,
    pub blur: Val,
}

} // verus!
