//! Container style records.
//!
//! `NodeDef` is a fully resolved container style: every field concrete.
//! `NodePartial` is the same record with every field optional, used to
//! express "override only these fields" at the call site or in the
//! instance-level defaults.  `Node` is the layout component attached to an
//! entity; it carries the layout fields of a `NodeDef` but not its colors.

use vstd::prelude::*;
use crate::style::{
    spec_bg_color, spec_border_color, bg_color, border_color, AlignContent, AlignItems, AlignSelf,
    BorderRadius, BoxSizing, Color, Display, FlexDirection, FlexWrap, GridAutoFlow, GridPlacement,
    GridAutoTracks, GridTemplate, JustifyContent, JustifyItems, JustifySelf, Overflow,
    OverflowClipMargin, PositionType, UiRect, Val,
};

verus! {

/// The layout component of one entity.
#[derive(Clone, Copy, PartialEq, Eq, Structural, Debug)]
pub struct Node {
    pub display: Display,
    pub position_type: PositionType,
    pub overflow: Overflow,
    pub overflow_clip_margin: OverflowClipMargin,
    pub left: Val,
    pub right: Val,
    pub top: Val,
    pub bottom: Val,
    pub width: Val,
    pub height: Val,
    pub min_width: Val,
    pub min_height: Val,
    pub max_width: Val,
    pub max_height: Val,
    pub aspect_ratio: Option<i64>,
    pub align_items: AlignItems,
    pub justify_items: JustifyItems,
    pub align_self: AlignSelf,
    pub justify_self: JustifySelf,
    pub align_content: AlignContent,
    pub justify_content: JustifyContent,
    pub margin: UiRect,
    pub padding: UiRect,
    pub border: UiRect,
    pub flex_direction: FlexDirection,
    pub flex_wrap: FlexWrap,
    pub flex_grow: i64,
    pub flex_shrink: i64,
    pub flex_basis: Val,
    pub row_gap: Val,
    pub column_gap: Val,
    pub grid_auto_flow: GridAutoFlow,
    pub grid_template_rows: GridTemplate,
    pub grid_template_columns: GridTemplate,
    pub grid_auto_rows: GridAutoTracks,
    pub grid_auto_columns: GridAutoTracks,
    pub grid_row: GridPlacement,
    pub grid_column: GridPlacement,
    pub box_sizing: BoxSizing,
    pub scrollbar_width: i64,
}

/// Background color component of one entity.
#[derive(Clone, Copy, PartialEq, Eq, Structural, Debug)]
pub struct BackgroundColor(pub Color);

/// Border color component of one entity.
#[derive(Clone, Copy, PartialEq, Eq, Structural, Debug)]
pub struct BorderColor(pub Color);

/// A fully specified container style: the layout fields plus the colors
/// and radius that accompany them when a node is created.
#[derive(Clone, Copy, PartialEq, Eq, Structural, Debug)]
pub struct NodeDef {
    pub display: Display,
    pub position_type: PositionType,
    pub overflow: Overflow,
    pub overflow_clip_margin: OverflowClipMargin,
    pub left: Val,
    pub right: Val,
    pub top: Val,
    pub bottom: Val,
    pub width: Val,
    pub height: Val,
    pub min_width: Val,
    pub min_height: Val,
    pub max_width: Val,
    pub max_height: Val,
    pub aspect_ratio: Option<i64>,
    pub align_items: AlignItems,
    pub justify_items: JustifyItems,
    pub align_self: AlignSelf,
    pub justify_self: JustifySelf,
    pub align_content: AlignContent,
    pub justify_content: JustifyContent,
    pub margin: UiRect,
    pub padding: UiRect,
    pub border: UiRect,
    pub flex_direction: FlexDirection,
    pub flex_wrap: FlexWrap,
    pub flex_grow: i64,
    pub flex_shrink: i64,
    pub flex_basis: Val,
    pub row_gap: Val,
    pub column_gap: Val,
    pub grid_auto_flow: GridAutoFlow,
    pub grid_template_rows: GridTemplate,
    pub grid_template_columns: GridTemplate,
    pub grid_auto_rows: GridAutoTracks,
    pub grid_auto_columns: GridAutoTracks,
    pub grid_row: GridPlacement,
    pub grid_column: GridPlacement,
    pub bg_color: Color,
    pub border_color: Color,
    pub border_radius: BorderRadius,
    pub box_sizing: BoxSizing,
    pub scrollbar_width: i64,
}

/// A container style with every field optional.
#[derive(Clone, Copy, PartialEq, Eq, Structural, Debug)]
pub struct NodePartial {
    pub display: Option<Display>,
    pub position_type: Option<PositionType>,
    pub overflow: Option<Overflow>,
    pub overflow_clip_margin: Option<OverflowClipMargin>,
    pub left: Option<Val>,
    pub right: Option<Val>,
    pub top: Option<Val>,
    pub bottom: Option<Val>,
    pub width: Option<Val>,
    pub height: Option<Val>,
    pub min_width: Option<Val>,
    pub min_height: Option<Val>,
    pub max_width: Option<Val>,
    pub max_height: Option<Val>,
    pub aspect_ratio: Option<i64>,
    pub align_items: Option<AlignItems>,
    pub justify_items: Option<JustifyItems>,
    pub align_self: Option<AlignSelf>,
    pub justify_self: Option<JustifySelf>,
    pub align_content: Option<AlignContent>,
    pub justify_content: Option<JustifyContent>,
    pub margin: Option<UiRect>,
    pub padding: Option<UiRect>,
    pub border: Option<UiRect>,
    pub flex_direction: Option<FlexDirection>,
    pub flex_wrap: Option<FlexWrap>,
    pub flex_grow: Option<i64>,
    pub flex_shrink: Option<i64>,
    pub flex_basis: Option<Val>,
    pub row_gap: Option<Val>,
    pub column_gap: Option<Val>,
    pub grid_auto_flow: Option<GridAutoFlow>,
    pub grid_template_rows: Option<GridTemplate>,
    pub grid_template_columns: Option<GridTemplate>,
    pub grid_auto_rows: Option<GridAutoTracks>,
    pub grid_auto_columns: Option<GridAutoTracks>,
    pub grid_row: Option<GridPlacement>,
    pub grid_column: Option<GridPlacement>,
    pub border_radius: Option<BorderRadius>,
    pub border_color: Option<Color>,
    pub bg_color: Option<Color>,
}

impl NodePartial {
    /// The partial that overrides nothing.
    pub open spec fn spec_empty() -> NodePartial {
        NodePartial {
            display: None,
            position_type: None,
            overflow: None,
            overflow_clip_margin: None,
            left: None,
            right: None,
            top: None,
            bottom: None,
            width: None,
            height: None,
            min_width: None,
            min_height: None,
            max_width: None,
            max_height: None,
            aspect_ratio: None,
            align_items: None,
            justify_items: None,
            align_self: None,
            justify_self: None,
            align_content: None,
            justify_content: None,
            margin: None,
            padding: None,
            border: None,
            flex_direction: None,
            flex_wrap: None,
            flex_grow: None,
            flex_shrink: None,
            flex_basis: None,
            row_gap: None,
            column_gap: None,
            grid_auto_flow: None,
            grid_template_rows: None,
            grid_template_columns: None,
            grid_auto_rows: None,
            grid_auto_columns: None,
            grid_row: None,
            grid_column: None,
            border_radius: None,
            border_color: None,
            bg_color: None,
        }
    }

    #[verifier::when_used_as_spec(spec_empty)]
    pub fn empty() -> (r: NodePartial)
        ensures
            r == NodePartial::spec_empty(),
    {
        NodePartial {
            display: None,
            position_type: None,
            overflow: None,
            overflow_clip_margin: None,
            left: None,
            right: None,
            top: None,
            bottom: None,
            width: None,
            height: None,
            min_width: None,
            min_height: None,
            max_width: None,
            max_height: None,
            aspect_ratio: None,
            align_items: None,
            justify_items: None,
            align_self: None,
            justify_self: None,
            align_content: None,
            justify_content: None,
            margin: None,
            padding: None,
            border: None,
            flex_direction: None,
            flex_wrap: None,
            flex_grow: None,
            flex_shrink: None,
            flex_basis: None,
            row_gap: None,
            column_gap: None,
            grid_auto_flow: None,
            grid_template_rows: None,
            grid_template_columns: None,
            grid_auto_rows: None,
            grid_auto_columns: None,
            grid_row: None,
            grid_column: None,
            border_radius: None,
            border_color: None,
            bg_color: None,
        }
    }
}

impl Default for NodePartial {
    fn default() -> (r: Self)
        ensures
            r == NodePartial::spec_empty(),
    {
        NodePartial::empty()
    }
}

impl NodeDef {
    /// The intrinsic baseline of the container style family: every field's
    /// documented default when no cascade layer supplies a value.
    pub open spec fn spec_base() -> NodeDef {
        NodeDef {
            display: Display::Flex,
            position_type: PositionType::Relative,
            overflow: Overflow::spec_visible(),
            overflow_clip_margin: OverflowClipMargin::spec_base(),
            left: Val::Auto,
            right: Val::Auto,
            top: Val::Auto,
            bottom: Val::Auto,
            width: Val::Auto,
            height: Val::Auto,
            min_width: Val::Auto,
            min_height: Val::Auto,
            max_width: Val::Auto,
            max_height: Val::Auto,
            aspect_ratio: None,
            align_items: AlignItems::Default,
            justify_items: JustifyItems::Default,
            align_self: AlignSelf::Auto,
            justify_self: JustifySelf::Auto,
            align_content: AlignContent::Default,
            justify_content: JustifyContent::Default,
            margin: UiRect::spec_zero(),
            padding: UiRect::spec_zero(),
            border: UiRect::spec_zero(),
            flex_direction: FlexDirection::Row,
            flex_wrap: FlexWrap::NoWrap,
            flex_grow: 0,
            flex_shrink: 1,
            flex_basis: Val::Auto,
            row_gap: Val::Auto,
            column_gap: Val::Auto,
            grid_auto_flow: GridAutoFlow::Row,
            grid_template_rows: GridTemplate::spec_unspecified(),
            grid_template_columns: GridTemplate::spec_unspecified(),
            grid_auto_rows: GridAutoTracks::spec_unspecified(),
            grid_auto_columns: GridAutoTracks::spec_unspecified(),
            grid_row: GridPlacement::spec_auto(),
            grid_column: GridPlacement::spec_auto(),
            bg_color: spec_bg_color(),
            border_color: spec_border_color(),
            border_radius: BorderRadius::spec_zero(),
            box_sizing: BoxSizing::BorderBox,
            scrollbar_width: 15,
        }
    }

    #[verifier::when_used_as_spec(spec_base)]
    pub fn base() -> (r: NodeDef)
        ensures
            r == NodeDef::spec_base(),
    {
        NodeDef {
            display: Display::Flex,
            position_type: PositionType::Relative,
            overflow: Overflow::visible(),
            overflow_clip_margin: OverflowClipMargin::base(),
            left: Val::Auto,
            right: Val::Auto,
            top: Val::Auto,
            bottom: Val::Auto,
            width: Val::Auto,
            height: Val::Auto,
            min_width: Val::Auto,
            min_height: Val::Auto,
            max_width: Val::Auto,
            max_height: Val::Auto,
            aspect_ratio: None,
            align_items: AlignItems::Default,
            justify_items: JustifyItems::Default,
            align_self: AlignSelf::Auto,
            justify_self: JustifySelf::Auto,
            align_content: AlignContent::Default,
            justify_content: JustifyContent::Default,
            margin: UiRect::zero(),
            padding: UiRect::zero(),
            border: UiRect::zero(),
            flex_direction: FlexDirection::Row,
            flex_wrap: FlexWrap::NoWrap,
            flex_grow: 0,
            flex_shrink: 1,
            flex_basis: Val::Auto,
            row_gap: Val::Auto,
            column_gap: Val::Auto,
            grid_auto_flow: GridAutoFlow::Row,
            grid_template_rows: GridTemplate::unspecified(),
            grid_template_columns: GridTemplate::unspecified(),
            grid_auto_rows: GridAutoTracks::unspecified(),
            grid_auto_columns: GridAutoTracks::unspecified(),
            grid_row: GridPlacement::auto(),
            grid_column: GridPlacement::auto(),
            bg_color: bg_color(),
            border_color: border_color(),
            border_radius: BorderRadius::zero(),
            box_sizing: BoxSizing::BorderBox,
            scrollbar_width: 15,
        }
    }

    /// The layout component this style describes.
    pub open spec fn spec_node(self) -> Node {
        Node {
            display: self.display,
            position_type: self.position_type,
            overflow: self.overflow,
            overflow_clip_margin: self.overflow_clip_margin,
            left: self.left,
            right: self.right,
            top: self.top,
            bottom: self.bottom,
            width: self.width,
            height: self.height,
            min_width: self.min_width,
            min_height: self.min_height,
            max_width: self.max_width,
            max_height: self.max_height,
            aspect_ratio: self.aspect_ratio,
            align_items: self.align_items,
            justify_items: self.justify_items,
            align_self: self.align_self,
            justify_self: self.justify_self,
            align_content: self.align_content,
            justify_content: self.justify_content,
            margin: self.margin,
            padding: self.padding,
            border: self.border,
            flex_direction: self.flex_direction,
            flex_wrap: self.flex_wrap,
            flex_grow: self.flex_grow,
            flex_shrink: self.flex_shrink,
            flex_basis: self.flex_basis,
            row_gap: self.row_gap,
            column_gap: self.column_gap,
            grid_auto_flow: self.grid_auto_flow,
            grid_template_rows: self.grid_template_rows,
            grid_template_columns: self.grid_template_columns,
            grid_auto_rows: self.grid_auto_rows,
            grid_auto_columns: self.grid_auto_columns,
            grid_row: self.grid_row,
            grid_column: self.grid_column,
            box_sizing: self.box_sizing,
            scrollbar_width: self.scrollbar_width,
        }
    }

    pub fn get_node(&self) -> (r: Node)
        ensures
            r == self.spec_node(),
    {
        Node {
            display: self.display,
            position_type: self.position_type,
            overflow: self.overflow,
            overflow_clip_margin: self.overflow_clip_margin,
            left: self.left,
            right: self.right,
            top: self.top,
            bottom: self.bottom,
            width: self.width,
            height: self.height,
            min_width: self.min_width,
            min_height: self.min_height,
            max_width: self.max_width,
            max_height: self.max_height,
            aspect_ratio: self.aspect_ratio,
            align_items: self.align_items,
            justify_items: self.justify_items,
            align_self: self.align_self,
            justify_self: self.justify_self,
            align_content: self.align_content,
            justify_content: self.justify_content,
            margin: self.margin,
            padding: self.padding,
            border: self.border,
            flex_direction: self.flex_direction,
            flex_wrap: self.flex_wrap,
            flex_grow: self.flex_grow,
            flex_shrink: self.flex_shrink,
            flex_basis: self.flex_basis,
            row_gap: self.row_gap,
            column_gap: self.column_gap,
            grid_auto_flow: self.grid_auto_flow,
            grid_template_rows: self.grid_template_rows,
            grid_template_columns: self.grid_template_columns,
            grid_auto_rows: self.grid_auto_rows,
            grid_auto_columns: self.grid_auto_columns,
            grid_row: self.grid_row,
            grid_column: self.grid_column,
            box_sizing: self.box_sizing,
            scrollbar_width: self.scrollbar_width,
        }
    }

    pub fn get_background_color(&self) -> (r: BackgroundColor)
        ensures
            r == BackgroundColor(self.bg_color),
    {
        BackgroundColor(self.bg_color)
    }

    pub fn get_border_radius(&self) -> (r: BorderRadius)
        ensures
            r == self.border_radius,
    {
        self.border_radius
    }

    pub fn get_border_color(&self) -> (r: BorderColor)
        ensures
            r == BorderColor(self.border_color),
    {
        BorderColor(self.border_color)
    }

    /// The bundle of components a freshly created container receives.
    pub fn get_node_bundle(&self) -> (r: (Node, BackgroundColor, BorderColor, BorderRadius))
        ensures
            r.0 == self.spec_node(),
            r.1 == BackgroundColor(self.bg_color),
            r.2 == BorderColor(self.border_color),
            r.3 == self.border_radius,
    {
        (
            self.get_node(),
            self.get_background_color(),
            self.get_border_color(),
            self.get_border_radius(),
        )
    }
}

impl Default for NodeDef {
    fn default() -> (r: Self)
        ensures
            r == NodeDef::spec_base(),
    {
        NodeDef::base()
    }
}

/// The layout component with the fields of `partial` overridden; fields the
/// partial leaves out keep their value.  The partial's color and radius
/// fields do not belong to the layout component; the conditional update
/// applies them to the entity's color components instead (see the command
/// semantics in the store).
pub open spec fn spec_merge_node(n: Node, p: NodePartial) -> Node {
    Node {
        display: if p.display is Some { p.display->0 } else { n.display },
        position_type: if p.position_type is Some { p.position_type->0 } else { n.position_type },
        overflow: if p.overflow is Some { p.overflow->0 } else { n.overflow },
        overflow_clip_margin: if p.overflow_clip_margin is Some {
            p.overflow_clip_margin->0
        } else {
            n.overflow_clip_margin
        },
        left: if p.left is Some { p.left->0 } else { n.left },
        right: if p.right is Some { p.right->0 } else { n.right },
        top: if p.top is Some { p.top->0 } else { n.top },
        bottom: if p.bottom is Some { p.bottom->0 } else { n.bottom },
        width: if p.width is Some { p.width->0 } else { n.width },
        height: if p.height is Some { p.height->0 } else { n.height },
        min_width: if p.min_width is Some { p.min_width->0 } else { n.min_width },
        min_height: if p.min_height is Some { p.min_height->0 } else { n.min_height },
        max_width: if p.max_width is Some { p.max_width->0 } else { n.max_width },
        max_height: if p.max_height is Some { p.max_height->0 } else { n.max_height },
        aspect_ratio: if p.aspect_ratio is Some { p.aspect_ratio } else { n.aspect_ratio },
        align_items: if p.align_items is Some { p.align_items->0 } else { n.align_items },
        justify_items: if p.justify_items is Some { p.justify_items->0 } else { n.justify_items },
        align_self: if p.align_self is Some { p.align_self->0 } else { n.align_self },
        justify_self: if p.justify_self is Some { p.justify_self->0 } else { n.justify_self },
        align_content: if p.align_content is Some { p.align_content->0 } else { n.align_content },
        justify_content: if p.justify_content is Some {
            p.justify_content->0
        } else {
            n.justify_content
        },
        margin: if p.margin is Some { p.margin->0 } else { n.margin },
        padding: if p.padding is Some { p.padding->0 } else { n.padding },
        border: if p.border is Some { p.border->0 } else { n.border },
        flex_direction: if p.flex_direction is Some {
            p.flex_direction->0
        } else {
            n.flex_direction
        },
        flex_wrap: if p.flex_wrap is Some { p.flex_wrap->0 } else { n.flex_wrap },
        flex_grow: if p.flex_grow is Some { p.flex_grow->0 } else { n.flex_grow },
        flex_shrink: if p.flex_shrink is Some { p.flex_shrink->0 } else { n.flex_shrink },
        flex_basis: if p.flex_basis is Some { p.flex_basis->0 } else { n.flex_basis },
        row_gap: if p.row_gap is Some { p.row_gap->0 } else { n.row_gap },
        column_gap: if p.column_gap is Some { p.column_gap->0 } else { n.column_gap },
        grid_auto_flow: if p.grid_auto_flow is Some {
            p.grid_auto_flow->0
        } else {
            n.grid_auto_flow
        },
        grid_template_rows: if p.grid_template_rows is Some {
            p.grid_template_rows->0
        } else {
            n.grid_template_rows
        },
        grid_template_columns: if p.grid_template_columns is Some {
            p.grid_template_columns->0
        } else {
            n.grid_template_columns
        },
        grid_auto_rows: if p.grid_auto_rows is Some {
            p.grid_auto_rows->0
        } else {
            n.grid_auto_rows
        },
        grid_auto_columns: if p.grid_auto_columns is Some {
            p.grid_auto_columns->0
        } else {
            n.grid_auto_columns
        },
        grid_row: if p.grid_row is Some { p.grid_row->0 } else { n.grid_row },
        grid_column: if p.grid_column is Some { p.grid_column->0 } else { n.grid_column },
        box_sizing: n.box_sizing,
        scrollbar_width: n.scrollbar_width,
    }
}

/// Executable counterpart of `spec_merge_node`.
pub fn merge_node(n: Node, p: NodePartial) -> (r: Node)
    ensures
        r == spec_merge_node(n, p),
{
    Node {
        display: match p.display {
            Some(v) => v,
            None => n.display,
        },
        position_type: match p.position_type {
            Some(v) => v,
            None => n.position_type,
        },
        overflow: match p.overflow {
            Some(v) => v,
            None => n.overflow,
        },
        overflow_clip_margin: match p.overflow_clip_margin {
            Some(v) => v,
            None => n.overflow_clip_margin,
        },
        left: match p.left {
            Some(v) => v,
            None => n.left,
        },
        right: match p.right {
            Some(v) => v,
            None => n.right,
        },
        top: match p.top {
            Some(v) => v,
            None => n.top,
        },
        bottom: match p.bottom {
            Some(v) => v,
            None => n.bottom,
        },
        width: match p.width {
            Some(v) => v,
            None => n.width,
        },
        height: match p.height {
            Some(v) => v,
            None => n.height,
        },
        min_width: match p.min_width {
            Some(v) => v,
            None => n.min_width,
        },
        min_height: match p.min_height {
            Some(v) => v,
            None => n.min_height,
        },
        max_width: match p.max_width {
            Some(v) => v,
            None => n.max_width,
        },
        max_height: match p.max_height {
            Some(v) => v,
            None => n.max_height,
        },
        aspect_ratio: match p.aspect_ratio {
            Some(v) => Some(v),
            None => n.aspect_ratio,
        },
        align_items: match p.align_items {
            Some(v) => v,
            None => n.align_items,
        },
        justify_items: match p.justify_items {
            Some(v) => v,
            None => n.justify_items,
        },
        align_self: match p.align_self {
            Some(v) => v,
            None => n.align_self,
        },
        justify_self: match p.justify_self {
            Some(v) => v,
            None => n.justify_self,
        },
        align_content: match p.align_content {
            Some(v) => v,
            None => n.align_content,
        },
        justify_content: match p.justify_content {
            Some(v) => v,
            None => n.justify_content,
        },
        margin: match p.margin {
            Some(v) => v,
            None => n.margin,
        },
        padding: match p.padding {
            Some(v) => v,
            None => n.padding,
        },
        border: match p.border {
            Some(v) => v,
            None => n.border,
        },
        flex_direction: match p.flex_direction {
            Some(v) => v,
            None => n.flex_direction,
        },
        flex_wrap: match p.flex_wrap {
            Some(v) => v,
            None => n.flex_wrap,
        },
        flex_grow: match p.flex_grow {
            Some(v) => v,
            None => n.flex_grow,
        },
        flex_shrink: match p.flex_shrink {
            Some(v) => v,
            None => n.flex_shrink,
        },
        flex_basis: match p.flex_basis {
            Some(v) => v,
            None => n.flex_basis,
        },
        row_gap: match p.row_gap {
            Some(v) => v,
            None => n.row_gap,
        },
        column_gap: match p.column_gap {
            Some(v) => v,
            None => n.column_gap,
        },
        grid_auto_flow: match p.grid_auto_flow {
            Some(v) => v,
            None => n.grid_auto_flow,
        },
        grid_template_rows: match p.grid_template_rows {
            Some(v) => v,
            None => n.grid_template_rows,
        },
        grid_template_columns: match p.grid_template_columns {
            Some(v) => v,
            None => n.grid_template_columns,
        },
        grid_auto_rows: match p.grid_auto_rows {
            Some(v) => v,
            None => n.grid_auto_rows,
        },
        grid_auto_columns: match p.grid_auto_columns {
            Some(v) => v,
            None => n.grid_auto_columns,
        },
        grid_row: match p.grid_row {
            Some(v) => v,
            None => n.grid_row,
        },
        grid_column: match p.grid_column {
            Some(v) => v,
            None => n.grid_column,
        },
        box_sizing: n.box_sizing,
        scrollbar_width: n.scrollbar_width,
    }
}


} // verus!
