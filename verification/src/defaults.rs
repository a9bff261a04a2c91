//! The defaults cascade.
//!
//! A resolved style is produced from three layers: the call-site partial
//! (highest precedence), the instance-level override partial held by
//! `UiBuilderDefaults`, and the family's intrinsic baseline.  Resolution is
//! strictly field by field: a value present at a higher layer wins for that
//! field alone.  Accent fields (colors, text size) whose baseline is a
//! shared theme value fall back to the corresponding theme field of
//! `UiBuilderDefaults` instead of a family constant.  Resolution never
//! fails: absence at every layer yields the documented baseline.

use vstd::prelude::*;
use crate::style::{BorderRadius, Color, FontHandle};
use crate::node::{BackgroundColor, BorderColor, Node, NodeDef, NodePartial};
use crate::button::{
    Button, ButtonDef, ButtonModel, ButtonPartial, ButtonPartialModel, Text, TextColor, TextFont,
};

verus! {

/// The value of one field after cascade resolution: the call-site value if
/// present, else the instance-level value if present, else the baseline.
pub open spec fn pick<T>(p: Option<T>, o: Option<T>, d: T) -> T {
    if p is Some {
        p->0
    } else if o is Some {
        o->0
    } else {
        d
    }
}

/// Executable counterpart of `pick` for one field.
pub fn resolve_field<T: Copy>(p: Option<T>, o: Option<T>, d: T) -> (r: T)
    ensures
        r == pick(p, o, d),
{
    match p {
        Some(v) => v,
        None => match o {
            Some(v) => v,
            None => d,
        },
    }
}

/// Cascade precedence: for every field and every combination of present
/// and absent layers, the resolved value equals the highest-precedence
/// present source, and the baseline when every layer is absent.
pub proof fn lemma_cascade_precedence<T>(p: Option<T>, o: Option<T>, d: T)
    ensures
        p is Some ==> pick(p, o, d) == p->0,
        p is None && o is Some ==> pick(p, o, d) == o->0,
        p is None && o is None ==> pick(p, o, d) == d,
{
}

/// Process-wide style configuration: the two instance-level override
/// partials, one per style family, and the shared theme values that accent
/// fields fall back to.
#[derive(Clone, PartialEq, Eq, Debug)]
pub struct UiBuilderDefaults {
    pub node_def: Option<NodePartial>,
    pub button_def: Option<ButtonPartial>,
    pub base_font: FontHandle,
    pub font_size: i64,
    pub bg_color: Color,
    pub border_color: Color,
    pub text_color: Color,
}

/// Mathematical model of the style configuration.
pub struct DefaultsModel {
    pub node_def: Option<NodePartial>,
    pub button_def: Option<ButtonPartialModel>,
    pub base_font: FontHandle,
    pub font_size: i64,
    pub bg_color: Color,
    pub border_color: Color,
    pub text_color: Color,
}

impl View for UiBuilderDefaults {
    type V = DefaultsModel;

    open spec fn view(&self) -> DefaultsModel {
        DefaultsModel {
            node_def: self.node_def,
            button_def: match self.button_def {
                Some(b) => Some(b@),
                None => None,
            },
            base_font: self.base_font,
            font_size: self.font_size,
            bg_color: self.bg_color,
            border_color: self.border_color,
            text_color: self.text_color,
        }
    }
}

/// A partial layer normalized: an absent layer overrides nothing.
pub open spec fn flat_node(p: Option<NodePartial>) -> NodePartial {
    match p {
        Some(x) => x,
        None => NodePartial::spec_empty(),
    }
}

/// A partial control layer normalized: an absent layer overrides nothing.
pub open spec fn flat_button(p: Option<ButtonPartialModel>) -> ButtonPartialModel {
    match p {
        Some(x) => x,
        None => ButtonPartialModel::empty(),
    }
}

/// The container style resolved from the three cascade layers.  The accent
/// fields `bg_color` and `border_color` take the shared theme values as
/// their baseline; every other field takes the family baseline.
pub open spec fn resolved_node(
    node_def: Option<NodePartial>,
    theme_bg: Color,
    theme_border: Color,
    input: Option<NodePartial>,
) -> NodeDef {
    let p = flat_node(input);
    let o = flat_node(node_def);
    let b = NodeDef::spec_base();
    NodeDef {
        display: pick(p.display, o.display, b.display),
        position_type: pick(p.position_type, o.position_type, b.position_type),
        overflow: pick(p.overflow, o.overflow, b.overflow),
        overflow_clip_margin: pick(p.overflow_clip_margin, o.overflow_clip_margin, b.overflow_clip_margin),
        left: pick(p.left, o.left, b.left),
        right: pick(p.right, o.right, b.right),
        top: pick(p.top, o.top, b.top),
        bottom: pick(p.bottom, o.bottom, b.bottom),
        width: pick(p.width, o.width, b.width),
        height: pick(p.height, o.height, b.height),
        min_width: pick(p.min_width, o.min_width, b.min_width),
        min_height: pick(p.min_height, o.min_height, b.min_height),
        max_width: pick(p.max_width, o.max_width, b.max_width),
        max_height: pick(p.max_height, o.max_height, b.max_height),
        aspect_ratio: if p.aspect_ratio is Some {
            p.aspect_ratio
        } else {
            o.aspect_ratio
        },
        align_items: pick(p.align_items, o.align_items, b.align_items),
        justify_items: pick(p.justify_items, o.justify_items, b.justify_items),
        align_self: pick(p.align_self, o.align_self, b.align_self),
        justify_self: pick(p.justify_self, o.justify_self, b.justify_self),
        align_content: pick(p.align_content, o.align_content, b.align_content),
        justify_content: pick(p.justify_content, o.justify_content, b.justify_content),
        margin: pick(p.margin, o.margin, b.margin),
        padding: pick(p.padding, o.padding, b.padding),
        border: pick(p.border, o.border, b.border),
        flex_direction: pick(p.flex_direction, o.flex_direction, b.flex_direction),
        flex_wrap: pick(p.flex_wrap, o.flex_wrap, b.flex_wrap),
        flex_grow: pick(p.flex_grow, o.flex_grow, b.flex_grow),
        flex_shrink: pick(p.flex_shrink, o.flex_shrink, b.flex_shrink),
        flex_basis: pick(p.flex_basis, o.flex_basis, b.flex_basis),
        row_gap: pick(p.row_gap, o.row_gap, b.row_gap),
        column_gap: pick(p.column_gap, o.column_gap, b.column_gap),
        grid_auto_flow: pick(p.grid_auto_flow, o.grid_auto_flow, b.grid_auto_flow),
        grid_template_rows: pick(p.grid_template_rows, o.grid_template_rows, b.grid_template_rows),
        grid_template_columns: pick(
            p.grid_template_columns,
            o.grid_template_columns,
            b.grid_template_columns,
        ),
        grid_auto_rows: pick(p.grid_auto_rows, o.grid_auto_rows, b.grid_auto_rows),
        grid_auto_columns: pick(p.grid_auto_columns, o.grid_auto_columns, b.grid_auto_columns),
        grid_row: pick(p.grid_row, o.grid_row, b.grid_row),
        grid_column: pick(p.grid_column, o.grid_column, b.grid_column),
        bg_color: pick(p.bg_color, o.bg_color, theme_bg),
        border_color: pick(p.border_color, o.border_color, theme_border),
        border_radius: pick(p.border_radius, o.border_radius, b.border_radius),
        box_sizing: b.box_sizing,
        scrollbar_width: b.scrollbar_width,
    }
}

/// The control style resolved from the three cascade layers.  The accent
/// fields `bg_color`, `border_color`, `text_color` and `font_size` take the
/// shared theme values as their baseline.
pub open spec fn resolved_button(
    d: DefaultsModel,
    input: Option<ButtonPartialModel>,
) -> ButtonModel {
    let p = flat_button(input);
    let o = flat_button(d.button_def);
    let b = ButtonModel::base();
    ButtonModel {
        text: pick(p.text, o.text, b.text),
        font: pick(p.font, o.font, b.font),
        width: pick(p.width, o.width, b.width),
        height: pick(p.height, o.height, b.height),
        border: pick(p.border, o.border, b.border),
        justify_content: pick(p.justify_content, o.justify_content, b.justify_content),
        align_items: pick(p.align_items, o.align_items, b.align_items),
        border_color: pick(p.border_color, o.border_color, d.border_color),
        border_radius: pick(p.border_radius, o.border_radius, b.border_radius),
        bg_color: pick(p.bg_color, o.bg_color, d.bg_color),
        font_size: pick(p.font_size, o.font_size, d.font_size),
        text_color: pick(p.text_color, o.text_color, d.text_color),
    }
}

/// The model of a call-site partial, absent or present.
pub open spec fn input_model(input: Option<ButtonPartial>) -> Option<ButtonPartialModel> {
    match input {
        Some(i) => Some(i@),
        None => None,
    }
}

impl UiBuilderDefaults {
    /// The untouched configuration: no override partials, the shared
    /// defaults as theme values.
    pub open spec fn spec_base() -> DefaultsModel {
        DefaultsModel {
            node_def: None,
            button_def: None,
            base_font: FontHandle::spec_base(),
            font_size: 0,
            bg_color: crate::style::spec_bg_color(),
            border_color: crate::style::spec_border_color(),
            text_color: crate::style::spec_text_color(),
        }
    }

    pub fn new() -> (r: Self)
        ensures
            r@ == UiBuilderDefaults::spec_base(),
    {
        UiBuilderDefaults {
            node_def: None,
            button_def: None,
            base_font: FontHandle::base(),
            font_size: 0,
            bg_color: crate::style::bg_color(),
            border_color: crate::style::border_color(),
            text_color: crate::style::text_color(),
        }
    }

    /// Resolve the container style for one call site.
    pub fn get_node_def(&self, input: Option<NodePartial>) -> (r: NodeDef)
        ensures
            r == resolved_node(self.node_def, self.bg_color, self.border_color, input),
    {
        let p = match input {
            Some(x) => x,
            None => NodePartial::empty(),
        };
        let o = match self.node_def {
            Some(x) => x,
            None => NodePartial::empty(),
        };
        let b = NodeDef::base();
        NodeDef {
            display: resolve_field(p.display, o.display, b.display),
            position_type: resolve_field(p.position_type, o.position_type, b.position_type),
            overflow: resolve_field(p.overflow, o.overflow, b.overflow),
            overflow_clip_margin: resolve_field(
                p.overflow_clip_margin,
                o.overflow_clip_margin,
                b.overflow_clip_margin,
            ),
            left: resolve_field(p.left, o.left, b.left),
            right: resolve_field(p.right, o.right, b.right),
            top: resolve_field(p.top, o.top, b.top),
            bottom: resolve_field(p.bottom, o.bottom, b.bottom),
            width: resolve_field(p.width, o.width, b.width),
            height: resolve_field(p.height, o.height, b.height),
            min_width: resolve_field(p.min_width, o.min_width, b.min_width),
            min_height: resolve_field(p.min_height, o.min_height, b.min_height),
            max_width: resolve_field(p.max_width, o.max_width, b.max_width),
            max_height: resolve_field(p.max_height, o.max_height, b.max_height),
            aspect_ratio: match p.aspect_ratio {
                Some(v) => Some(v),
                None => o.aspect_ratio,
            },
            align_items: resolve_field(p.align_items, o.align_items, b.align_items),
            justify_items: resolve_field(p.justify_items, o.justify_items, b.justify_items),
            align_self: resolve_field(p.align_self, o.align_self, b.align_self),
            justify_self: resolve_field(p.justify_self, o.justify_self, b.justify_self),
            align_content: resolve_field(p.align_content, o.align_content, b.align_content),
            justify_content: resolve_field(p.justify_content, o.justify_content, b.justify_content),
            margin: resolve_field(p.margin, o.margin, b.margin),
            padding: resolve_field(p.padding, o.padding, b.padding),
            border: resolve_field(p.border, o.border, b.border),
            flex_direction: resolve_field(p.flex_direction, o.flex_direction, b.flex_direction),
            flex_wrap: resolve_field(p.flex_wrap, o.flex_wrap, b.flex_wrap),
            flex_grow: resolve_field(p.flex_grow, o.flex_grow, b.flex_grow),
            flex_shrink: resolve_field(p.flex_shrink, o.flex_shrink, b.flex_shrink),
            flex_basis: resolve_field(p.flex_basis, o.flex_basis, b.flex_basis),
            row_gap: resolve_field(p.row_gap, o.row_gap, b.row_gap),
            column_gap: resolve_field(p.column_gap, o.column_gap, b.column_gap),
            grid_auto_flow: resolve_field(p.grid_auto_flow, o.grid_auto_flow, b.grid_auto_flow),
            grid_template_rows: resolve_field(
                p.grid_template_rows,
                o.grid_template_rows,
                b.grid_template_rows,
            ),
            grid_template_columns: resolve_field(
                p.grid_template_columns,
                o.grid_template_columns,
                b.grid_template_columns,
            ),
            grid_auto_rows: resolve_field(p.grid_auto_rows, o.grid_auto_rows, b.grid_auto_rows),
            grid_auto_columns: resolve_field(
                p.grid_auto_columns,
                o.grid_auto_columns,
                b.grid_auto_columns,
            ),
            grid_row: resolve_field(p.grid_row, o.grid_row, b.grid_row),
            grid_column: resolve_field(p.grid_column, o.grid_column, b.grid_column),
            bg_color: resolve_field(p.bg_color, o.bg_color, self.bg_color),
            border_color: resolve_field(p.border_color, o.border_color, self.border_color),
            border_radius: resolve_field(p.border_radius, o.border_radius, b.border_radius),
            box_sizing: b.box_sizing,
            scrollbar_width: b.scrollbar_width,
        }
    }

    /// Resolve the control style for one call site.
    pub fn get_btn_def(&self, input: Option<ButtonPartial>) -> (r: ButtonDef)
        ensures
            r@ == resolved_button(self@, input_model(input)),
    {
        let p = match input {
            Some(x) => x,
            None => ButtonPartial::empty(),
        };
        let o = match &self.button_def {
            Some(x) => x.duplicate(),
            None => ButtonPartial::empty(),
        };
        let b = ButtonDef::base();
        let text: String = match p.text {
            Some(t) => t,
            None => match o.text {
                Some(t) => t,
                None => b.text,
            },
        };
        ButtonDef {
            text,
            font: resolve_field(p.font, o.font, b.font),
            width: resolve_field(p.width, o.width, b.width),
            height: resolve_field(p.height, o.height, b.height),
            border: resolve_field(p.border, o.border, b.border),
            justify_content: resolve_field(p.justify_content, o.justify_content, b.justify_content),
            align_items: resolve_field(p.align_items, o.align_items, b.align_items),
            border_color: resolve_field(p.border_color, o.border_color, self.border_color),
            border_radius: resolve_field(p.border_radius, o.border_radius, b.border_radius),
            bg_color: resolve_field(p.bg_color, o.bg_color, self.bg_color),
            font_size: resolve_field(p.font_size, o.font_size, self.font_size),
            text_color: resolve_field(p.text_color, o.text_color, self.text_color),
        }
    }

    /// Resolve a container style and return its component bundle.
    pub fn get_node_bundle(&self, input: Option<NodePartial>) -> (r: (
        Node,
        BackgroundColor,
        BorderColor,
        BorderRadius,
    ))
        ensures
            ({
                let def = resolved_node(self.node_def, self.bg_color, self.border_color, input);
                &&& r.0 == def.spec_node()
                &&& r.1 == BackgroundColor(def.bg_color)
                &&& r.2 == BorderColor(def.border_color)
                &&& r.3 == def.border_radius
            }),
    {
        self.get_node_def(input).get_node_bundle()
    }

    /// The layout component of a control resolved for one call site: the
    /// control's sizing and alignment fed back through the container
    /// cascade.
    pub fn get_btn_node(&self, input: Option<ButtonPartial>) -> (r: Node)
        ensures
            r == spec_btn_node(
                self.node_def,
                self.bg_color,
                self.border_color,
                resolved_button(self@, input_model(input)),
            ),
    {
        let btn_def = self.get_btn_def(input);
        let node_partial = NodePartial {
            width: Some(btn_def.width),
            height: Some(btn_def.height),
            border: Some(btn_def.border),
            justify_content: Some(btn_def.justify_content),
            align_items: Some(btn_def.align_items),
            ..NodePartial::empty()
        };
        self.get_node_def(Some(node_partial)).get_node()
    }

    /// Resolve a control style and return its component bundle.
    pub fn get_btn_bundle(&self, input: Option<ButtonPartial>) -> (r: (
        Button,
        BackgroundColor,
        BorderColor,
        BorderRadius,
    ))
        ensures
            ({
                let def = resolved_button(self@, input_model(input));
                &&& r.1 == BackgroundColor(def.bg_color)
                &&& r.2 == BorderColor(def.border_color)
                &&& r.3 == def.border_radius
            }),
    {
        self.get_btn_def(input).get_button_bundle()
    }

    /// Resolve a control style and return the bundle for its label entity.
    pub fn get_btn_text_bundle(&self, input: Option<ButtonPartial>) -> (r: (
        Text,
        TextFont,
        TextColor,
    ))
        ensures
            ({
                let def = resolved_button(self@, input_model(input));
                &&& r.0.0@ == def.text
                &&& r.1 == (TextFont { font: def.font, font_size: def.font_size })
                &&& r.2 == TextColor(def.text_color)
            }),
    {
        self.get_btn_def(input).get_text_bundle()
    }
}

/// The layout component a control receives: the resolved control style's
/// sizing and alignment resolved once more through the container cascade.
pub open spec fn spec_btn_node(
    node_def: Option<NodePartial>,
    theme_bg: Color,
    theme_border: Color,
    btn: ButtonModel,
) -> Node {
    let partial = NodePartial {
        width: Some(btn.width),
        height: Some(btn.height),
        border: Some(btn.border),
        justify_content: Some(btn.justify_content),
        align_items: Some(btn.align_items),
        ..NodePartial::spec_empty()
    };
    resolved_node(node_def, theme_bg, theme_border, Some(partial)).spec_node()
}

impl Default for UiBuilderDefaults {
    fn default() -> (r: Self)
        ensures
            r@ == UiBuilderDefaults::spec_base(),
    {
        UiBuilderDefaults::new()
    }
}

} // verus!
