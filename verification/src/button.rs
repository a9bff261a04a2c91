//! Interactive-control style records.
//!
//! `ButtonDef` is a fully resolved control style; `ButtonPartial` is the
//! optional-field record used to override parts of it.  Because these
//! records carry text, their contracts speak of mathematical models
//! (`ButtonModel`, `ButtonPartialModel`) in which the text is a sequence of
//! characters.  The text components that accompany a control's label live
//! here as well.

use vstd::prelude::*;
use crate::style::{
    AlignItems, BorderRadius, Color, FontHandle, JustifyContent, UiRect, Val,
};
use crate::node::{BackgroundColor, BorderColor, Node, NodeDef};

verus! {

/// Marker component of a clickable control.
#[derive(Clone, Copy, PartialEq, Eq, Structural, Debug)]
pub struct Button;

/// A component carrying the action a control triggers.
pub struct ButtonAction<T> {
    pub action: T,
}

/// Text content component of one entity.
#[derive(Clone, PartialEq, Eq, Debug)]
pub struct Text(pub String);

/// Font and size of an entity's text.
#[derive(Clone, Copy, PartialEq, Eq, Structural, Debug)]
pub struct TextFont {
    pub font: FontHandle,
    pub font_size: i64,
}

/// Color of an entity's text.
#[derive(Clone, Copy, PartialEq, Eq, Structural, Debug)]
pub struct TextColor(pub Color);

/// A fully specified control style.
#[derive(Clone, PartialEq, Eq, Debug)]
pub struct ButtonDef {
    pub text: String,
    pub font: FontHandle,
    pub width: Val,
    pub height: Val,
    pub border: UiRect,
    pub justify_content: JustifyContent,
    pub align_items: AlignItems,
    pub border_color: Color,
    pub border_radius: BorderRadius,
    pub bg_color: Color,
    pub font_size: i64,
    pub text_color: Color,
}

/// A control style with every field optional.
#[derive(Clone, PartialEq, Eq, Debug)]
pub struct ButtonPartial {
    pub text: Option<String>,
    pub font: Option<FontHandle>,
    pub width: Option<Val>,
    pub height: Option<Val>,
    pub border: Option<UiRect>,
    pub justify_content: Option<JustifyContent>,
    pub align_items: Option<AlignItems>,
    pub border_color: Option<Color>,
    pub border_radius: Option<BorderRadius>,
    pub bg_color: Option<Color>,
    pub font_size: Option<i64>,
    pub text_color: Option<Color>,
}

/// Mathematical model of a resolved control style.
pub struct ButtonModel {
    pub text: Seq<char>,
    pub font: FontHandle,
    pub width: Val,
    pub height: Val,
    pub border: UiRect,
    pub justify_content: JustifyContent,
    pub align_items: AlignItems,
    pub border_color: Color,
    pub border_radius: BorderRadius,
    pub bg_color: Color,
    pub font_size: i64,
    pub text_color: Color,
}

/// Mathematical model of a partial control style.
pub struct ButtonPartialModel {
    pub text: Option<Seq<char>>,
    pub font: Option<FontHandle>,
    pub width: Option<Val>,
    pub height: Option<Val>,
    pub border: Option<UiRect>,
    pub justify_content: Option<JustifyContent>,
    pub align_items: Option<AlignItems>,
    pub border_color: Option<Color>,
    pub border_radius: Option<BorderRadius>,
    pub bg_color: Option<Color>,
    pub font_size: Option<i64>,
    pub text_color: Option<Color>,
}

impl View for ButtonDef {
    type V = ButtonModel;

    open spec fn view(&self) -> ButtonModel {
        ButtonModel {
            text: self.text@,
            font: self.font,
            width: self.width,
            height: self.height,
            border: self.border,
            justify_content: self.justify_content,
            align_items: self.align_items,
            border_color: self.border_color,
            border_radius: self.border_radius,
            bg_color: self.bg_color,
            font_size: self.font_size,
            text_color: self.text_color,
        }
    }
}

impl View for ButtonPartial {
    type V = ButtonPartialModel;

    open spec fn view(&self) -> ButtonPartialModel {
        ButtonPartialModel {
            text: match self.text {
                Some(t) => Some(t@),
                None => None,
            },
            font: self.font,
            width: self.width,
            height: self.height,
            border: self.border,
            justify_content: self.justify_content,
            align_items: self.align_items,
            border_color: self.border_color,
            border_radius: self.border_radius,
            bg_color: self.bg_color,
            font_size: self.font_size,
            text_color: self.text_color,
        }
    }
}

impl ButtonPartialModel {
    /// The partial that overrides nothing.
    pub open spec fn empty() -> ButtonPartialModel {
        ButtonPartialModel {
            text: None,
            font: None,
            width: None,
            height: None,
            border: None,
            justify_content: None,
            align_items: None,
            border_color: None,
            border_radius: None,
            bg_color: None,
            font_size: None,
            text_color: None,
        }
    }
}

impl ButtonPartial {
    pub fn empty() -> (r: ButtonPartial)
        ensures
            r@ == ButtonPartialModel::empty(),
    {
        ButtonPartial {
            text: None,
            font: None,
            width: None,
            height: None,
            border: None,
            justify_content: None,
            align_items: None,
            border_color: None,
            border_radius: None,
            bg_color: None,
            font_size: None,
            text_color: None,
        }
    }
}

impl ButtonPartial {
    /// A copy with the same model; `clone` carries no contract, this does.
    pub fn duplicate(&self) -> (r: ButtonPartial)
        ensures
            r@ == self@,
    {
        ButtonPartial {
            text: match &self.text {
                Some(t) => Some(t.clone()),
                None => None,
            },
            font: self.font,
            width: self.width,
            height: self.height,
            border: self.border,
            justify_content: self.justify_content,
            align_items: self.align_items,
            border_color: self.border_color,
            border_radius: self.border_radius,
            bg_color: self.bg_color,
            font_size: self.font_size,
            text_color: self.text_color,
        }
    }
}

impl Default for ButtonPartial {
    fn default() -> (r: Self)
        ensures
            r@ == ButtonPartialModel::empty(),
    {
        ButtonPartial::empty()
    }
}

impl ButtonModel {
    /// The intrinsic baseline of the control style family: every field's
    /// documented default when no cascade layer supplies a value.
    pub open spec fn base() -> ButtonModel {
        ButtonModel {
            text: Seq::<char>::empty(),
            font: FontHandle::spec_base(),
            width: Val::Px(150),
            height: Val::Px(75),
            border: UiRect::spec_all(Val::Px(5)),
            justify_content: JustifyContent::Center,
            align_items: AlignItems::Center,
            border_color: Color::spec_black(),
            border_radius: BorderRadius::spec_zero(),
            bg_color: Color::spec_white(),
            font_size: 0,
            text_color: Color::spec_white(),
        }
    }
}

impl ButtonDef {
    /// The baseline control style as an executable record.
    pub fn base() -> (r: ButtonDef)
        ensures
            r@ == ButtonModel::base(),
    {
        ButtonDef {
            text: String::new(),
            font: FontHandle::base(),
            width: Val::Px(150),
            height: Val::Px(75),
            border: UiRect::all(Val::Px(5)),
            justify_content: JustifyContent::Center,
            align_items: AlignItems::Center,
            border_color: Color::black(),
            border_radius: BorderRadius::zero(),
            bg_color: Color::white(),
            font_size: 0,
            text_color: Color::white(),
        }
    }
}

impl ButtonDef {
    /// The layout component of a control: the baseline container layout
    /// with this control's sizing and alignment.
    pub open spec fn spec_node(self) -> Node {
        Node {
            width: self.width,
            height: self.height,
            border: self.border,
            justify_content: self.justify_content,
            align_items: self.align_items,
            ..NodeDef::spec_base().spec_node()
        }
    }

    pub fn get_node(&self) -> (r: Node)
        ensures
            r == self.spec_node(),
    {
        let mut n = NodeDef::base().get_node();
        n.width = self.width;
        n.height = self.height;
        n.border = self.border;
        n.justify_content = self.justify_content;
        n.align_items = self.align_items;
        n
    }

    pub fn get_background_color(&self) -> (r: BackgroundColor)
        ensures
            r == BackgroundColor(self.bg_color),
    {
        BackgroundColor(self.bg_color)
    }

    pub fn get_border_radius(&self) -> (r: BorderRadius)
        ensures
            r == self.border_radius,
    {
        self.border_radius
    }

    pub fn get_border_color(&self) -> (r: BorderColor)
        ensures
            r == BorderColor(self.border_color),
    {
        BorderColor(self.border_color)
    }

    pub fn get_text(&self) -> (r: Text)
        ensures
            r.0@ == self.text@,
    {
        Text(self.text.clone())
    }

    pub fn get_text_font(&self) -> (r: TextFont)
        ensures
            r == (TextFont { font: self.font, font_size: self.font_size }),
    {
        TextFont { font: self.font, font_size: self.font_size }
    }

    pub fn get_text_color(&self) -> (r: TextColor)
        ensures
            r == TextColor(self.text_color),
    {
        TextColor(self.text_color)
    }

    /// The bundle of components a control entity receives.
    pub fn get_button_bundle(&self) -> (r: (Button, BackgroundColor, BorderColor, BorderRadius))
        ensures
            r.1 == BackgroundColor(self.bg_color),
            r.2 == BorderColor(self.border_color),
            r.3 == self.border_radius,
    {
        (
            Button,
            self.get_background_color(),
            self.get_border_color(),
            self.get_border_radius(),
        )
    }

    /// The bundle of components a control's label entity receives.
    pub fn get_text_bundle(&self) -> (r: (Text, TextFont, TextColor))
        ensures
            r.0.0@ == self.text@,
            r.1 == (TextFont { font: self.font, font_size: self.font_size }),
            r.2 == TextColor(self.text_color),
    {
        (self.get_text(), self.get_text_font(), self.get_text_color())
    }
}

impl Default for ButtonDef {
    fn default() -> (r: Self)
        ensures
            r@ == ButtonModel::base(),
    {
        ButtonDef::base()
    }
}

} // verus!
