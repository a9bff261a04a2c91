//! Cascade resolution: call-site over instance-level over baseline, field
//! by field, with accent fields falling back to the shared theme values.

use ui_builder::defaults::UiBuilderDefaults;
use ui_builder::node::NodePartial;
use ui_builder::button::ButtonPartial;
use ui_builder::style::{bg_color, card_color, AlignItems, Color, Display, FlexDirection, Val};

fn theme() -> UiBuilderDefaults {
    UiBuilderDefaults::new()
}

#[test]
fn width_from_instance_level_when_call_site_absent() {
    let mut d = theme();
    d.node_def = Some(NodePartial { width: Some(Val::Px(100)), ..NodePartial::default() });
    let resolved = d.get_node_def(None);
    assert_eq!(resolved.width, Val::Px(100));
}

#[test]
fn width_from_call_site_when_instance_level_absent() {
    let d = theme();
    let input = NodePartial { width: Some(Val::Px(50)), ..NodePartial::default() };
    let resolved = d.get_node_def(Some(input));
    assert_eq!(resolved.width, Val::Px(50));
}

#[test]
fn width_call_site_wins_over_instance_level() {
    let mut d = theme();
    d.node_def = Some(NodePartial { width: Some(Val::Px(100)), ..NodePartial::default() });
    let input = NodePartial { width: Some(Val::Px(50)), ..NodePartial::default() };
    let resolved = d.get_node_def(Some(input));
    assert_eq!(resolved.width, Val::Px(50));
}

#[test]
fn width_baseline_when_every_layer_absent() {
    let resolved = theme().get_node_def(None);
    assert_eq!(resolved.width, Val::Auto);
}

#[test]
fn unrelated_fields_resolve_independently() {
    let mut d = theme();
    d.node_def = Some(NodePartial {
        width: Some(Val::Px(100)),
        align_items: Some(AlignItems::Center),
        ..NodePartial::default()
    });
    let input = NodePartial { width: Some(Val::Px(50)), ..NodePartial::default() };
    let resolved = d.get_node_def(Some(input));
    assert_eq!(resolved.width, Val::Px(50));
    assert_eq!(resolved.align_items, AlignItems::Center);
    assert_eq!(resolved.height, Val::Auto);
}

#[test]
fn background_accent_falls_back_to_theme() {
    let mut d = theme();
    d.bg_color = card_color();
    let resolved = d.get_node_def(None);
    assert_eq!(resolved.bg_color, card_color());
}

#[test]
fn background_accent_call_site_wins_over_theme() {
    let mut d = theme();
    d.bg_color = card_color();
    let black = Color { red: 0, green: 0, blue: 0, alpha: 255 };
    let input = NodePartial { bg_color: Some(black), ..NodePartial::default() };
    let resolved = d.get_node_def(Some(input));
    assert_eq!(resolved.bg_color, black);
}

#[test]
fn untouched_theme_background_is_the_shared_default() {
    let resolved = theme().get_node_def(None);
    assert_eq!(resolved.bg_color, bg_color());
}

#[test]
fn node_baseline_values() {
    let resolved = theme().get_node_def(None);
    assert_eq!(resolved.display, Display::Flex);
    assert_eq!(resolved.flex_direction, FlexDirection::Row);
    assert_eq!(resolved.flex_grow, 0);
    assert_eq!(resolved.flex_shrink, 1);
    assert_eq!(resolved.scrollbar_width, 15);
}

#[test]
fn button_text_from_instance_level() {
    let mut d = theme();
    d.button_def = Some(ButtonPartial {
        text: Some("Go".to_string()),
        ..ButtonPartial::default()
    });
    let resolved = d.get_btn_def(None);
    assert_eq!(resolved.text, "Go");
}

#[test]
fn button_text_call_site_wins() {
    let mut d = theme();
    d.button_def = Some(ButtonPartial {
        text: Some("Go".to_string()),
        ..ButtonPartial::default()
    });
    let input = ButtonPartial { text: Some("Stop".to_string()), ..ButtonPartial::default() };
    let resolved = d.get_btn_def(Some(input));
    assert_eq!(resolved.text, "Stop");
}

#[test]
fn button_font_size_accent_falls_back_to_theme() {
    let mut d = theme();
    d.font_size = 18;
    let resolved = d.get_btn_def(None);
    assert_eq!(resolved.font_size, 18);
    let input = ButtonPartial { font_size: Some(24), ..ButtonPartial::default() };
    assert_eq!(d.get_btn_def(Some(input)).font_size, 24);
}

#[test]
fn button_baseline_sizing() {
    let resolved = theme().get_btn_def(None);
    assert_eq!(resolved.width, Val::Px(150));
    assert_eq!(resolved.height, Val::Px(75));
    assert_eq!(resolved.text, "");
}

#[test]
fn button_node_carries_resolved_sizing() {
    let node = theme().get_btn_node(None);
    assert_eq!(node.width, Val::Px(150));
    assert_eq!(node.height, Val::Px(75));
}

#[test]
fn node_bundle_carries_resolved_colors() {
    let mut d = theme();
    d.bg_color = card_color();
    let (node, bg, _border, _radius) = d.get_node_bundle(None);
    assert_eq!(node.width, Val::Auto);
    assert_eq!(bg.0, card_color());
}
