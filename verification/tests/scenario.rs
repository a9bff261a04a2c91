//! End-to-end scenarios: a full session built, flushed into the store
//! model, and inspected.

use ui_builder::builder::UIBuilder;
use ui_builder::command::{CommandQueue, TagId};
use ui_builder::store::EntityStore;
use ui_builder::style::{card_color, text_color, Color, Display, FlexDirection, Val};

#[test]
fn trade_card_panel_end_to_end() {
    let b = UIBuilder::new(CommandQueue::starting_at(0), None);
    let b = b.as_flex_col(Val::Percent(25), Val::Percent(100));
    let b = b.add_default_text_child("Your trade cards!".to_string());
    let b = b.child();
    let b = b.as_flex_col(Val::Percent(100), Val::Percent(100));
    let (root, q) = b.build();

    let mut store = EntityStore::new();
    store.apply_all(&q.commands);

    // The root: a flex column a quarter wide, with the text label and the
    // list container as its children.
    let root_rec = &store.entities[root.0 as usize];
    let root_node = root_rec.node.unwrap();
    assert_eq!(root_node.display, Display::Flex);
    assert_eq!(root_node.flex_direction, FlexDirection::Column);
    assert_eq!(root_node.width, Val::Percent(25));
    assert_eq!(root_node.height, Val::Percent(100));
    assert_eq!(root_rec.children.len(), 2);

    let label = root_rec.children[0];
    let list = root_rec.children[1];

    let label_text = store.entities[label.0 as usize].text.clone().unwrap();
    assert_eq!(label_text.content, "Your trade cards!");
    assert_eq!(label_text.color, text_color());

    let list_node = store.entities[list.0 as usize].node.unwrap();
    assert_eq!(list_node.width, Val::Percent(100));
    assert_eq!(list_node.height, Val::Percent(100));
    assert_eq!(list_node.display, Display::Flex);
    assert_eq!(list_node.flex_direction, FlexDirection::Column);
}

#[test]
fn card_blocks_inside_a_scope() {
    let b = UIBuilder::new(CommandQueue::starting_at(0), None);
    let list = b.current_entity;
    let (b, outcome): (UIBuilder, Result<(), ()>) = b.with_children(|mut inner| {
        inner = inner.add_default_text_child("Cards with value: 3".to_string());
        inner = inner
            .child()
            .as_block(Val::Px(160), Val::Px(40), card_color())
            .with_default_text("Ochre: 2".to_string())
            .parent();
        (inner, Ok(()))
    });
    assert_eq!(outcome, Ok(()));
    let (root, q) = b.build();
    assert_eq!(root, list);

    let mut store = EntityStore::new();
    store.apply_all(&q.commands);
    let children = &store.entities[root.0 as usize].children;
    assert_eq!(children.len(), 2);
    let card = children[1];
    let card_rec = &store.entities[card.0 as usize];
    assert_eq!(card_rec.background, Some(card_color()));
    let card_node = card_rec.node.unwrap();
    assert_eq!(card_node.display, Display::Block);
    assert_eq!(card_node.width, Val::Px(160));
    assert_eq!(card_rec.text.clone().unwrap().content, "Ochre: 2");
}

#[test]
fn button_child_carries_bundle_and_label() {
    let tag = TagId(9);
    let b = UIBuilder::new(CommandQueue::starting_at(0), None);
    let entry = b.current_entity;
    let b = b.with_button(None, tag);
    assert_eq!(b.current_entity, entry);
    let (root, q) = b.build();

    let mut store = EntityStore::new();
    store.apply_all(&q.commands);

    let root_rec = &store.entities[root.0 as usize];
    assert_eq!(root_rec.children.len(), 1);
    let btn = root_rec.children[0];
    let btn_rec = &store.entities[btn.0 as usize];
    assert!(btn_rec.button);
    assert_eq!(btn_rec.tags.len(), 1);
    assert_eq!(btn_rec.tags[0], tag);
    let btn_node = btn_rec.node.unwrap();
    assert_eq!(btn_node.width, Val::Px(150));
    assert_eq!(btn_node.height, Val::Px(75));
    assert_eq!(btn_rec.children.len(), 1);
    let label = btn_rec.children[0];
    let label_text = store.entities[label.0 as usize].text.clone().unwrap();
    assert_eq!(label_text.content, "");
}

#[test]
fn box_shadow_attaches_the_documented_shape() {
    let b = UIBuilder::new(CommandQueue::starting_at(0), None);
    let (root, q) = b.with_box_shadow(1, 2, 3, 4).build();
    let mut store = EntityStore::new();
    store.apply_all(&q.commands);
    let shadow = store.entities[root.0 as usize].box_shadow.unwrap();
    assert_eq!(shadow.color, Color { red: 0, green: 0, blue: 0, alpha: 204 });
    assert_eq!(shadow.x_offset, Val::Percent(1));
    assert_eq!(shadow.y_offset, Val::Percent(2));
    assert_eq!(shadow.spread, Val::Percent(3));
    assert_eq!(shadow.blur, Val::Px(4));
}

#[test]
fn border_and_background_attach_alongside_updates() {
    let b = UIBuilder::new(CommandQueue::starting_at(0), None);
    let red = Color { red: 200, green: 10, blue: 10, alpha: 255 };
    let b = b.with_border(
        ui_builder::style::UiRect::all(Val::Px(2)),
        red,
    );
    let (root, q) = b.with_bg_color(red).build();
    let mut store = EntityStore::new();
    store.apply_all(&q.commands);
    let rec = &store.entities[root.0 as usize];
    assert_eq!(rec.border_color, Some(red));
    assert_eq!(rec.background, Some(red));
    assert_eq!(rec.node.unwrap().border, ui_builder::style::UiRect::all(Val::Px(2)));
}
