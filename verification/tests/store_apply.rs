//! Deferred command semantics against the store model: idempotent tag
//! upsert, updates that require an existing style, and child bookkeeping.

use ui_builder::builder::UIBuilder;
use ui_builder::command::{CommandQueue, DeferredCommand, EntityId, TagId};
use ui_builder::node::NodePartial;
use ui_builder::store::EntityStore;
use ui_builder::style::{
    BorderRadius, Color, Display, GridTemplate, GridTrack, RepeatedGridTrack, Val,
};

#[test]
fn with_component_twice_leaves_one_tag() {
    let tag = TagId(42);
    let b = UIBuilder::new(CommandQueue::starting_at(0), None);
    let b = b.with_component(tag).with_component(tag);
    let (root, q) = b.build();
    let mut store = EntityStore::new();
    store.apply_all(&q.commands);
    let tags = &store.entities[root.0 as usize].tags;
    assert_eq!(tags.len(), 1);
    assert_eq!(tags[0], tag);
}

#[test]
fn second_upsert_changes_nothing_at_all() {
    let tag = TagId(7);
    let b = UIBuilder::new(CommandQueue::starting_at(0), None);
    let (root, q) = b.with_component(tag).build();
    let mut once = EntityStore::new();
    once.apply_all(&q.commands);
    let mut twice = once.clone();
    twice.apply(&DeferredCommand::InsertTagIfAbsent(root, tag));
    assert_eq!(once, twice);
}

#[test]
fn width_update_without_style_queues_no_effect() {
    let mut store = EntityStore::new();
    let bare = store.create_entity();
    assert!(store.entities[bare.0 as usize].node.is_none());
    let before = store.clone();

    let q = CommandQueue::starting_at(1);
    let b = UIBuilder::start_from_entity(q, bare, false, None);
    let (_root, q) = b.with_width(Val::Px(30)).build();
    store.apply_all(&q.commands);
    assert_eq!(store, before);
}

#[test]
fn width_update_with_style_takes_effect() {
    let b = UIBuilder::new(CommandQueue::starting_at(0), None);
    let (root, q) = b.with_width(Val::Px(30)).build();
    let mut store = EntityStore::new();
    store.apply_all(&q.commands);
    let node = store.entities[root.0 as usize].node.unwrap();
    assert_eq!(node.width, Val::Px(30));
}

#[test]
fn update_merges_only_present_fields() {
    let b = UIBuilder::new(CommandQueue::starting_at(0), None);
    let b = b.with_width(Val::Px(30));
    let partial = NodePartial { display: Some(Display::Block), ..NodePartial::default() };
    let (root, q) = b.with(partial).build();
    let mut store = EntityStore::new();
    store.apply_all(&q.commands);
    let node = store.entities[root.0 as usize].node.unwrap();
    assert_eq!(node.width, Val::Px(30));
    assert_eq!(node.display, Display::Block);
    assert_eq!(node.height, Val::Auto);
}

#[test]
fn update_applies_partial_colors_when_style_exists() {
    let white = Color { red: 255, green: 255, blue: 255, alpha: 255 };
    let black = Color { red: 0, green: 0, blue: 0, alpha: 255 };
    let b = UIBuilder::new(CommandQueue::starting_at(0), None);
    let b = b.with_bg_color(black);
    let partial = NodePartial {
        bg_color: Some(white),
        border_color: Some(black),
        border_radius: Some(BorderRadius::all(Val::Px(4))),
        ..NodePartial::default()
    };
    let (root, q) = b.with(partial).build();
    let mut store = EntityStore::new();
    store.apply_all(&q.commands);
    let rec = &store.entities[root.0 as usize];
    assert_eq!(rec.background, Some(white));
    assert_eq!(rec.border_color, Some(black));
    assert_eq!(rec.border_radius, Some(BorderRadius::all(Val::Px(4))));
}

#[test]
fn update_with_colors_on_absent_style_is_still_a_no_op() {
    let white = Color { red: 255, green: 255, blue: 255, alpha: 255 };
    let mut store = EntityStore::new();
    let bare = store.create_entity();
    let before = store.clone();

    let q = CommandQueue::starting_at(1);
    let b = UIBuilder::start_from_entity(q, bare, false, None);
    let partial = NodePartial { bg_color: Some(white), ..NodePartial::default() };
    let (_root, q) = b.with(partial).build();
    store.apply_all(&q.commands);
    assert_eq!(store, before);
}

#[test]
fn clear_children_detaches_existing_children() {
    let b = UIBuilder::new(CommandQueue::starting_at(0), None);
    let (root, q) = b.child().parent().child().parent().build();
    let mut store = EntityStore::new();
    store.apply_all(&q.commands);
    assert_eq!(store.entities[root.0 as usize].children.len(), 2);

    let q2 = CommandQueue::starting_at(q.next_id);
    let (_r, q2) = UIBuilder::start_from_entity(q2, root, true, None).build();
    store.apply_all(&q2.commands);
    assert_eq!(store.entities[root.0 as usize].children.len(), 0);
}

#[test]
fn grid_template_with_several_groups_round_trips() {
    let template = GridTemplate {
        first: Some(RepeatedGridTrack { repetitions: 2, track: GridTrack::Fraction(1) }),
        second: Some(RepeatedGridTrack { repetitions: 1, track: GridTrack::Px(40) }),
        third: Some(RepeatedGridTrack { repetitions: 3, track: GridTrack::Auto }),
        fourth: None,
    };
    let rows = GridTemplate::of(RepeatedGridTrack { repetitions: 4, track: GridTrack::Percent(10) });
    let b = UIBuilder::new(CommandQueue::starting_at(0), None);
    let partial = NodePartial {
        grid_template_columns: Some(template),
        grid_template_rows: Some(rows),
        ..NodePartial::default()
    };
    let (root, q) = b.with(partial).build();
    let mut store = EntityStore::new();
    store.apply_all(&q.commands);
    let node = store.entities[root.0 as usize].node.unwrap();
    assert_eq!(node.grid_template_columns, template);
    assert_eq!(node.grid_template_rows, rows);
}

#[test]
fn spawn_with_stale_identifier_is_ignored() {
    let mut store = EntityStore::new();
    store.apply(&DeferredCommand::Spawn(EntityId(3)));
    assert_eq!(store.entities.len(), 0);
    store.apply(&DeferredCommand::Spawn(EntityId(0)));
    assert_eq!(store.entities.len(), 1);
}

#[test]
fn text_attachment_replaces_existing_text() {
    let b = UIBuilder::new(CommandQueue::starting_at(0), None);
    let b = b.with_default_text("first".to_string());
    let (root, q) = b.with_default_text("second".to_string()).build();
    let mut store = EntityStore::new();
    store.apply_all(&q.commands);
    let text = store.entities[root.0 as usize].text.clone().unwrap();
    assert_eq!(text.content, "second");
}

#[test]
fn aspect_ratio_can_be_set_and_cleared() {
    let b = UIBuilder::new(CommandQueue::starting_at(0), None);
    let (root, q) = b.with_aspect_ratio(2).build();
    let mut store = EntityStore::new();
    store.apply_all(&q.commands);
    assert_eq!(store.entities[root.0 as usize].node.unwrap().aspect_ratio, Some(2));

    let q2 = CommandQueue::starting_at(q.next_id);
    let (_r, q2) = UIBuilder::start_from_entity(q2, root, false, None).clear_aspect_ratio().build();
    store.apply_all(&q2.commands);
    assert_eq!(store.entities[root.0 as usize].node.unwrap().aspect_ratio, None);
}
