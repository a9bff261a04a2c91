//! Stack navigation: balanced pairs restore the session, unbalanced
//! descents leave the outermost entity as root, and ascending past the
//! root is absorbed.

use ui_builder::builder::UIBuilder;
use ui_builder::command::CommandQueue;

#[test]
fn balanced_pairs_restore_stack_and_focus() {
    let b = UIBuilder::new(CommandQueue::starting_at(0), None);
    let root = b.current_entity;
    let before = b.parent_stack.len();
    let b = b.child().parent();
    let b = b.child().child().child().parent().parent().parent();
    assert_eq!(b.parent_stack.len(), before);
    assert_eq!(b.current_entity, root);
    let (built_root, _q) = b.build();
    assert_eq!(built_root, root);
}

#[test]
fn parent_on_empty_stack_is_a_no_op() {
    let b = UIBuilder::new(CommandQueue::starting_at(0), None);
    let root = b.current_entity;
    let b = b.parent().parent();
    assert_eq!(b.current_entity, root);
    assert_eq!(b.parent_stack.len(), 0);
    let commands_before = b.commands.commands.len();
    let b = b.parent();
    assert_eq!(b.commands.commands.len(), commands_before);
}

#[test]
fn root_under_imbalance_is_the_outermost_entity() {
    let b = UIBuilder::new(CommandQueue::starting_at(0), None);
    let outermost = b.current_entity;
    let b = b.child().child();
    let innermost = b.current_entity;
    assert_ne!(outermost, innermost);
    let (root, _q) = b.build();
    assert_eq!(root, outermost);
}

#[test]
fn build_returns_current_when_stack_is_empty() {
    let b = UIBuilder::new(CommandQueue::starting_at(7), None);
    let root = b.current_entity;
    let (built, q) = b.build();
    assert_eq!(built, root);
    assert_eq!(root.0, 7);
    assert_eq!(q.next_id, 8);
}

#[test]
fn child_allocates_fresh_identifiers_in_order() {
    let b = UIBuilder::new(CommandQueue::starting_at(0), None);
    assert_eq!(b.current_entity.0, 0);
    let b = b.child();
    assert_eq!(b.current_entity.0, 1);
    let b = b.child();
    assert_eq!(b.current_entity.0, 2);
    let b = b.parent();
    assert_eq!(b.current_entity.0, 1);
}
