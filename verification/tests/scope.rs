//! Scoped blocks: the focus returns to the entry entity on every exit
//! path, an abnormal outcome is handed back unchanged, and mismatched
//! navigation inside the block raises the non-fatal diagnostic.

use ui_builder::builder::UIBuilder;
use ui_builder::command::CommandQueue;
use ui_builder::style::Val;

#[derive(Debug, PartialEq)]
struct Abort(&'static str);

#[test]
fn scope_restores_focus_after_normal_return() {
    let b = UIBuilder::new(CommandQueue::starting_at(0), None);
    let entry = b.current_entity;
    let (b, outcome): (UIBuilder, Result<(), Abort>) = b.with_children(|inner| {
        let inner = inner.child().as_flex_col(Val::Percent(100), Val::Percent(100)).parent();
        (inner, Ok(()))
    });
    assert_eq!(outcome, Ok(()));
    assert_eq!(b.current_entity, entry);
    assert_eq!(b.parent_stack.len(), 0);
    assert!(!b.stack_mismatch);
}

#[test]
fn scope_restores_focus_after_abort_and_reports_it() {
    let b = UIBuilder::new(CommandQueue::starting_at(0), None);
    let entry = b.current_entity;
    let (b, outcome): (UIBuilder, Result<(), Abort>) = b.with_children(|inner| {
        let inner = inner.child();
        (inner, Err(Abort("construction failed")))
    });
    assert_eq!(outcome, Err(Abort("construction failed")));
    assert_eq!(b.current_entity, entry);
}

#[test]
fn scope_keeps_commands_queued_before_abort() {
    let b = UIBuilder::new(CommandQueue::starting_at(0), None);
    let queued_before = b.commands.commands.len();
    let (b, outcome): (UIBuilder, Result<(), Abort>) = b.with_children(|inner| {
        let inner = inner.child();
        (inner, Err(Abort("late")))
    });
    assert!(outcome.is_err());
    assert!(b.commands.commands.len() > queued_before);
}

#[test]
fn unmatched_ascent_inside_scope_raises_the_diagnostic() {
    let b = UIBuilder::new(CommandQueue::starting_at(0), None);
    let entry = b.current_entity;
    let (b, outcome): (UIBuilder, Result<(), Abort>) = b.with_children(|inner| {
        (inner.parent(), Ok(()))
    });
    assert_eq!(outcome, Ok(()));
    assert!(b.stack_mismatch);
    assert_eq!(b.current_entity, entry);
}

#[test]
fn nested_scopes_restore_each_entry() {
    let b = UIBuilder::new(CommandQueue::starting_at(0), None);
    let entry = b.current_entity;
    let (b, outcome): (UIBuilder, Result<(), Abort>) = b.with_children(|outer| {
        let outer = outer.child();
        let mid = outer.current_entity;
        let (outer, inner_outcome): (UIBuilder, Result<(), Abort>) =
            outer.with_children(|inner| (inner.child().parent(), Ok(())));
        assert_eq!(inner_outcome, Ok(()));
        assert_eq!(outer.current_entity, mid);
        (outer.parent(), Ok(()))
    });
    assert_eq!(outcome, Ok(()));
    assert_eq!(b.current_entity, entry);
    assert!(!b.stack_mismatch);
}
