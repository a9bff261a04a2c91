//! The fluent tree builder.
//!
//! A session holds the handle of the current entity, the stack of open
//! ancestors, and the deferred command queue.  Fluent calls consume and
//! return the session, so a chain of calls reads as it runs.  Navigation
//! pushes and pops the ancestor stack; every creation or mutation resolves
//! a style through the defaults cascade and appends commands to the queue.
//! `build` consumes the session and yields the root entity and the queue.

use vstd::prelude::*;
use crate::command::{CommandQueue, DeferredCommand, EntityId, TagId, TextAttachment};
use crate::button::ButtonPartial;
use crate::defaults::{input_model, resolved_button, resolved_node, spec_btn_node, UiBuilderDefaults};
use crate::node::{Node, NodeDef, NodePartial};
use crate::style::{
    AlignContent, AlignItems, AlignSelf, BoxShadow, Color, Display, FlexDirection, FlexWrap,
    FontHandle, JustifyContent, JustifyItems, JustifySelf, Overflow, OverflowClipMargin,
    PositionType, UiRect, Val,
};

verus! {

/// The option's value when present, else the fallback.
pub open spec fn or_else<T>(o: Option<T>, d: T) -> T {
    if o is Some {
        o->0
    } else {
        d
    }
}

/// The commands that create one container entity's component bundle.
pub open spec fn spec_node_bundle_cmds(e: EntityId, def: NodeDef) -> Seq<DeferredCommand> {
    seq![
        DeferredCommand::InsertNode(e, def.spec_node()),
        DeferredCommand::SetBackgroundColor(e, def.bg_color),
        DeferredCommand::SetBorderColor(e, def.border_color),
        DeferredCommand::SetBorderRadius(e, def.border_radius),
    ]
}

/// A builder session over the deferred command queue.
pub struct UIBuilder {
    pub commands: CommandQueue,
    pub defaults: UiBuilderDefaults,
    pub current_entity: EntityId,
    pub parent_stack: Vec<EntityId>,
    /// Set when a scoped block popped an entity other than the one it
    /// pushed: the non-fatal diagnostic for mismatched navigation inside
    /// the block.
    pub stack_mismatch: bool,
}

impl UIBuilder {
    /// The container style this session resolves when it creates an entity
    /// with no call-site partial.
    pub open spec fn spec_fresh_def(self) -> NodeDef {
        resolved_node(self.defaults.node_def, self.defaults.bg_color, self.defaults.border_color, None)
    }

    /// Start a session at a freshly created root entity, pre-populated
    /// with the resolved container style.
    pub fn new(commands: CommandQueue, defaults: Option<UiBuilderDefaults>) -> (r: UIBuilder)
        requires
            commands.next_id < u64::MAX,
        ensures
            defaults is Some ==> r.defaults == defaults->0,
            defaults is None ==> r.defaults@ == UiBuilderDefaults::spec_base(),
            r.current_entity == EntityId(commands.next_id),
            r.parent_stack@ == Seq::<EntityId>::empty(),
            r.stack_mismatch == false,
            r.commands.next_id == commands.next_id + 1,
            r.commands.commands@ == commands.commands@ + seq![
                DeferredCommand::Spawn(EntityId(commands.next_id)),
            ] + spec_node_bundle_cmds(EntityId(commands.next_id), r.spec_fresh_def()),
    {
        let d = match defaults {
            Some(d) => d,
            None => UiBuilderDefaults::new(),
        };
        let mut q = commands;
        let e = EntityId(q.next_id);
        q.next_id = q.next_id + 1;
        q.commands.push(DeferredCommand::Spawn(e));
        let bundle = d.get_node_bundle(None);
        q.commands.push(DeferredCommand::InsertNode(e, bundle.0));
        q.commands.push(DeferredCommand::SetBackgroundColor(e, bundle.1.0));
        q.commands.push(DeferredCommand::SetBorderColor(e, bundle.2.0));
        q.commands.push(DeferredCommand::SetBorderRadius(e, bundle.3));
        let r = UIBuilder {
            commands: q,
            defaults: d,
            current_entity: e,
            parent_stack: Vec::new(),
            stack_mismatch: false,
        };
        proof {
            assert(r.commands.commands@ =~= commands.commands@ + seq![
                DeferredCommand::Spawn(e),
            ] + spec_node_bundle_cmds(e, r.spec_fresh_def()));
        }
        r
    }

    /// Start a session focused on an existing entity, optionally clearing
    /// its children first.  The queue's allocator must lie above every
    /// identifier already in use in the store.
    pub fn start_from_entity(
        commands: CommandQueue,
        entity: EntityId,
        clear_children: bool,
        defaults: Option<UiBuilderDefaults>,
    ) -> (r: UIBuilder)
        ensures
            defaults is Some ==> r.defaults == defaults->0,
            defaults is None ==> r.defaults@ == UiBuilderDefaults::spec_base(),
            r.current_entity == entity,
            r.parent_stack@ == Seq::<EntityId>::empty(),
            r.stack_mismatch == false,
            r.commands.next_id == commands.next_id,
            clear_children ==> r.commands.commands@ == commands.commands@.push(
                DeferredCommand::ClearChildren(entity),
            ),
            !clear_children ==> r.commands.commands@ == commands.commands@,
    {
        let d = match defaults {
            Some(d) => d,
            None => UiBuilderDefaults::new(),
        };
        let mut q = commands;
        if clear_children {
            q.commands.push(DeferredCommand::ClearChildren(entity));
        }
        UIBuilder {
            commands: q,
            defaults: d,
            current_entity: entity,
            parent_stack: Vec::new(),
            stack_mismatch: false,
        }
    }

    /// The commands one `child` call queues: spawn the fresh entity, give
    /// it the resolved container bundle, and attach it under the current
    /// entity.
    pub open spec fn spec_child_cmds(self) -> Seq<DeferredCommand> {
        seq![
            DeferredCommand::Spawn(EntityId(self.commands.next_id)),
        ] + spec_node_bundle_cmds(EntityId(self.commands.next_id), self.spec_fresh_def()) + seq![
            DeferredCommand::AttachChild {
                parent: self.current_entity,
                child: EntityId(self.commands.next_id),
            },
        ]
    }

    /// Create a child of the current entity, pre-populated with the
    /// resolved container style, and descend into it.  The previous
    /// current entity is pushed onto the ancestor stack.
    pub fn child(self) -> (r: UIBuilder)
        requires
            self.commands.next_id < u64::MAX,
        ensures
            r.defaults == self.defaults,
            r.stack_mismatch == self.stack_mismatch,
            r.parent_stack@ == self.parent_stack@.push(self.current_entity),
            r.current_entity == EntityId(self.commands.next_id),
            r.commands.next_id == self.commands.next_id + 1,
            r.commands.commands@ == self.commands.commands@ + self.spec_child_cmds(),
    {
        let mut b = self;
        let parent = b.current_entity;
        b.parent_stack.push(parent);
        let e = EntityId(b.commands.next_id);
        b.commands.next_id = b.commands.next_id + 1;
        b.commands.commands.push(DeferredCommand::Spawn(e));
        let bundle = b.defaults.get_node_bundle(None);
        b.commands.commands.push(DeferredCommand::InsertNode(e, bundle.0));
        b.commands.commands.push(DeferredCommand::SetBackgroundColor(e, bundle.1.0));
        b.commands.commands.push(DeferredCommand::SetBorderColor(e, bundle.2.0));
        b.commands.commands.push(DeferredCommand::SetBorderRadius(e, bundle.3));
        b.commands.commands.push(DeferredCommand::AttachChild { parent, child: e });
        b.current_entity = e;
        proof {
            assert(b.commands.commands@ =~= self.commands.commands@ + self.spec_child_cmds());
        }
        b
    }

    /// Ascend to the parent on top of the ancestor stack.  On an empty
    /// stack this is a no-op, not an error: the focus stays put.
    pub fn parent(self) -> (r: UIBuilder)
        ensures
            r.defaults == self.defaults,
            r.stack_mismatch == self.stack_mismatch,
            r.commands == self.commands,
            self.parent_stack@.len() > 0 ==> {
                &&& r.parent_stack@ == self.parent_stack@.drop_last()
                &&& r.current_entity == self.parent_stack@.last()
            },
            self.parent_stack@.len() == 0 ==> {
                &&& r.parent_stack@ == self.parent_stack@
                &&& r.current_entity == self.current_entity
            },
    {
        let mut b = self;
        match b.parent_stack.pop() {
            Some(p) => {
                b.current_entity = p;
            },
            None => {},
        }
        b
    }

    /// Holds when `r` is `self` with `cmds` appended to the queue and
    /// everything else unchanged.
    pub open spec fn spec_queued(self, r: UIBuilder, cmds: Seq<DeferredCommand>) -> bool {
        &&& r.defaults == self.defaults
        &&& r.stack_mismatch == self.stack_mismatch
        &&& r.parent_stack == self.parent_stack
        &&& r.current_entity == self.current_entity
        &&& r.commands.next_id == self.commands.next_id
        &&& r.commands.commands@ == self.commands.commands@ + cmds
    }

    /// Holds when `r` is `self` with the one command appended.
    pub open spec fn spec_queued_one(self, r: UIBuilder, cmd: DeferredCommand) -> bool {
        self.spec_queued(r, seq![cmd])
    }

    /// The conditional style update of the current entity with the given
    /// partial.
    pub open spec fn spec_update_cmd(self, partial: NodePartial) -> DeferredCommand {
        DeferredCommand::UpdateNode(self.current_entity, partial)
    }

    /// Queue a conditional update of the current entity's style: the
    /// fields present in the partial — layout fields, background color,
    /// border color and corner radius alike — are applied only if the
    /// entity already has a layout component; without one the command
    /// does nothing when flushed.
    pub fn with(self, partial: NodePartial) -> (r: UIBuilder)
        ensures
            self.spec_queued_one(r, self.spec_update_cmd(partial)),
    {
        let mut b = self;
        let cmd = DeferredCommand::UpdateNode(b.current_entity, partial);
        b.commands.commands.push(cmd);
        proof {
            assert(b.commands.commands@ =~= self.commands.commands@ + seq![
                self.spec_update_cmd(partial),
            ]);
        }
        b
    }

    /// Queue an update of the current entity's display mode.
    pub fn with_display(self, display: Display) -> (r: UIBuilder)
        ensures
            self.spec_queued_one(r, self.spec_update_cmd((NodePartial {
                display: Some(display),
                ..NodePartial::spec_empty()
            }))),
    {
        let p = NodePartial {
            display: Some(display),
            ..NodePartial::empty()
        };
        self.with(p)
    }

    /// Queue an update of the current entity's position type.
    pub fn with_position_type(self, position_type: PositionType) -> (r: UIBuilder)
        ensures
            self.spec_queued_one(r, self.spec_update_cmd((NodePartial {
                position_type: Some(position_type),
                ..NodePartial::spec_empty()
            }))),
    {
        let p = NodePartial {
            position_type: Some(position_type),
            ..NodePartial::empty()
        };
        self.with(p)
    }

    /// Queue an update of the current entity's overflow behavior.
    pub fn with_overflow(self, overflow: Overflow) -> (r: UIBuilder)
        ensures
            self.spec_queued_one(r, self.spec_update_cmd((NodePartial {
                overflow: Some(overflow),
                ..NodePartial::spec_empty()
            }))),
    {
        let p = NodePartial {
            overflow: Some(overflow),
            ..NodePartial::empty()
        };
        self.with(p)
    }

    /// Queue an update of the current entity's overflow clip margin.
    pub fn with_overflow_clip_margin(self, margin: OverflowClipMargin) -> (r: UIBuilder)
        ensures
            self.spec_queued_one(r, self.spec_update_cmd((NodePartial {
                overflow_clip_margin: Some(margin),
                ..NodePartial::spec_empty()
            }))),
    {
        let p = NodePartial {
            overflow_clip_margin: Some(margin),
            ..NodePartial::empty()
        };
        self.with(p)
    }

    /// Queue an update of the current entity's aspect ratio.
    pub fn with_aspect_ratio(self, ratio: i64) -> (r: UIBuilder)
        ensures
            self.spec_queued_one(r, self.spec_update_cmd((NodePartial {
                aspect_ratio: Some(ratio),
                ..NodePartial::spec_empty()
            }))),
    {
        let p = NodePartial {
            aspect_ratio: Some(ratio),
            ..NodePartial::empty()
        };
        self.with(p)
    }

    /// Queue an update of the current entity's left position.
    pub fn with_left(self, left: Val) -> (r: UIBuilder)
        ensures
            self.spec_queued_one(r, self.spec_update_cmd((NodePartial {
                left: Some(left),
                ..NodePartial::spec_empty()
            }))),
    {
        let p = NodePartial {
            left: Some(left),
            ..NodePartial::empty()
        };
        self.with(p)
    }

    /// Queue an update of the current entity's right position.
    pub fn with_right(self, right: Val) -> (r: UIBuilder)
        ensures
            self.spec_queued_one(r, self.spec_update_cmd((NodePartial {
                right: Some(right),
                ..NodePartial::spec_empty()
            }))),
    {
        let p = NodePartial {
            right: Some(right),
            ..NodePartial::empty()
        };
        self.with(p)
    }

    /// Queue an update of the current entity's top position.
    pub fn with_top(self, top: Val) -> (r: UIBuilder)
        ensures
            self.spec_queued_one(r, self.spec_update_cmd((NodePartial {
                top: Some(top),
                ..NodePartial::spec_empty()
            }))),
    {
        let p = NodePartial {
            top: Some(top),
            ..NodePartial::empty()
        };
        self.with(p)
    }

    /// Queue an update of the current entity's bottom position.
    pub fn with_bottom(self, bottom: Val) -> (r: UIBuilder)
        ensures
            self.spec_queued_one(r, self.spec_update_cmd((NodePartial {
                bottom: Some(bottom),
                ..NodePartial::spec_empty()
            }))),
    {
        let p = NodePartial {
            bottom: Some(bottom),
            ..NodePartial::empty()
        };
        self.with(p)
    }

    /// Queue an update of all four positions of the current entity.
    pub fn with_position(self, left: Val, right: Val, top: Val, bottom: Val) -> (r: UIBuilder)
        ensures
            self.spec_queued_one(r, self.spec_update_cmd((NodePartial {
                left: Some(left),
                right: Some(right),
                top: Some(top),
                bottom: Some(bottom),
                ..NodePartial::spec_empty()
            }))),
    {
        let p = NodePartial {
            left: Some(left),
            right: Some(right),
            top: Some(top),
            bottom: Some(bottom),
            ..NodePartial::empty()
        };
        self.with(p)
    }

    /// Queue an update of the current entity's flex direction.
    pub fn with_flex_direction(self, direction: FlexDirection) -> (r: UIBuilder)
        ensures
            self.spec_queued_one(r, self.spec_update_cmd((NodePartial {
                flex_direction: Some(direction),
                ..NodePartial::spec_empty()
            }))),
    {
        let p = NodePartial {
            flex_direction: Some(direction),
            ..NodePartial::empty()
        };
        self.with(p)
    }

    /// Queue an update of the current entity's flex wrap.
    pub fn with_flex_wrap(self, wrap: FlexWrap) -> (r: UIBuilder)
        ensures
            self.spec_queued_one(r, self.spec_update_cmd((NodePartial {
                flex_wrap: Some(wrap),
                ..NodePartial::spec_empty()
            }))),
    {
        let p = NodePartial {
            flex_wrap: Some(wrap),
            ..NodePartial::empty()
        };
        self.with(p)
    }

    /// Queue an update of the current entity's flex grow factor.
    pub fn with_flex_grow(self, grow: i64) -> (r: UIBuilder)
        ensures
            self.spec_queued_one(r, self.spec_update_cmd((NodePartial {
                flex_grow: Some(grow),
                ..NodePartial::spec_empty()
            }))),
    {
        let p = NodePartial {
            flex_grow: Some(grow),
            ..NodePartial::empty()
        };
        self.with(p)
    }

    /// Queue an update of the current entity's flex shrink factor.
    pub fn with_flex_shrink(self, shrink: i64) -> (r: UIBuilder)
        ensures
            self.spec_queued_one(r, self.spec_update_cmd((NodePartial {
                flex_shrink: Some(shrink),
                ..NodePartial::spec_empty()
            }))),
    {
        let p = NodePartial {
            flex_shrink: Some(shrink),
            ..NodePartial::empty()
        };
        self.with(p)
    }

    /// Queue an update of the current entity's flex basis.
    pub fn with_flex_basis(self, basis: Val) -> (r: UIBuilder)
        ensures
            self.spec_queued_one(r, self.spec_update_cmd((NodePartial {
                flex_basis: Some(basis),
                ..NodePartial::spec_empty()
            }))),
    {
        let p = NodePartial {
            flex_basis: Some(basis),
            ..NodePartial::empty()
        };
        self.with(p)
    }

    /// Queue an update of the current entity's item alignment.
    pub fn with_align_items(self, align: AlignItems) -> (r: UIBuilder)
        ensures
            self.spec_queued_one(r, self.spec_update_cmd((NodePartial {
                align_items: Some(align),
                ..NodePartial::spec_empty()
            }))),
    {
        let p = NodePartial {
            align_items: Some(align),
            ..NodePartial::empty()
        };
        self.with(p)
    }

    /// Queue an update of the current entity's item justification.
    pub fn with_justify_items(self, justify: JustifyItems) -> (r: UIBuilder)
        ensures
            self.spec_queued_one(r, self.spec_update_cmd((NodePartial {
                justify_items: Some(justify),
                ..NodePartial::spec_empty()
            }))),
    {
        let p = NodePartial {
            justify_items: Some(justify),
            ..NodePartial::empty()
        };
        self.with(p)
    }

    /// Queue an update of the current entity's self alignment.
    pub fn with_align_self(self, align: AlignSelf) -> (r: UIBuilder)
        ensures
            self.spec_queued_one(r, self.spec_update_cmd((NodePartial {
                align_self: Some(align),
                ..NodePartial::spec_empty()
            }))),
    {
        let p = NodePartial {
            align_self: Some(align),
            ..NodePartial::empty()
        };
        self.with(p)
    }

    /// Queue an update of the current entity's self justification.
    pub fn with_justify_self(self, justify: JustifySelf) -> (r: UIBuilder)
        ensures
            self.spec_queued_one(r, self.spec_update_cmd((NodePartial {
                justify_self: Some(justify),
                ..NodePartial::spec_empty()
            }))),
    {
        let p = NodePartial {
            justify_self: Some(justify),
            ..NodePartial::empty()
        };
        self.with(p)
    }

    /// Queue an update of the current entity's content alignment.
    pub fn with_align_content(self, align: AlignContent) -> (r: UIBuilder)
        ensures
            self.spec_queued_one(r, self.spec_update_cmd((NodePartial {
                align_content: Some(align),
                ..NodePartial::spec_empty()
            }))),
    {
        let p = NodePartial {
            align_content: Some(align),
            ..NodePartial::empty()
        };
        self.with(p)
    }

    /// Queue an update of the current entity's content justification.
    pub fn with_justify_content(self, justify: JustifyContent) -> (r: UIBuilder)
        ensures
            self.spec_queued_one(r, self.spec_update_cmd((NodePartial {
                justify_content: Some(justify),
                ..NodePartial::spec_empty()
            }))),
    {
        let p = NodePartial {
            justify_content: Some(justify),
            ..NodePartial::empty()
        };
        self.with(p)
    }

    /// Queue an update of the current entity's row gap.
    pub fn with_row_gap(self, gap: Val) -> (r: UIBuilder)
        ensures
            self.spec_queued_one(r, self.spec_update_cmd((NodePartial {
                row_gap: Some(gap),
                ..NodePartial::spec_empty()
            }))),
    {
        let p = NodePartial {
            row_gap: Some(gap),
            ..NodePartial::empty()
        };
        self.with(p)
    }

    /// Queue an update of the current entity's column gap.
    pub fn with_column_gap(self, gap: Val) -> (r: UIBuilder)
        ensures
            self.spec_queued_one(r, self.spec_update_cmd((NodePartial {
                column_gap: Some(gap),
                ..NodePartial::spec_empty()
            }))),
    {
        let p = NodePartial {
            column_gap: Some(gap),
            ..NodePartial::empty()
        };
        self.with(p)
    }

    /// Queue an update of both gaps of the current entity.
    pub fn with_gap(self, row_gap: Val, column_gap: Val) -> (r: UIBuilder)
        ensures
            self.spec_queued_one(r, self.spec_update_cmd((NodePartial {
                row_gap: Some(row_gap),
                column_gap: Some(column_gap),
                ..NodePartial::spec_empty()
            }))),
    {
        let p = NodePartial {
            row_gap: Some(row_gap),
            column_gap: Some(column_gap),
            ..NodePartial::empty()
        };
        self.with(p)
    }

    /// Queue an update of the current entity's width.
    pub fn with_width(self, width: Val) -> (r: UIBuilder)
        ensures
            self.spec_queued_one(r, self.spec_update_cmd((NodePartial {
                width: Some(width),
                ..NodePartial::spec_empty()
            }))),
    {
        let p = NodePartial {
            width: Some(width),
            ..NodePartial::empty()
        };
        self.with(p)
    }

    /// Queue an update of the current entity's height.
    pub fn with_height(self, height: Val) -> (r: UIBuilder)
        ensures
            self.spec_queued_one(r, self.spec_update_cmd((NodePartial {
                height: Some(height),
                ..NodePartial::spec_empty()
            }))),
    {
        let p = NodePartial {
            height: Some(height),
            ..NodePartial::empty()
        };
        self.with(p)
    }

    /// Queue an update of the current entity's minimum width.
    pub fn with_min_width(self, min_width: Val) -> (r: UIBuilder)
        ensures
            self.spec_queued_one(r, self.spec_update_cmd((NodePartial {
                min_width: Some(min_width),
                ..NodePartial::spec_empty()
            }))),
    {
        let p = NodePartial {
            min_width: Some(min_width),
            ..NodePartial::empty()
        };
        self.with(p)
    }

    /// Queue an update of the current entity's minimum height.
    pub fn with_min_height(self, min_height: Val) -> (r: UIBuilder)
        ensures
            self.spec_queued_one(r, self.spec_update_cmd((NodePartial {
                min_height: Some(min_height),
                ..NodePartial::spec_empty()
            }))),
    {
        let p = NodePartial {
            min_height: Some(min_height),
            ..NodePartial::empty()
        };
        self.with(p)
    }

    /// Queue an update of the current entity's maximum width.
    pub fn with_max_width(self, max_width: Val) -> (r: UIBuilder)
        ensures
            self.spec_queued_one(r, self.spec_update_cmd((NodePartial {
                max_width: Some(max_width),
                ..NodePartial::spec_empty()
            }))),
    {
        let p = NodePartial {
            max_width: Some(max_width),
            ..NodePartial::empty()
        };
        self.with(p)
    }

    /// Queue an update of the current entity's maximum height.
    pub fn with_max_height(self, max_height: Val) -> (r: UIBuilder)
        ensures
            self.spec_queued_one(r, self.spec_update_cmd((NodePartial {
                max_height: Some(max_height),
                ..NodePartial::spec_empty()
            }))),
    {
        let p = NodePartial {
            max_height: Some(max_height),
            ..NodePartial::empty()
        };
        self.with(p)
    }

    /// Queue an update placing the current entity at the given position.
    pub fn at(self, left: Val, top: Val, position_type: PositionType) -> (r: UIBuilder)
        ensures
            self.spec_queued_one(r, self.spec_update_cmd((NodePartial {
                position_type: Some(position_type),
                left: Some(left),
                top: Some(top),
                ..NodePartial::spec_empty()
            }))),
    {
        let p = NodePartial {
            position_type: Some(position_type),
            left: Some(left),
            top: Some(top),
            ..NodePartial::empty()
        };
        self.with(p)
    }

    /// Queue an update of the current entity's width.
    pub fn width(self, width: Val) -> (r: UIBuilder)
        ensures
            self.spec_queued_one(r, self.spec_update_cmd((NodePartial {
                width: Some(width),
                ..NodePartial::spec_empty()
            }))),
    {
        let p = NodePartial {
            width: Some(width),
            ..NodePartial::empty()
        };
        self.with(p)
    }

    /// Queue an update of the current entity's height.
    pub fn height(self, height: Val) -> (r: UIBuilder)
        ensures
            self.spec_queued_one(r, self.spec_update_cmd((NodePartial {
                height: Some(height),
                ..NodePartial::spec_empty()
            }))),
    {
        let p = NodePartial {
            height: Some(height),
            ..NodePartial::empty()
        };
        self.with(p)
    }

    /// Queue an update of the current entity's flex direction.
    pub fn flex_direction(self, direction: FlexDirection) -> (r: UIBuilder)
        ensures
            self.spec_queued_one(r, self.spec_update_cmd((NodePartial {
                flex_direction: Some(direction),
                ..NodePartial::spec_empty()
            }))),
    {
        let p = NodePartial {
            flex_direction: Some(direction),
            ..NodePartial::empty()
        };
        self.with(p)
    }

    /// Queue an update of the current entity's content justification.
    pub fn justify_content(self, justify: JustifyContent) -> (r: UIBuilder)
        ensures
            self.spec_queued_one(r, self.spec_update_cmd((NodePartial {
                justify_content: Some(justify),
                ..NodePartial::spec_empty()
            }))),
    {
        let p = NodePartial {
            justify_content: Some(justify),
            ..NodePartial::empty()
        };
        self.with(p)
    }

    /// Queue an update of the current entity's item alignment.
    pub fn align_items(self, align: AlignItems) -> (r: UIBuilder)
        ensures
            self.spec_queued_one(r, self.spec_update_cmd((NodePartial {
                align_items: Some(align),
                ..NodePartial::spec_empty()
            }))),
    {
        let p = NodePartial {
            align_items: Some(align),
            ..NodePartial::empty()
        };
        self.with(p)
    }

    /// Queue an update of the current entity's padding.
    pub fn with_padding(self, padding: UiRect) -> (r: UIBuilder)
        ensures
            self.spec_queued_one(r, self.spec_update_cmd((NodePartial {
                padding: Some(padding),
                ..NodePartial::spec_empty()
            }))),
    {
        let p = NodePartial {
            padding: Some(padding),
            ..NodePartial::empty()
        };
        self.with(p)
    }

    /// Queue an update of the current entity's margin.
    pub fn with_margin(self, margin: UiRect) -> (r: UIBuilder)
        ensures
            self.spec_queued_one(r, self.spec_update_cmd((NodePartial {
                margin: Some(margin),
                ..NodePartial::spec_empty()
            }))),
    {
        let p = NodePartial {
            margin: Some(margin),
            ..NodePartial::empty()
        };
        self.with(p)
    }

    /// Queue an update making the current entity a flex row.
    pub fn as_flex_row(self) -> (r: UIBuilder)
        ensures
            self.spec_queued_one(r, self.spec_update_cmd((NodePartial {
                display: Some(Display::Flex),
                flex_direction: Some(FlexDirection::Row),
                ..NodePartial::spec_empty()
            }))),
    {
        let p = NodePartial {
            display: Some(Display::Flex),
            flex_direction: Some(FlexDirection::Row),
            ..NodePartial::empty()
        };
        self.with(p)
    }

    /// Queue an update making the current entity a start-aligned flex column of the given size.
    pub fn as_flex_col(self, width: Val, height: Val) -> (r: UIBuilder)
        ensures
            self.spec_queued_one(r, self.spec_update_cmd((NodePartial {
                display: Some(Display::Flex),
                flex_direction: Some(FlexDirection::Column),
                align_items: Some(AlignItems::FlexStart),
                align_content: Some(AlignContent::FlexStart),
                justify_content: Some(JustifyContent::FlexStart),
                width: Some(width),
                height: Some(height),
                ..NodePartial::spec_empty()
            }))),
    {
        let p = NodePartial {
            display: Some(Display::Flex),
            flex_direction: Some(FlexDirection::Column),
            align_items: Some(AlignItems::FlexStart),
            align_content: Some(AlignContent::FlexStart),
            justify_content: Some(JustifyContent::FlexStart),
            width: Some(width),
            height: Some(height),
            ..NodePartial::empty()
        };
        self.with(p)
    }

    /// Queue an update unsetting the current entity's aspect ratio.
    pub fn clear_aspect_ratio(self) -> (r: UIBuilder)
        ensures
            self.spec_queued_one(r, DeferredCommand::ClearAspectRatio(self.current_entity)),
    {
        let mut b = self;
        let cmd = DeferredCommand::ClearAspectRatio(b.current_entity);
        b.commands.commands.push(cmd);
        proof {
            assert(b.commands.commands@ =~= self.commands.commands@ + seq![
                DeferredCommand::ClearAspectRatio(self.current_entity),
            ]);
        }
        b
    }

    /// Queue an update making the current entity a block of the given size,
    /// and attach or replace its background color.  The sizing update
    /// applies only if the entity already has a layout component; the
    /// background color is attached either way.
    pub fn as_block(self, width: Val, height: Val, bg_color: Color) -> (r: UIBuilder)
        ensures
            self.spec_queued(
                r,
                seq![
                    self.spec_update_cmd(
                        (NodePartial {
                            width: Some(width),
                            height: Some(height),
                            display: Some(Display::Block),
                            ..NodePartial::spec_empty()
                        }),
                    ),
                    DeferredCommand::SetBackgroundColor(self.current_entity, bg_color),
                ],
            ),
    {
        let mut b = self;
        let p = NodePartial {
            width: Some(width),
            height: Some(height),
            display: Some(Display::Block),
            ..NodePartial::empty()
        };
        b.commands.commands.push(DeferredCommand::UpdateNode(b.current_entity, p));
        b.commands.commands.push(DeferredCommand::SetBackgroundColor(b.current_entity, bg_color));
        proof {
            assert(b.commands.commands@ =~= self.commands.commands@ + seq![
                self.spec_update_cmd(
                    NodePartial {
                        width: Some(width),
                        height: Some(height),
                        display: Some(Display::Block),
                        ..NodePartial::spec_empty()
                    },
                ),
                DeferredCommand::SetBackgroundColor(self.current_entity, bg_color),
            ]);
        }
        b
    }

    /// Queue the marker tag on the current entity unless it already
    /// carries it: an idempotent upsert that never overwrites.
    pub fn with_component(self, tag: TagId) -> (r: UIBuilder)
        ensures
            self.spec_queued_one(r, DeferredCommand::InsertTagIfAbsent(self.current_entity, tag)),
    {
        let mut b = self;
        let cmd = DeferredCommand::InsertTagIfAbsent(b.current_entity, tag);
        b.commands.commands.push(cmd);
        proof {
            assert(b.commands.commands@ =~= self.commands.commands@ + seq![
                DeferredCommand::InsertTagIfAbsent(self.current_entity, tag),
            ]);
        }
        b
    }

    /// `as_block` followed by the idempotent tag upsert.
    pub fn as_block_with(self, width: Val, height: Val, bg_color: Color, tag: TagId) -> (r:
        UIBuilder)
        ensures
            self.spec_queued(
                r,
                seq![
                    self.spec_update_cmd(
                        (NodePartial {
                            width: Some(width),
                            height: Some(height),
                            display: Some(Display::Block),
                            ..NodePartial::spec_empty()
                        }),
                    ),
                    DeferredCommand::SetBackgroundColor(self.current_entity, bg_color),
                    DeferredCommand::InsertTagIfAbsent(self.current_entity, tag),
                ],
            ),
    {
        let ghost s = self;
        let r = self.as_block(width, height, bg_color).with_component(tag);
        proof {
            assert(r.commands.commands@ =~= s.commands.commands@ + seq![
                s.spec_update_cmd(
                    NodePartial {
                        width: Some(width),
                        height: Some(height),
                        display: Some(Display::Block),
                        ..NodePartial::spec_empty()
                    },
                ),
                DeferredCommand::SetBackgroundColor(s.current_entity, bg_color),
                DeferredCommand::InsertTagIfAbsent(s.current_entity, tag),
            ]);
        }
        r
    }

    /// Queue an update of the current entity's width and height, as two
    /// conditional updates.
    pub fn with_size(self, width: Val, height: Val) -> (r: UIBuilder)
        ensures
            self.spec_queued(
                r,
                seq![
                    self.spec_update_cmd(
                        (NodePartial { width: Some(width), ..NodePartial::spec_empty() }),
                    ),
                    self.spec_update_cmd(
                        (NodePartial { height: Some(height), ..NodePartial::spec_empty() }),
                    ),
                ],
            ),
    {
        let ghost s = self;
        let r = self.width(width).height(height);
        proof {
            assert(r.commands.commands@ =~= s.commands.commands@ + seq![
                s.spec_update_cmd(NodePartial { width: Some(width), ..NodePartial::spec_empty() }),
                s.spec_update_cmd(
                    NodePartial { height: Some(height), ..NodePartial::spec_empty() },
                ),
            ]);
        }
        r
    }

    /// Queue an update of the current entity's border edges, and attach or
    /// replace its border color.
    pub fn with_border(self, border: UiRect, border_color: Color) -> (r: UIBuilder)
        ensures
            self.spec_queued(
                r,
                seq![
                    self.spec_update_cmd(
                        (NodePartial { border: Some(border), ..NodePartial::spec_empty() }),
                    ),
                    DeferredCommand::SetBorderColor(self.current_entity, border_color),
                ],
            ),
    {
        let mut b = self;
        let p = NodePartial { border: Some(border), ..NodePartial::empty() };
        b.commands.commands.push(DeferredCommand::UpdateNode(b.current_entity, p));
        b.commands.commands.push(DeferredCommand::SetBorderColor(b.current_entity, border_color));
        proof {
            assert(b.commands.commands@ =~= self.commands.commands@ + seq![
                self.spec_update_cmd(
                    (NodePartial { border: Some(border), ..NodePartial::spec_empty() }),
                ),
                DeferredCommand::SetBorderColor(self.current_entity, border_color),
            ]);
        }
        b
    }

    /// Attach or replace a drop shadow on the current entity: black at
    /// four-fifths opacity, offsets and spread in percent, blur in pixels.
    pub fn with_box_shadow(self, offset_x: i64, offset_y: i64, spread: i64, blur: i64) -> (r:
        UIBuilder)
        ensures
            self.spec_queued_one(
                r,
                DeferredCommand::SetBoxShadow(
                    self.current_entity,
                    (BoxShadow {
                        color: (Color { red: 0, green: 0, blue: 0, alpha: 204 }),
                        x_offset: Val::Percent(offset_x),
                        y_offset: Val::Percent(offset_y),
                        spread: Val::Percent(spread),
                        blur: Val::Px(blur),
                    }),
                ),
            ),
    {
        let mut b = self;
        let shadow = BoxShadow {
            color: Color { red: 0, green: 0, blue: 0, alpha: 204 },
            x_offset: Val::Percent(offset_x),
            y_offset: Val::Percent(offset_y),
            spread: Val::Percent(spread),
            blur: Val::Px(blur),
        };
        let cmd = DeferredCommand::SetBoxShadow(b.current_entity, shadow);
        b.commands.commands.push(cmd);
        proof {
            assert(b.commands.commands@ =~= self.commands.commands@ + seq![
                DeferredCommand::SetBoxShadow(self.current_entity, shadow),
            ]);
        }
        b
    }

    /// Attach or replace the complete layout component of the current
    /// entity.
    pub fn node(self, node: Node) -> (r: UIBuilder)
        ensures
            self.spec_queued_one(r, DeferredCommand::InsertNode(self.current_entity, node)),
    {
        let mut b = self;
        let cmd = DeferredCommand::InsertNode(b.current_entity, node);
        b.commands.commands.push(cmd);
        proof {
            assert(b.commands.commands@ =~= self.commands.commands@ + seq![
                DeferredCommand::InsertNode(self.current_entity, node),
            ]);
        }
        b
    }

    /// Attach or replace the current entity's background color.
    pub fn with_bg_color(self, color: Color) -> (r: UIBuilder)
        ensures
            self.spec_queued_one(r, DeferredCommand::SetBackgroundColor(self.current_entity, color)),
    {
        let mut b = self;
        let cmd = DeferredCommand::SetBackgroundColor(b.current_entity, color);
        b.commands.commands.push(cmd);
        proof {
            assert(b.commands.commands@ =~= self.commands.commands@ + seq![
                DeferredCommand::SetBackgroundColor(self.current_entity, color),
            ]);
        }
        b
    }

    /// Attach or replace the current entity's text, resolving a missing
    /// font, size or color from the shared theme defaults.
    pub fn with_text(
        self,
        text: String,
        font: Option<FontHandle>,
        font_size: Option<i64>,
        color: Option<Color>,
    ) -> (r: UIBuilder)
        ensures
            self.spec_queued_one(
                r,
                DeferredCommand::SetText(
                    self.current_entity,
                    (TextAttachment {
                        content: text,
                        font: or_else(font, self.defaults.base_font),
                        font_size: or_else(font_size, self.defaults.font_size),
                        color: or_else(color, self.defaults.text_color),
                    }),
                ),
            ),
    {
        let mut b = self;
        let attachment = TextAttachment {
            content: text,
            font: match font {
                Some(f) => f,
                None => b.defaults.base_font,
            },
            font_size: match font_size {
                Some(s) => s,
                None => b.defaults.font_size,
            },
            color: match color {
                Some(c) => c,
                None => b.defaults.text_color,
            },
        };
        let ghost att = attachment;
        let cmd = DeferredCommand::SetText(b.current_entity, attachment);
        b.commands.commands.push(cmd);
        proof {
            assert(b.commands.commands@ =~= self.commands.commands@ + seq![
                DeferredCommand::SetText(self.current_entity, att),
            ]);
        }
        b
    }

    /// `with_text` with the theme font, size and color.
    pub fn with_default_text(self, text: String) -> (r: UIBuilder)
        ensures
            self.spec_queued_one(
                r,
                DeferredCommand::SetText(
                    self.current_entity,
                    (TextAttachment {
                        content: text,
                        font: self.defaults.base_font,
                        font_size: self.defaults.font_size,
                        color: self.defaults.text_color,
                    }),
                ),
            ),
    {
        self.with_text(text, None, None, None)
    }

    /// Create a child entity carrying the given text and return to the
    /// current entity: a leaf added without moving the focus.
    pub fn add_text_child(
        self,
        text: String,
        font: Option<FontHandle>,
        font_size: Option<i64>,
        color: Option<Color>,
    ) -> (r: UIBuilder)
        requires
            self.commands.next_id < u64::MAX,
        ensures
            r.defaults == self.defaults,
            r.stack_mismatch == self.stack_mismatch,
            r.parent_stack@ == self.parent_stack@,
            r.current_entity == self.current_entity,
            r.commands.next_id == self.commands.next_id + 1,
            r.commands.commands@ == self.commands.commands@ + self.spec_child_cmds() + seq![
                DeferredCommand::SetText(
                    EntityId(self.commands.next_id),
                    (TextAttachment {
                        content: text,
                        font: or_else(font, self.defaults.base_font),
                        font_size: or_else(font_size, self.defaults.font_size),
                        color: or_else(color, self.defaults.text_color),
                    }),
                ),
            ],
    {
        let ghost s = self;
        let r = self.child().with_text(text, font, font_size, color).parent();
        proof {
            assert(r.parent_stack@ =~= s.parent_stack@);
            assert(r.commands.commands@ =~= s.commands.commands@ + s.spec_child_cmds() + seq![
                DeferredCommand::SetText(
                    EntityId(s.commands.next_id),
                    TextAttachment {
                        content: text,
                        font: or_else(font, s.defaults.base_font),
                        font_size: or_else(font_size, s.defaults.font_size),
                        color: or_else(color, s.defaults.text_color),
                    },
                ),
            ]);
        }
        r
    }

    /// `add_text_child` with the theme font, size and color.
    pub fn add_default_text_child(self, text: String) -> (r: UIBuilder)
        requires
            self.commands.next_id < u64::MAX,
        ensures
            r.defaults == self.defaults,
            r.stack_mismatch == self.stack_mismatch,
            r.parent_stack@ == self.parent_stack@,
            r.current_entity == self.current_entity,
            r.commands.next_id == self.commands.next_id + 1,
            r.commands.commands@ == self.commands.commands@ + self.spec_child_cmds() + seq![
                DeferredCommand::SetText(
                    EntityId(self.commands.next_id),
                    (TextAttachment {
                        content: text,
                        font: self.defaults.base_font,
                        font_size: self.defaults.font_size,
                        color: self.defaults.text_color,
                    }),
                ),
            ],
    {
        self.add_text_child(text, None, None, None)
    }

    /// Add a button child under the current entity and return to it.
    ///
    /// The button entity is created as a child, restyled with the control
    /// style resolved from the partial, marked as a control, tagged, and
    /// given a label child carrying the resolved text.
    pub fn with_button(self, button_partial: Option<ButtonPartial>, tag: TagId) -> (r: UIBuilder)
        requires
            self.commands.next_id < u64::MAX - 1,
        ensures
            r.defaults == self.defaults,
            r.stack_mismatch == self.stack_mismatch,
            r.parent_stack@ == self.parent_stack@,
            r.current_entity == self.current_entity,
            r.commands.next_id == self.commands.next_id + 2,
            ({
                let n = self.commands.commands@.len() as int;
                let btn = EntityId(self.commands.next_id);
                let label = EntityId((self.commands.next_id + 1) as u64);
                let bdef = resolved_button(self.defaults@, input_model(button_partial));
                let cs = r.commands.commands@;
                &&& cs.len() == n + 15
                &&& cs.take(n) == self.commands.commands@
                &&& cs.subrange(n, n + 6) == self.spec_child_cmds()
                &&& cs[n + 6] == DeferredCommand::InsertNode(
                    btn,
                    spec_btn_node(
                        self.defaults.node_def,
                        self.defaults.bg_color,
                        self.defaults.border_color,
                        bdef,
                    ),
                )
                &&& cs[n + 7] == DeferredCommand::InsertButton(btn)
                &&& cs[n + 8] == DeferredCommand::SetBackgroundColor(btn, bdef.bg_color)
                &&& cs[n + 9] == DeferredCommand::SetBorderColor(btn, bdef.border_color)
                &&& cs[n + 10] == DeferredCommand::SetBorderRadius(btn, bdef.border_radius)
                &&& cs[n + 11] == DeferredCommand::InsertTagIfAbsent(btn, tag)
                &&& cs[n + 12] == DeferredCommand::Spawn(label)
                &&& cs[n + 13] matches DeferredCommand::SetText(l, ta) && l == label
                    && ta.content@ == bdef.text && ta.font == bdef.font && ta.font_size
                    == bdef.font_size && ta.color == bdef.text_color
                &&& cs[n + 14] == (DeferredCommand::AttachChild { parent: btn, child: label })
            }),
    {
        let ghost s = self;
        let mut b = self.child();
        let btn = b.current_entity;
        let btn_def = b.defaults.get_btn_def(button_partial);
        let node_partial = NodePartial {
            width: Some(btn_def.width),
            height: Some(btn_def.height),
            border: Some(btn_def.border),
            justify_content: Some(btn_def.justify_content),
            align_items: Some(btn_def.align_items),
            ..NodePartial::empty()
        };
        let btn_node = b.defaults.get_node_def(Some(node_partial)).get_node();
        b.commands.commands.push(DeferredCommand::InsertNode(btn, btn_node));
        b.commands.commands.push(DeferredCommand::InsertButton(btn));
        b.commands.commands.push(DeferredCommand::SetBackgroundColor(btn, btn_def.bg_color));
        b.commands.commands.push(DeferredCommand::SetBorderColor(btn, btn_def.border_color));
        b.commands.commands.push(DeferredCommand::SetBorderRadius(btn, btn_def.border_radius));
        b.commands.commands.push(DeferredCommand::InsertTagIfAbsent(btn, tag));
        let label = EntityId(b.commands.next_id);
        b.commands.next_id = b.commands.next_id + 1;
        b.commands.commands.push(DeferredCommand::Spawn(label));
        let attachment = TextAttachment {
            content: btn_def.text,
            font: btn_def.font,
            font_size: btn_def.font_size,
            color: btn_def.text_color,
        };
        b.commands.commands.push(DeferredCommand::SetText(label, attachment));
        b.commands.commands.push(DeferredCommand::AttachChild { parent: btn, child: label });
        let r = b.parent();
        proof {
            let n = s.commands.commands@.len() as int;
            assert(r.parent_stack@ =~= s.parent_stack@);
            assert(r.commands.commands@.take(n) =~= s.commands.commands@);
            assert(r.commands.commands@.subrange(n, n + 6) =~= s.spec_child_cmds());
        }
        r
    }

    /// Run a caller-supplied construction callback in a scope and restore
    /// the focus afterwards.
    ///
    /// The entity that is current at entry is pushed onto the ancestor
    /// stack; the callback receives the session and returns it together
    /// with its outcome.  Whatever the callback did and however it ended —
    /// normally or with an abort it reports as `Err` — the scope is closed:
    /// one entry is popped, the focus is restored to the entry entity, and
    /// the callback's outcome is handed back unchanged, never swallowed.
    /// If the popped entry is not the entity that was pushed, the ancestor
    /// stack was left unbalanced inside the block; the session records the
    /// non-fatal `stack_mismatch` diagnostic and continues.
    ///
    /// The callback must accept any session state, as the contract can
    /// promise it nothing about the one it receives.
    pub fn with_children<E, F: FnOnce(UIBuilder) -> (UIBuilder, Result<(), E>)>(self, f: F) -> (r:
        (UIBuilder, Result<(), E>))
        requires
            forall|b: UIBuilder| call_requires(f, (b,)),
        ensures
            r.0.current_entity == self.current_entity,
            exists|scoped: UIBuilder, out: (UIBuilder, Result<(), E>)|
                {
                    &&& scoped.defaults == self.defaults
                    &&& scoped.commands == self.commands
                    &&& scoped.current_entity == self.current_entity
                    &&& scoped.stack_mismatch == self.stack_mismatch
                    &&& scoped.parent_stack@ == self.parent_stack@.push(self.current_entity)
                    &&& #[trigger] call_ensures(f, (scoped,), out)
                    &&& r.1 == out.1
                    &&& r.0.defaults == out.0.defaults
                    &&& r.0.commands == out.0.commands
                    &&& out.0.parent_stack@.len() > 0 ==> r.0.parent_stack@
                        == out.0.parent_stack@.drop_last()
                    &&& out.0.parent_stack@.len() == 0 ==> r.0.parent_stack@
                        == out.0.parent_stack@
                    &&& r.0.stack_mismatch == (out.0.stack_mismatch || !(
                    out.0.parent_stack@.len() > 0 && out.0.parent_stack@.last()
                        == self.current_entity))
                },
    {
        let entry = self.current_entity;
        let mut b = self;
        b.parent_stack.push(entry);
        let (mut inner, outcome) = f(b);
        let popped = inner.parent_stack.pop();
        let balanced = match &popped {
            Some(p) => p.0 == entry.0,
            None => false,
        };
        inner.current_entity = entry;
        if !balanced {
            inner.stack_mismatch = true;
        }
        (inner, outcome)
    }

    /// Finalize the session: the root entity and the command queue.  With
    /// open ancestors the root is the oldest entry of the stack — the
    /// outermost entity still open — not the current focus; with a
    /// balanced stack it is the current entity.
    pub fn build(self) -> (r: (EntityId, CommandQueue))
        ensures
            r.0 == spec_root(self.parent_stack@, self.current_entity),
            r.1 == self.commands,
    {
        if self.parent_stack.len() > 0 {
            let root = self.parent_stack[0];
            (root, self.commands)
        } else {
            (self.current_entity, self.commands)
        }
    }
}

/// The root a session reports: the bottom of the ancestor stack when any
/// ancestor is still open, else the current focus.
pub open spec fn spec_root(stack: Seq<EntityId>, cur: EntityId) -> EntityId {
    if stack.len() > 0 {
        stack[0]
    } else {
        cur
    }
}

/// One navigation step over the abstract state the builder's `child` and
/// `parent` contracts describe: a pair of the ancestor stack and the
/// current focus.  Descending pushes the focus and moves to the new
/// entity; ascending pops, and on an empty stack does nothing.
pub enum NavOp {
    Down(EntityId),
    Up,
}

pub open spec fn nav_step(stack: Seq<EntityId>, cur: EntityId, op: NavOp) -> (Seq<EntityId>, EntityId) {
    match op {
        NavOp::Down(e) => (stack.push(cur), e),
        NavOp::Up => if stack.len() > 0 {
            (stack.drop_last(), stack.last())
        } else {
            (stack, cur)
        },
    }
}

pub open spec fn nav_run(stack: Seq<EntityId>, cur: EntityId, ops: Seq<NavOp>) -> (
    Seq<EntityId>,
    EntityId,
)
    decreases ops.len(),
{
    if ops.len() == 0 {
        (stack, cur)
    } else {
        let st = nav_step(stack, cur, ops[0]);
        nav_run(st.0, st.1, ops.drop_first())
    }
}

/// A descent for each listed entity, in order.
pub open spec fn downs(es: Seq<EntityId>) -> Seq<NavOp> {
    es.map_values(|e: EntityId| NavOp::Down(e))
}

/// `n` ascents.
pub open spec fn ups(n: nat) -> Seq<NavOp>
    decreases n,
{
    if n == 0 {
        Seq::<NavOp>::empty()
    } else {
        ups((n - 1) as nat).push(NavOp::Up)
    }
}

/// Running a concatenation runs the two halves in turn.
pub proof fn lemma_nav_run_append(stack: Seq<EntityId>, cur: EntityId, a: Seq<NavOp>, b: Seq<NavOp>)
    ensures
        nav_run(stack, cur, a + b) == ({
            let m = nav_run(stack, cur, a);
            nav_run(m.0, m.1, b)
        }),
    decreases a.len(),
{
    if a.len() == 0 {
        assert(a + b =~= b);
    } else {
        let st = nav_step(stack, cur, a[0]);
        assert((a + b)[0] == a[0]);
        assert((a + b).drop_first() =~= a.drop_first() + b);
        lemma_nav_run_append(st.0, st.1, a.drop_first(), b);
    }
}

/// Root selection under imbalance: descents that are never matched by
/// ascents leave the entity that was current before the first descent at
/// the bottom of the stack, and that entity — the outermost one — is the
/// root a session then reports, not the innermost focus.
pub proof fn lemma_root_under_imbalance(stack: Seq<EntityId>, cur: EntityId, es: Seq<EntityId>)
    requires
        es.len() > 0,
    ensures
        nav_run(stack, cur, downs(es)).0 == stack.push(cur) + es.drop_last(),
        nav_run(stack, cur, downs(es)).1 == es.last(),
        stack.len() == 0 ==> ({
            let m = nav_run(stack, cur, downs(es));
            spec_root(m.0, m.1) == cur
        }),
    decreases es.len(),
{
    let rest = es.drop_first();
    assert(downs(es)[0] == NavOp::Down(es[0]));
    assert(downs(es).drop_first() =~= downs(rest));
    if es.len() == 1 {
        assert(nav_run(stack.push(cur), es[0], downs(rest)) == (stack.push(cur), es[0]));
        assert(stack.push(cur) + es.drop_last() =~= stack.push(cur));
    } else {
        lemma_root_under_imbalance(stack.push(cur), es[0], rest);
        assert(stack.push(cur).push(es[0]) + rest.drop_last() =~= stack.push(cur) + es.drop_last());
        assert(rest.last() == es.last());
    }
    if stack.len() == 0 {
        assert((stack.push(cur) + es.drop_last())[0] == cur);
    }
}

/// `n` ascents pop the top `n` entries; the focus ends at the last entry
/// popped — the one `n` below the old top.
pub proof fn lemma_nav_run_ups(stack: Seq<EntityId>, cur: EntityId, n: nat)
    requires
        n <= stack.len(),
    ensures
        nav_run(stack, cur, ups(n)).0 == stack.take(stack.len() - n),
        n > 0 ==> nav_run(stack, cur, ups(n)).1 == stack[stack.len() - n],
        n == 0 ==> nav_run(stack, cur, ups(n)).1 == cur,
    decreases n,
{
    if n == 0 {
        assert(stack.take(stack.len() - 0) =~= stack);
    } else {
        let m = (n - 1) as nat;
        assert(ups(n) =~= ups(m) + seq![NavOp::Up]);
        lemma_nav_run_append(stack, cur, ups(m), seq![NavOp::Up]);
        lemma_nav_run_ups(stack, cur, m);
        let mid = nav_run(stack, cur, ups(m));
        assert(mid.0 == stack.take(stack.len() - m));
        assert(mid.0.len() == stack.len() - m);
        let fin = nav_step(mid.0, mid.1, NavOp::Up);
        assert(seq![NavOp::Up][0] == NavOp::Up);
        assert(seq![NavOp::Up].drop_first() =~= Seq::<NavOp>::empty());
        assert(nav_run(fin.0, fin.1, seq![NavOp::Up].drop_first()) == (fin.0, fin.1));
        assert(nav_run(mid.0, mid.1, seq![NavOp::Up]) == (fin.0, fin.1));
        assert(nav_run(stack, cur, ups(n)) == (fin.0, fin.1));
        assert(fin.0 == mid.0.drop_last());
        assert(fin.1 == mid.0.last());
        assert(mid.0.drop_last() =~= stack.take(stack.len() - n));
        assert(mid.0.last() == stack[stack.len() - n]);
    }
}

/// Stack balance: any number of nested descents followed by as many
/// ascents returns the ancestor stack and the focus to exactly their
/// starting state, whatever entities the descents visited.  A session
/// that finalizes right after such a balanced sequence therefore reports
/// the entity that was current before it as root.
pub proof fn lemma_stack_balance(stack: Seq<EntityId>, cur: EntityId, es: Seq<EntityId>)
    ensures
        nav_run(stack, cur, downs(es) + ups(es.len())) == (stack, cur),
        ({
            let m = nav_run(stack, cur, downs(es) + ups(es.len()));
            spec_root(m.0, m.1) == spec_root(stack, cur)
        }),
{
    let n = es.len();
    lemma_nav_run_append(stack, cur, downs(es), ups(n));
    if n == 0 {
        assert(downs(es) =~= Seq::<NavOp>::empty());
        assert(ups(0) =~= Seq::<NavOp>::empty());
        assert(downs(es) + ups(0) =~= Seq::<NavOp>::empty());
    } else {
        lemma_root_under_imbalance(stack, cur, es);
        let mid_stack = stack.push(cur) + es.drop_last();
        assert(mid_stack.len() == stack.len() + n);
        lemma_nav_run_ups(mid_stack, es.last(), n);
        assert(mid_stack.take(stack.len() as int) =~= stack);
        assert(mid_stack[stack.len() as int] == cur);
    }
}

} // verus!
