//! Deferred commands against the entity store.
//!
//! The builder never mutates the store directly: every fluent call appends
//! commands to a queue the caller owns, and the store applies them at a
//! single flush point after the session ends.  The queue also hands out
//! fresh entity identifiers, so a command can name an entity that does not
//! exist yet.

use vstd::prelude::*;
use crate::style::{BorderRadius, BoxShadow, Color, FontHandle};
use crate::node::{Node, NodePartial};

verus! {

/// Opaque handle to one node in the entity store.
#[derive(Clone, Copy, PartialEq, Eq, Structural, Debug, Hash)]
pub struct EntityId(pub u64);

/// Type-erased marker tag standing for one component kind.
#[derive(Clone, Copy, PartialEq, Eq, Structural, Debug, Hash)]
pub struct TagId(pub u64);

/// The text content, font, size and color attached to one entity.
#[derive(Clone, PartialEq, Eq, Debug)]
pub struct TextAttachment {
    pub content: String,
    pub font: FontHandle,
    pub font_size: i64,
    pub color: Color,
}

impl TextAttachment {
    /// A copy equal to this value; `clone` carries no contract, this
    /// does.
    pub fn duplicate(&self) -> (r: TextAttachment)
        ensures
            r == *self,
    {
        TextAttachment {
            content: self.content.clone(),
            font: self.font,
            font_size: self.font_size,
            color: self.color,
        }
    }
}

/// One queued operation against the entity store.
#[derive(Clone, PartialEq, Eq, Debug)]
pub enum DeferredCommand {
    /// Create the entity with this identifier, empty.
    Spawn(EntityId),
    /// Attach or replace the layout component.
    InsertNode(EntityId, Node),
    /// Apply the fields present in the partial, only if the entity
    /// already has a layout component; otherwise do nothing.  The layout
    /// fields merge into the layout component; a present background
    /// color, border color or corner radius sets the matching component.
    UpdateNode(EntityId, NodePartial),
    /// Unset the aspect ratio of the layout component, if the entity has
    /// one.
    ClearAspectRatio(EntityId),
    /// Attach or replace the background color.
    SetBackgroundColor(EntityId, Color),
    /// Attach or replace the border color.
    SetBorderColor(EntityId, Color),
    /// Attach or replace the corner radius.
    SetBorderRadius(EntityId, BorderRadius),
    /// Attach or replace the drop shadow.
    SetBoxShadow(EntityId, BoxShadow),
    /// Attach or replace the text content.
    SetText(EntityId, TextAttachment),
    /// Mark the entity as a clickable control.
    InsertButton(EntityId),
    /// Attach the marker tag only if the entity does not already carry it.
    InsertTagIfAbsent(EntityId, TagId),
    /// Record the child as a child of the parent.
    AttachChild { parent: EntityId, child: EntityId },
    /// Detach all children of the entity.
    ClearChildren(EntityId),
}

/// The deferred command queue: an append-only list of commands plus the
/// allocator for fresh entity identifiers.
#[derive(Clone, PartialEq, Eq, Debug)]
pub struct CommandQueue {
    pub commands: Vec<DeferredCommand>,
    pub next_id: u64,
}

impl CommandQueue {
    /// An empty queue whose first fresh identifier is `first_id`.  When the
    /// store already holds entities, `first_id` must lie above every
    /// identifier in use.
    pub fn starting_at(first_id: u64) -> (r: CommandQueue)
        ensures
            r.commands@ == Seq::<DeferredCommand>::empty(),
            r.next_id == first_id,
    {
        CommandQueue { commands: Vec::new(), next_id: first_id }
    }
}

} // verus!
