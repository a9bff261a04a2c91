//! A model of the entity store, and the semantics of deferred commands.
//!
//! The real store lives outside the builder; this module gives the
//! deferred commands their meaning by applying them to a store value.  The
//! store is a sequence of entity records indexed by entity identifier; a
//! command naming an entity that does not exist, or updating a component
//! that is not there, does nothing — mirroring the deferred, best-effort
//! character of the queue.

use vstd::prelude::*;
use crate::command::{DeferredCommand, EntityId, TagId, TextAttachment};
use crate::node::{spec_merge_node, merge_node, Node, NodePartial};
use crate::style::{BorderRadius, BoxShadow, Color};

verus! {

/// One entity's components.
#[derive(Clone, PartialEq, Eq, Debug)]
pub struct EntityRecord {
    pub node: Option<Node>,
    pub background: Option<Color>,
    pub border_color: Option<Color>,
    pub border_radius: Option<BorderRadius>,
    pub box_shadow: Option<BoxShadow>,
    pub text: Option<TextAttachment>,
    pub button: bool,
    pub tags: Vec<TagId>,
    pub children: Vec<EntityId>,
}

/// Mathematical model of one entity's components.
#[verifier::ext_equal]
pub struct RecordModel {
    pub node: Option<Node>,
    pub background: Option<Color>,
    pub border_color: Option<Color>,
    pub border_radius: Option<BorderRadius>,
    pub box_shadow: Option<BoxShadow>,
    pub text: Option<TextAttachment>,
    pub button: bool,
    pub tags: Seq<TagId>,
    pub children: Seq<EntityId>,
}

impl View for EntityRecord {
    type V = RecordModel;

    open spec fn view(&self) -> RecordModel {
        RecordModel {
            node: self.node,
            background: self.background,
            border_color: self.border_color,
            border_radius: self.border_radius,
            box_shadow: self.box_shadow,
            text: self.text,
            button: self.button,
            tags: self.tags@,
            children: self.children@,
        }
    }
}

impl RecordModel {
    /// A freshly spawned entity: no components at all.
    pub open spec fn empty() -> RecordModel {
        RecordModel {
            node: None,
            background: None,
            border_color: None,
            border_radius: None,
            box_shadow: None,
            text: None,
            button: false,
            tags: Seq::<TagId>::empty(),
            children: Seq::<EntityId>::empty(),
        }
    }
}

impl EntityRecord {
    /// A freshly spawned entity: no components at all.
    pub fn empty() -> (r: EntityRecord)
        ensures
            r@ == RecordModel::empty(),
    {
        let r = EntityRecord {
            node: None,
            background: None,
            border_color: None,
            border_radius: None,
            box_shadow: None,
            text: None,
            button: false,
            tags: Vec::new(),
            children: Vec::new(),
        };
        proof {
            assert(r@ =~= RecordModel::empty());
        }
        r
    }
}

/// The store's model: one record per entity, indexed by identifier.
pub type StoreModel = Seq<RecordModel>;

/// Whether the store holds an entity with this identifier.
pub open spec fn spec_has(s: StoreModel, e: EntityId) -> bool {
    e.0 < s.len()
}

/// Creation: the command carries the identifier the queue's allocator
/// handed out, so it creates the entity only when that identifier is the
/// next unused one; a queue replayed against the wrong store does nothing.
pub open spec fn spec_spawn(s: StoreModel, e: EntityId) -> StoreModel {
    if e.0 == s.len() {
        s.push(RecordModel::empty())
    } else {
        s
    }
}

pub open spec fn spec_insert_node(s: StoreModel, e: EntityId, n: Node) -> StoreModel {
    if spec_has(s, e) {
        s.update(e.0 as int, RecordModel { node: Some(n), ..s[e.0 as int] })
    } else {
        s
    }
}

/// The conditional style update: only an entity that already has a layout
/// component is touched, and only the fields present in the partial are
/// applied — the layout fields merged into the layout component, and a
/// present background color, border color or corner radius set on the
/// matching component.
pub open spec fn spec_update_node(s: StoreModel, e: EntityId, p: NodePartial) -> StoreModel {
    if spec_has(s, e) && s[e.0 as int].node is Some {
        let r = s[e.0 as int];
        s.update(
            e.0 as int,
            RecordModel {
                node: Some(spec_merge_node(r.node->0, p)),
                background: if p.bg_color is Some {
                    Some(p.bg_color->0)
                } else {
                    r.background
                },
                border_color: if p.border_color is Some {
                    Some(p.border_color->0)
                } else {
                    r.border_color
                },
                border_radius: if p.border_radius is Some {
                    Some(p.border_radius->0)
                } else {
                    r.border_radius
                },
                ..r
            },
        )
    } else {
        s
    }
}

pub open spec fn spec_clear_aspect_ratio(s: StoreModel, e: EntityId) -> StoreModel {
    if spec_has(s, e) && s[e.0 as int].node is Some {
        s.update(
            e.0 as int,
            RecordModel {
                node: Some(Node { aspect_ratio: None, ..s[e.0 as int].node->0 }),
                ..s[e.0 as int]
            },
        )
    } else {
        s
    }
}

pub open spec fn spec_set_background(s: StoreModel, e: EntityId, c: Color) -> StoreModel {
    if spec_has(s, e) {
        s.update(e.0 as int, RecordModel { background: Some(c), ..s[e.0 as int] })
    } else {
        s
    }
}

pub open spec fn spec_set_border_color(s: StoreModel, e: EntityId, c: Color) -> StoreModel {
    if spec_has(s, e) {
        s.update(e.0 as int, RecordModel { border_color: Some(c), ..s[e.0 as int] })
    } else {
        s
    }
}

pub open spec fn spec_set_border_radius(s: StoreModel, e: EntityId, b: BorderRadius) -> StoreModel {
    if spec_has(s, e) {
        s.update(e.0 as int, RecordModel { border_radius: Some(b), ..s[e.0 as int] })
    } else {
        s
    }
}

pub open spec fn spec_set_box_shadow(s: StoreModel, e: EntityId, b: BoxShadow) -> StoreModel {
    if spec_has(s, e) {
        s.update(e.0 as int, RecordModel { box_shadow: Some(b), ..s[e.0 as int] })
    } else {
        s
    }
}

pub open spec fn spec_set_text(s: StoreModel, e: EntityId, t: TextAttachment) -> StoreModel {
    if spec_has(s, e) {
        s.update(e.0 as int, RecordModel { text: Some(t), ..s[e.0 as int] })
    } else {
        s
    }
}

pub open spec fn spec_insert_button(s: StoreModel, e: EntityId) -> StoreModel {
    if spec_has(s, e) {
        s.update(e.0 as int, RecordModel { button: true, ..s[e.0 as int] })
    } else {
        s
    }
}

/// The idempotent upsert: the tag is added only when absent; a present
/// tag is never overwritten and never duplicated.
pub open spec fn spec_insert_tag_if_absent(s: StoreModel, e: EntityId, t: TagId) -> StoreModel {
    if spec_has(s, e) && !s[e.0 as int].tags.contains(t) {
        s.update(e.0 as int, RecordModel { tags: s[e.0 as int].tags.push(t), ..s[e.0 as int] })
    } else {
        s
    }
}

pub open spec fn spec_attach_child(s: StoreModel, parent: EntityId, child: EntityId) -> StoreModel {
    if spec_has(s, parent) && spec_has(s, child) {
        s.update(
            parent.0 as int,
            RecordModel {
                children: s[parent.0 as int].children.push(child),
                ..s[parent.0 as int]
            },
        )
    } else {
        s
    }
}

/// Detach every child of the entity.  What becomes of the detached
/// subtrees is the real store's concern; the model only forgets them.
pub open spec fn spec_clear_children(s: StoreModel, e: EntityId) -> StoreModel {
    if spec_has(s, e) {
        s.update(
            e.0 as int,
            RecordModel { children: Seq::<EntityId>::empty(), ..s[e.0 as int] },
        )
    } else {
        s
    }
}

/// The meaning of one deferred command.
pub open spec fn spec_apply_cmd(s: StoreModel, cmd: DeferredCommand) -> StoreModel {
    match cmd {
        DeferredCommand::Spawn(e) => spec_spawn(s, e),
        DeferredCommand::InsertNode(e, n) => spec_insert_node(s, e, n),
        DeferredCommand::UpdateNode(e, p) => spec_update_node(s, e, p),
        DeferredCommand::ClearAspectRatio(e) => spec_clear_aspect_ratio(s, e),
        DeferredCommand::SetBackgroundColor(e, c) => spec_set_background(s, e, c),
        DeferredCommand::SetBorderColor(e, c) => spec_set_border_color(s, e, c),
        DeferredCommand::SetBorderRadius(e, b) => spec_set_border_radius(s, e, b),
        DeferredCommand::SetBoxShadow(e, b) => spec_set_box_shadow(s, e, b),
        DeferredCommand::SetText(e, t) => spec_set_text(s, e, t),
        DeferredCommand::InsertButton(e) => spec_insert_button(s, e),
        DeferredCommand::InsertTagIfAbsent(e, t) => spec_insert_tag_if_absent(s, e, t),
        DeferredCommand::AttachChild { parent, child } => spec_attach_child(s, parent, child),
        DeferredCommand::ClearChildren(e) => spec_clear_children(s, e),
    }
}

/// The meaning of a whole queue, applied front to back.
pub open spec fn spec_apply_all(s: StoreModel, cmds: Seq<DeferredCommand>) -> StoreModel
    decreases cmds.len(),
{
    if cmds.len() == 0 {
        s
    } else {
        spec_apply_all(spec_apply_cmd(s, cmds[0]), cmds.drop_first())
    }
}

/// The store model: a growable set of entities addressed by dense
/// identifiers.
#[derive(Clone, PartialEq, Eq, Debug)]
pub struct EntityStore {
    pub entities: Vec<EntityRecord>,
}

impl View for EntityStore {
    type V = StoreModel;

    open spec fn view(&self) -> StoreModel {
        self.entities@.map_values(|r: EntityRecord| r@)
    }
}

impl EntityStore {
    pub fn new() -> (r: EntityStore)
        ensures
            r@ == Seq::<RecordModel>::empty(),
    {
        let r = EntityStore { entities: Vec::new() };
        proof {
            assert(r@ =~= Seq::<RecordModel>::empty());
        }
        r
    }

    /// Create an empty entity and return its identifier: the index at
    /// which its record now stands.
    pub fn create_entity(&mut self) -> (e: EntityId)
        requires
            old(self)@.len() < u64::MAX,
        ensures
            e.0 == old(self)@.len(),
            final(self)@ == old(self)@.push(RecordModel::empty()),
    {
        let e = EntityId(self.entities.len() as u64);
        self.entities.push(EntityRecord::empty());
        proof {
            assert(final(self)@ =~= old(self)@.push(RecordModel::empty()));
        }
        e
    }

    /// Whether the tag is already present.
    fn tags_contain(tags: &Vec<TagId>, t: TagId) -> (b: bool)
        ensures
            b == tags@.contains(t),
    {
        let mut j: usize = 0;
        while j < tags.len()
            invariant
                j <= tags@.len(),
                forall|k: int| 0 <= k < j ==> tags@[k] != t,
            decreases tags@.len() - j,
        {
            if tags[j].0 == t.0 {
                proof {
                    assert(tags@[j as int] == t);
                }
                return true;
            }
            j += 1;
        }
        false
    }

    fn do_insert_node(&mut self, e: EntityId, n: Node)
        ensures
            final(self)@ == spec_insert_node(old(self)@, e, n),
    {
        if e.0 < self.entities.len() as u64 {
            let i = e.0 as usize;
            let rec = &mut self.entities[i];
            rec.node = Some(n);
            proof {
                assert(self@ =~= spec_insert_node(old(self)@, e, n));
            }
        }
    }

    fn do_set_background(&mut self, e: EntityId, c: Color)
        ensures
            final(self)@ == spec_set_background(old(self)@, e, c),
    {
        if e.0 < self.entities.len() as u64 {
            let i = e.0 as usize;
            let rec = &mut self.entities[i];
            rec.background = Some(c);
            proof {
                assert(self@ =~= spec_set_background(old(self)@, e, c));
            }
        }
    }

    fn do_set_border_color(&mut self, e: EntityId, c: Color)
        ensures
            final(self)@ == spec_set_border_color(old(self)@, e, c),
    {
        if e.0 < self.entities.len() as u64 {
            let i = e.0 as usize;
            let rec = &mut self.entities[i];
            rec.border_color = Some(c);
            proof {
                assert(self@ =~= spec_set_border_color(old(self)@, e, c));
            }
        }
    }

    fn do_set_border_radius(&mut self, e: EntityId, b: BorderRadius)
        ensures
            final(self)@ == spec_set_border_radius(old(self)@, e, b),
    {
        if e.0 < self.entities.len() as u64 {
            let i = e.0 as usize;
            let rec = &mut self.entities[i];
            rec.border_radius = Some(b);
            proof {
                assert(self@ =~= spec_set_border_radius(old(self)@, e, b));
            }
        }
    }

    fn do_set_box_shadow(&mut self, e: EntityId, b: BoxShadow)
        ensures
            final(self)@ == spec_set_box_shadow(old(self)@, e, b),
    {
        if e.0 < self.entities.len() as u64 {
            let i = e.0 as usize;
            let rec = &mut self.entities[i];
            rec.box_shadow = Some(b);
            proof {
                assert(self@ =~= spec_set_box_shadow(old(self)@, e, b));
            }
        }
    }

    fn do_set_text(&mut self, e: EntityId, t: TextAttachment)
        ensures
            final(self)@ == spec_set_text(old(self)@, e, t),
    {
        if e.0 < self.entities.len() as u64 {
            let i = e.0 as usize;
            let rec = &mut self.entities[i];
            rec.text = Some(t);
            proof {
                assert(self@ =~= spec_set_text(old(self)@, e, t));
            }
        }
    }

    fn do_insert_button(&mut self, e: EntityId)
        ensures
            final(self)@ == spec_insert_button(old(self)@, e),
    {
        if e.0 < self.entities.len() as u64 {
            let i = e.0 as usize;
            let rec = &mut self.entities[i];
            rec.button = true;
            proof {
                assert(self@ =~= spec_insert_button(old(self)@, e));
            }
        }
    }

    fn do_clear_children(&mut self, e: EntityId)
        ensures
            final(self)@ == spec_clear_children(old(self)@, e),
    {
        if e.0 < self.entities.len() as u64 {
            let i = e.0 as usize;
            let rec = &mut self.entities[i];
            rec.children = Vec::new();
            proof {
                assert(self@ =~= spec_clear_children(old(self)@, e));
            }
        }
    }

    fn do_spawn(&mut self, e: EntityId)
        ensures
            final(self)@ == spec_spawn(old(self)@, e),
    {
        if e.0 == self.entities.len() as u64 {
            self.entities.push(EntityRecord::empty());
            proof {
                assert(self@ =~= spec_spawn(old(self)@, e));
            }
        }
    }

    #[verifier::rlimit(50)]
    fn do_update_node(&mut self, e: EntityId, p: NodePartial)
        ensures
            final(self)@ == spec_update_node(old(self)@, e, p),
    {
        if e.0 < self.entities.len() as u64 {
            let i = e.0 as usize;
            let rec = &mut self.entities[i];
            match rec.node {
                Some(n) => {
                    rec.node = Some(merge_node(n, p));
                    if let Some(c) = p.bg_color {
                        rec.background = Some(c);
                    }
                    if let Some(c) = p.border_color {
                        rec.border_color = Some(c);
                    }
                    if let Some(r) = p.border_radius {
                        rec.border_radius = Some(r);
                    }
                },
                None => {},
            }
            proof {
                assert(self@ =~= spec_update_node(old(self)@, e, p));
            }
        }
    }

    #[verifier::rlimit(50)]
    fn do_clear_aspect_ratio(&mut self, e: EntityId)
        ensures
            final(self)@ == spec_clear_aspect_ratio(old(self)@, e),
    {
        if e.0 < self.entities.len() as u64 {
            let i = e.0 as usize;
            let rec = &mut self.entities[i];
            match rec.node {
                Some(n) => {
                    rec.node = Some(Node { aspect_ratio: None, ..n });
                },
                None => {},
            }
            proof {
                assert(self@ =~= spec_clear_aspect_ratio(old(self)@, e));
            }
        }
    }

    fn do_insert_tag_if_absent(&mut self, e: EntityId, t: TagId)
        ensures
            final(self)@ == spec_insert_tag_if_absent(old(self)@, e, t),
    {
        if e.0 < self.entities.len() as u64 {
            let i = e.0 as usize;
            let present = Self::tags_contain(&self.entities[i].tags, t);
            if !present {
                let rec = &mut self.entities[i];
                rec.tags.push(t);
            }
            proof {
                assert(self@ =~= spec_insert_tag_if_absent(old(self)@, e, t));
            }
        }
    }

    fn do_attach_child(&mut self, parent: EntityId, child: EntityId)
        ensures
            final(self)@ == spec_attach_child(old(self)@, parent, child),
    {
        if parent.0 < self.entities.len() as u64 && child.0 < self.entities.len() as u64 {
            let i = parent.0 as usize;
            let rec = &mut self.entities[i];
            rec.children.push(child);
            proof {
                assert(self@ =~= spec_attach_child(old(self)@, parent, child));
            }
        }
    }

    /// Apply one deferred command.
    pub fn apply(&mut self, cmd: &DeferredCommand)
        ensures
            final(self)@ == spec_apply_cmd(old(self)@, *cmd),
    {
        match cmd {
            DeferredCommand::Spawn(e) => self.do_spawn(*e),
            DeferredCommand::InsertNode(e, n) => self.do_insert_node(*e, *n),
            DeferredCommand::UpdateNode(e, p) => self.do_update_node(*e, *p),
            DeferredCommand::ClearAspectRatio(e) => self.do_clear_aspect_ratio(*e),
            DeferredCommand::SetBackgroundColor(e, c) => self.do_set_background(*e, *c),
            DeferredCommand::SetBorderColor(e, c) => self.do_set_border_color(*e, *c),
            DeferredCommand::SetBorderRadius(e, b) => self.do_set_border_radius(*e, *b),
            DeferredCommand::SetBoxShadow(e, b) => self.do_set_box_shadow(*e, *b),
            DeferredCommand::SetText(e, t) => self.do_set_text(*e, t.duplicate()),
            DeferredCommand::InsertButton(e) => self.do_insert_button(*e),
            DeferredCommand::InsertTagIfAbsent(e, t) => self.do_insert_tag_if_absent(*e, *t),
            DeferredCommand::AttachChild { parent, child } => self.do_attach_child(*parent, *child),
            DeferredCommand::ClearChildren(e) => self.do_clear_children(*e),
        }
    }

    /// Apply a whole queue of commands, front to back.
    pub fn apply_all(&mut self, cmds: &Vec<DeferredCommand>)
        ensures
            final(self)@ == spec_apply_all(old(self)@, cmds@),
    {
        let mut i: usize = 0;
        proof {
            assert(cmds@.skip(0) =~= cmds@);
        }
        while i < cmds.len()
            invariant
                i <= cmds@.len(),
                spec_apply_all(old(self)@, cmds@) == spec_apply_all(self@, cmds@.skip(i as int)),
            decreases cmds@.len() - i,
        {
            proof {
                assert(cmds@.skip(i as int)[0] == cmds@[i as int]);
                assert(cmds@.skip(i as int).drop_first() =~= cmds@.skip(i as int + 1));
            }
            self.apply(&cmds[i]);
            i += 1;
        }
        proof {
            assert(cmds@.skip(i as int) =~= Seq::<DeferredCommand>::empty());
        }
    }
}

/// Idempotent upsert: inserting the same tag twice leaves exactly what
/// one insertion leaves; the entity then carries the tag, and carries it
/// once — a tag list without duplicates stays without duplicates.
pub proof fn lemma_insert_tag_idempotent(s: StoreModel, e: EntityId, t: TagId)
    ensures
        spec_insert_tag_if_absent(spec_insert_tag_if_absent(s, e, t), e, t)
            == spec_insert_tag_if_absent(s, e, t),
        spec_has(s, e) ==> spec_insert_tag_if_absent(s, e, t)[e.0 as int].tags.contains(t),
        spec_has(s, e) && s[e.0 as int].tags.no_duplicates()
            ==> spec_insert_tag_if_absent(s, e, t)[e.0 as int].tags.no_duplicates(),
{
    let s1 = spec_insert_tag_if_absent(s, e, t);
    if spec_has(s, e) {
        let i = e.0 as int;
        if !s[i].tags.contains(t) {
            assert(s1[i].tags == s[i].tags.push(t));
            assert(s1[i].tags[s[i].tags.len() as int] == t);
            assert(s1[i].tags.contains(t));
            assert(spec_insert_tag_if_absent(s1, e, t) == s1);
            if s[i].tags.no_duplicates() {
                let old_len = s[i].tags.len() as int;
                assert forall|a: int, b: int|
                    0 <= a < s1[i].tags.len() && 0 <= b < s1[i].tags.len() && a
                        != b implies s1[i].tags[a] != s1[i].tags[b] by {
                    if a < old_len && b < old_len {
                        assert(s1[i].tags[a] == s[i].tags[a]);
                        assert(s1[i].tags[b] == s[i].tags[b]);
                    } else if a == old_len {
                        assert(s1[i].tags[b] == s[i].tags[b]);
                        assert(!s[i].tags.contains(t));
                    } else {
                        assert(s1[i].tags[a] == s[i].tags[a]);
                        assert(!s[i].tags.contains(t));
                    }
                }
            }
        } else {
            assert(s1 == s);
        }
    }
}

/// A conditional style update against an entity that has no layout
/// component changes nothing at all.
pub proof fn lemma_update_without_style(s: StoreModel, e: EntityId, p: NodePartial)
    requires
        spec_has(s, e) ==> s[e.0 as int].node is None,
    ensures
        spec_update_node(s, e, p) == s,
{
}

} // verus!
