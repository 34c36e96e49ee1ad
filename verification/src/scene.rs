//! The scene: the owning aggregate of the node store, the entity
//! store and the background color, and the builder that commits new
//! graph content to it.

use vstd::prelude::*;
use crate::color::Color;
use crate::ecs::{
    builder_add, builder_add_node, builder_new, builder_node, entity_id, world_entity_count,
    world_get_node, world_len, world_new, world_nodes, world_spawn_built, EntityRef,
};
use crate::node::{Node, NodeRef};
use crate::transform::{identity_transform, Vec3};

verus! {

/// A scene owns an append-only store of transform nodes (insertion
/// order is index order), the entity store, and the background color
/// a renderer clears the screen with.
pub struct Scene {
    world: hecs::World,
    nodes: Vec<Node>,
    pub background: Color,
}

impl Scene {
    /// The background color, as the contracts see it.
    pub closed spec fn background_spec(self) -> Color {
        self.background
    }

    /// The stored nodes, in index order.
    pub closed spec fn nodes_view(self) -> Seq<Node> {
        self.nodes@
    }

    /// The node reference each spawned entity carries, keyed by the
    /// entity's identifier bits.
    pub closed spec fn entity_nodes_view(self) -> Map<u64, u32> {
        world_nodes(self.world)
    }

    /// The number of live entities in the entity store.
    pub closed spec fn entity_count_view(self) -> u64 {
        world_entity_count(self.world)
    }

    /// Whether a reference points at a stored node.
    pub open spec fn resolves(self, node_ref: NodeRef) -> bool {
        node_ref.index_spec() < self.nodes_view().len()
    }

    /// The stored node a reference points at.
    pub open spec fn node_spec(self, node_ref: NodeRef) -> Node {
        self.nodes_view()[node_ref.index_spec() as int]
    }

    /// Commits a candidate node. A node whose transform is the
    /// identity is never materialized: the candidate's parent
    /// reference is returned unchanged and the store is untouched.
    /// Any other node is appended, and its new index is returned.
    /// Nodes are only ever created here, and never removed.
    pub fn add_node(&mut self, node: Node) -> (r: NodeRef)
        requires
            old(self).nodes_view().len() < u32::MAX,
        ensures
            final(self).background_spec() == old(self).background_spec(),
            final(self).entity_nodes_view() == old(self).entity_nodes_view(),
            final(self).entity_count_view() == old(self).entity_count_view(),
            node.local == identity_transform() ==> r == node.parent && final(self).nodes_view()
                == old(self).nodes_view(),
            node.local != identity_transform() ==> final(self).nodes_view() == old(self).nodes_view().push(node) && r.index_spec() == old(self).nodes_view().len(),
    {
        if node.local.is_identity() {
            node.parent
        } else {
            let index = self.nodes.len();
            self.nodes.push(node);
            NodeRef::from_index(index as u32)
        }
    }

    /// The number of stored nodes.
    pub fn node_count(&self) -> (n: usize)
        ensures
            n == self.nodes_view().len(),
    {
        self.nodes.len()
    }

    /// The number of live entities in the entity store. A typed
    /// `build` asks for this count to be below the 32-bit limit.
    pub fn entity_count(&self) -> (n: u32)
        ensures
            n as u64 == self.entity_count_view(),
    {
        world_len(&self.world)
    }

    /// The stored node a reference points at, or `None` for a
    /// reference that no commit has returned yet (the root among
    /// them, while the store is empty).
    pub fn node(&self, node_ref: NodeRef) -> (n: Option<&Node>)
        ensures
            self.resolves(node_ref) ==> (n matches Some(stored) && *stored == self.node_spec(
                node_ref,
            )),
            !self.resolves(node_ref) ==> n is None,
    {
        let index = node_ref.to_index() as usize;
        if index < self.nodes.len() {
            Some(&self.nodes[index])
        } else {
            None
        }
    }

    /// The node reference a spawned entity carries, read back from
    /// the entity store.
    pub fn entity_node(&self, entity: EntityRef) -> (r: Option<NodeRef>)
        ensures
            (r matches Some(node_ref) ==> self.entity_nodes_view().contains_key(entity_id(entity))
                && node_ref.index_spec() == self.entity_nodes_view()[entity_id(entity)]),
            r is None ==> !self.entity_nodes_view().contains_key(entity_id(entity)),
    {
        world_get_node(&self.world, entity)
    }

    /// Starts building a typed object: a node plus a bundle of
    /// components that `build` spawns as one entity. The builder
    /// borrows the scene exclusively until its `build` call.
    pub fn entity(&mut self) -> (b: ObjectBuilder<'_, hecs::EntityBuilder>)
        ensures
            *b.scene == *old(self),
            *final(self) == *final(b.scene),
            b.node.parent.index_spec() == 0,
            b.node.local == identity_transform(),
            builder_node(b.kind) is None,
    {
        ObjectBuilder { scene: self, node: Node::default(), kind: builder_new() }
    }

    /// Starts building a pure transform node, with no components.
    /// The builder borrows the scene exclusively until its `build`
    /// call.
    pub fn node_builder(&mut self) -> (b: ObjectBuilder<'_, ()>)
        ensures
            *b.scene == *old(self),
            *final(self) == *final(b.scene),
            b.node.parent.index_spec() == 0,
            b.node.local == identity_transform(),
    {
        ObjectBuilder { scene: self, node: Node::default(), kind: () }
    }
}

impl Default for Scene {
    /// A fresh scene holds no nodes, no entities, and an opaque black
    /// background.
    fn default() -> (s: Scene)
        ensures
            s.nodes_view() == Seq::<Node>::empty(),
            s.entity_nodes_view() == Map::<u64, u32>::empty(),
            s.entity_count_view() == 0,
            s.background_spec().0 == 0xFF00_0000u32,
    {
        Scene { world: world_new(), nodes: Vec::new(), background: Color::black_opaque() }
    }
}

/// A staged, single-use builder of scene content: it holds an
/// exclusive borrow of its scene and accumulates a work-in-progress
/// node and, in its typed variant, a bundle of components, before
/// committing both to the scene at its terminal `build` call.
pub struct ObjectBuilder<'a, T> {
    pub scene: &'a mut Scene,
    pub node: Node,
    pub kind: T,
}

impl<'a, T> ObjectBuilder<'a, T> {
    /// Overwrites the position of the work-in-progress node and
    /// returns the builder for further chaining.
    pub fn position(self, position: Vec3) -> (r: Self)
        ensures
            *r.scene == *old(self.scene),
            *final(self.scene) == *final(r.scene),
            r.node.parent == self.node.parent,
            r.node.local.position == position,
            r.node.local.scale == self.node.local.scale,
            r.node.local.orientation == self.node.local.orientation,
            r.kind == self.kind,
    {
        let mut building = self;
        building.node.local.position = position;
        building
    }
}

impl<'a> ObjectBuilder<'a, ()> {
    /// Commits the accumulated node to the scene and returns its
    /// reference, subject to the identity-dedup rule of `add_node`.
    pub fn build(self) -> (r: NodeRef)
        requires
            old(self.scene).nodes_view().len() < u32::MAX,
        ensures
            final(self.scene).background_spec() == old(self.scene).background_spec(),
            final(self.scene).entity_nodes_view() == old(self.scene).entity_nodes_view(),
            final(self.scene).entity_count_view() == old(self.scene).entity_count_view(),
            self.node.local == identity_transform() ==> r == self.node.parent && final(self.scene).nodes_view() == old(self.scene).nodes_view(),
            self.node.local != identity_transform() ==> final(self.scene).nodes_view() == old(self.scene).nodes_view().push(self.node) && r.index_spec() == old(self.scene).nodes_view().len(),
    {
        self.scene.add_node(self.node)
    }
}

impl<'a> ObjectBuilder<'a, hecs::EntityBuilder> {
    /// Adds one typed component value to the accumulating bundle; a
    /// component of a type already present replaces the earlier one.
    pub fn component<C: Send + Sync + 'static>(self, component: C) -> (r: Self)
        ensures
            *r.scene == *old(self.scene),
            *final(self.scene) == *final(r.scene),
            r.node == self.node,
    {
        let mut building = self;
        builder_add(&mut building.kind, component);
        building
    }

    /// Commits the accumulated node (subject to the identity-dedup
    /// rule), injects the resulting node reference into the bundle as
    /// one extra component, and spawns the bundle as a fresh entity.
    /// The spawned entity always carries exactly one node reference:
    /// the committed one.
    pub fn build(self) -> (e: EntityRef)
        requires
            old(self.scene).nodes_view().len() < u32::MAX,
            old(self.scene).entity_count_view() < u32::MAX,
        ensures
            final(self.scene).background_spec() == old(self.scene).background_spec(),
            final(self.scene).entity_count_view() == old(self.scene).entity_count_view() + 1,
            !old(self.scene).entity_nodes_view().contains_key(entity_id(e)),
            self.node.local == identity_transform() ==> final(self.scene).nodes_view() == old(self.scene).nodes_view() && final(self.scene).entity_nodes_view() == old(self.scene).entity_nodes_view().insert(entity_id(e), self.node.parent.index_spec()),
            self.node.local != identity_transform() ==> final(self.scene).nodes_view() == old(self.scene).nodes_view().push(self.node) && final(self.scene).entity_nodes_view() == old(self.scene).entity_nodes_view().insert(entity_id(e), old(self.scene).nodes_view().len() as u32),
    {
        let mut building = self;
        let node_ref = building.scene.add_node(building.node);
        builder_add_node(&mut building.kind, node_ref);
        world_spawn_built(&mut building.scene.world, &mut building.kind)
    }
}

/// Law: a commit of a non-identity transform grows the node store by
/// exactly one, and every reference that resolved before still
/// resolves to the same stored node afterwards.
pub proof fn lemma_append_only(pre: Scene, post: Scene, node: Node, earlier: NodeRef)
    requires
        node.local != identity_transform(),
        post.nodes_view() == pre.nodes_view().push(node),
        pre.resolves(earlier),
    ensures
        post.nodes_view().len() == pre.nodes_view().len() + 1,
        post.resolves(earlier),
        post.node_spec(earlier) == pre.node_spec(earlier),
{
}

/// What the node store holds after committing each candidate of
/// `pending` in order: exactly what repeated `add_node` calls leave,
/// one commit per candidate, under the identity-dedup rule.
pub open spec fn commit_all(nodes: Seq<Node>, pending: Seq<Node>) -> Seq<Node>
    decreases pending.len(),
{
    if pending.len() == 0 {
        nodes
    } else {
        let next = if pending[0].local == identity_transform() {
            nodes
        } else {
            nodes.push(pending[0])
        };
        commit_all(next, pending.skip(1))
    }
}

/// Law: however many commits follow, a node already stored stays at
/// its index unchanged, so previously returned references remain
/// valid.
pub proof fn lemma_commit_all_preserves_nodes(nodes: Seq<Node>, pending: Seq<Node>, i: int)
    requires
        0 <= i < nodes.len(),
    ensures
        commit_all(nodes, pending).len() >= nodes.len(),
        commit_all(nodes, pending)[i] == nodes[i],
    decreases pending.len(),
{
    if pending.len() != 0 {
        let next = if pending[0].local == identity_transform() {
            nodes
        } else {
            nodes.push(pending[0])
        };
        lemma_commit_all_preserves_nodes(next, pending.skip(1), i);
    }
}

/// Law: a sequence of non-identity commits grows the node store by
/// exactly one node per commit.
pub proof fn lemma_commit_all_grows_per_commit(nodes: Seq<Node>, pending: Seq<Node>)
    requires
        forall|j: int| 0 <= j < pending.len() ==> pending[j].local != identity_transform(),
    ensures
        commit_all(nodes, pending).len() == nodes.len() + pending.len(),
    decreases pending.len(),
{
    if pending.len() != 0 {
        assert(forall|j: int|
            0 <= j < pending.skip(1).len() ==> pending.skip(1)[j] == pending[j + 1]);
        lemma_commit_all_grows_per_commit(nodes.push(pending[0]), pending.skip(1));
    }
}

/// Law: a spawned entity is fresh. If one typed build records its
/// entity in the store and a second build follows, the second entity
/// differs from the first.
pub proof fn lemma_entities_distinct(
    first: Map<u64, u32>,
    second: Map<u64, u32>,
    id1: u64,
    index1: u32,
    id2: u64,
)
    requires
        !first.contains_key(id1),
        second == first.insert(id1, index1),
        !second.contains_key(id2),
    ensures
        id1 != id2,
{
    assert(second.contains_key(id1));
}

/// Law: after a typed build records its entity, the store maps that
/// entity to exactly the committed node index, and every other
/// entity's record is unchanged.
pub proof fn lemma_entity_carries_node(
    before: Map<u64, u32>,
    after: Map<u64, u32>,
    id: u64,
    index: u32,
)
    requires
        after == before.insert(id, index),
    ensures
        after.contains_key(id),
        after[id] == index,
        forall|other: u64| other != id && before.contains_key(other) ==> after.contains_key(other)
            && after[other] == before[other],
{
}

} // verus!
