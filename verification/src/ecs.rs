//! The entity-component store, from the `hecs` crate.
//!
//! The store is opaque to the rest of the library: the library never
//! reads a component other than the node reference it injects itself.
//! What the contracts need of the store is carried by two named
//! views: the node reference held by a builder in progress, and the
//! node reference each spawned entity carries.

use vstd::prelude::*;
use crate::node::NodeRef;

verus! {

#[verifier::external_type_specification]
#[verifier::external_body]
pub struct ExWorld(hecs::World);

#[verifier::external_type_specification]
#[verifier::external_body]
pub struct ExEntity(hecs::Entity);

#[verifier::external_type_specification]
#[verifier::external_body]
pub struct ExEntityBuilder(hecs::EntityBuilder);

/// An opaque identifier for an entity, issued by the store on spawn.
pub type EntityRef = hecs::Entity;

/// The node references a world holds: for every live entity that
/// carries a `NodeRef` component, the entity's identifier bits are
/// mapped to the index of that component. The store keeps at most one
/// component per type on an entity, so one key maps to one index.
pub uninterp spec fn world_nodes(w: hecs::World) -> Map<u64, u32>;

/// The `NodeRef` component accumulated in an entity builder, if any,
/// as its index.
pub uninterp spec fn builder_node(b: hecs::EntityBuilder) -> Option<u32>;

/// The identifier bits of an entity, as `hecs::Entity::to_bits`
/// reports them: a function of the entity alone, distinct for
/// distinct live entities.
pub uninterp spec fn entity_id(e: hecs::Entity) -> u64;

/// The number of live entities a world holds, as `hecs::World::len`
/// reports it.
pub uninterp spec fn world_entity_count(w: hecs::World) -> u64;

/// Relies on `hecs::World::len`: the number of live entities, a
/// 32-bit count.
#[verifier::external_body]
pub(crate) fn world_len(w: &hecs::World) -> (n: u32)
    ensures
        n as u64 == world_entity_count(*w),
{
    w.len()
}

/// The node-reference view of a store with no entities at all.
pub open spec fn no_entity_nodes() -> Map<u64, u32> {
    Map::empty()
}

/// Relies on `hecs::World::new`: a new world is empty, so no entity
/// in it carries a node reference.
#[verifier::external_body]
pub(crate) fn world_new() -> (world: hecs::World)
    ensures
        world_nodes(world) == no_entity_nodes(),
        world_entity_count(world) == 0,
{
    hecs::World::new()
}

/// Relies on `hecs::EntityBuilder::new`: a new builder represents an
/// entity with no components.
#[verifier::external_body]
pub(crate) fn builder_new() -> (builder: hecs::EntityBuilder)
    ensures
        builder_node(builder) is None,
{
    hecs::EntityBuilder::new()
}

/// Relies on `hecs::EntityBuilder::add`, at an arbitrary component
/// type chosen by the caller. Nothing is promised of the builder's
/// node reference afterwards: the added component may itself be one.
#[verifier::external_body]
pub(crate) fn builder_add<T: Send + Sync + 'static>(b: &mut hecs::EntityBuilder, component: T) {
    b.add(component);
}

/// Relies on `hecs::EntityBuilder::add` at the `NodeRef` component
/// type: adding a component replaces any earlier component of the
/// same type, so afterwards the builder holds exactly this reference.
#[verifier::external_body]
pub(crate) fn builder_add_node(b: &mut hecs::EntityBuilder, node: NodeRef)
    ensures
        builder_node(*final(b)) == Some(node.index_spec()),
{
    b.add(node);
}

/// Relies on `hecs::EntityBuilder::build` and `hecs::World::spawn`:
/// spawning stores the built bundle atomically on a fresh entity, so
/// the new entity carries exactly the components the builder held —
/// in particular its node reference, if any — and no live entity is
/// touched. Building drains the builder for reuse. The entity
/// allocator panics once the 32-bit identifier space is exhausted
/// ("too many entities"), so a world that holds that many live
/// entities is not admitted.
#[verifier::external_body]
pub(crate) fn world_spawn_built(w: &mut hecs::World, b: &mut hecs::EntityBuilder) -> (e:
    hecs::Entity)
    requires
        world_entity_count(*old(w)) < u32::MAX,
    ensures
        world_entity_count(*final(w)) == world_entity_count(*old(w)) + 1,
        !world_nodes(*old(w)).contains_key(entity_id(e)),
        world_nodes(*final(w)) == (match builder_node(*old(b)) {
            Some(index) => world_nodes(*old(w)).insert(entity_id(e), index),
            None => world_nodes(*old(w)),
        }),
        builder_node(*final(b)) is None,
{
    w.spawn(b.build())
}

/// Relies on `hecs::World::get` at the shared `NodeRef` component
/// type: it returns the component exactly when the entity is live and
/// carries one.
#[verifier::external_body]
pub(crate) fn world_get_node(w: &hecs::World, e: hecs::Entity) -> (r: Option<NodeRef>)
    ensures
        (r matches Some(node) ==> world_nodes(*w).contains_key(entity_id(e))
            && node.index_spec() == world_nodes(*w)[entity_id(e)]),
        r is None ==> !world_nodes(*w).contains_key(entity_id(e)),
{
    match w.get::<&NodeRef>(e) {
        Ok(node) => Some(*node),
        Err(_) => None,
    }
}

} // verus!
