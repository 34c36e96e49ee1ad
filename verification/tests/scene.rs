use lumen::{Color, Node, NodeRef, Quat, Scene, Transform, Vec3};

fn non_identity_transform(tag: u32) -> Transform {
    Transform {
        position: Vec3::new((1.0f32 + tag as f32).to_bits(), 2.0f32.to_bits(), 3.0f32.to_bits()),
        scale: 1.0f32.to_bits(),
        orientation: Quat::identity(),
    }
}

#[test]
fn scene_default_is_empty_with_opaque_black_background() {
    let scene = Scene::default();
    assert_eq!(scene.node_count(), 0);
    assert_eq!(scene.background, Color::black_opaque());
    assert_eq!(scene.background.0, 0xFF00_0000);
}

#[test]
fn transform_default_is_explicit_identity() {
    let explicit = Transform {
        position: Vec3::new(0.0f32.to_bits(), 0.0f32.to_bits(), 0.0f32.to_bits()),
        scale: 1.0f32.to_bits(),
        orientation: Quat::identity(),
    };
    assert_eq!(Transform::default(), explicit);
    assert!(Transform::default().is_identity());
    assert!(!non_identity_transform(0).is_identity());
}

#[test]
fn identity_commit_returns_parent_unchanged() {
    let mut scene = Scene::default();
    let parent = scene.add_node(Node { parent: NodeRef::root(), local: non_identity_transform(0) });
    let before = scene.node_count();
    let reused = scene.add_node(Node { parent, local: Transform::default() });
    assert_eq!(reused, parent);
    assert_eq!(scene.node_count(), before);
}

#[test]
fn non_identity_commits_grow_store_one_by_one() {
    let mut scene = Scene::default();
    let first = scene.add_node(Node { parent: NodeRef::root(), local: non_identity_transform(0) });
    assert_eq!(scene.node_count(), 1);
    let first_stored = *scene.node(first).unwrap();
    let second = scene.add_node(Node { parent: first, local: non_identity_transform(1) });
    assert_eq!(scene.node_count(), 2);
    assert_ne!(first, second);
    // the earlier reference still resolves to the same node
    assert_eq!(*scene.node(first).unwrap(), first_stored);
    assert_eq!(scene.node(second).unwrap().parent, first);
}

#[test]
fn untyped_builder_round_trip_stores_position() {
    let mut scene = Scene::default();
    let position = Vec3::new(1.0f32.to_bits(), 2.0f32.to_bits(), 3.0f32.to_bits());
    let built = scene.node_builder().position(position).build();
    let stored = *scene.node(built).unwrap();
    assert_eq!(stored.local.position, position);
    assert_eq!(stored.local.scale, 1.0f32.to_bits());
    assert_eq!(scene.node_count(), 1);
}

#[test]
fn untyped_builder_with_identity_transform_allocates_nothing() {
    let mut scene = Scene::default();
    let built = scene.node_builder().build();
    assert_eq!(built, NodeRef::root());
    assert_eq!(scene.node_count(), 0);
}

#[test]
fn typed_build_entity_carries_committed_node_reference() {
    let mut scene = Scene::default();
    let position = Vec3::new(4.0f32.to_bits(), 5.0f32.to_bits(), 6.0f32.to_bits());
    let entity = scene
        .entity()
        .position(position)
        .component(Color::opaque_red())
        .build();
    assert_eq!(scene.node_count(), 1);
    let carried = scene.entity_node(entity).expect("entity must carry a node reference");
    let stored = *scene.node(carried).unwrap();
    assert_eq!(stored.local.position, position);
}

#[test]
fn typed_build_without_transform_still_carries_node_reference() {
    let mut scene = Scene::default();
    let entity = scene.entity().component(7u32).build();
    assert_eq!(scene.node_count(), 0);
    let carried = scene.entity_node(entity).expect("entity must carry a node reference");
    assert_eq!(carried, NodeRef::root());
}

#[test]
fn typed_builds_return_distinct_entities() {
    let mut scene = Scene::default();
    let first = scene.entity().component(1u8).build();
    let second = scene.entity().component(2u8).build();
    assert_ne!(first, second);
    assert_ne!(scene.entity_node(first), None);
    assert_ne!(scene.entity_node(second), None);
}

#[test]
fn entity_count_grows_one_per_typed_build() {
    let mut scene = Scene::default();
    assert_eq!(scene.entity_count(), 0);
    let _first = scene.entity().component(1u8).build();
    assert_eq!(scene.entity_count(), 1);
    let _second = scene.entity().build();
    assert_eq!(scene.entity_count(), 2);
    // untyped builds never touch the entity store
    let _node = scene.node_builder().position(Vec3::new(1, 2, 3)).build();
    assert_eq!(scene.entity_count(), 2);
}

#[test]
fn background_is_freely_mutable() {
    let mut scene = Scene::default();
    scene.background = Color::new(10, 20, 30, 40);
    assert_eq!(scene.background.red(), 10);
    assert_eq!(scene.background.alpha(), 40);
}
