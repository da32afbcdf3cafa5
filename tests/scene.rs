use argus::scene::{Component, Entity, Scene};
use argus::skybox::SkyBox;
use argus::transform::Transform;

type Vec3 = [f32; 3];

fn transform(position: Vec3, scale: Vec3) -> Transform<Vec3> {
    Transform::new(position, [0.0, 0.0, 0.0], scale)
}

fn empty_scene() -> Scene<&'static str, Vec3> {
    Scene::new(SkyBox::new(1, 2, 3))
}

#[test]
fn transform_new_keeps_its_vectors() {
    let t = Transform::new([1.0, 2.0, 3.0], [4.0, 5.0, 6.0], [0.5, 0.5, 0.5]);
    assert_eq!(t.position, [1.0, 2.0, 3.0]);
    assert_eq!(t.rotation, [4.0, 5.0, 6.0]);
    assert_eq!(t.scale, [0.5, 0.5, 0.5]);
}

#[test]
fn new_scene_is_empty_and_keeps_its_skybox() {
    let scene = empty_scene();
    assert!(scene.entities.is_empty());
    assert_eq!(scene.skybox.vao(), 1);
    assert_eq!(scene.skybox.vbo(), 2);
    assert_eq!(scene.skybox.texture(), 3);
    assert!(scene.render().is_empty());
}

#[test]
fn entity_without_model_renders_no_draw_call() {
    let mut scene = empty_scene();
    scene.entities.push(Entity::new(None, transform([0.0, 0.0, 0.0], [1.0, 1.0, 1.0])));
    assert_eq!(scene.render(), Vec::<usize>::new());
}

#[test]
fn two_entities_draw_each_with_its_own_transform() {
    let mut scene = empty_scene();
    scene.entities.push(Entity::new(Some("suit"), transform([0.0, -1.75, 0.0], [0.2, 0.2, 0.2])));
    scene.entities.push(Entity::new(Some("crate"), transform([2.0, 0.0, -1.0], [1.0, 2.0, 1.0])));
    let order = scene.render();
    assert_eq!(order, vec![0, 1]);
    let first = &scene.entities[order[0]];
    assert_eq!(first.model, Some("suit"));
    assert_eq!(first.transform.position, [0.0, -1.75, 0.0]);
    assert_eq!(first.transform.scale, [0.2, 0.2, 0.2]);
    let second = &scene.entities[order[1]];
    assert_eq!(second.model, Some("crate"));
    assert_eq!(second.transform.position, [2.0, 0.0, -1.0]);
    assert_eq!(second.transform.scale, [1.0, 2.0, 1.0]);
}

#[test]
fn render_skips_entities_without_model_and_keeps_insertion_order() {
    let mut scene = empty_scene();
    scene.entities.push(Entity::new(Some("a"), transform([0.0; 3], [1.0; 3])));
    scene.entities.push(Entity::new(None, transform([1.0; 3], [1.0; 3])));
    scene.entities.push(Entity::new(Some("c"), transform([2.0; 3], [1.0; 3])));
    scene.entities.push(Entity::new(None, transform([3.0; 3], [1.0; 3])));
    scene.entities.push(Entity::new(Some("e"), transform([4.0; 3], [1.0; 3])));
    assert_eq!(scene.render(), vec![0, 2, 4]);
}

#[test]
fn update_leaves_entities_as_they_were() {
    let mut scene = empty_scene();
    scene.entities.push(Entity::new(Some("a"), transform([0.0, 1.0, 2.0], [1.0; 3])));
    let mut with_component = Entity::new(None, transform([5.0; 3], [2.0; 3]));
    with_component
        .components
        .push(Component::new(Entity::new(Some("inner"), transform([0.0; 3], [1.0; 3]))));
    scene.entities.push(with_component);
    scene.update();
    assert_eq!(scene.entities.len(), 2);
    assert_eq!(scene.entities[0].model, Some("a"));
    assert_eq!(scene.entities[0].transform.position, [0.0, 1.0, 2.0]);
    assert_eq!(scene.entities[1].model, None);
    assert_eq!(scene.entities[1].components.len(), 1);
    assert_eq!(scene.entities[1].components[0].entity.model, Some("inner"));
    assert_eq!(scene.skybox.texture(), 3);
    assert_eq!(scene.render(), vec![0]);
}

#[test]
fn new_entity_has_no_components() {
    let e: Entity<&str, Vec3> = Entity::new(Some("m"), transform([1.0; 3], [3.0; 3]));
    assert!(e.components.is_empty());
    assert_eq!(e.model, Some("m"));
    assert_eq!(e.transform.scale, [3.0; 3]);
}

#[test]
fn component_start_and_update_keep_it() {
    let mut c = Component::new(Entity::<&str, Vec3>::new(Some("m"), transform([7.0; 3], [1.0; 3])));
    c.start();
    c.update();
    assert_eq!(c.entity.model, Some("m"));
    assert_eq!(c.entity.transform.position, [7.0; 3]);
}
