use std::cell::Cell;

use camera_test::error::EngineError;
use camera_test::scene::{CameraTestScene, SceneStack, SpriteRenderer};
use camera_test::task::{apply_step, merge_values, run, Leaf, Loaded, Merge, Source, Step, Task};
use camera_test::world::{Camera, ComponentKind, Entity, Point3, TextureDict, World};

fn camera_at(x: i64) -> Camera {
    Camera::new(Point3 { x, y: 0, z: 5 }, Point3 { x, y: 0, z: 0 })
}

fn no_source(_: &Source, _: Loaded, _: &World) -> Result<Loaded, EngineError> {
    panic!("no leaf asks the outside in this test")
}

fn malformed(what: &str) -> EngineError {
    EngineError::DeserializationError(what.to_string())
}

#[test]
fn builders_make_the_tree_they_name() {
    let task = Task::leaf(Source::DefaultRenderer).map(Step::BuildScene);
    assert_eq!(
        task,
        Task::Mapped(Box::new(Task::Leaf(Leaf::Load(Source::DefaultRenderer))), Step::BuildScene)
    );
    let task = Task::ready(Loaded::Unit).join(Task::failed(malformed("b")), Merge::Pair);
    assert_eq!(
        task,
        Task::Joined(
            Box::new(Task::Leaf(Leaf::Ready(Loaded::Unit))),
            Box::new(Task::Leaf(Leaf::Failed(malformed("b")))),
            Merge::Pair
        )
    );
    let task = Task::ready(Loaded::Unit).sequence(Task::ready(Loaded::Camera(camera_at(1))));
    assert_eq!(
        task,
        Task::Sequenced(
            Box::new(Task::Leaf(Leaf::Ready(Loaded::Unit))),
            Box::new(Task::Leaf(Leaf::Ready(Loaded::Camera(camera_at(1)))))
        )
    );
    let task = Task::ready(Loaded::Unit).serialize(Task::leaf(Source::DefaultRenderer));
    assert_eq!(
        task,
        Task::Serialized(
            Box::new(Task::Leaf(Leaf::Ready(Loaded::Unit))),
            Box::new(Task::Leaf(Leaf::Load(Source::DefaultRenderer)))
        )
    );
}

#[test]
fn a_task_does_nothing_until_it_is_run() {
    let calls = Cell::new(0);
    let source = |_: &Source, _: Loaded, _: &World| {
        calls.set(calls.get() + 1);
        Ok(Loaded::Camera(camera_at(0)))
    };
    let task = Task::leaf(Source::Camera("c.json".to_string())).map(Step::InsertCamera);
    assert_eq!(calls.get(), 0);
    let mut world = World::new();
    assert_eq!(run(task, Loaded::Unit, &mut world, &source), Ok(Loaded::Unit));
    assert_eq!(calls.get(), 1);
    assert_eq!(world.camera, Some(camera_at(0)));
}

#[test]
fn leaf_hands_the_source_the_input_and_the_world() {
    let mut world = World::new();
    world.insert_camera(camera_at(4));
    let source = |what: &Source, input: Loaded, seen: &World| {
        assert_eq!(what, &Source::TextureDict("t.json".to_string()));
        assert_eq!(input, Loaded::Renderer(SpriteRenderer { render_state: 2 }));
        assert_eq!(seen.camera, Some(camera_at(4)));
        Ok(Loaded::TextureDict(TextureDict { handles: vec![8] }))
    };
    let out = run(
        Task::leaf(Source::TextureDict("t.json".to_string())),
        Loaded::Renderer(SpriteRenderer { render_state: 2 }),
        &mut world,
        &source,
    );
    assert_eq!(out, Ok(Loaded::TextureDict(TextureDict { handles: vec![8] })));
    assert_eq!(world.texture_dict, None);
}

#[test]
fn ready_and_failed_leaves_end_at_once() {
    let mut world = World::new();
    assert_eq!(
        run(Task::ready(Loaded::Camera(camera_at(3))), Loaded::Unit, &mut world, &no_source),
        Ok(Loaded::Camera(camera_at(3)))
    );
    assert_eq!(
        run(Task::failed(malformed("x")), Loaded::Unit, &mut world, &no_source),
        Err(malformed("x"))
    );
    assert_eq!(world, World::new());
}

#[test]
fn join_succeeds_when_both_sides_succeed() {
    let mut world = World::new();
    let task = Task::ready(Loaded::Camera(camera_at(1)))
        .join(Task::ready(Loaded::Renderer(SpriteRenderer { render_state: 9 })), Merge::Pair);
    assert_eq!(
        run(task, Loaded::Unit, &mut world, &no_source),
        Ok(Loaded::Pair(
            Box::new(Loaded::Camera(camera_at(1))),
            Box::new(Loaded::Renderer(SpriteRenderer { render_state: 9 }))
        ))
    );
    let task = Task::ready(Loaded::Camera(camera_at(1)))
        .join(Task::ready(Loaded::Camera(camera_at(2))), Merge::Discard);
    assert_eq!(run(task, Loaded::Unit, &mut world, &no_source), Ok(Loaded::Unit));
}

#[test]
fn join_reports_the_failure_of_the_left_side() {
    let mut world = World::new();
    let task = Task::failed(malformed("a")).join(Task::ready(Loaded::Unit), Merge::Pair);
    assert_eq!(run(task, Loaded::Unit, &mut world, &no_source), Err(malformed("a")));
}

#[test]
fn join_reports_the_failure_of_the_right_side() {
    let mut world = World::new();
    let task = Task::ready(Loaded::Unit).join(Task::failed(malformed("b")), Merge::Pair);
    assert_eq!(run(task, Loaded::Unit, &mut world, &no_source), Err(malformed("b")));
}

#[test]
fn join_of_two_failures_reports_the_left_one() {
    let mut world = World::new();
    let task = Task::failed(malformed("a")).join(Task::failed(malformed("b")), Merge::Pair);
    assert_eq!(run(task, Loaded::Unit, &mut world, &no_source), Err(malformed("a")));
}

#[test]
fn join_runs_both_sides_even_if_the_left_fails() {
    let calls = Cell::new(0);
    let source = |_: &Source, _: Loaded, _: &World| {
        calls.set(calls.get() + 1);
        Ok(Loaded::Camera(camera_at(7)))
    };
    let mut world = World::new();
    let right = Task::leaf(Source::Camera("c.json".to_string())).map(Step::InsertCamera);
    let task = Task::failed(malformed("a")).join(right, Merge::Discard);
    assert_eq!(run(task, Loaded::Unit, &mut world, &source), Err(malformed("a")));
    assert_eq!(calls.get(), 1);
    assert_eq!(world.camera, Some(camera_at(7)));
}

#[test]
fn join_runs_the_right_side_in_the_world_the_left_side_left() {
    let source = |what: &Source, _: Loaded, seen: &World| match what {
        Source::Camera(_) => Ok(Loaded::Camera(camera_at(1))),
        _ => {
            assert_eq!(seen.camera, Some(camera_at(1)));
            Ok(Loaded::TextureDict(TextureDict { handles: vec![] }))
        }
    };
    let mut world = World::new();
    let left = Task::leaf(Source::Camera("c.json".to_string())).map(Step::InsertCamera);
    let right =
        Task::leaf(Source::TextureDict("t.json".to_string())).map(Step::InsertTextureDict);
    assert_eq!(
        run(left.join(right, Merge::Discard), Loaded::Unit, &mut world, &source),
        Ok(Loaded::Unit)
    );
    assert_eq!(world.texture_dict, Some(TextureDict { handles: vec![] }));
}

#[test]
fn sequence_shows_the_second_task_what_the_first_did() {
    let seen_camera = Cell::new(None);
    let source = |what: &Source, _: Loaded, seen: &World| match what {
        Source::Camera(_) => Ok(Loaded::Camera(camera_at(11))),
        _ => {
            seen_camera.set(seen.camera);
            Ok(Loaded::Renderer(SpriteRenderer { render_state: 1 }))
        }
    };
    let first = Task::leaf(Source::Camera("c.json".to_string())).map(Step::InsertCamera);
    let mut world = World::new();
    let out = run(
        first.sequence(Task::leaf(Source::DefaultRenderer)),
        Loaded::Unit,
        &mut world,
        &source,
    );
    assert_eq!(out, Ok(Loaded::Renderer(SpriteRenderer { render_state: 1 })));
    assert_eq!(seen_camera.get(), Some(camera_at(11)));

    // Without the first task the second sees no camera.
    let mut world = World::new();
    let out = run(
        Task::ready(Loaded::Unit).sequence(Task::leaf(Source::DefaultRenderer)),
        Loaded::Unit,
        &mut world,
        &source,
    );
    assert_eq!(out, Ok(Loaded::Renderer(SpriteRenderer { render_state: 1 })));
    assert_eq!(seen_camera.get(), None);
}

#[test]
fn sequence_drops_the_value_of_the_first_task() {
    let source = |_: &Source, input: Loaded, _: &World| {
        assert_eq!(input, Loaded::Unit);
        Ok(Loaded::Unit)
    };
    let mut world = World::new();
    let task = Task::ready(Loaded::Camera(camera_at(1))).sequence(Task::leaf(Source::DefaultRenderer));
    assert_eq!(run(task, Loaded::Unit, &mut world, &source), Ok(Loaded::Unit));
}

#[test]
fn sequence_stops_after_a_failed_first_task() {
    let calls = Cell::new(0);
    let source = |_: &Source, _: Loaded, _: &World| {
        calls.set(calls.get() + 1);
        Ok(Loaded::Unit)
    };
    let mut world = World::new();
    let task = Task::failed(malformed("first")).sequence(Task::leaf(Source::DefaultRenderer));
    assert_eq!(run(task, Loaded::Unit, &mut world, &source), Err(malformed("first")));
    assert_eq!(calls.get(), 0);
}

#[test]
fn map_does_its_step_once_on_the_value() {
    let mut world = World::new();
    let task = Task::ready(Loaded::Renderer(SpriteRenderer { render_state: 6 })).map(Step::BuildScene);
    assert_eq!(
        run(task, Loaded::Unit, &mut world, &no_source),
        Ok(Loaded::Scene(CameraTestScene::new(SpriteRenderer { render_state: 6 })))
    );
    // A step that is done once adds the entities once.
    TestWorld::register(&mut world);
    let entities = vec![Entity { texture: Some(1), transform: None }];
    let task = Task::ready(Loaded::Pair(
        Box::new(Loaded::Unit),
        Box::new(Loaded::Entities(entities.clone())),
    ))
    .map(Step::SpawnEntities);
    assert_eq!(run(task, Loaded::Unit, &mut world, &no_source), Ok(Loaded::Unit));
    assert_eq!(world.entities, entities);
}

struct TestWorld;

impl TestWorld {
    fn register(world: &mut World) {
        world.register(ComponentKind::Texture);
        world.register(ComponentKind::Transform);
    }
}

#[test]
fn map_is_not_done_on_a_failed_task() {
    let mut world = World::new();
    let task = Task::failed(malformed("inner")).map(Step::InsertCamera);
    assert_eq!(run(task, Loaded::Unit, &mut world, &no_source), Err(malformed("inner")));
    assert_eq!(world, World::new());
}

#[test]
fn a_failing_step_keeps_what_follows_from_running() {
    let calls = Cell::new(0);
    let source = |_: &Source, _: Loaded, _: &World| {
        calls.set(calls.get() + 1);
        Ok(Loaded::Unit)
    };
    let mut world = World::new();
    // The step wants a camera and is handed a renderer.
    let failing =
        Task::ready(Loaded::Renderer(SpriteRenderer { render_state: 0 })).map(Step::InsertCamera);
    let task = failing.sequence(Task::leaf(Source::DefaultRenderer)).map(Step::BuildScene);
    assert_eq!(
        run(task, Loaded::Unit, &mut world, &source),
        Err(EngineError::MissingRequiredResource("camera".to_string()))
    );
    assert_eq!(calls.get(), 0);
    assert_eq!(world, World::new());
}

#[test]
fn serialize_hands_the_value_of_the_first_to_the_second() {
    let source = |what: &Source, input: Loaded, _: &World| match what {
        Source::DefaultRenderer => Ok(Loaded::Renderer(SpriteRenderer { render_state: 5 })),
        Source::Entities(paths) => {
            assert_eq!(paths, &vec!["a.json".to_string()]);
            Ok(Loaded::Pair(
                Box::new(input),
                Box::new(Loaded::Entities(vec![Entity { texture: None, transform: None }])),
            ))
        }
        _ => panic!("not asked for"),
    };
    let mut world = World::new();
    let task = Task::leaf(Source::DefaultRenderer).serialize(
        Task::leaf(Source::Entities(vec!["a.json".to_string()])).map(Step::SpawnEntities),
    );
    assert_eq!(
        run(task, Loaded::Unit, &mut world, &source),
        Ok(Loaded::Renderer(SpriteRenderer { render_state: 5 }))
    );
    assert_eq!(world.entities, vec![Entity { texture: None, transform: None }]);
}

#[test]
fn serialize_stops_after_a_failed_first_task() {
    let mut world = World::new();
    let task = Task::failed(malformed("first")).serialize(Task::leaf(Source::DefaultRenderer));
    assert_eq!(run(task, Loaded::Unit, &mut world, &no_source), Err(malformed("first")));
}

#[test]
fn a_failure_does_not_undo_what_was_done() {
    let mut world = World::new();
    let inserted = Task::ready(Loaded::Camera(camera_at(2))).map(Step::InsertCamera);
    let task = inserted.sequence(Task::failed(malformed("late")));
    assert_eq!(run(task, Loaded::Unit, &mut world, &no_source), Err(malformed("late")));
    assert_eq!(world.camera, Some(camera_at(2)));
}

#[test]
fn steps_put_globals_into_the_world() {
    let mut world = World::new();
    let dict = TextureDict { handles: vec![3, 4] };
    assert_eq!(
        apply_step(Step::InsertTextureDict, Loaded::TextureDict(dict.clone()), &mut world),
        Ok(Loaded::Unit)
    );
    assert_eq!(world.texture_dict, Some(dict));
    assert_eq!(
        apply_step(Step::InsertCamera, Loaded::Camera(camera_at(9)), &mut world),
        Ok(Loaded::Unit)
    );
    assert_eq!(world.camera, Some(camera_at(9)));
    // A later camera takes the place of the earlier one.
    assert_eq!(
        apply_step(Step::InsertCamera, Loaded::Camera(camera_at(10)), &mut world),
        Ok(Loaded::Unit)
    );
    assert_eq!(world.camera, Some(camera_at(10)));
}

#[test]
fn steps_refuse_values_of_another_kind() {
    let mut world = World::new();
    let missing = |what: &str| Err(EngineError::MissingRequiredResource(what.to_string()));
    assert_eq!(
        apply_step(Step::InsertTextureDict, Loaded::Unit, &mut world),
        missing("texture dictionary")
    );
    assert_eq!(apply_step(Step::InsertCamera, Loaded::Unit, &mut world), missing("camera"));
    assert_eq!(apply_step(Step::SpawnEntities, Loaded::Unit, &mut world), missing("entities"));
    assert_eq!(
        apply_step(
            Step::SpawnEntities,
            Loaded::Pair(Box::new(Loaded::Unit), Box::new(Loaded::Unit)),
            &mut world
        ),
        missing("entities")
    );
    assert_eq!(apply_step(Step::BuildScene, Loaded::Unit, &mut world), missing("renderer"));
    assert_eq!(
        apply_step(Step::PushScene, Loaded::Unit, &mut world),
        missing("scene stack and scene")
    );
    assert_eq!(
        apply_step(
            Step::PushScene,
            Loaded::Pair(Box::new(Loaded::SceneStack(SceneStack::new())), Box::new(Loaded::Unit)),
            &mut world
        ),
        missing("scene stack and scene")
    );
    assert_eq!(world, World::new());
}

#[test]
fn spawn_step_refuses_unregistered_components() {
    let mut world = World::new();
    world.register(ComponentKind::Texture);
    let value = Loaded::Pair(
        Box::new(Loaded::Renderer(SpriteRenderer { render_state: 1 })),
        Box::new(Loaded::Entities(vec![
            Entity { texture: Some(1), transform: None },
            Entity { texture: None, transform: Some(Point3 { x: 0, y: 0, z: 0 }) },
        ])),
    );
    assert_eq!(
        apply_step(Step::SpawnEntities, value, &mut world),
        Err(EngineError::MissingRequiredResource("component kind not registered".to_string()))
    );
    assert!(world.entities.is_empty());
}

#[test]
fn push_step_puts_the_scene_on_top() {
    let mut world = World::new();
    let first = CameraTestScene::new(SpriteRenderer { render_state: 1 });
    let second = CameraTestScene::new(SpriteRenderer { render_state: 2 });
    let mut stack = SceneStack::new();
    stack.push(first);
    let value = Loaded::Pair(Box::new(Loaded::SceneStack(stack)), Box::new(Loaded::Scene(second)));
    assert_eq!(
        apply_step(Step::PushScene, value, &mut world),
        Ok(Loaded::SceneStack(SceneStack { scenes: vec![first, second] }))
    );
}

#[test]
fn merges_make_one_value_of_two() {
    assert_eq!(
        merge_values(Merge::Discard, Loaded::Camera(camera_at(1)), Loaded::Unit),
        Loaded::Unit
    );
    assert_eq!(
        merge_values(Merge::Pair, Loaded::Camera(camera_at(1)), Loaded::Unit),
        Loaded::Pair(Box::new(Loaded::Camera(camera_at(1))), Box::new(Loaded::Unit))
    );
}
