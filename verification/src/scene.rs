use vstd::prelude::*;
use vstd::string::*;
use crate::error::EngineError;
use crate::input::{Key, MultiInput};
use crate::world::{Entity, Point3, World, WorldModel};

verus! {

/// The renderer that a scene keeps to itself: the state of its pipeline.
#[derive(Debug, Clone, Copy, PartialEq, Eq, Structural)]
pub struct SpriteRenderer {
    pub render_state: u64,
}

/// A colour, one byte a channel.
#[derive(Debug, Clone, Copy, PartialEq, Eq, Structural)]
pub struct Rgba {
    pub r: u8,
    pub g: u8,
    pub b: u8,
    pub a: u8,
}

/// The box that an orthographic projection shows.
#[derive(Debug, Clone, Copy, PartialEq, Eq, Structural)]
pub struct Orthographic {
    pub left: i32,
    pub right: i32,
    pub bottom: i32,
    pub top: i32,
    pub near: i32,
    pub far: i32,
}

/// What the backend needs to render one frame of a scene.
#[derive(Debug, Clone, Copy, PartialEq, Eq, Structural)]
pub struct FramePlan {
    pub clear_color: Rgba,
    pub projection: Orthographic,
    pub renderer: SpriteRenderer,
}

pub const VIEW_WIDTH: i32 = 960;

pub const VIEW_HEIGHT: i32 = 540;

pub const NEAR_PLANE: i32 = -1;

pub const FAR_PLANE: i32 = 10;

/// The frame of the demo: cleared to opaque black, seen through a box of
/// 960 by 540 units with its origin in the lower left corner.
pub open spec fn demo_frame(renderer: SpriteRenderer) -> FramePlan {
    FramePlan {
        clear_color: Rgba { r: 0, g: 0, b: 0, a: 255 },
        projection: Orthographic {
            left: 0,
            right: VIEW_WIDTH,
            bottom: 0,
            top: VIEW_HEIGHT,
            near: NEAR_PLANE,
            far: FAR_PLANE,
        },
        renderer,
    }
}

/// What a scene asks of the driver after an update.
#[derive(Debug, Clone, Copy, PartialEq, Eq, Structural)]
pub enum SceneTransition {
    /// Go on with this scene.
    Stay,
    /// Put the given scene on top of this one.
    Push(CameraTestScene),
    /// Drop this scene and go back to the one below.
    Pop,
    /// Put the given scene in place of this one.
    Replace(CameraTestScene),
    /// Drop every scene.
    Terminate,
}

/// The entity one update later: its transform, if it has one, a unit further
/// along X.
pub open spec fn advanced(entity: Entity) -> Entity {
    match entity.transform {
        Some(at) => Entity {
            transform: Some(Point3 { x: (at.x + 1) as i64, y: at.y, z: at.z }),
            texture: entity.texture,
        },
        None => entity,
    }
}

/// Whether the entity can move a unit along X without leaving the grid.
pub open spec fn can_advance(entity: Entity) -> bool {
    entity.transform matches Some(at) ==> at.x < i64::MAX
}

/// Whether every entity of `entities` can move a unit along X.
pub open spec fn all_can_advance(entities: Seq<Entity>) -> bool {
    forall|i: int| 0 <= i < entities.len() ==> can_advance(#[trigger] entities[i])
}

/// The flag of a scene after a frame in which `held` were held down.
pub open spec fn flag_after(flag: bool, held: Seq<Key>) -> bool {
    flag || held.contains(Key::Q)
}

/// The flag of a scene after the frames `frames`, each given by the keys held
/// down in it.
pub open spec fn flag_after_frames(flag: bool, frames: Seq<Seq<Key>>) -> bool
    decreases frames.len(),
{
    if frames.len() == 0 {
        flag
    } else {
        flag_after(flag_after_frames(flag, frames.drop_last()), frames.last())
    }
}

/// A scene is finished after some frames exactly if it was finished before
/// them or the key that ends it was held in one of them.
pub proof fn lemma_finished_by_quit_only(flag: bool, frames: Seq<Seq<Key>>)
    ensures
        flag_after_frames(flag, frames) <==> flag || exists|i: int|
            0 <= i < frames.len() && (#[trigger] frames[i]).contains(Key::Q),
    decreases frames.len(),
{
    if frames.len() > 0 {
        let earlier = frames.drop_last();
        lemma_finished_by_quit_only(flag, earlier);
        if flag_after_frames(flag, frames) && !flag {
            if frames.last().contains(Key::Q) {
                assert(frames[frames.len() - 1].contains(Key::Q));
            } else {
                let i = choose|i: int|
                    0 <= i < earlier.len() && (#[trigger] earlier[i]).contains(Key::Q);
                assert(frames[i] == earlier[i]);
            }
        }
        if !flag && exists|i: int|
            0 <= i < frames.len() && (#[trigger] frames[i]).contains(Key::Q) {
            let i = choose|i: int| 0 <= i < frames.len() && (#[trigger] frames[i]).contains(Key::Q);
            if i < earlier.len() {
                assert(earlier[i] == frames[i]);
            }
        }
    }
}

/// Once a scene is finished it stays finished: whatever frames follow, with
/// whatever keys, the flag is still set.
pub proof fn lemma_finished_is_permanent(
    flag: bool,
    frames: Seq<Seq<Key>>,
    later: Seq<Seq<Key>>,
)
    requires
        flag_after_frames(flag, frames),
    ensures
        flag_after_frames(flag, frames + later),
{
    lemma_finished_by_quit_only(flag, frames);
    lemma_finished_by_quit_only(flag, frames + later);
    if !flag {
        let i = choose|i: int| 0 <= i < frames.len() && (#[trigger] frames[i]).contains(Key::Q);
        assert((frames + later)[i] == frames[i]);
    }
}

/// The scene of the demo: sprites seen through a camera that the arrow keys
/// move.
#[derive(Debug, Clone, Copy, PartialEq, Eq, Structural)]
pub struct CameraTestScene {
    sprite_renderer: SpriteRenderer,
    should_finish: bool,
}

impl CameraTestScene {
    /// The renderer that the scene holds.
    pub closed spec fn renderer(&self) -> SpriteRenderer {
        self.sprite_renderer
    }

    /// Whether the scene has been told to end.
    pub closed spec fn finished(&self) -> bool {
        self.should_finish
    }

    /// The scene around `sprite_renderer` that has not been told to end.
    pub closed spec fn fresh(sprite_renderer: SpriteRenderer) -> CameraTestScene {
        CameraTestScene { sprite_renderer, should_finish: false }
    }

    /// A scene around `sprite_renderer`, not finished.
    pub fn new(sprite_renderer: SpriteRenderer) -> (scene: CameraTestScene)
        ensures
            scene == CameraTestScene::fresh(sprite_renderer),
            scene.renderer() == sprite_renderer,
            !scene.finished(),
    {
        CameraTestScene { sprite_renderer, should_finish: false }
    }

    /// Whether an update would keep every entity of `world` on the grid.
    pub fn can_update(&self, world: &World) -> (ok: bool)
        ensures
            ok == all_can_advance(world@.entities),
    {
        let mut i: usize = 0;
        while i < world.entities.len()
            invariant
                i <= world.entities.len(),
                forall|j: int| 0 <= j < i ==> can_advance(#[trigger] world@.entities[j]),
            decreases world.entities.len() - i,
        {
            match world.entities[i].transform {
                Some(at) => {
                    if at.x == i64::MAX {
                        assert(!can_advance(world@.entities[i as int]));
                        return false;
                    }
                },
                None => {},
            }
            i += 1;
        }
        true
    }

    /// Moves every entity that has a transform one unit along X, and asks for
    /// no transition.
    pub fn update(&self, world: &mut World) -> (asked: Result<SceneTransition, EngineError>)
        requires
            all_can_advance(old(world)@.entities),
        ensures
            asked is Ok && asked->Ok_0 == SceneTransition::Stay,
            final(world)@ == (WorldModel {
                entities: old(world)@.entities.map_values(|e: Entity| advanced(e)),
                ..old(world)@
            }),
    {
        let ghost before = world@;
        let mut i: usize = 0;
        while i < world.entities.len()
            invariant
                i <= world.entities.len(),
                world.entities.len() == before.entities.len(),
                world@ == (WorldModel { entities: world@.entities, ..before }),
                forall|j: int| 0 <= j < i ==> world@.entities[j] == advanced(before.entities[j]),
                forall|j: int|
                    i <= j < before.entities.len() ==> world@.entities[j] == before.entities[j],
                forall|j: int|
                    0 <= j < before.entities.len() ==> can_advance(#[trigger] before.entities[j]),
            decreases world.entities.len() - i,
        {
            let entity = world.entities[i];
            match entity.transform {
                Some(at) => {
                    let next = Entity {
                        transform: Some(Point3 { x: at.x + 1, y: at.y, z: at.z }),
                        texture: entity.texture,
                    };
                    world.entities.set(i, next);
                },
                None => {},
            }
            i += 1;
        }
        assert(world@.entities =~= before.entities.map_values(|e: Entity| advanced(e)));
        Ok(SceneTransition::Stay)
    }

    /// Plans the frame; the world is only read.
    pub fn draw(&self, world: &World) -> (frame: Result<FramePlan, EngineError>)
        ensures
            frame is Ok && frame->Ok_0 == demo_frame(self.renderer()),
    {
        Ok(
            FramePlan {
                clear_color: Rgba { r: 0, g: 0, b: 0, a: 255 },
                projection: Orthographic {
                    left: 0,
                    right: VIEW_WIDTH,
                    bottom: 0,
                    top: VIEW_HEIGHT,
                    near: NEAR_PLANE,
                    far: FAR_PLANE,
                },
                renderer: self.sprite_renderer,
            },
        )
    }

    /// Takes one frame of input. Each arrow key moves the camera's position
    /// and target alike: by one unit where it went down in this frame, by
    /// three where it is held; Left and Right along X, Up and Down along Y,
    /// with Up towards smaller Y. Holding Q ends the scene.
    ///
    /// The world must hold a camera, and the camera must stay on the grid.
    pub fn interact(&mut self, world: &mut World, input: &MultiInput) -> (done: Result<
        (),
        EngineError,
    >)
        requires
            old(world)@.camera is Some,
            old(world)@.camera->Some_0.can_move(input.shift_x(), input.shift_y()),
        ensures
            done is Ok,
            final(world)@ == (WorldModel {
                camera: Some(
                    old(world)@.camera->Some_0.shifted(input.shift_x(), input.shift_y()),
                ),
                ..old(world)@
            }),
            final(self).finished() == flag_after(old(self).finished(), input.held@),
            final(self).renderer() == old(self).renderer(),
    {
        let by = input.shift();
        let quit = input.quit_requested();
        match world.camera {
            Some(camera) => {
                let mut camera = camera;
                camera.translate(by);
                world.camera = Some(camera);
            },
            None => {},
        }
        if quit {
            self.should_finish = true;
        }
        Ok(())
    }

    pub fn get_name(&self) -> (name: String)
        ensures
            name@ == "Camera Test Scene"@,
    {
        String::from_str("Camera Test Scene")
    }

    /// Whether the scene has been told to end; the world is not looked at.
    pub fn is_finished(&self, world: &World) -> (finished: Result<bool, EngineError>)
        ensures
            finished is Ok && finished->Ok_0 == self.finished(),
    {
        Ok(self.should_finish)
    }
}

/// The scenes of a session, the one that runs on top, that is last.
#[derive(Debug, Clone, PartialEq, Eq)]
pub struct SceneStack {
    pub scenes: Vec<CameraTestScene>,
}

impl View for SceneStack {
    type V = Seq<CameraTestScene>;

    open spec fn view(&self) -> Seq<CameraTestScene> {
        self.scenes@
    }
}

impl SceneStack {
    pub fn new() -> (stack: SceneStack)
        ensures
            stack@ == Seq::<CameraTestScene>::empty(),
    {
        SceneStack { scenes: Vec::new() }
    }

    /// Puts `scene` on top.
    pub fn push(&mut self, scene: CameraTestScene)
        ensures
            final(self)@ == old(self)@.push(scene),
    {
        self.scenes.push(scene);
    }
}

} // verus!
