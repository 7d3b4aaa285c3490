use vstd::prelude::*;
use vstd::string::*;
use crate::error::{EngineError, ErrorModel};

verus! {

/// A point or a displacement on the grid.
#[derive(Debug, Clone, Copy, PartialEq, Eq, Structural)]
pub struct Point3 {
    pub x: i64,
    pub y: i64,
    pub z: i64,
}

/// Where the camera stands and what it looks at.
#[derive(Debug, Clone, Copy, PartialEq, Eq, Structural)]
pub struct Camera {
    pub position: Point3,
    pub target: Point3,
}

/// How far one frame of input moves the camera along each axis.
#[derive(Debug, Clone, Copy, PartialEq, Eq, Structural)]
pub struct Shift {
    pub dx: i128,
    pub dy: i128,
}

/// `p` moved by `dx` along X and `dy` along Y, as unbounded integers.
pub open spec fn moved(p: Point3, dx: int, dy: int) -> (int, int, int) {
    (p.x + dx, p.y + dy, p.z as int)
}

/// Whether `c` is a coordinate that a point can hold.
pub open spec fn is_coordinate(c: int) -> bool {
    i64::MIN <= c <= i64::MAX
}

impl Point3 {
    pub open spec fn coordinates(self) -> (int, int, int) {
        (self.x as int, self.y as int, self.z as int)
    }

    /// Whether the point can be moved by `dx` and `dy` without leaving the grid.
    pub open spec fn can_move(self, dx: int, dy: int) -> bool {
        is_coordinate(self.x + dx) && is_coordinate(self.y + dy)
    }

    /// Whether the point can be moved by `shift` without leaving the grid.
    pub fn fits(&self, shift: Shift) -> (ok: bool)
        ensures
            ok == self.can_move(shift.dx as int, shift.dy as int),
    {
        let x: i128 = self.x as i128;
        let y: i128 = self.y as i128;
        let lo: i128 = i64::MIN as i128;
        let hi: i128 = i64::MAX as i128;
        // The shift may be anywhere in i128, so compare without adding first.
        shift.dx >= lo - x && shift.dx <= hi - x && shift.dy >= lo - y && shift.dy <= hi - y
    }

    /// The point moved by `shift`; Z stays.
    pub fn translated(&self, shift: Shift) -> (moved_point: Point3)
        requires
            self.can_move(shift.dx as int, shift.dy as int),
        ensures
            moved_point.coordinates() == moved(*self, shift.dx as int, shift.dy as int),
    {
        let x: i128 = self.x as i128 + shift.dx;
        let y: i128 = self.y as i128 + shift.dy;
        Point3 { x: x as i64, y: y as i64, z: self.z }
    }
}

impl Camera {
    pub fn new(position: Point3, target: Point3) -> (camera: Camera)
        ensures
            camera.position == position,
            camera.target == target,
    {
        Camera { position, target }
    }

    pub fn position(&self) -> (p: Point3)
        ensures
            p == self.position,
    {
        self.position
    }

    pub fn target(&self) -> (p: Point3)
        ensures
            p == self.target,
    {
        self.target
    }

    pub fn set_position(&mut self, position: Point3)
        ensures
            final(self).position == position,
            final(self).target == old(self).target,
    {
        self.position = position;
    }

    pub fn set_target(&mut self, target: Point3)
        ensures
            final(self).target == target,
            final(self).position == old(self).position,
    {
        self.target = target;
    }

    /// Whether both the position and the target can be moved by `dx` and `dy`.
    pub open spec fn can_move(self, dx: int, dy: int) -> bool {
        self.position.can_move(dx, dy) && self.target.can_move(dx, dy)
    }

    /// The camera with position and target both moved by `dx` along X and `dy`
    /// along Y.
    pub open spec fn shifted(self, dx: int, dy: int) -> Camera
        recommends
            self.can_move(dx, dy),
    {
        Camera {
            position: Point3 {
                x: (self.position.x + dx) as i64,
                y: (self.position.y + dy) as i64,
                z: self.position.z,
            },
            target: Point3 {
                x: (self.target.x + dx) as i64,
                y: (self.target.y + dy) as i64,
                z: self.target.z,
            },
        }
    }

    /// Whether both the position and the target can be moved by `shift`.
    pub fn fits(&self, shift: Shift) -> (ok: bool)
        ensures
            ok == self.can_move(shift.dx as int, shift.dy as int),
    {
        self.position.fits(shift) && self.target.fits(shift)
    }

    /// Moves position and target by the same `shift`, so that the camera keeps
    /// looking the same way.
    pub fn translate(&mut self, shift: Shift)
        requires
            old(self).can_move(shift.dx as int, shift.dy as int),
        ensures
            *final(self) == old(self).shifted(shift.dx as int, shift.dy as int),
            final(self).position.coordinates() == moved(
                old(self).position,
                shift.dx as int,
                shift.dy as int,
            ),
            final(self).target.coordinates() == moved(
                old(self).target,
                shift.dx as int,
                shift.dy as int,
            ),
    {
        let position = self.position.translated(shift);
        let target = self.target.translated(shift);
        self.position = position;
        self.target = target;
    }
}

/// The textures that entities may refer to, by handle.
#[derive(Debug, Clone, PartialEq, Eq)]
pub struct TextureDict {
    pub handles: Vec<u64>,
}

impl View for TextureDict {
    type V = Seq<u64>;

    open spec fn view(&self) -> Seq<u64> {
        self.handles@
    }
}

/// The kinds of component that an entity can carry.
#[derive(Debug, Clone, Copy, PartialEq, Eq, Structural)]
pub enum ComponentKind {
    Texture,
    Transform,
}

/// One entity: the components it carries.
#[derive(Debug, Clone, Copy, PartialEq, Eq, Structural)]
pub struct Entity {
    pub texture: Option<u64>,
    pub transform: Option<Point3>,
}

/// The mathematical content of a [`World`].
pub struct WorldModel {
    pub texture_dict: Option<Seq<u64>>,
    pub camera: Option<Camera>,
    pub entities: Seq<Entity>,
    pub textures_registered: bool,
    pub transforms_registered: bool,
}

/// The shared store of one session: the global resources, which are absent
/// until loaded, and the entities.
#[derive(Debug, Clone, PartialEq, Eq)]
pub struct World {
    pub texture_dict: Option<TextureDict>,
    pub camera: Option<Camera>,
    pub entities: Vec<Entity>,
    pub textures_registered: bool,
    pub transforms_registered: bool,
}

impl View for World {
    type V = WorldModel;

    open spec fn view(&self) -> WorldModel {
        WorldModel {
            texture_dict: match self.texture_dict {
                Some(dict) => Some(dict@),
                None => None,
            },
            camera: self.camera,
            entities: self.entities@,
            textures_registered: self.textures_registered,
            transforms_registered: self.transforms_registered,
        }
    }
}

impl WorldModel {
    /// The world before anything is registered or loaded.
    pub open spec fn empty() -> WorldModel {
        WorldModel {
            texture_dict: None,
            camera: None,
            entities: Seq::empty(),
            textures_registered: false,
            transforms_registered: false,
        }
    }

    /// Whether every component that `entity` carries is of a registered kind.
    pub open spec fn admits(self, entity: Entity) -> bool {
        (entity.texture is Some ==> self.textures_registered) && (entity.transform is Some
            ==> self.transforms_registered)
    }

    /// Whether every entity of `entities` is admitted.
    pub open spec fn admits_all(self, entities: Seq<Entity>) -> bool {
        forall|i: int| 0 <= i < entities.len() ==> self.admits(#[trigger] entities[i])
    }
}

impl World {
    pub fn new() -> (world: World)
        ensures
            world@ == WorldModel::empty(),
    {
        World {
            texture_dict: None,
            camera: None,
            entities: Vec::new(),
            textures_registered: false,
            transforms_registered: false,
        }
    }

    /// Registers a kind of component; to register one twice changes nothing.
    pub fn register(&mut self, kind: ComponentKind)
        ensures
            final(self)@ == (match kind {
                ComponentKind::Texture => WorldModel { textures_registered: true, ..old(self)@ },
                ComponentKind::Transform => WorldModel {
                    transforms_registered: true,
                    ..old(self)@
                },
            }),
    {
        match kind {
            ComponentKind::Texture => {
                self.textures_registered = true;
            },
            ComponentKind::Transform => {
                self.transforms_registered = true;
            },
        }
    }

    /// Puts the texture dictionary into the world, in place of an earlier one.
    pub fn insert_texture_dict(&mut self, dict: TextureDict)
        ensures
            final(self)@ == (WorldModel { texture_dict: Some(dict@), ..old(self)@ }),
    {
        self.texture_dict = Some(dict);
    }

    /// Puts the camera into the world, in place of an earlier one.
    pub fn insert_camera(&mut self, camera: Camera)
        ensures
            final(self)@ == (WorldModel { camera: Some(camera), ..old(self)@ }),
    {
        self.camera = Some(camera);
    }

    /// Whether every component that `entity` carries is of a registered kind.
    pub fn admits(&self, entity: &Entity) -> (ok: bool)
        ensures
            ok == self@.admits(*entity),
    {
        (entity.texture.is_none() || self.textures_registered) && (entity.transform.is_none()
            || self.transforms_registered)
    }

    /// The index of the first entity of `entities` that carries a component of
    /// a kind that is not registered.
    pub fn first_rejected(&self, entities: &Vec<Entity>) -> (at: Option<usize>)
        ensures
            at is None <==> self@.admits_all(entities@),
            at matches Some(i) ==> i < entities.len() && !self@.admits(entities@[i as int])
                && self@.admits_all(entities@.take(i as int)),
    {
        let mut i: usize = 0;
        while i < entities.len()
            invariant
                i <= entities.len(),
                forall|j: int| 0 <= j < i ==> self@.admits(#[trigger] entities@[j]),
            decreases entities.len() - i,
        {
            if !self.admits(&entities[i]) {
                return Some(i);
            }
            i += 1;
        }
        None
    }

    /// Adds the entities to the world, in order, after those it holds. An
    /// entity with a component of a kind that is not registered is refused,
    /// and then none is added.
    pub fn spawn_all(&mut self, entities: Vec<Entity>) -> (done: Result<(), EngineError>)
        ensures
            old(self)@.admits_all(entities@) ==> done is Ok && final(self)@ == (WorldModel {
                entities: old(self)@.entities + entities@,
                ..old(self)@
            }),
            !old(self)@.admits_all(entities@) ==> final(self)@ == old(self)@ && done is Err
                && done->Err_0@ == ErrorModel::MissingRequiredResource(
                "component kind not registered"@,
            ),
    {
        match self.first_rejected(&entities) {
            Some(_) => Err(
                EngineError::MissingRequiredResource(
                    String::from_str("component kind not registered"),
                ),
            ),
            None => {
                let mut entities = entities;
                self.entities.append(&mut entities);
                Ok(())
            },
        }
    }
}

} // verus!
