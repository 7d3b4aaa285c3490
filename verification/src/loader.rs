use vstd::prelude::*;
use vstd::string::*;
use crate::error::{EngineError, ErrorModel};
use crate::scene::SceneStack;
use crate::task::{
    grown_from, joined, lemma_run_only_adds, midway, passed_on, plan_of, runs, stepped, texts,
    Loaded, LoadedModel, Merge, Plan, Source, SourceModel, Step, Task,
};
use crate::world::{ComponentKind, Entity, Point3, World, WorldModel};

verus! {

/// The name of the demo, and of the directory that holds what it loads.
pub const CAMERA_TEST_ID: &'static str = "camera_test";

/// The type identifier of the demo's scene.
pub const CAMERA_TEST_SCENE_ID: &'static str = "camera_test_scene";

/// The directory under which everything that is loaded lies.
pub const LOAD_PATH: &'static str = "assets/";

/// The directory of a demo's scenes.
pub const SCENES_DIR: &'static str = "scenes/";

/// The file that lists the scenes of a demo.
pub const SCENE_STACK_FILE_ID: &'static str = "scene_stack";

/// The ending of a file that holds a description.
pub const JSON_FILE: &'static str = ".json";

/// The type identifier, and the file, of the texture dictionary.
pub const TEXTURE_DICT_LOAD_ID: &'static str = "texture_dict";

/// The type identifier, and the file, of the camera.
pub const ORTHOGRAPHIC_CAMERA_LOAD_ID: &'static str = "orthographic_camera";

/// The type identifier of a texture component.
pub const TEXTURE_LOAD_ID: &'static str = "texture";

/// The type identifier of a transform component.
pub const TRANSFORM_LOAD_ID: &'static str = "transform";

/// A tagged description of something to load: the identifier of its type, and
/// what decoding its payload for that type gave, a value or a complaint.
#[derive(Debug, PartialEq, Eq)]
pub struct JSONLoad<T> {
    pub load_type_id: String,
    pub actual_value: Result<T, String>,
}

/// What the description of the demo's scene holds: where its entities are
/// described.
#[derive(Debug, Clone, PartialEq, Eq)]
pub struct CameraTestSceneJSON {
    pub entity_paths: Vec<String>,
}

impl View for CameraTestSceneJSON {
    type V = Seq<Seq<char>>;

    open spec fn view(&self) -> Seq<Seq<char>> {
        texts(self.entity_paths@)
    }
}

/// Loads the demo's scene.
#[derive(Debug)]
pub struct CameraTestSceneLoader {
    json: CameraTestSceneJSON,
}

/// Loads one component onto an entity.
#[derive(Debug, Clone, Copy, PartialEq, Eq, Structural)]
pub enum ComponentLoader {
    Texture(u64),
    Transform(Point3),
}

impl ComponentLoader {
    /// The kind of component that this loader loads.
    pub open spec fn kind(self) -> ComponentKind {
        match self {
            ComponentLoader::Texture(_) => ComponentKind::Texture,
            ComponentLoader::Transform(_) => ComponentKind::Transform,
        }
    }

    /// `entity` with the component on it, in place of an earlier one of its kind.
    pub open spec fn loaded_onto(self, entity: Entity) -> Entity {
        match self {
            ComponentLoader::Texture(handle) => Entity { texture: Some(handle), ..entity },
            ComponentLoader::Transform(at) => Entity { transform: Some(at), ..entity },
        }
    }

    /// Puts the component onto `entity`, in place of an earlier one of its kind.
    pub fn load_component(&self, entity: &mut Entity)
        ensures
            *final(entity) == self.loaded_onto(*old(entity)),
    {
        match self {
            ComponentLoader::Texture(handle) => {
                entity.texture = Some(*handle);
            },
            ComponentLoader::Transform(at) => {
                entity.transform = Some(*at);
            },
        }
    }
}

/// The kind of component that a type identifier stands for, if any.
pub open spec fn component_kind_of(type_id: Seq<char>) -> Option<ComponentKind> {
    if type_id == TEXTURE_LOAD_ID@ {
        Some(ComponentKind::Texture)
    } else if type_id == TRANSFORM_LOAD_ID@ {
        Some(ComponentKind::Transform)
    } else {
        None
    }
}

/// What the description of a component leads to: the loader that was decoded
/// from it, or why there is none. An identifier that stands for no kind of
/// component is refused whatever the payload; a payload that was not decoded,
/// or was decoded for another kind, is malformed.
pub open spec fn component_outcome(
    type_id: Seq<char>,
    decoded: Result<ComponentLoader, Seq<char>>,
) -> Result<ComponentLoader, ErrorModel> {
    match component_kind_of(type_id) {
        None => Err(ErrorModel::UnknownLoadType(type_id)),
        Some(kind) => match decoded {
            Ok(loader) => if loader.kind() == kind {
                Ok(loader)
            } else {
                Err(ErrorModel::DeserializationError("payload of another kind"@))
            },
            Err(why) => Err(ErrorModel::DeserializationError(why)),
        },
    }
}

/// What the description of a scene leads to: the entity paths of the scene's
/// description, or why there is no loader. An identifier other than that of
/// the demo's scene is refused whatever the payload.
pub open spec fn scene_outcome(
    type_id: Seq<char>,
    decoded: Result<Seq<Seq<char>>, Seq<char>>,
) -> Result<Seq<Seq<char>>, ErrorModel> {
    if type_id != CAMERA_TEST_SCENE_ID@ {
        Err(ErrorModel::UnknownLoadType(type_id))
    } else {
        match decoded {
            Ok(paths) => Ok(paths),
            Err(why) => Err(ErrorModel::DeserializationError(why)),
        }
    }
}

/// The mathematical content of a decoded payload of a scene.
pub open spec fn scene_payload(decoded: Result<CameraTestSceneJSON, String>) -> Result<
    Seq<Seq<char>>,
    Seq<char>,
> {
    match decoded {
        Ok(config) => Ok(config@),
        Err(why) => Err(why@),
    }
}

/// The mathematical content of a decoded payload of a component.
pub open spec fn component_payload(decoded: Result<ComponentLoader, String>) -> Result<
    ComponentLoader,
    Seq<char>,
> {
    match decoded {
        Ok(loader) => Ok(loader),
        Err(why) => Err(why@),
    }
}

/// Whether `text` is the identifier `id`.
fn is_id(text: &String, id: &'static str) -> (same: bool)
    ensures
        same == (text@ == id@),
{
    let wanted = String::from_str(id);
    *text == wanted
}

/// How the demo's scene is loaded from the entities described at `paths`:
/// the default renderer first; then, with the renderer in hand, the entities,
/// which are added to the world; then the scene around the renderer.
pub open spec fn scene_plan(paths: Seq<Seq<char>>) -> Plan {
    Plan::Mapped(
        Box::new(
            Plan::Serialized(
                Box::new(Plan::Load(SourceModel::DefaultRenderer)),
                Box::new(
                    Plan::Mapped(
                        Box::new(Plan::Load(SourceModel::Entities(paths))),
                        Step::SpawnEntities,
                    ),
                ),
            ),
        ),
        Step::BuildScene,
    )
}

/// A copy of `strings`.
fn copy_strings(strings: &Vec<String>) -> (copy: Vec<String>)
    ensures
        copy@ == strings@,
{
    let mut copy: Vec<String> = Vec::new();
    let mut i: usize = 0;
    while i < strings.len()
        invariant
            i <= strings.len(),
            copy@ == strings@.take(i as int),
        decreases strings.len() - i,
    {
        copy.push(strings[i].clone());
        assert(copy@ =~= strings@.take(i + 1));
        i += 1;
    }
    assert(strings@.take(strings.len() as int) =~= strings@);
    copy
}

impl CameraTestSceneLoader {
    /// The description that the loader was made from.
    pub closed spec fn config(&self) -> CameraTestSceneJSON {
        self.json
    }

    /// The task that loads the scene. Nothing is loaded before it is run.
    pub fn load_scene(&self) -> (task: Task)
        ensures
            task@ == scene_plan(self.config()@),
    {
        let entity_paths = copy_strings(&self.json.entity_paths);
        let task = Task::leaf(Source::DefaultRenderer).serialize(
            Task::leaf(Source::Entities(entity_paths)).map(Step::SpawnEntities),
        ).map(Step::BuildScene);
        proof {
            reveal_with_fuel(plan_of, 4);
        }
        task
    }

    pub fn new(json: CameraTestSceneJSON) -> (loader: Self)
        ensures
            loader.config() == json,
    {
        Self { json }
    }

    /// The loader for the component that `json` describes.
    pub fn map_json_to_loader(json: JSONLoad<ComponentLoader>) -> (made: Result<
        ComponentLoader,
        EngineError,
    >)
        ensures
            match component_outcome(json.load_type_id@, component_payload(json.actual_value)) {
                Ok(loader) => made == Ok::<ComponentLoader, EngineError>(loader),
                Err(error) => made is Err && made->Err_0@ == error,
            },
    {
        let kind = if is_id(&json.load_type_id, TEXTURE_LOAD_ID) {
            ComponentKind::Texture
        } else if is_id(&json.load_type_id, TRANSFORM_LOAD_ID) {
            ComponentKind::Transform
        } else {
            return Err(EngineError::UnknownLoadType(json.load_type_id));
        };
        match json.actual_value {
            Ok(loader) => {
                let fits = match (loader, kind) {
                    (ComponentLoader::Texture(_), ComponentKind::Texture) => true,
                    (ComponentLoader::Transform(_), ComponentKind::Transform) => true,
                    _ => false,
                };
                if fits {
                    Ok(loader)
                } else {
                    Err(
                        EngineError::DeserializationError(
                            String::from_str("payload of another kind"),
                        ),
                    )
                }
            },
            Err(why) => Err(EngineError::DeserializationError(why)),
        }
    }
}

/// The entity that the descriptions `components` make, each loaded onto it in
/// turn, or the error of the first description that leads to no loader.
pub open spec fn entity_outcome(
    components: Seq<(Seq<char>, Result<ComponentLoader, Seq<char>>)>,
) -> Result<Entity, ErrorModel>
    decreases components.len(),
{
    if components.len() == 0 {
        Ok(Entity { texture: None, transform: None })
    } else {
        match entity_outcome(components.drop_last()) {
            Ok(entity) => match component_outcome(components.last().0, components.last().1) {
                Ok(loader) => Ok(loader.loaded_onto(entity)),
                Err(error) => Err(error),
            },
            Err(error) => Err(error),
        }
    }
}

/// The mathematical content of a list of descriptions of components.
pub open spec fn component_loads(components: Seq<JSONLoad<ComponentLoader>>) -> Seq<
    (Seq<char>, Result<ComponentLoader, Seq<char>>),
> {
    components.map_values(
        |json: JSONLoad<ComponentLoader>| (json.load_type_id@, component_payload(json.actual_value)),
    )
}

/// Makes the entity that `components` describe.
pub fn create_entity(components: Vec<JSONLoad<ComponentLoader>>) -> (made: Result<
    Entity,
    EngineError,
>)
    ensures
        match entity_outcome(component_loads(components@)) {
            Ok(entity) => made == Ok::<Entity, EngineError>(entity),
            Err(error) => made is Err && made->Err_0@ == error,
        },
{
    let ghost all = component_loads(components@);
    let mut entity = Entity { texture: None, transform: None };
    let mut i: usize = 0;
    while i < components.len()
        invariant
            i <= components.len(),
            all == component_loads(components@),
            entity_outcome(all.take(i as int)) == Ok::<Entity, ErrorModel>(entity),
        decreases components.len() - i,
    {
        let json = &components[i];
        let copy = JSONLoad {
            load_type_id: json.load_type_id.clone(),
            actual_value: match &json.actual_value {
                Ok(loader) => Ok(*loader),
                Err(why) => Err(why.clone()),
            },
        };
        proof {
            assert(all.take(i + 1).drop_last() =~= all.take(i as int));
            assert(all.take(i + 1).last() == all[i as int]);
        }
        match CameraTestSceneLoader::map_json_to_loader(copy) {
            Ok(loader) => {
                loader.load_component(&mut entity);
            },
            Err(error) => {
                proof {
                    lemma_entity_error_stays(all, i as int + 1);
                }
                return Err(error);
            },
        }
        i += 1;
    }
    proof {
        assert(all.take(components.len() as int) =~= all);
    }
    Ok(entity)
}

/// Once a description has led to an error, longer lists lead to the same one.
pub proof fn lemma_entity_error_stays(
    components: Seq<(Seq<char>, Result<ComponentLoader, Seq<char>>)>,
    n: int,
)
    requires
        0 <= n <= components.len(),
        entity_outcome(components.take(n)) is Err,
    ensures
        entity_outcome(components) == entity_outcome(components.take(n)),
    decreases components.len() - n,
{
    if n < components.len() {
        assert(components.take(n + 1).drop_last() =~= components.take(n));
        lemma_entity_error_stays(components, n + 1);
    } else {
        assert(components.take(n) =~= components);
    }
}

/// The mathematical content of a list of descriptions of scenes.
pub open spec fn scene_loads(scenes: Seq<JSONLoad<CameraTestSceneJSON>>) -> Seq<
    (Seq<char>, Result<Seq<Seq<char>>, Seq<char>>),
> {
    scenes.map_values(
        |json: JSONLoad<CameraTestSceneJSON>| (json.load_type_id@, scene_payload(json.actual_value)),
    )
}

/// How one described scene is loaded: as the demo's scene, or not at all,
/// failing with the reason why the description led to no loader.
pub open spec fn described_scene_plan(
    scene: (Seq<char>, Result<Seq<Seq<char>>, Seq<char>>),
) -> Plan {
    match scene_outcome(scene.0, scene.1) {
        Ok(paths) => scene_plan(paths),
        Err(error) => Plan::Failed(error),
    }
}

/// How the scenes described by `scenes` are loaded into a stack: starting
/// from the empty stack, each scene in turn is loaded and put on top.
pub open spec fn stack_plan(scenes: Seq<(Seq<char>, Result<Seq<Seq<char>>, Seq<char>>)>) -> Plan
    decreases scenes.len(),
{
    if scenes.len() == 0 {
        Plan::Ready(LoadedModel::SceneStack(Seq::empty()))
    } else {
        Plan::Mapped(
            Box::new(
                Plan::Joined(
                    Box::new(stack_plan(scenes.drop_last())),
                    Box::new(described_scene_plan(scenes.last())),
                    Merge::Pair,
                ),
            ),
            Step::PushScene,
        )
    }
}

/// How the globals of the demo are loaded: the texture dictionary and the
/// camera, in no order that matters, each put into the world.
pub open spec fn globals_plan() -> Plan {
    Plan::Joined(
        Box::new(
            Plan::Mapped(
                Box::new(Plan::Load(SourceModel::TextureDict(texture_dict_path_text()))),
                Step::InsertTextureDict,
            ),
        ),
        Box::new(
            Plan::Mapped(
                Box::new(Plan::Load(SourceModel::Camera(camera_path_text()))),
                Step::InsertCamera,
            ),
        ),
        Merge::Discard,
    )
}

/// How the demo is loaded: the globals first, then the scenes.
pub open spec fn load_plan(scenes: Seq<(Seq<char>, Result<Seq<Seq<char>>, Seq<char>>)>) -> Plan {
    Plan::Sequenced(Box::new(globals_plan()), Box::new(stack_plan(scenes)))
}

/// Where the texture dictionary is described.
pub open spec fn texture_dict_path_text() -> Seq<char> {
    LOAD_PATH@ + CAMERA_TEST_ID@ + "/"@ + TEXTURE_DICT_LOAD_ID@ + JSON_FILE@
}

/// Where the camera is described.
pub open spec fn camera_path_text() -> Seq<char> {
    LOAD_PATH@ + CAMERA_TEST_ID@ + "/"@ + ORTHOGRAPHIC_CAMERA_LOAD_ID@ + JSON_FILE@
}

/// Where the scenes are listed.
pub open spec fn scene_stack_path_text() -> Seq<char> {
    LOAD_PATH@ + CAMERA_TEST_ID@ + "/"@ + SCENES_DIR@ + SCENE_STACK_FILE_ID@ + JSON_FILE@
}

/// Where the texture dictionary is described.
pub fn texture_dict_path() -> (path: String)
    ensures
        path@ == texture_dict_path_text(),
{
    String::from_str(LOAD_PATH).concat(CAMERA_TEST_ID).concat("/").concat(
        TEXTURE_DICT_LOAD_ID,
    ).concat(JSON_FILE)
}

/// Where the camera is described.
pub fn camera_path() -> (path: String)
    ensures
        path@ == camera_path_text(),
{
    String::from_str(LOAD_PATH).concat(CAMERA_TEST_ID).concat("/").concat(
        ORTHOGRAPHIC_CAMERA_LOAD_ID,
    ).concat(JSON_FILE)
}

/// Where the scenes are listed.
pub fn scene_stack_path() -> (path: String)
    ensures
        path@ == scene_stack_path_text(),
{
    String::from_str(LOAD_PATH).concat(CAMERA_TEST_ID).concat("/").concat(SCENES_DIR).concat(
        SCENE_STACK_FILE_ID,
    ).concat(JSON_FILE)
}

/// The task that loads the scenes described by `scenes` into a stack, the
/// last one on top. A description that leads to no loader makes the task
/// fail when it is run.
pub fn scene_stack_task(scenes: Vec<JSONLoad<CameraTestSceneJSON>>) -> (task: Task)
    ensures
        task@ == stack_plan(scene_loads(scenes@)),
    decreases scenes.len(),
{
    let ghost all = scene_loads(scenes@);
    let mut scenes = scenes;
    match scenes.pop() {
        None => {
            let task = Task::ready(Loaded::SceneStack(SceneStack::new()));
            proof {
                reveal_with_fuel(plan_of, 2);
            }
            task
        },
        Some(last) => {
            let ghost last_load = (last.load_type_id@, scene_payload(last.actual_value));
            let scene = match TestGameWrapper::scene_factory(last) {
                Ok(loader) => loader.load_scene(),
                Err(error) => Task::failed(error),
            };
            let below = scene_stack_task(scenes);
            let task = below.join(scene, Merge::Pair).map(Step::PushScene);
            proof {
                reveal_with_fuel(plan_of, 3);
                assert(all.drop_last() =~= scene_loads(scenes@));
                assert(all.last() == last_load);
            }
            task
        },
    }
}

/// The demo: what it registers and how it loads.
pub struct TestGameWrapper;

impl TestGameWrapper {
    /// The loader for the scene that `json` describes.
    pub fn scene_factory(json: JSONLoad<CameraTestSceneJSON>) -> (made: Result<
        CameraTestSceneLoader,
        EngineError,
    >)
        ensures
            match scene_outcome(json.load_type_id@, scene_payload(json.actual_value)) {
                Ok(paths) => made is Ok && made->Ok_0.config()@ == paths,
                Err(error) => made is Err && made->Err_0@ == error,
            },
    {
        if !is_id(&json.load_type_id, CAMERA_TEST_SCENE_ID) {
            return Err(EngineError::UnknownLoadType(json.load_type_id));
        }
        match json.actual_value {
            Ok(config) => Ok(CameraTestSceneLoader::new(config)),
            Err(why) => Err(EngineError::DeserializationError(why)),
        }
    }

    /// The task that loads the demo: the texture dictionary and the camera
    /// are loaded and put into the world, and only then the scenes described
    /// by `scenes`, which may rely on both.
    pub fn load(scenes: Vec<JSONLoad<CameraTestSceneJSON>>) -> (task: Task)
        ensures
            task@ == load_plan(scene_loads(scenes@)),
    {
        let td_task = Task::leaf(Source::TextureDict(texture_dict_path())).map(
            Step::InsertTextureDict,
        );
        let camera_task = Task::leaf(Source::Camera(camera_path())).map(Step::InsertCamera);
        let task = td_task.join(camera_task, Merge::Discard).sequence(scene_stack_task(scenes));
        proof {
            reveal_with_fuel(plan_of, 4);
        }
        task
    }

    /// Registers the kinds of component that the demo's entities carry.
    pub fn register_components(ecs: &mut World)
        ensures
            final(ecs)@ == (WorldModel {
                textures_registered: true,
                transforms_registered: true,
                ..old(ecs)@
            }),
    {
        ecs.register(ComponentKind::Texture);
        ecs.register(ComponentKind::Transform);
    }
}

/// The load of the demo yields a scene stack only with both globals in the
/// world: if a run of it succeeds, the world holds a texture dictionary and a
/// camera afterwards, whatever the outside handed in and whatever the scenes.
/// They were there before the first scene was begun, for the scenes are the
/// second part of a sequence and no run takes anything out of the world.
pub proof fn lemma_loaded_world_has_globals<F>(
    task: Task,
    scenes: Seq<(Seq<char>, Result<Seq<Seq<char>>, Seq<char>>)>,
    pre: World,
    post: World,
    out: Result<Loaded, EngineError>,
    source: F,
) where F: Fn(&Source, Loaded, &World) -> Result<Loaded, EngineError>
    requires
        task@ == load_plan(scenes),
        runs(task, Loaded::Unit, pre, post, out, source),
        out is Ok,
    ensures
        post@.texture_dict is Some,
        post@.camera is Some,
{
    reveal_with_fuel(plan_of, 4);
    reveal_with_fuel(runs, 4);
    match task {
        Task::Sequenced(globals, stack) => {
            let (mid, got) = choose|mid: World, got: Result<Loaded, EngineError>|
                #![trigger passed_on(got, mid, post, out)]
                runs(*globals, Loaded::Unit, pre, mid, got, source) && passed_on(
                    got,
                    mid,
                    post,
                    out,
                ) && (got is Ok ==> runs(*stack, Loaded::Unit, mid, post, out, source));
            assert(got is Ok);
            lemma_run_only_adds(*stack, Loaded::Unit, mid, post, out, source);
            match *globals {
                Task::Joined(left, right, merge) => {
                    let (between, l, r) = choose|
                        between: World,
                        l: Result<Loaded, EngineError>,
                        r: Result<Loaded, EngineError>,
                    |
                        #![trigger joined(merge, l, r, got), midway(between)]
                        midway(between) && runs(*left, Loaded::Unit, pre, between, l, source)
                            && runs(*right, Loaded::Unit, between, mid, r, source) && joined(
                            merge,
                            l,
                            r,
                            got,
                        );
                    assert(l is Ok && r is Ok);
                    match (*left, *right) {
                        (Task::Mapped(dict_leaf, dict_step), Task::Mapped(camera_leaf, camera_step)) => {
                            let (w1, g1) = choose|w1: World, g1: Result<Loaded, EngineError>|
                                #![trigger stepped(dict_step, g1, w1, between, l)]
                                runs(*dict_leaf, Loaded::Unit, pre, w1, g1, source) && stepped(
                                    dict_step,
                                    g1,
                                    w1,
                                    between,
                                    l,
                                );
                            let (w2, g2) = choose|w2: World, g2: Result<Loaded, EngineError>|
                                #![trigger stepped(camera_step, g2, w2, mid, r)]
                                runs(*camera_leaf, Loaded::Unit, between, w2, g2, source)
                                    && stepped(camera_step, g2, w2, mid, r);
                            assert(w2 == between);
                            assert(between@.texture_dict is Some);
                            assert(mid@.camera is Some);
                            assert(mid@.texture_dict is Some);
                        },
                        _ => {
                            assert(false);
                        },
                    }
                },
                _ => {
                    assert(false);
                },
            }
        },
        _ => {
            assert(false);
        },
    }
}

} // verus!
