use vstd::prelude::*;
use vstd::string::*;
use crate::error::{EngineError, ErrorModel};
use crate::scene::{CameraTestScene, SceneStack, SpriteRenderer};
use crate::world::{Camera, Entity, TextureDict, World, WorldModel};

verus! {

/// A value that a task hands on.
#[derive(Debug, PartialEq, Eq)]
pub enum Loaded {
    Unit,
    TextureDict(TextureDict),
    Camera(Camera),
    Renderer(SpriteRenderer),
    Entities(Vec<Entity>),
    Scene(CameraTestScene),
    SceneStack(SceneStack),
    Pair(Box<Loaded>, Box<Loaded>),
}

/// The mathematical content of a [`Loaded`].
pub enum LoadedModel {
    Unit,
    TextureDict(Seq<u64>),
    Camera(Camera),
    Renderer(SpriteRenderer),
    Entities(Seq<Entity>),
    Scene(CameraTestScene),
    SceneStack(Seq<CameraTestScene>),
    Pair(Box<LoadedModel>, Box<LoadedModel>),
}

/// The mathematical content of `value`.
pub open spec fn model_of(value: Loaded) -> LoadedModel
    decreases value,
{
    match value {
        Loaded::Unit => LoadedModel::Unit,
        Loaded::TextureDict(dict) => LoadedModel::TextureDict(dict@),
        Loaded::Camera(camera) => LoadedModel::Camera(camera),
        Loaded::Renderer(renderer) => LoadedModel::Renderer(renderer),
        Loaded::Entities(entities) => LoadedModel::Entities(entities@),
        Loaded::Scene(scene) => LoadedModel::Scene(scene),
        Loaded::SceneStack(stack) => LoadedModel::SceneStack(stack@),
        Loaded::Pair(left, right) => LoadedModel::Pair(
            Box::new(model_of(*left)),
            Box::new(model_of(*right)),
        ),
    }
}

impl View for Loaded {
    type V = LoadedModel;

    open spec fn view(&self) -> LoadedModel {
        model_of(*self)
    }
}

/// The mathematical content of what a task or a step ends with.
pub open spec fn outcome_model(out: Result<Loaded, EngineError>) -> Result<
    LoadedModel,
    ErrorModel,
> {
    match out {
        Ok(value) => Ok(value@),
        Err(error) => Err(error@),
    }
}

/// What a leaf asks the outside for.
#[derive(Debug, Clone, PartialEq, Eq)]
pub enum Source {
    /// The texture dictionary described at the path.
    TextureDict(String),
    /// The camera described at the path.
    Camera(String),
    /// The renderer with its default settings.
    DefaultRenderer,
    /// The entities described at the paths, paired with the value handed in.
    Entities(Vec<String>),
}

/// The texts of a list of strings.
pub open spec fn texts(strings: Seq<String>) -> Seq<Seq<char>> {
    strings.map_values(|s: String| s@)
}

/// The mathematical content of a [`Source`].
pub enum SourceModel {
    TextureDict(Seq<char>),
    Camera(Seq<char>),
    DefaultRenderer,
    Entities(Seq<Seq<char>>),
}

impl View for Source {
    type V = SourceModel;

    open spec fn view(&self) -> SourceModel {
        match self {
            Source::TextureDict(path) => SourceModel::TextureDict(path@),
            Source::Camera(path) => SourceModel::Camera(path@),
            Source::DefaultRenderer => SourceModel::DefaultRenderer,
            Source::Entities(paths) => SourceModel::Entities(texts(paths@)),
        }
    }
}

/// A leaf of a task: work for the outside, or an outcome that is known
/// already.
#[derive(Debug, PartialEq, Eq)]
pub enum Leaf {
    Load(Source),
    Ready(Loaded),
    Failed(EngineError),
}

/// What can be done with a value and the world once the value is there.
#[derive(Debug, Clone, Copy, PartialEq, Eq, Structural)]
pub enum Step {
    /// Puts a texture dictionary into the world.
    InsertTextureDict,
    /// Puts a camera into the world.
    InsertCamera,
    /// Takes a value paired with entities, adds the entities to the world
    /// and hands the value on.
    SpawnEntities,
    /// Makes the scene of the demo around a renderer.
    BuildScene,
    /// Takes a scene stack paired with a scene and puts the scene on top.
    PushScene,
}

/// How the two values of a join become one.
#[derive(Debug, Clone, Copy, PartialEq, Eq, Structural)]
pub enum Merge {
    /// Both are dropped.
    Discard,
    /// Both are kept, as a pair.
    Pair,
}

/// A deferred piece of loading: a description of what to run, which does
/// nothing until it is run, and is used up by that.
#[derive(Debug, PartialEq, Eq)]
pub enum Task {
    Leaf(Leaf),
    /// The task, then the step on its value.
    Mapped(Box<Task>, Step),
    /// Both tasks, then the merge of their values.
    Joined(Box<Task>, Box<Task>, Merge),
    /// The first task for its effect on the world, then the second.
    Sequenced(Box<Task>, Box<Task>),
    /// The first task, then the second with the value of the first handed in.
    Serialized(Box<Task>, Box<Task>),
}

/// The mathematical content of a [`Task`]: the same tree, over the content of
/// what its leaves hold.
pub enum Plan {
    Load(SourceModel),
    Ready(LoadedModel),
    Failed(ErrorModel),
    Mapped(Box<Plan>, Step),
    Joined(Box<Plan>, Box<Plan>, Merge),
    Sequenced(Box<Plan>, Box<Plan>),
    Serialized(Box<Plan>, Box<Plan>),
}

/// The mathematical content of `task`.
pub open spec fn plan_of(task: Task) -> Plan
    decreases task,
{
    match task {
        Task::Leaf(Leaf::Load(what)) => Plan::Load(what@),
        Task::Leaf(Leaf::Ready(value)) => Plan::Ready(value@),
        Task::Leaf(Leaf::Failed(error)) => Plan::Failed(error@),
        Task::Mapped(inner, step) => Plan::Mapped(Box::new(plan_of(*inner)), step),
        Task::Joined(left, right, merge) => Plan::Joined(
            Box::new(plan_of(*left)),
            Box::new(plan_of(*right)),
            merge,
        ),
        Task::Sequenced(first, second) => Plan::Sequenced(
            Box::new(plan_of(*first)),
            Box::new(plan_of(*second)),
        ),
        Task::Serialized(first, second) => Plan::Serialized(
            Box::new(plan_of(*first)),
            Box::new(plan_of(*second)),
        ),
    }
}

impl View for Task {
    type V = Plan;

    open spec fn view(&self) -> Plan {
        plan_of(*self)
    }
}

impl Task {
    /// The task that asks the outside for `what`.
    pub fn leaf(what: Source) -> (task: Task)
        ensures
            task == Task::Leaf(Leaf::Load(what)),
    {
        Task::Leaf(Leaf::Load(what))
    }

    /// The task that ends with `value` at once.
    pub fn ready(value: Loaded) -> (task: Task)
        ensures
            task == Task::Leaf(Leaf::Ready(value)),
    {
        Task::Leaf(Leaf::Ready(value))
    }

    /// The task that fails with `error` at once.
    pub fn failed(error: EngineError) -> (task: Task)
        ensures
            task == Task::Leaf(Leaf::Failed(error)),
    {
        Task::Leaf(Leaf::Failed(error))
    }

    /// `self`, then `step` on its value.
    pub fn map(self, step: Step) -> (task: Task)
        ensures
            task == Task::Mapped(Box::new(self), step),
    {
        Task::Mapped(Box::new(self), step)
    }

    /// `self` and `other`, then `merge` on their values.
    pub fn join(self, other: Task, merge: Merge) -> (task: Task)
        ensures
            task == Task::Joined(Box::new(self), Box::new(other), merge),
    {
        Task::Joined(Box::new(self), Box::new(other), merge)
    }

    /// `self` for what it does to the world, then `other`.
    pub fn sequence(self, other: Task) -> (task: Task)
        ensures
            task == Task::Sequenced(Box::new(self), Box::new(other)),
    {
        Task::Sequenced(Box::new(self), Box::new(other))
    }

    /// `self`, then `other` on the value of `self`.
    pub fn serialize(self, other: Task) -> (task: Task)
        ensures
            task == Task::Serialized(Box::new(self), Box::new(other)),
    {
        Task::Serialized(Box::new(self), Box::new(other))
    }
}

/// What a step says it lacks when the value handed to it is of another kind.
pub open spec fn step_needs(step: Step) -> Seq<char> {
    match step {
        Step::InsertTextureDict => "texture dictionary"@,
        Step::InsertCamera => "camera"@,
        Step::SpawnEntities => "entities"@,
        Step::BuildScene => "renderer"@,
        Step::PushScene => "scene stack and scene"@,
    }
}

/// The world and the outcome after `step` on `value` in `world`.
pub open spec fn step_outcome(step: Step, value: LoadedModel, world: WorldModel) -> (
    WorldModel,
    Result<LoadedModel, ErrorModel>,
) {
    let refused = (world, Err::<LoadedModel, ErrorModel>(ErrorModel::MissingRequiredResource(step_needs(step))));
    match step {
        Step::InsertTextureDict => match value {
            LoadedModel::TextureDict(dict) => (
                WorldModel { texture_dict: Some(dict), ..world },
                Ok(LoadedModel::Unit),
            ),
            _ => refused,
        },
        Step::InsertCamera => match value {
            LoadedModel::Camera(camera) => (
                WorldModel { camera: Some(camera), ..world },
                Ok(LoadedModel::Unit),
            ),
            _ => refused,
        },
        Step::SpawnEntities => match value {
            LoadedModel::Pair(kept, added) => match *added {
                LoadedModel::Entities(entities) => if world.admits_all(entities) {
                    (WorldModel { entities: world.entities + entities, ..world }, Ok(*kept))
                } else {
                    (
                        world,
                        Err(
                            ErrorModel::MissingRequiredResource(
                                "component kind not registered"@,
                            ),
                        ),
                    )
                },
                _ => refused,
            },
            _ => refused,
        },
        Step::BuildScene => match value {
            LoadedModel::Renderer(renderer) => (
                world,
                Ok(LoadedModel::Scene(CameraTestScene::fresh(renderer))),
            ),
            _ => refused,
        },
        Step::PushScene => match value {
            LoadedModel::Pair(below, top) => match (*below, *top) {
                (LoadedModel::SceneStack(scenes), LoadedModel::Scene(scene)) => (
                    world,
                    Ok(LoadedModel::SceneStack(scenes.push(scene))),
                ),
                _ => refused,
            },
            _ => refused,
        },
    }
}

/// The value that `merge` makes of two.
pub open spec fn merged(merge: Merge, left: LoadedModel, right: LoadedModel) -> LoadedModel {
    match merge {
        Merge::Discard => LoadedModel::Unit,
        Merge::Pair => LoadedModel::Pair(Box::new(left), Box::new(right)),
    }
}

/// The error of a step that was handed a value of the wrong kind.
fn refuse(step: Step) -> (error: EngineError)
    ensures
        error@ == ErrorModel::MissingRequiredResource(step_needs(step)),
{
    match step {
        Step::InsertTextureDict => EngineError::MissingRequiredResource(
            String::from_str("texture dictionary"),
        ),
        Step::InsertCamera => EngineError::MissingRequiredResource(String::from_str("camera")),
        Step::SpawnEntities => EngineError::MissingRequiredResource(String::from_str("entities")),
        Step::BuildScene => EngineError::MissingRequiredResource(String::from_str("renderer")),
        Step::PushScene => EngineError::MissingRequiredResource(
            String::from_str("scene stack and scene"),
        ),
    }
}

/// Does `step` with `value` in `world`.
pub fn apply_step(step: Step, value: Loaded, world: &mut World) -> (out: Result<
    Loaded,
    EngineError,
>)
    ensures
        (final(world)@, outcome_model(out)) == step_outcome(step, value@, old(world)@),
{
    proof {
        reveal_with_fuel(model_of, 3);
    }
    match step {
        Step::InsertTextureDict => match value {
            Loaded::TextureDict(dict) => {
                world.insert_texture_dict(dict);
                Ok(Loaded::Unit)
            },
            _ => Err(refuse(step)),
        },
        Step::InsertCamera => match value {
            Loaded::Camera(camera) => {
                world.insert_camera(camera);
                Ok(Loaded::Unit)
            },
            _ => Err(refuse(step)),
        },
        Step::SpawnEntities => match value {
            Loaded::Pair(kept, added) => match *added {
                Loaded::Entities(entities) => match world.spawn_all(entities) {
                    Ok(()) => Ok(*kept),
                    Err(error) => Err(error),
                },
                _ => Err(refuse(step)),
            },
            _ => Err(refuse(step)),
        },
        Step::BuildScene => match value {
            Loaded::Renderer(renderer) => Ok(Loaded::Scene(CameraTestScene::new(renderer))),
            _ => Err(refuse(step)),
        },
        Step::PushScene => match value {
            Loaded::Pair(below, top) => match (*below, *top) {
                (Loaded::SceneStack(stack), Loaded::Scene(scene)) => {
                    let mut stack = stack;
                    stack.push(scene);
                    Ok(Loaded::SceneStack(stack))
                },
                _ => Err(refuse(step)),
            },
            _ => Err(refuse(step)),
        },
    }
}

/// Makes one value of two.
pub fn merge_values(merge: Merge, left: Loaded, right: Loaded) -> (both: Loaded)
    ensures
        both@ == merged(merge, left@, right@),
{
    match merge {
        Merge::Discard => Loaded::Unit,
        Merge::Pair => Loaded::Pair(Box::new(left), Box::new(right)),
    }
}

/// Whether `out` and the world `post` are what `step` makes of the outcome
/// `got` of the task before it, which left the world `mid`. A failed task is
/// passed on as it is, and the step is not done.
pub open spec fn stepped(
    step: Step,
    got: Result<Loaded, EngineError>,
    mid: World,
    post: World,
    out: Result<Loaded, EngineError>,
) -> bool {
    match got {
        Ok(value) => (post@, outcome_model(out)) == step_outcome(step, value@, mid@),
        Err(error) => post == mid && out == Err::<Loaded, EngineError>(error),
    }
}

/// Whether a failure `got` of the first part of a task has ended the task: the
/// world `post` is as that part left it, `mid`, and `out` is its error.
/// Nothing is said of a first part that succeeded.
pub open spec fn passed_on(
    got: Result<Loaded, EngineError>,
    mid: World,
    post: World,
    out: Result<Loaded, EngineError>,
) -> bool {
    got matches Err(error) ==> post == mid && out == Err::<Loaded, EngineError>(error)
}

/// Holds of every world. It marks, in what follows, the world that the left
/// side of a join has left.
pub open spec fn midway(mid: World) -> bool {
    true
}

/// Whether `out` is what a join with `merge` makes of the outcomes of its two
/// sides: their merged values if both succeeded, else the error of the left
/// side if it failed, else that of the right.
pub open spec fn joined(
    merge: Merge,
    left: Result<Loaded, EngineError>,
    right: Result<Loaded, EngineError>,
    out: Result<Loaded, EngineError>,
) -> bool {
    match left {
        Ok(a) => match right {
            Ok(b) => out is Ok && out->Ok_0@ == merged(merge, a@, b@),
            Err(error) => out == Err::<Loaded, EngineError>(error),
        },
        Err(error) => out == Err::<Loaded, EngineError>(error),
    }
}

/// Whether running `task` on `input` in the world `pre` can leave the world
/// `post` and end with `out`, where `source` does the work of the leaves.
///
/// A leaf leaves the world as it is. Every other task runs its first part to
/// the end before anything else, and what follows starts in the world that
/// the first part left.
pub open spec fn runs<F>(
    task: Task,
    input: Loaded,
    pre: World,
    post: World,
    out: Result<Loaded, EngineError>,
    source: F,
) -> bool where F: Fn(&Source, Loaded, &World) -> Result<Loaded, EngineError>
    decreases task,
{
    match task {
        Task::Leaf(Leaf::Load(what)) => post == pre && call_ensures(
            source,
            (&what, input, &pre),
            out,
        ),
        Task::Leaf(Leaf::Ready(value)) => post == pre && out == Ok::<Loaded, EngineError>(value),
        Task::Leaf(Leaf::Failed(error)) => post == pre && out == Err::<Loaded, EngineError>(
            error,
        ),
        Task::Mapped(inner, step) => exists|mid: World, got: Result<Loaded, EngineError>|
            #![trigger stepped(step, got, mid, post, out)]
            runs(*inner, input, pre, mid, got, source) && stepped(step, got, mid, post, out),
        Task::Joined(left, right, merge) => exists|
            mid: World,
            l: Result<Loaded, EngineError>,
            r: Result<Loaded, EngineError>,
        |
            #![trigger joined(merge, l, r, out), midway(mid)]
            midway(mid) && runs(*left, input, pre, mid, l, source) && runs(
                *right,
                Loaded::Unit,
                mid,
                post,
                r,
                source,
            ) && joined(merge, l, r, out),
        Task::Sequenced(first, second) => exists|mid: World, got: Result<Loaded, EngineError>|
            #![trigger passed_on(got, mid, post, out)]
            runs(*first, input, pre, mid, got, source) && passed_on(got, mid, post, out) && (got
                is Ok ==> runs(*second, Loaded::Unit, mid, post, out, source)),
        Task::Serialized(first, second) => exists|mid: World, got: Result<Loaded, EngineError>|
            #![trigger passed_on(got, mid, post, out)]
            runs(*first, input, pre, mid, got, source) && passed_on(got, mid, post, out) && (got
                matches Ok(value) ==> runs(*second, value, mid, post, out, source)),
    }
}

/// Runs `task` once on `input` against `world`, and uses it up. `source` is
/// called for each leaf that asks the outside for a value, when the run comes
/// to it, with what the leaf asks for, the value handed in and the world as
/// it then is.
///
/// The first failure ends what depends on it: a step is not done on a failed
/// task, and the second part of a sequence is not begun after a failed first
/// part. Both sides of a join are run, the left one first. What was done to
/// the world before a failure stays done.
pub fn run<F>(task: Task, input: Loaded, world: &mut World, source: &F) -> (out: Result<
    Loaded,
    EngineError,
>) where F: Fn(&Source, Loaded, &World) -> Result<Loaded, EngineError>
    requires
        forall|what: &Source, value: Loaded, seen: &World|
            call_requires(*source, (what, value, seen)),
    ensures
        runs(task, input, *old(world), *final(world), out, *source),
    decreases task,
{
    let ghost pre = *world;
    match task {
        Task::Leaf(leaf) => match leaf {
            Leaf::Load(what) => source(&what, input, &*world),
            Leaf::Ready(value) => Ok(value),
            Leaf::Failed(error) => Err(error),
        },
        Task::Mapped(inner, step) => {
            let got = run(*inner, input, world, source);
            let ghost mid = *world;
            let ghost got_before = got;
            let out = match got {
                Ok(value) => apply_step(step, value, world),
                Err(error) => Err(error),
            };
            assert(stepped(step, got_before, mid, *world, out));
            out
        },
        Task::Joined(left, right, merge) => {
            let l = run(*left, input, world, source);
            let ghost mid = *world;
            let r = run(*right, Loaded::Unit, world, source);
            let ghost l_before = l;
            let ghost r_before = r;
            let out = match l {
                Ok(a) => match r {
                    Ok(b) => Ok(merge_values(merge, a, b)),
                    Err(error) => Err(error),
                },
                Err(error) => Err(error),
            };
            assert(joined(merge, l_before, r_before, out) && midway(mid));
            out
        },
        Task::Sequenced(first, second) => {
            let got = run(*first, input, world, source);
            let ghost mid = *world;
            let ghost got_before = got;
            let out = match got {
                Ok(_) => run(*second, Loaded::Unit, world, source),
                Err(error) => Err(error),
            };
            assert(passed_on(got_before, mid, *world, out));
            out
        },
        Task::Serialized(first, second) => {
            let got = run(*first, input, world, source);
            let ghost mid = *world;
            let ghost got_before = got;
            let out = match got {
                Ok(value) => run(*second, value, world, source),
                Err(error) => Err(error),
            };
            assert(passed_on(got_before, mid, *world, out));
            out
        },
    }
}

/// A join succeeds exactly if both of its sides succeed. If the left side
/// fails, the join fails with the error of the left side; if only the right
/// side fails, with that of the right side. The right side starts in the
/// world that the left side left.
pub proof fn lemma_join_succeeds_iff_both<F>(
    left: Task,
    right: Task,
    merge: Merge,
    input: Loaded,
    pre: World,
    post: World,
    out: Result<Loaded, EngineError>,
    source: F,
) where F: Fn(&Source, Loaded, &World) -> Result<Loaded, EngineError>
    requires
        runs(Task::Joined(Box::new(left), Box::new(right), merge), input, pre, post, out, source),
    ensures
        exists|mid: World, l: Result<Loaded, EngineError>, r: Result<Loaded, EngineError>|
            #![trigger joined(merge, l, r, out), midway(mid)]
            runs(left, input, pre, mid, l, source) && runs(right, Loaded::Unit, mid, post, r, source)
                && (out is Ok <==> l is Ok && r is Ok) && (l matches Err(error) ==> out == Err::<
                Loaded,
                EngineError,
            >(error)) && (l is Ok ==> (r matches Err(error) ==> out == Err::<Loaded, EngineError>(
                error,
            ))) && (l matches Ok(a) ==> (r matches Ok(b) ==> out->Ok_0@ == merged(merge, a@, b@))),
{
    let (mid, l, r) = choose|
        mid: World,
        l: Result<Loaded, EngineError>,
        r: Result<Loaded, EngineError>,
    |
        #![trigger joined(merge, l, r, out), midway(mid)]
        midway(mid) && runs(left, input, pre, mid, l, source) && runs(
            right,
            Loaded::Unit,
            mid,
            post,
            r,
            source,
        ) && joined(merge, l, r, out);
    assert(joined(merge, l, r, out) && midway(mid));
}

/// The second part of a sequence starts in the world that the first part
/// left, whatever the first part did to it. After a failed first part the
/// second is not run: the world stays as the first part left it and the
/// sequence fails with the error of the first part.
pub proof fn lemma_sequence_hands_world_on<F>(
    first: Task,
    second: Task,
    input: Loaded,
    pre: World,
    post: World,
    out: Result<Loaded, EngineError>,
    source: F,
) where F: Fn(&Source, Loaded, &World) -> Result<Loaded, EngineError>
    requires
        runs(Task::Sequenced(Box::new(first), Box::new(second)), input, pre, post, out, source),
    ensures
        exists|mid: World, got: Result<Loaded, EngineError>|
            #![trigger passed_on(got, mid, post, out)]
            runs(first, input, pre, mid, got, source) && (got is Ok ==> runs(
                second,
                Loaded::Unit,
                mid,
                post,
                out,
                source,
            )) && (got matches Err(error) ==> post == mid && out == Err::<Loaded, EngineError>(
                error,
            )),
{
    let (mid, got) = choose|mid: World, got: Result<Loaded, EngineError>|
        #![trigger passed_on(got, mid, post, out)]
        runs(first, input, pre, mid, got, source) && passed_on(got, mid, post, out) && (got is Ok
            ==> runs(second, Loaded::Unit, mid, post, out, source));
    assert(passed_on(got, mid, post, out));
}

/// A mapped task does its step once, on the value of the task before it and
/// in the world that the latter left. If the task before it failed, the step
/// is not done and the error is passed on.
pub proof fn lemma_map_steps_once<F>(
    inner: Task,
    step: Step,
    input: Loaded,
    pre: World,
    post: World,
    out: Result<Loaded, EngineError>,
    source: F,
) where F: Fn(&Source, Loaded, &World) -> Result<Loaded, EngineError>
    requires
        runs(Task::Mapped(Box::new(inner), step), input, pre, post, out, source),
    ensures
        exists|mid: World, got: Result<Loaded, EngineError>|
            #![trigger stepped(step, got, mid, post, out)]
            runs(inner, input, pre, mid, got, source) && (got matches Ok(value) ==> (
                post@,
                outcome_model(out),
            ) == step_outcome(step, value@, mid@)) && (got matches Err(error) ==> post == mid
                && out == Err::<Loaded, EngineError>(error)),
{
    let (mid, got) = choose|mid: World, got: Result<Loaded, EngineError>|
        #![trigger stepped(step, got, mid, post, out)]
        runs(inner, input, pre, mid, got, source) && stepped(step, got, mid, post, out);
    assert(stepped(step, got, mid, post, out));
}

/// A step that fails ends what follows it in a sequence: the sequence fails
/// with the error of the step, and the world is as the step left it, so that
/// nothing of `rest` has been run.
pub proof fn lemma_failed_step_ends_sequence<F>(
    inner: Task,
    step: Step,
    rest: Task,
    input: Loaded,
    pre: World,
    post: World,
    out: Result<Loaded, EngineError>,
    source: F,
) where F: Fn(&Source, Loaded, &World) -> Result<Loaded, EngineError>
    requires
        runs(
            Task::Sequenced(Box::new(Task::Mapped(Box::new(inner), step)), Box::new(rest)),
            input,
            pre,
            post,
            out,
            source,
        ),
    ensures
        exists|mid: World, got: Result<Loaded, EngineError>|
            #![trigger stepped(step, got, mid, post, out)]
            runs(inner, input, pre, mid, got, source) && (got matches Ok(value) ==> step_outcome(
                step,
                value@,
                mid@,
            ).1 is Err ==> stepped(step, got, mid, post, out)),
{
    reveal_with_fuel(runs, 2);
    let mapped = Task::Mapped(Box::new(inner), step);
    let (after, stepped_to) = choose|after: World, stepped_to: Result<Loaded, EngineError>|
        #![trigger passed_on(stepped_to, after, post, out)]
        runs(mapped, input, pre, after, stepped_to, source) && passed_on(
            stepped_to,
            after,
            post,
            out,
        ) && (stepped_to is Ok ==> runs(rest, Loaded::Unit, after, post, out, source));
    let (mid, got) = choose|mid: World, got: Result<Loaded, EngineError>|
        #![trigger stepped(step, got, mid, after, stepped_to)]
        runs(inner, input, pre, mid, got, source) && stepped(step, got, mid, after, stepped_to);
    if stepped(step, got, mid, post, out) {
        // The pair is a witness whether or not the step failed.
    } else if got is Ok && step_outcome(step, got->Ok_0@, mid@).1 is Err {
        assert(stepped_to is Err);
        assert(false);
    }
}

/// Whether the world `post` holds all that `pre` held: a global that was
/// there is still there, though another may have taken its place; the
/// entities of `pre` come first in `post`, unchanged; and the same kinds of
/// component are registered.
pub open spec fn grown_from(pre: WorldModel, post: WorldModel) -> bool {
    &&& pre.texture_dict is Some ==> post.texture_dict is Some
    &&& pre.camera is Some ==> post.camera is Some
    &&& pre.entities.is_prefix_of(post.entities)
    &&& post.textures_registered == pre.textures_registered
    &&& post.transforms_registered == pre.transforms_registered
}

/// No step takes anything out of the world.
pub proof fn lemma_step_only_adds(step: Step, value: LoadedModel, world: WorldModel)
    ensures
        grown_from(world, step_outcome(step, value, world).0),
{
}

/// Running a task takes nothing out of the world, whatever the task, whatever
/// the outside hands in, and whether or not the run fails.
pub proof fn lemma_run_only_adds<F>(
    task: Task,
    input: Loaded,
    pre: World,
    post: World,
    out: Result<Loaded, EngineError>,
    source: F,
) where F: Fn(&Source, Loaded, &World) -> Result<Loaded, EngineError>
    requires
        runs(task, input, pre, post, out, source),
    ensures
        grown_from(pre@, post@),
    decreases task,
{
    match task {
        Task::Leaf(_) => {},
        Task::Mapped(inner, step) => {
            let (mid, got) = choose|mid: World, got: Result<Loaded, EngineError>|
                #![trigger stepped(step, got, mid, post, out)]
                runs(*inner, input, pre, mid, got, source) && stepped(step, got, mid, post, out);
            lemma_run_only_adds(*inner, input, pre, mid, got, source);
            if let Ok(value) = got {
                lemma_step_only_adds(step, value@, mid@);
            }
        },
        Task::Joined(left, right, merge) => {
            let (mid, l, r) = choose|
                mid: World,
                l: Result<Loaded, EngineError>,
                r: Result<Loaded, EngineError>,
            |
                #![trigger joined(merge, l, r, out), midway(mid)]
                midway(mid) && runs(*left, input, pre, mid, l, source) && runs(
                    *right,
                    Loaded::Unit,
                    mid,
                    post,
                    r,
                    source,
                ) && joined(merge, l, r, out);
            lemma_run_only_adds(*left, input, pre, mid, l, source);
            lemma_run_only_adds(*right, Loaded::Unit, mid, post, r, source);
        },
        Task::Sequenced(first, second) => {
            let (mid, got) = choose|mid: World, got: Result<Loaded, EngineError>|
                #![trigger passed_on(got, mid, post, out)]
                runs(*first, input, pre, mid, got, source) && passed_on(got, mid, post, out) && (
                got is Ok ==> runs(*second, Loaded::Unit, mid, post, out, source));
            lemma_run_only_adds(*first, input, pre, mid, got, source);
            if got is Ok {
                lemma_run_only_adds(*second, Loaded::Unit, mid, post, out, source);
            }
        },
        Task::Serialized(first, second) => {
            let (mid, got) = choose|mid: World, got: Result<Loaded, EngineError>|
                #![trigger passed_on(got, mid, post, out)]
                runs(*first, input, pre, mid, got, source) && passed_on(got, mid, post, out) && (
                got matches Ok(value) ==> runs(*second, value, mid, post, out, source));
            lemma_run_only_adds(*first, input, pre, mid, got, source);
            if let Ok(value) = got {
                lemma_run_only_adds(*second, value, mid, post, out, source);
            }
        },
    }
}

} // verus!
