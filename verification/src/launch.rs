//! What the launch puts into the world: a camera, an animation clip and the
//! firework's scene.
//!
//! Lengths are counted in thousandths of a world unit and times in
//! thousandths of a second, so that every value here is an exact integer.

use vstd::prelude::*;

verus! {

/// The number of steps in one world unit.
pub const UNIT: i32 = 1000;

/// The number of ticks in one second.
pub const SECOND: u32 = 1000;

/// A point or a direction in the world, each coordinate in steps of a
/// thousandth of a world unit.
#[derive(Clone, Copy, Debug, PartialEq, Eq, Hash, Structural)]
pub struct Vector {
    pub x: i32,
    pub y: i32,
    pub z: i32,
}

/// A camera that stands at `position` and looks at `looking_at`, with `up`
/// pointing to the top of the picture.
#[derive(Clone, Copy, Debug, PartialEq, Eq, Hash, Structural)]
pub struct Camera {
    pub position: Vector,
    pub looking_at: Vector,
    pub up: Vector,
}

/// Where the animated object is at one moment of the clip.
#[derive(Clone, Copy, Debug, PartialEq, Eq, Hash, Structural)]
pub struct Keyframe {
    /// The moment, in ticks from the start of the clip.
    pub time: u32,
    pub translation: Vector,
}

/// One translation track for the object named `target`.
#[derive(Debug, PartialEq, Eq)]
pub struct AnimationClip {
    pub target: &'static str,
    pub keyframes: Vec<Keyframe>,
}

/// The scene to load and how it enters the world.
#[derive(Clone, Copy, Debug, PartialEq, Eq)]
pub struct SceneSpawn {
    /// The scene's file and, behind `#`, the scene's label in that file.
    pub asset: &'static str,
    /// The name by which an animation clip finds the spawned object.
    pub name: &'static str,
    /// Where the object stands before the clip moves it.
    pub translation: Vector,
    /// Whether the object's clip starts over when it has run to its end.
    pub repeat: bool,
}

/// Everything that a launch puts into the world.
#[derive(Debug, PartialEq, Eq)]
pub struct LaunchPlan {
    pub camera: Camera,
    pub clip: AnimationClip,
    pub scene: SceneSpawn,
}

/// The vector with the coordinates `x`, `y` and `z`, each in steps.
pub open spec fn vector(x: int, y: int, z: int) -> Vector {
    Vector { x: x as i32, y: y as i32, z: z as i32 }
}

/// The name of the firework in the world.
pub open spec fn firework_name() -> Seq<char> {
    "firework"@
}

/// The file of the firework's scene, with the scene's label.
pub open spec fn firework_asset() -> Seq<char> {
    "untitled.glb#Scene0"@
}

/// Below the ground, where the firework waits and its clip begins.
pub open spec fn firework_start() -> Vector {
    vector(0, -2 * UNIT, 0)
}

/// Above the ground, where the firework comes to rest.
pub open spec fn firework_rest() -> Vector {
    vector(0, UNIT as int, 0)
}

/// The camera of the launch: off the axes, two units to the left, two and a
/// half up and five back, looking at the origin.
pub open spec fn firework_camera() -> Camera {
    Camera {
        position: vector(-2 * UNIT, 2 * UNIT + UNIT / 2, 5 * UNIT),
        looking_at: vector(0, 0, 0),
        up: vector(0, UNIT as int, 0),
    }
}

/// The firework's track: one keyframe at each full second from zero to
/// four; the first at the start, all others at the rest.
pub open spec fn firework_keyframes() -> Seq<Keyframe> {
    Seq::new(
        5,
        |i: int|
            Keyframe {
                time: (i * SECOND) as u32,
                translation: if i == 0 {
                    firework_start()
                } else {
                    firework_rest()
                },
            },
    )
}

impl AnimationClip {
    /// The keyframes stand in the order of their times, no two at one time.
    pub open spec fn well_formed(&self) -> bool {
        forall|i: int, j: int|
            0 <= i < j < self.keyframes@.len() ==> self.keyframes@[i].time
                < self.keyframes@[j].time
    }

    /// The time from the first keyframe to the last.
    pub open spec fn span(&self) -> int
        recommends
            self.keyframes@.len() > 0,
    {
        self.keyframes@.last().time - self.keyframes@.first().time
    }
}

impl LaunchPlan {
    /// The plan is that of the firework, in every part.
    pub open spec fn is_firework(&self) -> bool {
        &&& self.camera == firework_camera()
        &&& self.clip.target@ == firework_name()
        &&& self.clip.keyframes@ == firework_keyframes()
        &&& self.scene.asset@ == firework_asset()
        &&& self.scene.name@ == firework_name()
        &&& self.scene.translation == firework_start()
        &&& self.scene.repeat
    }
}

/// Plans the launch of the firework.
///
/// The camera stands off the axes and looks at the origin. The clip moves
/// the object named `firework` from below the ground to its rest within the
/// first second and holds it there to the fourth. The scene is spawned below
/// the ground under that same name, and its clip repeats.
pub fn firework_launch() -> (plan: LaunchPlan)
    ensures
        plan.is_firework(),
{
    let camera = Camera {
        position: Vector { x: -2 * UNIT, y: 2 * UNIT + UNIT / 2, z: 5 * UNIT },
        looking_at: Vector { x: 0, y: 0, z: 0 },
        up: Vector { x: 0, y: UNIT, z: 0 },
    };

    let firework = "firework";
    let start = Vector { x: 0, y: -2 * UNIT, z: 0 };
    let rest = Vector { x: 0, y: UNIT, z: 0 };

    let keyframes = vec![
        Keyframe { time: 0, translation: start },
        Keyframe { time: SECOND, translation: rest },
        Keyframe { time: 2 * SECOND, translation: rest },
        Keyframe { time: 3 * SECOND, translation: rest },
        Keyframe { time: 4 * SECOND, translation: rest },
    ];
    assert(keyframes@ =~= firework_keyframes());
    let clip = AnimationClip { target: firework, keyframes };

    let scene = SceneSpawn {
        asset: "untitled.glb#Scene0",
        name: firework,
        translation: start,
        repeat: true,
    };

    LaunchPlan { camera, clip, scene }
}

/// The shape of the firework's clip: five keyframes, one at each full second
/// from zero to four, in order, the first below the ground and the four
/// others at the rest.
pub proof fn lemma_firework_clip(plan: LaunchPlan)
    requires
        plan.is_firework(),
    ensures
        plan.clip.keyframes@.len() == 5,
        forall|i: int| 0 <= i < 5 ==> (#[trigger] plan.clip.keyframes@[i]).time == i * SECOND,
        plan.clip.keyframes@[0].translation == vector(0, -2000, 0),
        forall|i: int|
            1 <= i < 5 ==> (#[trigger] plan.clip.keyframes@[i]).translation == vector(0, 1000, 0),
        plan.clip.well_formed(),
        plan.clip.span() == 4 * SECOND,
{
}

/// The spawned scene and the clip belong together: the scene waits below the
/// origin, at the clip's first keyframe, it bears the name that the clip
/// moves, and its clip repeats.
pub proof fn lemma_firework_scene(plan: LaunchPlan)
    requires
        plan.is_firework(),
    ensures
        plan.scene.translation.y < 0,
        plan.scene.translation == vector(0, -2000, 0),
        plan.scene.translation == plan.clip.keyframes@[0].translation,
        plan.scene.name@ == plan.clip.target@,
        plan.scene.repeat,
{
}

} // verus!
