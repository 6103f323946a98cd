//! The fixed scene that is built once at startup: a camera, a ground
//! plane, a tower block and a point light, each at hard-coded coordinates.
//!
//! Coordinates and sizes are in hundredths of a world unit, colors in
//! whole percent per channel, so that the scene is described entirely by
//! integers. The application scales them back to the engine's units.

use vstd::prelude::*;
use vstd::string::StringExecFns;

verus! {

/// Default window width, in pixels.
pub const DEFAULT_WIDTH: u32 = 1280;

/// Default window height, in pixels.
pub const DEFAULT_HEIGHT: u32 = 720;

/// A point or direction in world space, in hundredths of a world unit.
#[derive(Clone, Copy, Debug, PartialEq, Eq, Structural)]
pub struct Vec3Centi {
    pub x: i64,
    pub y: i64,
    pub z: i64,
}

/// An opaque color, each channel in whole percent (0 to 100).
#[derive(Clone, Copy, Debug, PartialEq, Eq, Structural)]
pub struct ColorRgb {
    pub r: u8,
    pub g: u8,
    pub b: u8,
}

impl ColorRgb {
    /// Well-formedness: every channel is a percentage.
    pub open spec fn inv(self) -> bool {
        self.r <= 100 && self.g <= 100 && self.b <= 100
    }
}

/// One object of the startup scene, described by plain values.
#[derive(Clone, Copy, Debug, PartialEq, Eq, Structural)]
pub enum SceneObject {
    /// The camera, placed at `position` and aimed at `look_at`.
    Camera { position: Vec3Centi, look_at: Vec3Centi },
    /// The square ground plane, `size` hundredths of a unit on a side.
    Ground { size: u64, color: ColorRgb },
    /// The tower: a cube of side `size` standing at `position`.
    Tower { size: u64, color: ColorRgb, position: Vec3Centi },
    /// A point light of the given intensity at `position`.
    Light { intensity: u64, shadows_enabled: bool, position: Vec3Centi },
}

impl SceneObject {
    /// The display name each scene object is labelled with.
    pub open spec fn spec_name(self) -> Seq<char> {
        match self {
            SceneObject::Camera { .. } => "Camera"@,
            SceneObject::Ground { .. } => "Ground"@,
            SceneObject::Tower { .. } => "Tower"@,
            SceneObject::Light { .. } => "Light"@,
        }
    }

    /// The display name each scene object is labelled with.
    pub fn name(&self) -> (r: &'static str)
        ensures
            r@ == self.spec_name(),
    {
        match self {
            SceneObject::Camera { .. } => "Camera",
            SceneObject::Ground { .. } => "Ground",
            SceneObject::Tower { .. } => "Tower",
            SceneObject::Light { .. } => "Light",
        }
    }
}

/// The startup camera: at (-2, 2.5, 5) world units, looking at the origin.
pub open spec fn spec_camera_object() -> SceneObject {
    SceneObject::Camera {
        position: Vec3Centi { x: -200i64, y: 250, z: 500 },
        look_at: Vec3Centi { x: 0, y: 0, z: 0 },
    }
}

/// The three static objects of the basic scene, in spawn order: the ground
/// plane, the tower, and the light.
pub open spec fn spec_basic_scene_objects() -> Seq<SceneObject> {
    seq![
        SceneObject::Ground { size: 500, color: ColorRgb { r: 30, g: 50, b: 30 } },
        SceneObject::Tower {
            size: 100,
            color: ColorRgb { r: 67, g: 84, b: 92 },
            position: Vec3Centi { x: 0, y: 50, z: 0 },
        },
        SceneObject::Light {
            intensity: 1500,
            shadows_enabled: true,
            position: Vec3Centi { x: 400, y: 800, z: 400 },
        },
    ]
}

/// Every object created at startup, camera first, then the basic scene.
pub open spec fn spec_startup_objects() -> Seq<SceneObject> {
    seq![spec_camera_object()] + spec_basic_scene_objects()
}

/// Build the startup camera.
pub fn camera_object() -> (o: SceneObject)
    ensures
        o == spec_camera_object(),
{
    SceneObject::Camera {
        position: Vec3Centi { x: -200, y: 250, z: 500 },
        look_at: Vec3Centi { x: 0, y: 0, z: 0 },
    }
}

/// Build the three static objects of the basic scene, in spawn order.
pub fn basic_scene_objects() -> (objs: Vec<SceneObject>)
    ensures
        objs@ == spec_basic_scene_objects(),
{
    let mut objs: Vec<SceneObject> = Vec::new();
    objs.push(SceneObject::Ground { size: 500, color: ColorRgb { r: 30, g: 50, b: 30 } });
    objs.push(
        SceneObject::Tower {
            size: 100,
            color: ColorRgb { r: 67, g: 84, b: 92 },
            position: Vec3Centi { x: 0, y: 50, z: 0 },
        },
    );
    objs.push(
        SceneObject::Light {
            intensity: 1500,
            shadows_enabled: true,
            position: Vec3Centi { x: 400, y: 800, z: 400 },
        },
    );
    proof {
        assert(objs@ =~= spec_basic_scene_objects());
    }
    objs
}

/// Bootstrap creates exactly one camera, one ground plane, one tower and
/// one light: each kind of scene object appears at exactly one position of
/// the startup sequence.
pub proof fn lemma_bootstrap_one_of_each()
    ensures
        spec_startup_objects().len() == 4,
        forall|i: int|
            0 <= i < 4 ==> ((#[trigger] spec_startup_objects()[i] is Camera) <==> i == 0),
        forall|i: int|
            0 <= i < 4 ==> ((#[trigger] spec_startup_objects()[i] is Ground) <==> i == 1),
        forall|i: int|
            0 <= i < 4 ==> ((#[trigger] spec_startup_objects()[i] is Tower) <==> i == 2),
        forall|i: int|
            0 <= i < 4 ==> ((#[trigger] spec_startup_objects()[i] is Light) <==> i == 3),
{
    assert forall|i: int| 0 <= i < 4 implies ((#[trigger] spec_startup_objects()[i] is Camera)
        <==> i == 0) && ((spec_startup_objects()[i] is Ground) <==> i == 1) && ((
    spec_startup_objects()[i] is Tower) <==> i == 2) && ((spec_startup_objects()[i] is Light)
        <==> i == 3) by {
        assert(spec_startup_objects()[0] == spec_camera_object());
        assert(spec_startup_objects()[1] == spec_basic_scene_objects()[0]);
        assert(spec_startup_objects()[2] == spec_basic_scene_objects()[1]);
        assert(spec_startup_objects()[3] == spec_basic_scene_objects()[2]);
    }
}

/// Fixed settings of the application window.
#[derive(Clone, Debug)]
pub struct WindowConfig {
    pub width: u32,
    pub height: u32,
    pub title: String,
    pub resizable: bool,
}

/// The window the application opens: a fixed, non-resizable
/// `DEFAULT_WIDTH` by `DEFAULT_HEIGHT` window with the game's title.
pub fn window_config() -> (w: WindowConfig)
    ensures
        w.width == DEFAULT_WIDTH,
        w.height == DEFAULT_HEIGHT,
        w.title@ == "Bevy Tower Defense"@,
        !w.resizable,
{
    WindowConfig {
        width: DEFAULT_WIDTH,
        height: DEFAULT_HEIGHT,
        title: String::from_str("Bevy Tower Defense"),
        resizable: false,
    }
}

/// The background color the world is cleared to each frame (beige).
pub fn clear_color() -> (c: ColorRgb)
    ensures
        c == (ColorRgb { r: 96, g: 96, b: 86 }),
        c.inv(),
{
    ColorRgb { r: 96, g: 96, b: 86 }
}

} // verus!
