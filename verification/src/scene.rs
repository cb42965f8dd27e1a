//! The scene in which the glitch shows, as plain values.
//!
//! Circles are drawn as gizmos on a render layer of their own. A camera that
//! sees only that layer renders them into an off-screen texture; a cube in
//! the main scene wears the texture, and a second camera looks at the cube.
//! The embedding program turns these values into the engine's own.

use vstd::prelude::*;

verus! {

/// Side of the square off-screen texture, in texels.
pub const TEXTURE_SIZE: u32 = 512;

/// The render layer that carries the gizmos and nothing else.
pub const GIZMO_LAYER: usize = 1;

/// The render layer of everything that is given none.
pub const MAIN_LAYER: usize = 0;

/// Width of the gizmo lines, in pixels.
pub const LINE_WIDTH: u32 = 40;

/// Number of triangles in each round line joint.
pub const JOINT_RESOLUTION: u32 = 16;

/// Edge of the cube, in world units.
pub const CUBE_SIDE: u32 = 5;

/// Where the main camera stands on the x axis, in world units; the cube is
/// at the origin.
pub const CAMERA_X: i32 = -10;

/// How the default gizmo group is drawn.
#[derive(Clone, Copy, Debug, PartialEq, Eq, Structural)]
pub struct GizmoStyle {
    /// The one render layer that the gizmos are on.
    pub render_layer: usize,
    /// Line width in pixels.
    pub line_width: u32,
    /// Round joints between line segments, with this many triangles each;
    /// `None` leaves the segments unjoined.
    pub round_joints: Option<u32>,
}

/// The off-screen colour texture: two-dimensional, one layer deep, eight
/// bits each of blue, green, red and alpha in sRGB.
#[derive(Clone, Copy, Debug, PartialEq, Eq, Structural)]
pub struct TargetTexture {
    pub width: u32,
    pub height: u32,
    pub mip_level_count: u32,
    pub sample_count: u32,
    /// A material may sample the texture.
    pub texture_binding: bool,
    /// The texture may be the destination of a copy.
    pub copy_dst: bool,
    /// A camera may render into the texture.
    pub render_attachment: bool,
}

/// The cube that wears the texture.
#[derive(Clone, Copy, Debug, PartialEq, Eq, Structural)]
pub struct Cube {
    /// Length of each edge.
    pub side: u32,
    /// Whether the material ignores the lights and shows the texture as it is.
    pub unlit: bool,
}

/// The two-dimensional camera that renders into the texture.
#[derive(Clone, Copy, Debug, PartialEq, Eq, Structural)]
pub struct GizmoCamera {
    /// The one render layer that the camera sees.
    pub render_layer: usize,
    /// Whether the camera clears the texture before it renders a frame.
    pub clears_target: bool,
}

/// A point or a direction in world space.
#[derive(Clone, Copy, Debug, PartialEq, Eq, Structural)]
pub struct Vector {
    pub x: i32,
    pub y: i32,
    pub z: i32,
}

/// The three-dimensional camera that renders the main scene to the window.
#[derive(Clone, Copy, Debug, PartialEq, Eq, Structural)]
pub struct MainCamera {
    pub position: Vector,
    /// The direction that the camera looks in.
    pub forward: Vector,
    /// The direction that is up in the picture.
    pub up: Vector,
}

/// Everything that is spawned once, at startup.
#[derive(Clone, Copy, Debug, PartialEq, Eq, Structural)]
pub struct Scene {
    pub target: TargetTexture,
    pub cube: Cube,
    pub gizmo_camera: GizmoCamera,
    pub main_camera: MainCamera,
}

impl GizmoStyle {
    /// The style of the run: wide lines with round joints, on the gizmo layer.
    pub open spec fn standard() -> GizmoStyle {
        GizmoStyle {
            render_layer: GIZMO_LAYER,
            line_width: LINE_WIDTH,
            round_joints: Some(JOINT_RESOLUTION),
        }
    }
}

impl Scene {
    /// The scene of the run.
    pub open spec fn standard() -> Scene {
        Scene {
            target: TargetTexture {
                width: TEXTURE_SIZE,
                height: TEXTURE_SIZE,
                mip_level_count: 1,
                sample_count: 1,
                texture_binding: true,
                copy_dst: true,
                render_attachment: true,
            },
            cube: Cube { side: CUBE_SIDE, unlit: true },
            gizmo_camera: GizmoCamera { render_layer: GIZMO_LAYER, clears_target: false },
            main_camera: MainCamera {
                position: Vector { x: CAMERA_X, y: 0, z: 0 },
                forward: Vector { x: 1, y: 0, z: 0 },
                up: Vector { x: 0, y: 1, z: 0 },
            },
        }
    }

    /// Whether gizmos drawn in `style` reach the cube and nothing else: the
    /// off-screen camera sees their layer, the main camera does not, and the
    /// texture can be both rendered into and sampled.
    pub open spec fn shows(self, style: GizmoStyle) -> bool {
        &&& self.gizmo_camera.render_layer == style.render_layer
        &&& style.render_layer != MAIN_LAYER
        &&& self.target.render_attachment
        &&& self.target.texture_binding
        &&& self.target.width > 0
        &&& self.target.height > 0
    }
}

/// The style to register for the default gizmo group before the run starts.
pub fn gizmo_style() -> (style: GizmoStyle)
    ensures
        style == GizmoStyle::standard(),
{
    GizmoStyle {
        render_layer: GIZMO_LAYER,
        line_width: LINE_WIDTH,
        round_joints: Some(JOINT_RESOLUTION),
    }
}

/// Lays the scene out: the texture, the cube that wears it, the camera that
/// renders the gizmos into it and the camera that looks at the cube. Gizmos
/// drawn in the style of [`gizmo_style`] show on the cube.
pub fn setup() -> (scene: Scene)
    ensures
        scene == Scene::standard(),
        scene.shows(GizmoStyle::standard()),
{
    let target = TargetTexture {
        width: TEXTURE_SIZE,
        height: TEXTURE_SIZE,
        mip_level_count: 1,
        sample_count: 1,
        texture_binding: true,
        copy_dst: true,
        render_attachment: true,
    };
    let cube = Cube { side: CUBE_SIDE, unlit: true };
    let gizmo_camera = GizmoCamera { render_layer: GIZMO_LAYER, clears_target: false };
    let main_camera = MainCamera {
        position: Vector { x: CAMERA_X, y: 0, z: 0 },
        forward: Vector { x: 1, y: 0, z: 0 },
        up: Vector { x: 0, y: 1, z: 0 },
    };
    Scene { target, cube, gizmo_camera, main_camera }
}

} // verus!
