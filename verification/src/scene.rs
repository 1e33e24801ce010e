//! The scene as the proofs see it: what changes from call to call, and the
//! rules by which it changes.

use vstd::prelude::*;
use crate::frame::{FrameEvent, FramePhase};
use crate::rotator::{CameraState, Rotation};
use crate::surface::{size_is_valid, PhysicalSize, SurfaceConfiguration, SurfaceError};

verus! {

/// The changing part of a render state.
pub struct SceneModel {
    /// The surface configuration.
    pub config: SurfaceConfiguration,
    /// The size last accepted.
    pub size: PhysicalSize,
    /// Width of the depth texture.
    pub depth_width: u32,
    /// Height of the depth texture.
    pub depth_height: u32,
    /// How many depth textures came before the current one.
    pub depth_epoch: nat,
    /// The epoch of the depth texture that the overlay's bind group refers
    /// to, if there is an overlay.
    pub overlay: Option<nat>,
    /// The rotation animator.
    pub rotation: Rotation,
    /// The camera.
    pub camera: CameraState,
    /// Where the frame stands.
    pub phase: FramePhase,
}

impl SceneModel {
    /// What holds between any two calls: the size is within bounds, the
    /// depth texture has the size of the surface, the overlay reads the
    /// current depth texture, both uniform buffers mirror their animators,
    /// and the frame is at rest.
    pub open spec fn inv(self) -> bool {
        &&& self.config.wf()
        &&& self.size.width == self.config.width
        &&& self.size.height == self.config.height
        &&& self.depth_width == self.config.width
        &&& self.depth_height == self.config.height
        &&& (self.overlay matches Some(epoch) ==> epoch == self.depth_epoch)
        &&& self.rotation.in_sync()
        &&& self.camera.in_sync()
        &&& self.phase.at_rest()
    }

    /// The scene right after it has been set up with a configuration.
    pub open spec fn initial(config: SurfaceConfiguration, depth_overlay: bool) -> SceneModel {
        SceneModel {
            config,
            size: PhysicalSize { width: config.width, height: config.height },
            depth_width: config.width,
            depth_height: config.height,
            depth_epoch: 0,
            overlay: if depth_overlay {
                Some(0nat)
            } else {
                None
            },
            rotation: Rotation::identity(),
            camera: CameraState::initial(config.width, config.height),
            phase: FramePhase::Idle,
        }
    }

    /// The scene after a resize request. A size out of bounds changes
    /// nothing; any other is taken over, the depth texture is replaced by
    /// one of that size and the overlay is bound to the new texture.
    pub open spec fn after_resize(self, width: u32, height: u32) -> SceneModel {
        if size_is_valid(width, height) {
            SceneModel {
                config: SurfaceConfiguration { width, height, ..self.config },
                size: PhysicalSize { width, height },
                depth_width: width,
                depth_height: height,
                depth_epoch: self.depth_epoch + 1,
                overlay: if self.overlay.is_some() {
                    Some(self.depth_epoch + 1)
                } else {
                    None
                },
                ..self
            }
        } else {
            self
        }
    }

    /// The scene after an input event.
    pub open spec fn after_input(self) -> SceneModel {
        SceneModel { phase: self.phase.next(FrameEvent::Input).unwrap(), ..self }
    }

    /// The scene after an update: both animators have moved on by one step.
    pub open spec fn after_update(self) -> SceneModel {
        SceneModel {
            rotation: self.rotation.after_update(),
            camera: self.camera.after_update(),
            phase: self.phase.next(FrameEvent::Update).unwrap(),
            ..self
        }
    }

    /// The scene after `k` updates.
    pub open spec fn after_updates(self, k: nat) -> SceneModel
        decreases k,
    {
        if k == 0 {
            self
        } else {
            self.after_updates((k - 1) as nat).after_update()
        }
    }

    /// The scene after a frame: whatever became of the frame, it is over.
    pub open spec fn after_render(self, acquired: Result<(), SurfaceError>) -> SceneModel {
        SceneModel { phase: FramePhase::Idle, ..self }
    }
}

/// A fresh scene satisfies the invariant.
pub proof fn initial_scene_is_sound(config: SurfaceConfiguration, depth_overlay: bool)
    requires
        config.wf(),
    ensures
        SceneModel::initial(config, depth_overlay).inv(),
{
    Rotation::identity_in_sync();
    CameraState::initial_in_sync(config.width, config.height);
}

/// Every operation keeps the invariant.
pub proof fn operations_keep_invariant(
    scene: SceneModel,
    width: u32,
    height: u32,
    acquired: Result<(), SurfaceError>,
)
    requires
        scene.inv(),
    ensures
        scene.after_resize(width, height).inv(),
        scene.after_input().inv(),
        scene.after_update().inv(),
        scene.after_render(acquired).inv(),
{
    scene.rotation.update_counts();
    scene.camera.update_counts();
}

/// A resize request with a zero or an oversized dimension leaves the scene,
/// and with it the surface configuration, as it was.
pub proof fn rejected_resize_changes_nothing(scene: SceneModel, width: u32, height: u32)
    requires
        width == 0 || height == 0 || width > 8192 || height > 8192,
    ensures
        scene.after_resize(width, height) == scene,
        scene.after_resize(width, height).config == scene.config,
{
}

/// An accepted resize request is taken over exactly, and the depth texture
/// that the next frame is drawn with has the requested size, whatever
/// becomes of that frame.
pub proof fn accepted_resize_sizes_depth_buffer(
    scene: SceneModel,
    width: u32,
    height: u32,
    acquired: Result<(), SurfaceError>,
)
    requires
        size_is_valid(width, height),
    ensures
        scene.after_resize(width, height).config.width == width,
        scene.after_resize(width, height).config.height == height,
        scene.after_resize(width, height).after_render(acquired).depth_width == width,
        scene.after_resize(width, height).after_render(acquired).depth_height == height,
        scene.after_resize(width, height).depth_epoch > scene.depth_epoch,
{
}

/// Rendering leaves both animators and their uniform buffers untouched, so
/// two frames with no update between them are drawn from the same uniforms.
pub proof fn render_keeps_uniforms(
    scene: SceneModel,
    first: Result<(), SurfaceError>,
    second: Result<(), SurfaceError>,
)
    ensures
        scene.after_render(first).rotation == scene.rotation,
        scene.after_render(first).camera == scene.camera,
        scene.after_render(first).after_render(second).rotation == scene.rotation,
        scene.after_render(first).after_render(second).camera == scene.camera,
{
}

/// After `k` updates the rotation holds `k` more steps and the camera has
/// been derived `k` more times; nothing else but the phase has changed.
pub proof fn updates_accumulate(scene: SceneModel, k: nat)
    ensures
        scene.after_updates(k).rotation == scene.rotation.after_updates(k),
        scene.after_updates(k).rotation.steps() == scene.rotation.steps() + k,
        scene.after_updates(k).camera.revision() == scene.camera.revision() + k,
        scene.after_updates(k).config == scene.config,
        scene.after_updates(k).depth_epoch == scene.depth_epoch,
        scene.after_updates(k).overlay == scene.overlay,
    decreases k,
{
    if k > 0 {
        let before = scene.after_updates((k - 1) as nat);
        updates_accumulate(scene, (k - 1) as nat);
        before.rotation.update_counts();
        before.camera.update_counts();
    }
    crate::rotator::rotation_counts_updates(scene.rotation, k);
}

} // verus!
