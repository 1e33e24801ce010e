//! The animators: the accumulated rotation of the cubes and the camera, each
//! mirrored in a uniform buffer.

use vstd::prelude::*;
use crate::binding::{BindGroup, BindGroupLayout, BindingFamily};
use crate::instances::MATRIX_BYTES;

verus! {

/// An upload that overwrites part of a family's buffer.
#[derive(Clone, Copy, Debug, PartialEq, Eq, Structural)]
pub struct UniformWrite {
    pub family: BindingFamily,
    pub offset: u64,
    pub size: u64,
}

/// The upload of one whole matrix to the start of a family's buffer.
pub open spec fn matrix_write(family: BindingFamily) -> UniformWrite {
    UniformWrite { family, offset: 0, size: MATRIX_BYTES }
}

/// The rotation animator. The accumulated rotation is the fixed step composed
/// with itself once per update, starting from the identity; `composed` counts
/// the compositions, and `uploaded` tells which of them the uniform buffer
/// holds.
#[derive(Clone, Copy)]
pub struct Rotation {
    composed: Ghost<nat>,
    uploaded: Ghost<nat>,
}

/// Another name for [`Rotation`].
pub type Rotator = Rotation;

impl Rotation {
    /// How many times the step has been composed into the rotation.
    pub closed spec fn steps(&self) -> nat {
        self.composed@
    }

    /// The number of steps in the rotation that the buffer holds.
    pub closed spec fn uploaded_steps(&self) -> nat {
        self.uploaded@
    }

    /// Whether the buffer mirrors the accumulated rotation.
    pub open spec fn in_sync(&self) -> bool {
        self.uploaded_steps() == self.steps()
    }

    /// The animator after one more update.
    pub closed spec fn after_update(self) -> Rotation {
        Rotation { composed: Ghost(self.composed@ + 1), uploaded: Ghost(self.composed@ + 1) }
    }

    /// The animator after `k` more updates.
    pub open spec fn after_updates(self, k: nat) -> Rotation
        decreases k,
    {
        if k == 0 {
            self
        } else {
            self.after_updates((k - 1) as nat).after_update()
        }
    }

    /// The animator at rest: the identity rotation, already in its buffer.
    pub closed spec fn identity() -> Rotation {
        Rotation { composed: Ghost(0), uploaded: Ghost(0) }
    }

    /// The identity holds no step and is in its buffer.
    pub proof fn identity_in_sync()
        ensures
            Rotation::identity().steps() == 0,
            Rotation::identity().in_sync(),
    {
    }

    /// An update adds one step and leaves the buffer in step with it.
    pub proof fn update_counts(self)
        ensures
            self.after_update().steps() == self.steps() + 1,
            self.after_update().in_sync(),
    {
    }

    /// Starts from the identity rotation, with which the buffer is created.
    pub fn new() -> (out: Rotation)
        ensures
            out == Rotation::identity(),
            out.steps() == 0,
            out.in_sync(),
    {
        Rotation { composed: Ghost(0), uploaded: Ghost(0) }
    }

    /// The schema of the rotation bind group: one uniform buffer for the
    /// vertex stage.
    pub fn layout() -> (out: BindGroupLayout)
        ensures
            out.family == BindingFamily::Rotation,
            out.entries@ == BindingFamily::Rotation.layout_entries(),
    {
        BindingFamily::Rotation.layout()
    }

    /// The rotation bind group: the whole uniform buffer at binding zero.
    pub fn bind_group() -> (out: BindGroup)
        ensures
            out.family == BindingFamily::Rotation,
            out.entries@ == BindingFamily::Rotation.group_entries(),
    {
        BindingFamily::Rotation.bind_group()
    }

    /// Composes the step into the rotation once more and asks for the new
    /// matrix to be written over the old one.
    pub fn update(&mut self) -> (out: UniformWrite)
        ensures
            *final(self) == old(self).after_update(),
            final(self).steps() == old(self).steps() + 1,
            final(self).in_sync(),
            out == matrix_write(BindingFamily::Rotation),
    {
        let ghost composed = self.composed@ + 1;
        self.composed = Ghost(composed);
        self.uploaded = Ghost(composed);
        UniformWrite { family: BindingFamily::Rotation, offset: 0, size: MATRIX_BYTES }
    }
}

/// After `k` updates the rotation holds `k` more steps than before, and the
/// buffer holds the same rotation.
pub proof fn rotation_counts_updates(start: Rotation, k: nat)
    ensures
        start.after_updates(k).steps() == start.steps() + k,
        k > 0 ==> start.after_updates(k).in_sync(),
    decreases k,
{
    if k > 0 {
        rotation_counts_updates(start, (k - 1) as nat);
    }
}

/// A fresh animator that is updated `k` times holds the step composed `k`
/// times; updated not at all, it holds the identity.
pub proof fn rotation_is_power_of_step(k: nat)
    ensures
        Rotation::identity().after_updates(k).steps() == k,
        Rotation::identity().after_updates(k).in_sync(),
        Rotation::identity().after_updates(0) == Rotation::identity(),
{
    rotation_counts_updates(Rotation::identity(), k);
}

/// The camera: a view-projection matrix that is derived afresh on every
/// update from a controller which the host owns, and mirrored in a uniform
/// buffer.
#[derive(Clone, Copy)]
pub struct CameraState {
    width: u32,
    height: u32,
    derived: Ghost<nat>,
    uploaded: Ghost<nat>,
}

impl CameraState {
    /// How many times the matrix has been derived from the controller.
    pub closed spec fn revision(&self) -> nat {
        self.derived@
    }

    /// The revision of the matrix that the buffer holds.
    pub closed spec fn uploaded_revision(&self) -> nat {
        self.uploaded@
    }

    /// Whether the buffer mirrors the latest matrix.
    pub open spec fn in_sync(&self) -> bool {
        self.uploaded_revision() == self.revision()
    }

    /// Width over height is the aspect ratio of the projection.
    pub closed spec fn spec_aspect(&self) -> (u32, u32) {
        (self.width, self.height)
    }

    /// The camera after one more update.
    pub closed spec fn after_update(self) -> CameraState {
        CameraState {
            width: self.width,
            height: self.height,
            derived: Ghost(self.derived@ + 1),
            uploaded: Ghost(self.derived@ + 1),
        }
    }

    /// The camera before its first update.
    pub closed spec fn initial(width: u32, height: u32) -> CameraState {
        CameraState { width, height, derived: Ghost(0), uploaded: Ghost(0) }
    }

    /// A new camera has never been updated and is in its buffer.
    pub proof fn initial_in_sync(width: u32, height: u32)
        ensures
            CameraState::initial(width, height).revision() == 0,
            CameraState::initial(width, height).spec_aspect() == (width, height),
            CameraState::initial(width, height).in_sync(),
    {
    }

    /// An update derives the matrix once more, keeps the aspect ratio and
    /// leaves the buffer in step.
    pub proof fn update_counts(self)
        ensures
            self.after_update().revision() == self.revision() + 1,
            self.after_update().spec_aspect() == self.spec_aspect(),
            self.after_update().in_sync(),
    {
    }

    /// A camera for a surface of the given size.
    pub fn new(width: u32, height: u32) -> (out: CameraState)
        ensures
            out == CameraState::initial(width, height),
            out.spec_aspect() == (width, height),
            out.revision() == 0,
            out.in_sync(),
    {
        CameraState { width, height, derived: Ghost(0), uploaded: Ghost(0) }
    }

    /// The schema of the camera bind group: one uniform buffer for the
    /// vertex stage.
    pub fn layout() -> (out: BindGroupLayout)
        ensures
            out.family == BindingFamily::Camera,
            out.entries@ == BindingFamily::Camera.layout_entries(),
    {
        BindingFamily::Camera.layout()
    }

    /// The numerator and denominator of the aspect ratio.
    pub fn aspect(&self) -> (out: (u32, u32))
        ensures
            out == self.spec_aspect(),
    {
        (self.width, self.height)
    }

    /// Derives the matrix afresh and asks for it to be written over the old
    /// one.
    pub fn update(&mut self) -> (out: UniformWrite)
        ensures
            *final(self) == old(self).after_update(),
            final(self).revision() == old(self).revision() + 1,
            final(self).spec_aspect() == old(self).spec_aspect(),
            final(self).in_sync(),
            out == matrix_write(BindingFamily::Camera),
    {
        let ghost derived = self.derived@ + 1;
        self.derived = Ghost(derived);
        self.uploaded = Ghost(derived);
        UniformWrite { family: BindingFamily::Camera, offset: 0, size: MATRIX_BYTES }
    }
}

} // verus!
