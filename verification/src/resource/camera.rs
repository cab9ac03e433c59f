use vstd::prelude::*;
use crate::scalar::Mat4;
use crate::renderer::uniform_manager::TransformationData;

verus! {

/// Struct representing a camera, as the renderer sees it: the view and
/// projection matrices that its position, angles and field of view give.
#[derive(Clone, Copy, Debug, PartialEq, Eq)]
pub struct Camera {
    pub view: Mat4,
    pub projection: Mat4,
}

impl Camera {
    /// Creates a new camera with the given matrices.
    pub fn new(view: Mat4, projection: Mat4) -> (camera: Camera)
        ensures
            camera.view == view,
            camera.projection == projection,
    {
        Camera { view, projection }
    }

    /// Returns camera view matrix.
    pub fn view_matrix(&self) -> (view: Mat4)
        ensures
            view == self.view,
    {
        self.view
    }

    /// Sets camera view matrix.
    pub fn set_view_matrix(&mut self, view: Mat4)
        ensures
            final(self).view == view,
            final(self).projection == old(self).projection,
    {
        self.view = view;
    }

    /// Returns camera projection matrix.
    pub fn projection_matrix(&self) -> (projection: Mat4)
        ensures
            projection == self.projection,
    {
        self.projection
    }

    /// Sets camera projection matrix.
    pub fn set_projection_matrix(&mut self, projection: Mat4)
        ensures
            final(self).projection == projection,
            final(self).view == old(self).view,
    {
        self.projection = projection;
    }

    /// Returns model, view and projection matrix as uniform data.
    /// Model should be updated with model matrix from Object.
    pub fn as_uniform_data(&self) -> (data: TransformationData)
        ensures
            data.model.cells@ == Mat4::spec_identity_cells(),
            data.view == self.view,
            data.proj == self.projection,
    {
        TransformationData { model: Mat4::identity(), view: self.view, proj: self.projection }
    }
}

/// A direction to move the camera in, relative to where it looks.
#[derive(Clone, Copy, Debug, PartialEq, Eq, Structural)]
pub enum Direction {
    Up,
    Down,
    Left,
    Right,
}

} // verus!
