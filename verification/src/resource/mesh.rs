use vstd::prelude::*;
use crate::resource::texture::{GpuHandle, TextureHandle};

verus! {

/// Position of a mesh in the asset manager's store.
#[derive(Clone, Copy, Debug, PartialEq, Eq, Structural)]
pub struct MeshHandle {
    pub index: usize,
}

/// Mesh is a collection of vertices, edges and faces that defines shape of object.
#[derive(Clone, Debug, PartialEq, Eq)]
pub struct Mesh {
    pub name: String,
    pub vertex_buffer: GpuHandle,
    pub index_buffer: GpuHandle,
    pub texture: TextureHandle,
}

impl Mesh {
    /// Creates new mesh from its uploaded buffers.
    pub fn new(
        name: String,
        vertex_buffer: GpuHandle,
        index_buffer: GpuHandle,
        texture: TextureHandle,
    ) -> (mesh: Mesh)
        ensures
            mesh.name@ == name@,
            mesh.vertex_buffer == vertex_buffer,
            mesh.index_buffer == index_buffer,
            mesh.texture == texture,
    {
        Mesh { name, vertex_buffer, index_buffer, texture }
    }

    /// Returns the name of this mesh.
    pub fn name(&self) -> (name: &String)
        ensures
            name@ == self.name@,
    {
        &self.name
    }

    /// Sets the name of this mesh.
    pub fn set_name(&mut self, name: String)
        ensures
            final(self).name@ == name@,
            final(self).vertex_buffer == old(self).vertex_buffer,
            final(self).index_buffer == old(self).index_buffer,
            final(self).texture == old(self).texture,
    {
        self.name = name;
    }

    /// Sets texture used by this mesh.
    pub fn set_texture(&mut self, texture: TextureHandle)
        ensures
            final(self).texture == texture,
            final(self).name == old(self).name,
            final(self).vertex_buffer == old(self).vertex_buffer,
            final(self).index_buffer == old(self).index_buffer,
    {
        self.texture = texture;
    }

    /// Returns texture used by this mesh.
    pub fn texture(&self) -> (texture: TextureHandle)
        ensures
            texture == self.texture,
    {
        self.texture
    }

    /// Returns the vertex buffer of this mesh.
    pub fn vertex_buffer(&self) -> (vertex_buffer: GpuHandle)
        ensures
            vertex_buffer == self.vertex_buffer,
    {
        self.vertex_buffer
    }

    /// Returns the index buffer of this mesh.
    pub fn index_buffer(&self) -> (index_buffer: GpuHandle)
        ensures
            index_buffer == self.index_buffer,
    {
        self.index_buffer
    }
}

} // verus!
