pub mod mesh;
pub mod camera;
pub mod object;
pub mod texture;
pub mod scene;
pub mod name_table;

use vstd::prelude::*;
use crate::resource::mesh::{Mesh, MeshHandle};
use crate::resource::name_table::NameTable;
use crate::resource::scene::Scene;
use crate::resource::texture::{GpuHandle, Texture, TextureHandle};

verus! {

/// Name of the texture that a mesh has until it is given another.
pub open spec fn spec_default_texture_name() -> Seq<char> {
    "default"@
}

/// Name of the texture that a mesh has until it is given another.
pub fn default_texture_name() -> (name: String)
    ensures
        name@ == spec_default_texture_name(),
{
    "default".to_owned()
}

/// Manages game assets and scenes.
///
/// Meshes and textures are kept in stores that only grow, and are known to
/// scenes and to each other by their position there: a handle stays good
/// while the manager lives. The names are a second way in; taking a name
/// away leaves the mesh or texture in its store.
#[derive(Debug)]
pub struct AssetManager {
    pub active_scene: Option<Scene>,
    pub scenes: NameTable<Scene>,
    pub mesh_store: Vec<Mesh>,
    pub meshes: NameTable<MeshHandle>,
    pub texture_store: Vec<Texture>,
    pub textures: NameTable<TextureHandle>,
}

impl AssetManager {
    /// The tables are sound, every name leads into its store, and the
    /// default texture has its name.
    pub open spec fn wf(&self) -> bool {
        &&& self.scenes.wf()
        &&& self.meshes.wf()
        &&& self.textures.wf()
        &&& forall|name: Seq<char>| #[trigger]
            self.meshes@.contains_key(name) ==> self.meshes@[name].index < self.mesh_store@.len()
        &&& forall|name: Seq<char>| #[trigger]
            self.textures@.contains_key(name) ==> self.textures@[name].index
                < self.texture_store@.len()
        &&& self.textures@.contains_key(spec_default_texture_name())
    }

    /// The mesh that a handle stands for, if it stands for one.
    pub open spec fn spec_mesh_at(&self, handle: MeshHandle) -> Option<Mesh> {
        if handle.index < self.mesh_store@.len() {
            Some(self.mesh_store@[handle.index as int])
        } else {
            None
        }
    }

    /// The texture that a handle stands for, if it stands for one.
    pub open spec fn spec_texture_at(&self, handle: TextureHandle) -> Option<Texture> {
        if handle.index < self.texture_store@.len() {
            Some(self.texture_store@[handle.index as int])
        } else {
            None
        }
    }

    /// The texture that goes by the default name.
    pub open spec fn spec_default_texture(&self) -> TextureHandle {
        self.textures@[spec_default_texture_name()]
    }

    /// Whether this is a new asset manager: it holds no scene and no mesh
    /// and one texture, the default one, made of the given image and
    /// sampler.
    pub open spec fn spec_is_new(
        &self,
        default_image: GpuHandle,
        default_sampler: GpuHandle,
    ) -> bool {
        &&& self.wf()
        &&& self.active_scene is None
        &&& self.scenes@ == Map::<Seq<char>, Scene>::empty()
        &&& self.meshes@ == Map::<Seq<char>, MeshHandle>::empty()
        &&& self.mesh_store@.len() == 0
        &&& self.textures@ == Map::<Seq<char>, TextureHandle>::empty().insert(
            spec_default_texture_name(),
            TextureHandle { index: 0 },
        )
        &&& self.texture_store@.len() == 1
        &&& self.texture_store@[0].name@ == spec_default_texture_name()
        &&& self.texture_store@[0].image_buffer == default_image
        &&& self.texture_store@[0].sampler == default_sampler
    }

    /// Creates new asset manager. It holds one texture, the default one,
    /// made of the given image and sampler.
    pub fn new(default_image: GpuHandle, default_sampler: GpuHandle) -> (manager: AssetManager)
        ensures
            manager.spec_is_new(default_image, default_sampler),
    {
        let default_texture = Texture::new(default_texture_name(), default_image, default_sampler);
        let mut texture_store: Vec<Texture> = Vec::new();
        texture_store.push(default_texture);
        let mut textures: NameTable<TextureHandle> = NameTable::new();
        textures.insert(default_texture_name(), TextureHandle { index: 0 });
        AssetManager {
            active_scene: None,
            scenes: NameTable::new(),
            mesh_store: Vec::new(),
            meshes: NameTable::new(),
            texture_store,
            textures,
        }
    }

    /// Creates a new mesh. It wears the default texture.
    pub fn create_mesh(
        &self,
        name: String,
        vertex_buffer: GpuHandle,
        index_buffer: GpuHandle,
    ) -> (mesh: Mesh)
        requires
            self.wf(),
        ensures
            mesh.name@ == name@,
            mesh.vertex_buffer == vertex_buffer,
            mesh.index_buffer == index_buffer,
            mesh.texture == self.spec_default_texture(),
    {
        let default_name = default_texture_name();
        let texture = match self.textures.get(&default_name) {
            Some(handle) => *handle,
            None => TextureHandle { index: 0 },
        };
        Mesh::new(name, vertex_buffer, index_buffer, texture)
    }

    /// Adds mesh to asset manager. Meshes need to have unique name.
    /// If two meshes have the same name, the name goes to the new one.
    pub fn add_mesh(&mut self, mesh: Mesh) -> (handle: MeshHandle)
        requires
            old(self).wf(),
        ensures
            final(self).wf(),
            handle.index == old(self).mesh_store@.len(),
            final(self).mesh_store@ == old(self).mesh_store@.push(mesh),
            final(self).meshes@ == old(self).meshes@.insert(mesh.name@, handle),
            final(self).active_scene == old(self).active_scene,
            final(self).scenes == old(self).scenes,
            final(self).texture_store == old(self).texture_store,
            final(self).textures == old(self).textures,
    {
        let handle = MeshHandle { index: self.mesh_store.len() };
        let name = mesh.name.clone();
        self.mesh_store.push(mesh);
        self.meshes.insert(name, handle);
        handle
    }

    /// Returns the handle of the mesh with the given name.
    pub fn mesh(&self, name: &String) -> (handle: Option<MeshHandle>)
        requires
            self.wf(),
        ensures
            handle == if self.meshes@.contains_key(name@) {
                Some(self.meshes@[name@])
            } else {
                None::<MeshHandle>
            },
    {
        match self.meshes.get(name) {
            Some(handle) => Some(*handle),
            None => None,
        }
    }

    /// Takes the name of a mesh away and returns the handle that it led to.
    pub fn remove_mesh(&mut self, name: &String) -> (handle: Option<MeshHandle>)
        requires
            old(self).wf(),
        ensures
            final(self).wf(),
            handle == if old(self).meshes@.contains_key(name@) {
                Some(old(self).meshes@[name@])
            } else {
                None::<MeshHandle>
            },
            final(self).meshes@ == old(self).meshes@.remove(name@),
            final(self).mesh_store == old(self).mesh_store,
            final(self).active_scene == old(self).active_scene,
            final(self).scenes == old(self).scenes,
            final(self).texture_store == old(self).texture_store,
            final(self).textures == old(self).textures,
    {
        self.meshes.remove(name)
    }

    /// Returns the mesh that a handle stands for.
    pub fn mesh_at(&self, handle: MeshHandle) -> (mesh: Option<&Mesh>)
        ensures
            match mesh {
                Some(m) => self.spec_mesh_at(handle) == Some(*m),
                None => self.spec_mesh_at(handle) is None,
            },
    {
        if handle.index < self.mesh_store.len() {
            Some(&self.mesh_store[handle.index])
        } else {
            None
        }
    }

    /// Sets the texture of the mesh that `handle` stands for. Returns
    /// whether there is such a mesh; without one nothing changes.
    pub fn set_mesh_texture(&mut self, handle: MeshHandle, texture: TextureHandle) -> (found: bool)
        requires
            old(self).wf(),
        ensures
            final(self).wf(),
            found == (handle.index < old(self).mesh_store@.len()),
            found ==> final(self).mesh_store@ == old(self).mesh_store@.update(
                handle.index as int,
                Mesh {
                    name: old(self).mesh_store@[handle.index as int].name,
                    vertex_buffer: old(self).mesh_store@[handle.index as int].vertex_buffer,
                    index_buffer: old(self).mesh_store@[handle.index as int].index_buffer,
                    texture,
                },
            ),
            !found ==> final(self).mesh_store == old(self).mesh_store,
            final(self).meshes == old(self).meshes,
            final(self).active_scene == old(self).active_scene,
            final(self).scenes == old(self).scenes,
            final(self).texture_store == old(self).texture_store,
            final(self).textures == old(self).textures,
    {
        if handle.index < self.mesh_store.len() {
            let mut mesh = self.mesh_store.remove(handle.index);
            mesh.set_texture(texture);
            self.mesh_store.insert(handle.index, mesh);
            assert(self.mesh_store@ =~= old(self).mesh_store@.update(handle.index as int, mesh));
            true
        } else {
            false
        }
    }

    /// Creates texture from an uploaded image.
    pub fn create_texture(
        &self,
        name: String,
        image_buffer: GpuHandle,
        sampler: GpuHandle,
    ) -> (texture: Texture)
        ensures
            texture.name@ == name@,
            texture.image_buffer == image_buffer,
            texture.sampler == sampler,
    {
        Texture::new(name, image_buffer, sampler)
    }

    /// Adds texture to asset manager. Textures need to have unique name.
    /// If two textures have the same name, the name goes to the new one.
    pub fn add_texture(&mut self, texture: Texture) -> (handle: TextureHandle)
        requires
            old(self).wf(),
        ensures
            final(self).wf(),
            handle.index == old(self).texture_store@.len(),
            final(self).texture_store@ == old(self).texture_store@.push(texture),
            final(self).textures@ == old(self).textures@.insert(texture.name@, handle),
            final(self).active_scene == old(self).active_scene,
            final(self).scenes == old(self).scenes,
            final(self).mesh_store == old(self).mesh_store,
            final(self).meshes == old(self).meshes,
    {
        let handle = TextureHandle { index: self.texture_store.len() };
        let name = texture.name.clone();
        self.texture_store.push(texture);
        self.textures.insert(name, handle);
        handle
    }

    /// Returns the handle of the texture with the given name.
    pub fn texture(&self, name: &String) -> (handle: Option<TextureHandle>)
        requires
            self.wf(),
        ensures
            handle == if self.textures@.contains_key(name@) {
                Some(self.textures@[name@])
            } else {
                None::<TextureHandle>
            },
    {
        match self.textures.get(name) {
            Some(handle) => Some(*handle),
            None => None,
        }
    }

    /// Returns the texture that a handle stands for.
    pub fn texture_at(&self, handle: TextureHandle) -> (texture: Option<&Texture>)
        ensures
            match texture {
                Some(t) => self.spec_texture_at(handle) == Some(*t),
                None => self.spec_texture_at(handle) is None,
            },
    {
        if handle.index < self.texture_store.len() {
            Some(&self.texture_store[handle.index])
        } else {
            None
        }
    }

    /// The texture that a handle stands for, and the default texture where
    /// it stands for none.
    pub open spec fn spec_texture_or_default(&self, handle: TextureHandle) -> Texture {
        match self.spec_texture_at(handle) {
            Some(texture) => texture,
            None => self.texture_store@[self.spec_default_texture().index as int],
        }
    }

    /// Returns the texture that a handle stands for, and the default
    /// texture where it stands for none.
    pub fn texture_or_default(&self, handle: TextureHandle) -> (texture: &Texture)
        requires
            self.wf(),
        ensures
            *texture == self.spec_texture_or_default(handle),
    {
        match self.texture_at(handle) {
            Some(texture) => texture,
            None => {
                let default_name = default_texture_name();
                let default = *self.textures.get(&default_name).unwrap();
                &self.texture_store[default.index]
            },
        }
    }

    /// Takes the name of a texture away and returns the handle that it led
    /// to. The default texture keeps its name.
    pub fn remove_texture(&mut self, name: &String) -> (handle: Option<TextureHandle>)
        requires
            old(self).wf(),
        ensures
            final(self).wf(),
            handle == if name@ != spec_default_texture_name() && old(self).textures@.contains_key(
                name@,
            ) {
                Some(old(self).textures@[name@])
            } else {
                None::<TextureHandle>
            },
            final(self).textures@ == if name@ != spec_default_texture_name() {
                old(self).textures@.remove(name@)
            } else {
                old(self).textures@
            },
            final(self).texture_store == old(self).texture_store,
            final(self).active_scene == old(self).active_scene,
            final(self).scenes == old(self).scenes,
            final(self).mesh_store == old(self).mesh_store,
            final(self).meshes == old(self).meshes,
    {
        let default_name = default_texture_name();
        if *name != default_name {
            self.textures.remove(name)
        } else {
            None
        }
    }

    /// Adds scene to asset manager. Scenes need to have unique name.
    /// If two scenes have the same name, the old scene will be replaced with the new one.
    pub fn add_scene(&mut self, scene: Scene)
        requires
            old(self).wf(),
        ensures
            final(self).wf(),
            final(self).scenes@ == old(self).scenes@.insert(scene.name@, scene),
            final(self).active_scene == old(self).active_scene,
            final(self).mesh_store == old(self).mesh_store,
            final(self).meshes == old(self).meshes,
            final(self).texture_store == old(self).texture_store,
            final(self).textures == old(self).textures,
    {
        let name = scene.name.clone();
        let _ = self.scenes.insert(name, scene);
    }

    /// Returns an Option with a mutable reference to the scene with a given name.
    pub fn scene_mut(&mut self, name: &String) -> (scene: Option<&mut Scene>)
        requires
            old(self).wf(),
        ensures
            final(self).wf(),
            match scene {
                Some(s) => {
                    &&& old(self).scenes@.contains_key(name@)
                    &&& *s == old(self).scenes@[name@]
                    &&& final(self).scenes@ == old(self).scenes@.insert(name@, *final(s))
                },
                None => !old(self).scenes@.contains_key(name@) && final(self).scenes
                    == old(self).scenes,
            },
            final(self).active_scene == old(self).active_scene,
            final(self).mesh_store == old(self).mesh_store,
            final(self).meshes == old(self).meshes,
            final(self).texture_store == old(self).texture_store,
            final(self).textures == old(self).textures,
    {
        self.scenes.get_mut(name)
    }

    /// Removes and returns a scene with given name.
    pub fn remove_scene(&mut self, name: &String) -> (scene: Option<Scene>)
        requires
            old(self).wf(),
        ensures
            final(self).wf(),
            scene == if old(self).scenes@.contains_key(name@) {
                Some(old(self).scenes@[name@])
            } else {
                None::<Scene>
            },
            final(self).scenes@ == old(self).scenes@.remove(name@),
            final(self).active_scene == old(self).active_scene,
            final(self).mesh_store == old(self).mesh_store,
            final(self).meshes == old(self).meshes,
            final(self).texture_store == old(self).texture_store,
            final(self).textures == old(self).textures,
    {
        self.scenes.remove(name)
    }

    /// Sets active scene
    pub fn set_active_scene(&mut self, scene: Scene)
        ensures
            final(self).active_scene == Some(scene),
            final(self).scenes == old(self).scenes,
            final(self).mesh_store == old(self).mesh_store,
            final(self).meshes == old(self).meshes,
            final(self).texture_store == old(self).texture_store,
            final(self).textures == old(self).textures,
    {
        self.active_scene = Some(scene);
    }

    /// Removes and returns active scene.
    pub fn remove_active_scene(&mut self) -> (scene: Option<Scene>)
        ensures
            scene == old(self).active_scene,
            final(self).active_scene is None,
            final(self).scenes == old(self).scenes,
            final(self).mesh_store == old(self).mesh_store,
            final(self).meshes == old(self).meshes,
            final(self).texture_store == old(self).texture_store,
            final(self).textures == old(self).textures,
    {
        self.active_scene.take()
    }

    /// Returns an Option with reference to the active scene.
    pub fn active_scene(&self) -> (scene: Option<&Scene>)
        ensures
            match scene {
                Some(s) => self.active_scene == Some(*s),
                None => self.active_scene is None,
            },
    {
        self.active_scene.as_ref()
    }

    /// Returns an Option with mutable reference to the active scene.
    pub fn active_scene_mut(&mut self) -> (scene: Option<&mut Scene>)
        ensures
            match scene {
                Some(s) => old(self).active_scene == Some(*s) && final(self).active_scene == Some(
                    *final(s),
                ),
                None => old(self).active_scene is None && final(self).active_scene is None,
            },
            final(self).scenes == old(self).scenes,
            final(self).mesh_store == old(self).mesh_store,
            final(self).meshes == old(self).meshes,
            final(self).texture_store == old(self).texture_store,
            final(self).textures == old(self).textures,
    {
        self.active_scene.as_mut()
    }
}

} // verus!
