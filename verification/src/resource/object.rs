use vstd::prelude::*;
use crate::scalar::Mat4;
use crate::resource::mesh::MeshHandle;

verus! {

/// Source of object ids. An id is one more than the id before it, and
/// after `u32::MAX` comes 0.
#[derive(Debug)]
pub struct IdGenerator {
    pub last: u32,
}

/// The id that follows `last`.
pub open spec fn spec_next_id(last: u32) -> u32 {
    if last == u32::MAX {
        0
    } else {
        (last + 1) as u32
    }
}

/// The id issued `n` ids after `last`.
pub open spec fn spec_id_after(last: u32, n: nat) -> u32
    decreases n,
{
    if n == 0 {
        last
    } else {
        spec_next_id(spec_id_after(last, (n - 1) as nat))
    }
}

impl IdGenerator {
    /// A generator whose first id is 1.
    pub fn new() -> (ids: IdGenerator)
        ensures
            ids.last == 0,
    {
        IdGenerator { last: 0 }
    }
}

/// Generates new unique id.
pub fn generate_id(ids: &mut IdGenerator) -> (id: u32)
    ensures
        id == spec_next_id(old(ids).last),
        final(ids).last == id,
{
    let id = if ids.last == u32::MAX {
        0
    } else {
        ids.last + 1
    };
    ids.last = id;
    id
}

/// Counting on from `last`, the id after `n` steps is `last + n` reduced
/// modulo 2^32.
pub proof fn lemma_id_after(last: u32, n: nat)
    ensures
        spec_id_after(last, n) as int == (last + n) % 0x1_0000_0000,
    decreases n,
{
    if n > 0 {
        lemma_id_after(last, (n - 1) as nat);
        let before = spec_id_after(last, (n - 1) as nat);
        assert(before as int == (last + n - 1) % 0x1_0000_0000);
        if before == u32::MAX {
            assert((last + n) % 0x1_0000_0000 == 0) by (nonlinear_arith)
                requires
                    (last + n - 1) % 0x1_0000_0000 == 0xffff_ffff,
            ;
        } else {
            assert((last + n) % 0x1_0000_0000 == before + 1) by (nonlinear_arith)
                requires
                    (last + n - 1) % 0x1_0000_0000 == before,
                    0 <= before < 0xffff_ffff,
            ;
        }
    }
}

/// Two ids that one generator issues fewer than 2^32 ids apart differ.
pub proof fn lemma_ids_differ(last: u32, m: nat, n: nat)
    requires
        m < n,
        n - m < 0x1_0000_0000,
    ensures
        spec_id_after(last, m) != spec_id_after(last, n),
{
    lemma_id_after(last, m);
    lemma_id_after(last, n);
    if spec_id_after(last, m) == spec_id_after(last, n) {
        assert(false) by (nonlinear_arith)
            requires
                (last + m) % 0x1_0000_0000 == (last + n) % 0x1_0000_0000,
                0 < n - m < 0x1_0000_0000,
        ;
    }
}

/// Objects are entities in the scene.
#[derive(Debug, PartialEq, Eq)]
pub struct Object {
    pub id: u32,
    pub name: String,
    pub model_matrix: Mat4,
    pub mesh: Option<MeshHandle>,
    /// Whether the object stands for the light of its scene.
    pub light_source: bool,
}

impl Object {
    /// Returns object id. Every id is unique.
    pub fn id(&self) -> (id: u32)
        ensures
            id == self.id,
    {
        self.id
    }

    /// Returns object name. Multiple objects can have the same name.
    pub fn name(&self) -> (name: &String)
        ensures
            name@ == self.name@,
    {
        &self.name
    }

    /// Sets object name. Multiple objects can have the same name.
    pub fn set_name(&mut self, name: String)
        ensures
            final(self).name@ == name@,
            final(self).id == old(self).id,
            final(self).model_matrix == old(self).model_matrix,
            final(self).mesh == old(self).mesh,
            final(self).light_source == old(self).light_source,
    {
        self.name = name;
    }

    /// Returns model matrix.
    pub fn model_matrix(&self) -> (model_matrix: Mat4)
        ensures
            model_matrix == self.model_matrix,
    {
        self.model_matrix
    }

    /// Sets model matrix.
    pub fn set_model_matrix(&mut self, model_matrix: Mat4)
        ensures
            final(self).model_matrix == model_matrix,
            final(self).id == old(self).id,
            final(self).name == old(self).name,
            final(self).mesh == old(self).mesh,
            final(self).light_source == old(self).light_source,
    {
        self.model_matrix = model_matrix;
    }

    /// Returns object Mesh if set or None if it doesn't have one.
    pub fn mesh(&self) -> (mesh: Option<MeshHandle>)
        ensures
            mesh == self.mesh,
    {
        self.mesh
    }

    /// Sets object mesh.
    pub fn set_mesh(&mut self, mesh: MeshHandle)
        ensures
            final(self).mesh == Some(mesh),
            final(self).id == old(self).id,
            final(self).name == old(self).name,
            final(self).model_matrix == old(self).model_matrix,
            final(self).light_source == old(self).light_source,
    {
        self.mesh = Some(mesh);
    }

    /// Returns whether the object stands for the light of its scene.
    pub fn light_source(&self) -> (light_source: bool)
        ensures
            light_source == self.light_source,
    {
        self.light_source
    }

    /// Sets whether the object stands for the light of its scene.
    pub fn set_light_source(&mut self, light_source: bool)
        ensures
            final(self).light_source == light_source,
            final(self).id == old(self).id,
            final(self).name == old(self).name,
            final(self).model_matrix == old(self).model_matrix,
            final(self).mesh == old(self).mesh,
    {
        self.light_source = light_source;
    }

    /// A copy of this object under a new id.
    pub fn duplicate(&self, ids: &mut IdGenerator) -> (object: Object)
        ensures
            object.id == spec_next_id(old(ids).last),
            final(ids).last == object.id,
            object.name@ == self.name@,
            object.model_matrix == self.model_matrix,
            object.mesh == self.mesh,
            object.light_source == self.light_source,
    {
        Object {
            id: generate_id(ids),
            name: self.name.clone(),
            model_matrix: self.model_matrix,
            mesh: self.mesh,
            light_source: self.light_source,
        }
    }
}

/// Builder used for constructing new objects.
#[derive(Debug)]
pub struct ObjectBuilder {
    pub name: String,
    pub model_matrix: Mat4,
    pub mesh: Option<MeshHandle>,
}

impl ObjectBuilder {
    /// Starts an object without a mesh, placed by the identity matrix.
    pub fn new(name: String) -> (builder: ObjectBuilder)
        ensures
            builder.name@ == name@,
            builder.model_matrix.cells@ == Mat4::spec_identity_cells(),
            builder.mesh is None,
    {
        ObjectBuilder { name, model_matrix: Mat4::identity(), mesh: None }
    }

    pub fn with_mesh(self, mesh: MeshHandle) -> (builder: ObjectBuilder)
        ensures
            builder.mesh == Some(mesh),
            builder.name == self.name,
            builder.model_matrix == self.model_matrix,
    {
        ObjectBuilder { name: self.name, model_matrix: self.model_matrix, mesh: Some(mesh) }
    }

    pub fn with_model_matrix(self, model_matrix: Mat4) -> (builder: ObjectBuilder)
        ensures
            builder.model_matrix == model_matrix,
            builder.name == self.name,
            builder.mesh == self.mesh,
    {
        ObjectBuilder { name: self.name, model_matrix, mesh: self.mesh }
    }

    /// Makes an object as the builder describes it, under a new id.
    pub fn build(&self, ids: &mut IdGenerator) -> (object: Object)
        ensures
            object.id == spec_next_id(old(ids).last),
            final(ids).last == object.id,
            object.name@ == self.name@,
            object.model_matrix == self.model_matrix,
            object.mesh == self.mesh,
            !object.light_source,
    {
        Object {
            id: generate_id(ids),
            name: self.name.clone(),
            model_matrix: self.model_matrix,
            mesh: self.mesh,
            light_source: false,
        }
    }
}

} // verus!
