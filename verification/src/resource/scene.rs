use vstd::prelude::*;
use crate::scalar::{Vec3, ZERO_BITS, ONE_BITS};
use crate::search::{first_true, is_first_true, lemma_first_true};
use crate::resource::camera::Camera;
use crate::resource::object::Object;
use crate::renderer::uniform_manager::LightData;

verus! {

/// Scene is a collection of game objects and world properties.
/// Only one can be active at a time.
#[derive(Debug, PartialEq, Eq)]
pub struct Scene {
    pub name: String,
    pub camera: Camera,
    pub objects: Vec<Object>,
    pub light_position: Vec3,
    pub light_color: Vec3,
}

/// Position of the first object with the given id.
pub open spec fn spec_position_of_id(objects: Seq<Object>, id: u32) -> Option<int> {
    first_true(Seq::new(objects.len(), |i: int| objects[i].id == id))
}

impl Scene {
    /// Creates new scene: no objects, a white light at the origin.
    pub fn new(name: String, camera: Camera) -> (scene: Scene)
        ensures
            scene.name@ == name@,
            scene.camera == camera,
            scene.objects@ == Seq::<Object>::empty(),
            scene.light_position == (Vec3 { x: ZERO_BITS, y: ZERO_BITS, z: ZERO_BITS }),
            scene.light_color == (Vec3 { x: ONE_BITS, y: ONE_BITS, z: ONE_BITS }),
    {
        Scene {
            name,
            camera,
            objects: Vec::new(),
            light_position: Vec3::new(ZERO_BITS, ZERO_BITS, ZERO_BITS),
            light_color: Vec3::new(ONE_BITS, ONE_BITS, ONE_BITS),
        }
    }

    /// Returns the name of this scene.
    pub fn name(&self) -> (name: &String)
        ensures
            name@ == self.name@,
    {
        &self.name
    }

    /// Adds object to the scene, behind those already in it.
    pub fn add_object(&mut self, object: Object)
        ensures
            final(self).objects@ == old(self).objects@.push(object),
            final(self).name == old(self).name,
            final(self).camera == old(self).camera,
            final(self).light_position == old(self).light_position,
            final(self).light_color == old(self).light_color,
    {
        self.objects.push(object);
    }

    /// Removes object from the scene and returns it if found. Of several
    /// objects with the id, the first goes.
    pub fn remove_object(&mut self, id: u32) -> (removed: Option<Object>)
        ensures
            match spec_position_of_id(old(self).objects@, id) {
                Some(i) => removed == Some(old(self).objects@[i]) && final(self).objects@
                    == old(self).objects@.remove(i),
                None => removed is None && final(self).objects@ == old(self).objects@,
            },
            final(self).name == old(self).name,
            final(self).camera == old(self).camera,
            final(self).light_position == old(self).light_position,
            final(self).light_color == old(self).light_color,
    {
        let ghost found = spec_position_of_id(self.objects@, id);
        let ghost flags = Seq::new(self.objects@.len(), |i: int| self.objects@[i].id == id);
        proof {
            lemma_first_true(flags);
        }
        let mut k: usize = 0;
        while k < self.objects.len()
            invariant
                0 <= k <= self.objects.len(),
                *self == *old(self),
                forall|j: int| 0 <= j < k ==> self.objects@[j].id != id,
                flags.len() == self.objects@.len(),
                forall|j: int| 0 <= j < flags.len() ==> flags[j] == (self.objects@[j].id == id),
                is_first_true(flags, found),
                found == spec_position_of_id(old(self).objects@, id),
            decreases self.objects.len() - k,
        {
            if self.objects[k].id == id {
                proof {
                    assert(flags[k as int]);
                    if let Some(i) = found {
                        if i < k {
                            assert(self.objects@[i].id != id);
                        }
                        if k < i {
                            assert(!flags[k as int]);
                        }
                    }
                }
                return Some(self.objects.remove(k));
            }
            k += 1;
        }
        proof {
            if let Some(i) = found {
                assert(self.objects@[i].id != id);
            }
        }
        None
    }

    /// Removes objects with specified name and returns them in a vector if
    /// any are found. The objects that leave and those that stay keep
    /// their order.
    pub fn remove_objects_with_name(&mut self, name: &String) -> (removed: Vec<Object>)
        ensures
            removed@ == old(self).objects@.filter(|o: Object| o.name@ == name@),
            final(self).objects@ == old(self).objects@.filter(|o: Object| o.name@ != name@),
            final(self).name == old(self).name,
            final(self).camera == old(self).camera,
            final(self).light_position == old(self).light_position,
            final(self).light_color == old(self).light_color,
    {
        let ghost all = self.objects@;
        let ghost leaves = |o: Object| o.name@ == name@;
        let ghost stays = |o: Object| o.name@ != name@;
        let mut removed_objects: Vec<Object> = Vec::new();
        let mut kept: usize = 0;
        let ghost mut seen: int = 0;
        proof {
            reveal(Seq::filter);
            assert(all.subrange(0, 0) =~= Seq::<Object>::empty());
        }
        while kept < self.objects.len()
            invariant
                0 <= kept <= self.objects.len(),
                0 <= seen <= all.len(),
                self.objects.len() - kept == all.len() - seen,
                self.objects@.subrange(0, kept as int) == all.subrange(0, seen).filter(stays),
                removed_objects@ == all.subrange(0, seen).filter(leaves),
                self.objects@.subrange(kept as int, self.objects.len() as int) == all.subrange(
                    seen,
                    all.len() as int,
                ),
                self.name == old(self).name,
                self.camera == old(self).camera,
                self.light_position == old(self).light_position,
                self.light_color == old(self).light_color,
                leaves == (|o: Object| o.name@ == name@),
                stays == (|o: Object| o.name@ != name@),
            decreases self.objects.len() - kept,
        {
            let ghost before = self.objects@;
            let ghost object = self.objects@[kept as int];
            proof {
                reveal(Seq::filter);
                assert(before.subrange(kept as int, before.len() as int)[0] == all.subrange(
                    seen,
                    all.len() as int,
                )[0]);
                assert(object == all[seen]);
                assert(all.subrange(0, seen + 1).drop_last() =~= all.subrange(0, seen));
                assert(all.subrange(0, seen + 1).last() == object);
            }
            if self.objects[kept].name == *name {
                let object = self.objects.remove(kept);
                removed_objects.push(object);
                proof {
                    assert(self.objects@.subrange(0, kept as int) =~= before.subrange(
                        0,
                        kept as int,
                    ));
                    assert(self.objects@.subrange(kept as int, self.objects.len() as int)
                        =~= before.subrange(kept as int, before.len() as int).drop_first());
                    assert(all.subrange(seen, all.len() as int).drop_first() =~= all.subrange(
                        seen + 1,
                        all.len() as int,
                    ));
                    seen = seen + 1;
                }
            } else {
                proof {
                    assert(self.objects@.subrange(0, kept as int + 1) =~= before.subrange(
                        0,
                        kept as int,
                    ).push(object));
                    assert(self.objects@.subrange(kept as int + 1, self.objects.len() as int)
                        =~= before.subrange(kept as int, before.len() as int).drop_first());
                    assert(all.subrange(seen, all.len() as int).drop_first() =~= all.subrange(
                        seen + 1,
                        all.len() as int,
                    ));
                    seen = seen + 1;
                }
                kept += 1;
            }
        }
        proof {
            assert(self.objects@.subrange(0, kept as int) =~= self.objects@);
            assert(all.subrange(0, seen) =~= all);
        }
        removed_objects
    }

    /// Returns a reference to all objects.
    pub fn objects(&self) -> (objects: &Vec<Object>)
        ensures
            objects@ == self.objects@,
    {
        &self.objects
    }

    /// Returns a mutable reference to all objects.
    pub fn objects_mut(&mut self) -> (objects: &mut Vec<Object>)
        ensures
            *objects == old(self).objects,
            *final(self) == (Scene { objects: *final(objects), ..*old(self) }),
    {
        &mut self.objects
    }

    /// Changes camera used by this scene.
    pub fn change_camera(&mut self, camera: Camera)
        ensures
            final(self).camera == camera,
            final(self).name == old(self).name,
            final(self).objects == old(self).objects,
            final(self).light_position == old(self).light_position,
            final(self).light_color == old(self).light_color,
    {
        self.camera = camera;
    }

    /// Returns a reference to camera used by this scene.
    pub fn camera(&self) -> (camera: &Camera)
        ensures
            *camera == self.camera,
    {
        &self.camera
    }

    /// Returns a mutable reference to camera used by this scene.
    pub fn camera_mut(&mut self) -> (camera: &mut Camera)
        ensures
            *camera == old(self).camera,
            *final(self) == (Scene { camera: *final(camera), ..*old(self) }),
    {
        &mut self.camera
    }

    pub fn light_color_vec3(&self) -> (color: Vec3)
        ensures
            color == self.light_color,
    {
        self.light_color
    }

    pub fn light_color(&self) -> (color: (u32, u32, u32))
        ensures
            color == (self.light_color.x, self.light_color.y, self.light_color.z),
    {
        (self.light_color.x, self.light_color.y, self.light_color.z)
    }

    pub fn set_light_color(&mut self, r: u32, g: u32, b: u32)
        ensures
            final(self).light_color == (Vec3 { x: r, y: g, z: b }),
            final(self).name == old(self).name,
            final(self).camera == old(self).camera,
            final(self).objects == old(self).objects,
            final(self).light_position == old(self).light_position,
    {
        self.light_color = Vec3::new(r, g, b);
    }

    pub fn set_light_position(&mut self, x: u32, y: u32, z: u32)
        ensures
            final(self).light_position == (Vec3 { x, y, z }),
            final(self).name == old(self).name,
            final(self).camera == old(self).camera,
            final(self).objects == old(self).objects,
            final(self).light_color == old(self).light_color,
    {
        self.light_position = Vec3::new(x, y, z);
    }

    pub fn light_position(&self) -> (position: (u32, u32, u32))
        ensures
            position == (self.light_position.x, self.light_position.y, self.light_position.z),
    {
        (self.light_position.x, self.light_position.y, self.light_position.z)
    }

    /// The light of the scene as the fragment shader takes it.
    pub fn light_data(&self) -> (data: LightData)
        ensures
            data == (LightData {
                light_position: self.light_position,
                light_color: self.light_color,
            }),
    {
        LightData { light_position: self.light_position, light_color: self.light_color }
    }
}

} // verus!
