use vstd::prelude::*;
use crate::resource::AssetManager;
use crate::resource::object::Object;
use crate::resource::scene::Scene;
use crate::scalar::Vec3;
use crate::search::{first_true, lemma_first_true_is};

verus! {

/// What the user of the editor has asked for.
#[derive(Clone, Copy, Debug, PartialEq, Eq, Structural)]
pub enum EditorEvent {
    LightPositionChanged(Vec3),
}

/// Position of the first object that stands for the light.
pub open spec fn spec_light_object(objects: Seq<Object>) -> Option<int> {
    first_true(Seq::new(objects.len(), |i: int| objects[i].light_source))
}

/// Finds the first object that stands for the light.
pub fn light_object(objects: &Vec<Object>) -> (position: Option<usize>)
    ensures
        match position {
            Some(i) => spec_light_object(objects@) == Some(i as int) && i < objects@.len(),
            None => spec_light_object(objects@) is None,
        },
{
    let ghost flags = Seq::new(objects@.len(), |i: int| objects@[i].light_source);
    let mut k: usize = 0;
    while k < objects.len()
        invariant
            0 <= k <= objects.len(),
            flags.len() == objects@.len(),
            forall|j: int| 0 <= j < flags.len() ==> flags[j] == objects@[j].light_source,
            forall|j: int| 0 <= j < k ==> !flags[j],
            spec_light_object(objects@) == first_true(flags),
        decreases objects.len() - k,
    {
        if objects[k].light_source() {
            proof {
                lemma_first_true_is(flags, Some(k as int));
            }
            return Some(k);
        }
        k += 1;
    }
    proof {
        lemma_first_true_is(flags, None);
    }
    None
}

impl EditorEvent {
    /// Carries the event out on the active scene: the light of the scene
    /// moves to the new position. Returns where in the scene the object
    /// stands that shows the light, for it to be moved there too. Without
    /// an active scene nothing happens.
    pub fn execute(self, asset_manager: &mut AssetManager) -> (light_object: Option<usize>)
        ensures
            match old(asset_manager).active_scene {
                Some(scene) => {
                    &&& final(asset_manager).active_scene == Some(
                        Scene { light_position: self->0, ..scene },
                    )
                    &&& match light_object {
                        Some(i) => spec_light_object(scene.objects@) == Some(i as int),
                        None => spec_light_object(scene.objects@) is None,
                    }
                },
                None => final(asset_manager).active_scene is None && light_object is None,
            },
            final(asset_manager).scenes == old(asset_manager).scenes,
            final(asset_manager).mesh_store == old(asset_manager).mesh_store,
            final(asset_manager).meshes == old(asset_manager).meshes,
            final(asset_manager).texture_store == old(asset_manager).texture_store,
            final(asset_manager).textures == old(asset_manager).textures,
    {
        match self {
            EditorEvent::LightPositionChanged(position) => {
                match asset_manager.active_scene_mut() {
                    Some(scene) => {
                        scene.set_light_position(position.x, position.y, position.z);
                        light_object(scene.objects())
                    },
                    None => None,
                }
            },
        }
    }
}

} // verus!
