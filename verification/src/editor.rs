pub mod editor_state;
pub mod editor_event;
pub mod gui_event;

use vstd::prelude::*;
use crate::editor::editor_event::EditorEvent;
use crate::editor::editor_state::{EditorInputState, EditorState, spec_initial_content};
use crate::input::input_event::InputEvent;
use crate::resource::AssetManager;
use crate::resource::scene::Scene;

verus! {

/// The position of the light as the three boxes of the editor show it.
#[derive(Clone, Debug, PartialEq, Eq)]
pub struct LightText {
    pub x: String,
    pub y: String,
    pub z: String,
}

/// The active scene after the events were carried out on it: its light
/// stands where the last event puts it.
pub open spec fn spec_scene_after(scene: Option<Scene>, events: Seq<EditorEvent>) -> Option<Scene> {
    match scene {
        Some(scene) => Some(
            Scene {
                light_position: if events.len() > 0 {
                    events.last()->0
                } else {
                    scene.light_position
                },
                ..scene
            },
        ),
        None => None,
    }
}

/// The editor without its widgets: what it shows, what it last took over
/// from the game, what it knows of keys and mouse, and what the user has
/// asked for since the last update.
#[derive(Clone, Debug, PartialEq, Eq)]
pub struct Editor {
    pub synced_editor_state: EditorState,
    pub current_editor_state: EditorState,
    pub editor_input_state: EditorInputState,
    pub pending_editor_events: Vec<EditorEvent>,
}

impl Editor {
    /// Whether this is an editor that was just opened: it shows what a
    /// new state says, took the same over, and nothing was asked for.
    pub open spec fn spec_is_new(&self) -> bool {
        &&& self.synced_editor_state.spec_is_new()
        &&& self.current_editor_state.spec_is_new()
        &&& self.editor_input_state == EditorInputState::spec_new()
        &&& self.pending_editor_events@.len() == 0
    }

    /// An editor that was just opened.
    pub fn new() -> (editor: Editor)
        ensures
            editor.spec_is_new(),
    {
        Editor {
            synced_editor_state: EditorState::new(),
            current_editor_state: EditorState::new(),
            editor_input_state: EditorInputState::new(),
            pending_editor_events: Vec::new(),
        }
    }

    /// Takes note of the events of keys and mouse that move the camera.
    pub fn handle_camera_input(&mut self, input_events: &Vec<InputEvent>)
        ensures
            final(self).editor_input_state == old(self).editor_input_state.spec_after_events(
                input_events@,
            ),
            final(self).synced_editor_state == old(self).synced_editor_state,
            final(self).current_editor_state == old(self).current_editor_state,
            final(self).pending_editor_events == old(self).pending_editor_events,
    {
        self.editor_input_state.handle_camera_input(input_events);
    }

    /// Takes over the state of the game: the boxes show the position of
    /// the light of the active scene, given as text, or `0.0` each where
    /// no scene is active. The game stands still.
    pub fn sync_editor(&mut self, light: Option<LightText>)
        ensures
            !final(self).current_editor_state.run_game,
            final(self).synced_editor_state == final(self).current_editor_state,
            match light {
                Some(text) => {
                    &&& final(self).current_editor_state.x_light_text_box_content == text.x
                    &&& final(self).current_editor_state.y_light_text_box_content == text.y
                    &&& final(self).current_editor_state.z_light_text_box_content == text.z
                },
                None => final(self).current_editor_state.spec_is_new(),
            },
            final(self).editor_input_state == old(self).editor_input_state,
            final(self).pending_editor_events == old(self).pending_editor_events,
    {
        let mut editor_state = EditorState::new();
        if let Some(text) = light {
            editor_state.x_light_text_box_content = text.x;
            editor_state.y_light_text_box_content = text.y;
            editor_state.z_light_text_box_content = text.z;
        }
        let synced = EditorState {
            run_game: editor_state.run_game,
            x_light_text_box_content: editor_state.x_light_text_box_content.clone(),
            y_light_text_box_content: editor_state.y_light_text_box_content.clone(),
            z_light_text_box_content: editor_state.z_light_text_box_content.clone(),
        };
        self.synced_editor_state = synced;
        self.current_editor_state = editor_state;
    }

    /// Returns whether the game runs.
    pub fn run_game(&self) -> (run_game: bool)
        ensures
            run_game == self.current_editor_state.run_game,
    {
        self.current_editor_state.run_game
    }

    /// Starts or stops the game. To stop it is to go back to the editor,
    /// which then takes over the state of the game: `synced` holds what
    /// `sync_editor` is to be given, and has to be there.
    pub fn set_run_game(&mut self, run_game: bool, synced: Option<Option<LightText>>)
        requires
            !run_game ==> synced is Some,
        ensures
            final(self).current_editor_state.run_game == run_game,
            final(self).editor_input_state == old(self).editor_input_state,
            final(self).pending_editor_events == old(self).pending_editor_events,
            run_game ==> {
                &&& final(self).synced_editor_state == old(self).synced_editor_state
                &&& final(self).current_editor_state.x_light_text_box_content
                    == old(self).current_editor_state.x_light_text_box_content
                &&& final(self).current_editor_state.y_light_text_box_content
                    == old(self).current_editor_state.y_light_text_box_content
                &&& final(self).current_editor_state.z_light_text_box_content
                    == old(self).current_editor_state.z_light_text_box_content
            },
            !run_game ==> {
                &&& !final(self).synced_editor_state.run_game
                &&& final(self).synced_editor_state.x_light_text_box_content
                    == final(self).current_editor_state.x_light_text_box_content
                &&& final(self).synced_editor_state.y_light_text_box_content
                    == final(self).current_editor_state.y_light_text_box_content
                &&& final(self).synced_editor_state.z_light_text_box_content
                    == final(self).current_editor_state.z_light_text_box_content
                &&& match synced->0 {
                    Some(text) => {
                        &&& final(self).current_editor_state.x_light_text_box_content == text.x
                        &&& final(self).current_editor_state.y_light_text_box_content == text.y
                        &&& final(self).current_editor_state.z_light_text_box_content == text.z
                    },
                    None => {
                        &&& final(self).current_editor_state.x_light_text_box_content@
                            == spec_initial_content()
                        &&& final(self).current_editor_state.y_light_text_box_content@
                            == spec_initial_content()
                        &&& final(self).current_editor_state.z_light_text_box_content@
                            == spec_initial_content()
                    },
                }
            },
    {
        if !run_game {
            if let Some(light) = synced {
                self.sync_editor(light);
            }
        }
        self.current_editor_state.run_game = run_game;
    }

    /// Carries out on the active scene what the user has asked for since
    /// the last update, in the order of asking, and forgets it: the light
    /// of the scene stands where the last event puts it. Returns the
    /// events that were carried out.
    pub fn update(&mut self, asset_manager: &mut AssetManager) -> (executed: Vec<EditorEvent>)
        ensures
            executed == old(self).pending_editor_events,
            final(self).pending_editor_events@.len() == 0,
            final(self).synced_editor_state == old(self).synced_editor_state,
            final(self).current_editor_state == old(self).current_editor_state,
            final(self).editor_input_state == old(self).editor_input_state,
            final(asset_manager).active_scene == spec_scene_after(
                old(asset_manager).active_scene,
                executed@,
            ),
            final(asset_manager).scenes == old(asset_manager).scenes,
            final(asset_manager).mesh_store == old(asset_manager).mesh_store,
            final(asset_manager).meshes == old(asset_manager).meshes,
            final(asset_manager).texture_store == old(asset_manager).texture_store,
            final(asset_manager).textures == old(asset_manager).textures,
    {
        let mut events: Vec<EditorEvent> = Vec::new();
        core::mem::swap(&mut events, &mut self.pending_editor_events);
        let mut i: usize = 0;
        while i < events.len()
            invariant
                0 <= i <= events.len(),
                asset_manager.active_scene == spec_scene_after(
                    old(asset_manager).active_scene,
                    events@.subrange(0, i as int),
                ),
                asset_manager.scenes == old(asset_manager).scenes,
                asset_manager.mesh_store == old(asset_manager).mesh_store,
                asset_manager.meshes == old(asset_manager).meshes,
                asset_manager.texture_store == old(asset_manager).texture_store,
                asset_manager.textures == old(asset_manager).textures,
            decreases events.len() - i,
        {
            let _ = events[i].execute(asset_manager);
            i += 1;
        }
        assert(events@.subrange(0, i as int) =~= events@);
        events
    }
}

} // verus!
