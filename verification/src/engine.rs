//! The decisions of the game loop: who gets the input, who is updated, and
//! how many updates are due.

use vstd::prelude::*;
use crate::editor::{Editor, spec_scene_after};
use crate::editor::editor_event::EditorEvent;
use crate::input::InputSystem;
use crate::input::input_event::{ElementState, VirtualKeyCode};
use crate::renderer::frame::FrameScheduler;
use crate::renderer::renderer_error::RendererCreationError;
use crate::renderer::{PhysicalDevice, Renderer};
use crate::resource::AssetManager;
use crate::resource::texture::GpuHandle;
use crate::settings::Settings;

verus! {

/// What the window reports, as far as the engine itself acts on it.
#[derive(Clone, Copy, Debug, PartialEq, Eq, Structural)]
pub enum EngineEvent {
    CloseRequested,
    Resized,
    HiDpiFactorChanged,
    KeyboardInput { state: ElementState, keycode: VirtualKeyCode },
    Other,
}

/// What the engine has found among the events of the window.
#[derive(Clone, Copy, Debug, PartialEq, Eq, Structural)]
pub struct WindowScan {
    /// The window is to close: the process ends.
    pub close_requested: bool,
    /// The surface has changed: the swapchain is stale.
    pub recreate_swapchain: bool,
    /// Escape went down.
    pub esc_pressed: bool,
}

/// Who gets the input.
#[derive(Clone, Copy, Debug, PartialEq, Eq, Structural)]
pub enum InputRoute {
    /// The game runs and gets the input.
    Game,
    /// The editor gets the input.
    Editor,
    /// The game ran and escape went down: the cursor is set free and
    /// shown, and the editor takes over.
    LeaveGame,
}

/// Who is updated.
#[derive(Clone, Copy, Debug, PartialEq, Eq, Structural)]
pub enum UpdateTarget {
    Game,
    Editor,
}

/// Whether the event is escape going down.
pub open spec fn spec_is_escape(event: EngineEvent) -> bool {
    event == (EngineEvent::KeyboardInput {
        state: ElementState::Pressed,
        keycode: VirtualKeyCode::Escape,
    })
}

/// What is found among the first `n` events. Nothing is looked at behind
/// a request to close.
pub open spec fn spec_scan_upto(events: Seq<EngineEvent>, n: int) -> WindowScan
    decreases n,
{
    if n <= 0 {
        WindowScan { close_requested: false, recreate_swapchain: false, esc_pressed: false }
    } else {
        let before = spec_scan_upto(events, n - 1);
        if before.close_requested {
            before
        } else {
            match events[n - 1] {
                EngineEvent::CloseRequested => WindowScan { close_requested: true, ..before },
                EngineEvent::Resized | EngineEvent::HiDpiFactorChanged => WindowScan {
                    recreate_swapchain: true,
                    ..before
                },
                event => if spec_is_escape(event) {
                    WindowScan { esc_pressed: true, ..before }
                } else {
                    before
                },
            }
        }
    }
}

/// Looks through the events of the window in their order, up to the
/// first request to close.
pub fn scan_window_events(events: &Vec<EngineEvent>) -> (scan: WindowScan)
    ensures
        scan == spec_scan_upto(events@, events@.len() as int),
{
    let mut scan = WindowScan {
        close_requested: false,
        recreate_swapchain: false,
        esc_pressed: false,
    };
    let mut i: usize = 0;
    while i < events.len()
        invariant
            0 <= i <= events.len(),
            scan == spec_scan_upto(events@, i as int),
        decreases events.len() - i,
    {
        if !scan.close_requested {
            match events[i] {
                EngineEvent::CloseRequested => {
                    scan.close_requested = true;
                },
                EngineEvent::Resized | EngineEvent::HiDpiFactorChanged => {
                    scan.recreate_swapchain = true;
                },
                EngineEvent::KeyboardInput {
                    state: ElementState::Pressed,
                    keycode: VirtualKeyCode::Escape,
                } => {
                    scan.esc_pressed = true;
                },
                _ => {},
            }
        }
        i += 1;
    }
    scan
}

/// Who gets the input. `editor` says whether there is an editor and, if
/// so, whether it lets the game run.
pub fn route_input(editor: Option<bool>, esc_pressed: bool) -> (route: InputRoute)
    ensures
        route == match editor {
            Some(true) => if esc_pressed {
                InputRoute::LeaveGame
            } else {
                InputRoute::Game
            },
            Some(false) => InputRoute::Editor,
            None => InputRoute::Game,
        },
{
    match editor {
        Some(run_game) => {
            if run_game && esc_pressed {
                InputRoute::LeaveGame
            } else if run_game {
                InputRoute::Game
            } else {
                InputRoute::Editor
            }
        },
        None => InputRoute::Game,
    }
}

/// Who is updated. `editor` says whether there is an editor and, if so,
/// whether it lets the game run.
pub fn route_update(editor: Option<bool>) -> (target: UpdateTarget)
    ensures
        target == match editor {
            Some(false) => UpdateTarget::Editor,
            _ => UpdateTarget::Game,
        },
{
    match editor {
        Some(run_game) => {
            if run_game {
                UpdateTarget::Game
            } else {
                UpdateTarget::Editor
            }
        },
        None => UpdateTarget::Game,
    }
}

/// The time that the game is behind, in nanoseconds.
#[derive(Clone, Copy, Debug, PartialEq, Eq, Structural)]
pub struct GameClock {
    pub lag: u64,
}

impl GameClock {
    /// A clock of a game that is not behind.
    pub fn new() -> (clock: GameClock)
        ensures
            clock.lag == 0,
    {
        GameClock { lag: 0 }
    }

    /// Lets `elapsed` nanoseconds pass and returns the number of updates
    /// of `time_per_update` nanoseconds that are due. What is left of a
    /// step stays on the clock.
    pub fn advance(&mut self, elapsed: u64, time_per_update: u64) -> (updates: u64)
        requires
            time_per_update > 0,
            old(self).lag + elapsed <= u64::MAX,
        ensures
            updates == (old(self).lag + elapsed) / (time_per_update as int),
            final(self).lag == (old(self).lag + elapsed) % (time_per_update as int),
    {
        let total = self.lag + elapsed;
        self.lag = total % time_per_update;
        total / time_per_update
    }
}

/// No time is lost: the updates that are due and what stays on the clock
/// make up the time that has passed, and less than one step stays.
pub proof fn lemma_clock_keeps_time(lag: u64, elapsed: u64, time_per_update: u64)
    requires
        time_per_update > 0,
    ensures
        ({
            let total = lag + elapsed;
            let step = time_per_update as int;
            &&& (total / step) * step + total % step == total
            &&& 0 <= total % step < step
        }),
{
    let total = lag + elapsed;
    let step = time_per_update as int;
    vstd::arithmetic::div_mod::lemma_fundamental_div_mod(total, step);
    vstd::arithmetic::div_mod::lemma_mod_bound(total, step);
    assert((total / step) * step == step * (total / step)) by (nonlinear_arith);
}

/// A struct representing the top level of this engine.
/// It provides access to all the subsystems that can be used.
#[derive(Debug)]
pub struct Engine {
    pub renderer: Renderer,
    pub asset_manager: AssetManager,
    pub input_system: InputSystem,
    pub editor: Option<Editor>,
    pub settings: Settings,
    pub clock: GameClock,
}

impl Engine {
    /// The renderer and the asset manager are sound.
    pub open spec fn wf(&self) -> bool {
        &&& self.renderer.wf()
        &&& self.asset_manager.wf()
    }

    /// Whether there is an editor and, if so, whether it lets the game
    /// run.
    pub open spec fn spec_editor_runs_game(&self) -> Option<bool> {
        match self.editor {
            Some(editor) => Some(editor.current_editor_state.run_game),
            None => None,
        }
    }

    /// Creates and returns a new instance of this engine: a renderer for
    /// the best of `devices`, an asset manager with the default texture,
    /// and an editor where `gui_editor` asks for one. Fails where no
    /// renderer can be made.
    pub fn new(
        settings: Settings,
        devices: &Vec<PhysicalDevice>,
        default_image: GpuHandle,
        default_sampler: GpuHandle,
        gui_editor: bool,
    ) -> (created: Result<Engine, RendererCreationError>)
        ensures
            match created {
                Ok(engine) => {
                    &&& Renderer::spec_new_error(devices@) is None
                    &&& engine.wf()
                    &&& engine.settings == settings
                    &&& engine.renderer.spec_is_new(settings, devices@)
                    &&& engine.asset_manager.spec_is_new(default_image, default_sampler)
                    &&& engine.input_system == (InputSystem {
                        has_window: true,
                        grab_cursor: settings.grab_cursor,
                        hide_cursor: settings.hide_cursor,
                    })
                    &&& match engine.editor {
                        Some(editor) => gui_editor && editor.spec_is_new(),
                        None => !gui_editor,
                    }
                    &&& engine.clock.lag == 0
                },
                Err(e) => Renderer::spec_new_error(devices@) == Some(e),
            },
    {
        let mut input_system = InputSystem::new(&settings);
        let renderer = Renderer::new(&settings, devices)?;
        input_system.set_surface();
        let asset_manager = AssetManager::new(default_image, default_sampler);
        let editor = if gui_editor {
            Some(Editor::new())
        } else {
            None
        };
        Ok(
            Engine {
                renderer,
                asset_manager,
                input_system,
                editor,
                settings,
                clock: GameClock::new(),
            },
        )
    }

    /// Returns settings used by this engine.
    pub fn settings(&self) -> (settings: &Settings)
        ensures
            *settings == self.settings,
    {
        &self.settings
    }

    /// Returns a reference to input system, which updates input mapping implemented by the user.
    pub fn input_system_mut(&mut self) -> (input_system: &mut InputSystem)
        ensures
            *input_system == old(self).input_system,
            *final(self) == (Engine { input_system: *final(input_system), ..*old(self) }),
    {
        &mut self.input_system
    }

    /// Returns a mutable reference to the asset manager.
    pub fn asset_manager_mut(&mut self) -> (asset_manager: &mut AssetManager)
        ensures
            *asset_manager == old(self).asset_manager,
            *final(self) == (Engine { asset_manager: *final(asset_manager), ..*old(self) }),
    {
        &mut self.asset_manager
    }

    /// Returns a mutable reference to the renderer.
    pub fn renderer_mut(&mut self) -> (renderer: &mut Renderer)
        ensures
            *renderer == old(self).renderer,
            *final(self) == (Engine { renderer: *final(renderer), ..*old(self) }),
    {
        &mut self.renderer
    }

    /// Looks through the events of the window and says who gets the
    /// input. Where the surface has changed, the swapchain is marked as
    /// stale.
    pub fn handle_input(&mut self, events: &Vec<EngineEvent>) -> (handled: (WindowScan, InputRoute))
        requires
            old(self).wf(),
        ensures
            final(self).wf(),
            handled.0 == spec_scan_upto(events@, events@.len() as int),
            handled.1 == match old(self).spec_editor_runs_game() {
                Some(true) => if handled.0.esc_pressed {
                    InputRoute::LeaveGame
                } else {
                    InputRoute::Game
                },
                Some(false) => InputRoute::Editor,
                None => InputRoute::Game,
            },
            final(self).renderer == (Renderer {
                frame: FrameScheduler {
                    recreate_swapchain: old(self).renderer.frame.recreate_swapchain
                        || handled.0.recreate_swapchain,
                    ..old(self).renderer.frame
                },
                ..old(self).renderer
            }),
            *final(self) == (Engine { renderer: final(self).renderer, ..*old(self) }),
    {
        let scan = scan_window_events(events);
        if scan.recreate_swapchain {
            self.renderer.force_recreate_swapchain();
        }
        let editor = match &self.editor {
            Some(editor) => Some(editor.run_game()),
            None => None,
        };
        (scan, route_input(editor, scan.esc_pressed))
    }

    /// Says who is updated. Where it is the editor, it carries out what
    /// its user has asked for, and the events carried out are returned.
    pub fn update(&mut self) -> (updated: (UpdateTarget, Vec<EditorEvent>))
        ensures
            updated.0 == match old(self).spec_editor_runs_game() {
                Some(false) => UpdateTarget::Editor,
                _ => UpdateTarget::Game,
            },
            updated.0 is Game ==> *final(self) == *old(self) && updated.1@.len() == 0,
            updated.0 is Editor ==> {
                &&& updated.1 == old(self).editor->0.pending_editor_events
                &&& final(self).editor matches Some(editor) && editor.pending_editor_events@.len()
                    == 0 && editor.synced_editor_state == old(self).editor->0.synced_editor_state
                    && editor.current_editor_state == old(self).editor->0.current_editor_state
                    && editor.editor_input_state == old(self).editor->0.editor_input_state
                &&& final(self).asset_manager.active_scene == spec_scene_after(
                    old(self).asset_manager.active_scene,
                    updated.1@,
                )
                &&& final(self).asset_manager.scenes == old(self).asset_manager.scenes
                &&& final(self).asset_manager.mesh_store == old(self).asset_manager.mesh_store
                &&& final(self).asset_manager.meshes == old(self).asset_manager.meshes
                &&& final(self).asset_manager.texture_store == old(self).asset_manager.texture_store
                &&& final(self).asset_manager.textures == old(self).asset_manager.textures
            },
            final(self).renderer == old(self).renderer,
            final(self).settings == old(self).settings,
            final(self).input_system == old(self).input_system,
            final(self).clock == old(self).clock,
    {
        match &mut self.editor {
            Some(editor) => {
                if editor.run_game() {
                    (UpdateTarget::Game, Vec::new())
                } else {
                    let executed = editor.update(&mut self.asset_manager);
                    (UpdateTarget::Editor, executed)
                }
            },
            None => (UpdateTarget::Game, Vec::new()),
        }
    }

    /// Lets `elapsed` nanoseconds pass and returns the number of updates
    /// that are due, as the settings space them.
    pub fn updates_due(&mut self, elapsed: u64) -> (updates: u64)
        requires
            old(self).settings.time_per_update > 0,
            old(self).clock.lag + elapsed <= u64::MAX,
        ensures
            updates
                == (old(self).clock.lag + elapsed) / (old(self).settings.time_per_update as int),
            final(self).clock.lag
                == (old(self).clock.lag + elapsed) % (old(self).settings.time_per_update as int),
            *final(self) == (Engine { clock: final(self).clock, ..*old(self) }),
    {
        let time_per_update = self.settings.time_per_update();
        self.clock.advance(elapsed, time_per_update)
    }
}

} // verus!
