use vstd::prelude::*;
use crate::editor::editor_event::EditorEvent;
use crate::editor::editor_state::EditorState;
use crate::scalar::Vec3;

verus! {

/// What a text box reports.
#[derive(Clone, Debug, PartialEq, Eq)]
pub enum TextBoxEvent {
    /// The user has confirmed the text.
    Enter,
    /// The text has changed to this.
    Update(String),
}

/// One of the three boxes for the position of the light.
#[derive(Clone, Copy, Debug, PartialEq, Eq, Structural)]
pub enum LightAxis {
    X,
    Y,
    Z,
}

/// What the texts of the three boxes say as numbers, each where the text
/// is a number.
#[derive(Clone, Copy, Debug, PartialEq, Eq, Structural)]
pub struct ParsedLight {
    pub x: Option<u32>,
    pub y: Option<u32>,
    pub z: Option<u32>,
}

/// The position that a confirmed entry stands for: for each box the number
/// in it, and the last known number where the box holds none.
pub open spec fn spec_entered_position(parsed: ParsedLight, synced_position: Vec3) -> Vec3 {
    Vec3 {
        x: match parsed.x {
            Some(x) => x,
            None => synced_position.x,
        },
        y: match parsed.y {
            Some(y) => y,
            None => synced_position.y,
        },
        z: match parsed.z {
            Some(z) => z,
            None => synced_position.z,
        },
    }
}

/// Handles what a box for the position of the light reports.
///
/// A change of the text of the box `updated_text_box` is taken over into
/// the current state. On a confirmation each box whose text is no number
/// goes back to the text of the synced state, and the position that the
/// boxes then stand for is returned as an event. `parsed` says what the
/// current texts are as numbers, and `synced_position` what the texts of
/// the synced state are.
pub fn light_text_box_event_execute(
    event: TextBoxEvent,
    updated_text_box: LightAxis,
    synced_editor_state: &EditorState,
    synced_position: Vec3,
    current_editor_state: &mut EditorState,
    parsed: ParsedLight,
) -> (editor_event: Option<EditorEvent>)
    ensures
        final(current_editor_state).run_game == old(current_editor_state).run_game,
        match event {
            TextBoxEvent::Enter => {
                &&& editor_event == Some(
                    EditorEvent::LightPositionChanged(
                        spec_entered_position(parsed, synced_position),
                    ),
                )
                &&& final(current_editor_state).x_light_text_box_content == if parsed.x is Some {
                    old(current_editor_state).x_light_text_box_content
                } else {
                    synced_editor_state.x_light_text_box_content
                }
                &&& final(current_editor_state).y_light_text_box_content == if parsed.y is Some {
                    old(current_editor_state).y_light_text_box_content
                } else {
                    synced_editor_state.y_light_text_box_content
                }
                &&& final(current_editor_state).z_light_text_box_content == if parsed.z is Some {
                    old(current_editor_state).z_light_text_box_content
                } else {
                    synced_editor_state.z_light_text_box_content
                }
            },
            TextBoxEvent::Update(new_val) => {
                &&& editor_event is None
                &&& final(current_editor_state).x_light_text_box_content == if updated_text_box
                    is X {
                    new_val
                } else {
                    old(current_editor_state).x_light_text_box_content
                }
                &&& final(current_editor_state).y_light_text_box_content == if updated_text_box
                    is Y {
                    new_val
                } else {
                    old(current_editor_state).y_light_text_box_content
                }
                &&& final(current_editor_state).z_light_text_box_content == if updated_text_box
                    is Z {
                    new_val
                } else {
                    old(current_editor_state).z_light_text_box_content
                }
            },
        },
{
    match event {
        TextBoxEvent::Enter => {
            let x = match parsed.x {
                Some(x) => x,
                None => {
                    current_editor_state.x_light_text_box_content =
                    synced_editor_state.x_light_text_box_content.clone();
                    synced_position.x
                },
            };
            let y = match parsed.y {
                Some(y) => y,
                None => {
                    current_editor_state.y_light_text_box_content =
                    synced_editor_state.y_light_text_box_content.clone();
                    synced_position.y
                },
            };
            let z = match parsed.z {
                Some(z) => z,
                None => {
                    current_editor_state.z_light_text_box_content =
                    synced_editor_state.z_light_text_box_content.clone();
                    synced_position.z
                },
            };
            Some(EditorEvent::LightPositionChanged(Vec3::new(x, y, z)))
        },
        TextBoxEvent::Update(new_val) => {
            match updated_text_box {
                LightAxis::X => {
                    current_editor_state.x_light_text_box_content = new_val;
                },
                LightAxis::Y => {
                    current_editor_state.y_light_text_box_content = new_val;
                },
                LightAxis::Z => {
                    current_editor_state.z_light_text_box_content = new_val;
                },
            }
            None
        },
    }
}

} // verus!
