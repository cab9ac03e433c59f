pub mod input_event;

use vstd::prelude::*;
use crate::settings::Settings;

verus! {

/// What the input system has told the window about the cursor.
#[derive(Clone, Copy, Debug, PartialEq, Eq, Structural)]
pub struct InputSystem {
    pub has_window: bool,
    pub grab_cursor: bool,
    pub hide_cursor: bool,
}

/// What the window is to be told about the cursor: for each of the two, the
/// new setting where it has changed.
#[derive(Clone, Copy, Debug, PartialEq, Eq, Structural)]
pub struct CursorRequests {
    pub grab: Option<bool>,
    pub hide: Option<bool>,
}

impl InputSystem {
    /// Creates new input system. At first there is no window, because the
    /// renderer is created after the input system; the cursor is taken to
    /// be as the settings say.
    pub fn new(settings: &Settings) -> (input_system: InputSystem)
        ensures
            input_system == (InputSystem {
                has_window: false,
                grab_cursor: settings.grab_cursor,
                hide_cursor: settings.hide_cursor,
            }),
    {
        InputSystem {
            has_window: false,
            grab_cursor: settings.grab_cursor(),
            hide_cursor: settings.hide_cursor(),
        }
    }

    /// Takes note that the surface and its window are there.
    pub fn set_surface(&mut self)
        ensures
            *final(self) == (InputSystem { has_window: true, ..*old(self) }),
    {
        self.has_window = true;
    }

    /// Returns whether there is a window.
    pub fn window(&self) -> (has_window: bool)
        ensures
            has_window == self.has_window,
    {
        self.has_window
    }

    /// What to tell the window so that the cursor is as the settings say.
    /// Without a window there is nothing to tell.
    pub open spec fn spec_cursor_requests(&self, settings: Settings) -> CursorRequests {
        CursorRequests {
            grab: if self.has_window && self.grab_cursor != settings.grab_cursor {
                Some(settings.grab_cursor)
            } else {
                None
            },
            hide: if self.has_window && self.hide_cursor != settings.hide_cursor {
                Some(settings.hide_cursor)
            } else {
                None
            },
        }
    }

    /// Says what to tell the window so that the cursor is as the settings
    /// say.
    pub fn cursor_requests(&self, settings: &Settings) -> (requests: CursorRequests)
        ensures
            requests == self.spec_cursor_requests(*settings),
    {
        let grab = if self.has_window && self.grab_cursor != settings.grab_cursor() {
            Some(settings.grab_cursor())
        } else {
            None
        };
        let hide = if self.has_window && self.hide_cursor != settings.hide_cursor() {
            Some(settings.hide_cursor())
        } else {
            None
        };
        CursorRequests { grab, hide }
    }

    /// Takes note of what the window made of the requests. Hiding always
    /// takes; grabbing takes where `grabbed` says so, else it is asked for
    /// again next time.
    pub fn cursor_applied(&mut self, requests: CursorRequests, grabbed: bool)
        ensures
            final(self).has_window == old(self).has_window,
            final(self).grab_cursor == match requests.grab {
                Some(value) if grabbed => value,
                _ => old(self).grab_cursor,
            },
            final(self).hide_cursor == match requests.hide {
                Some(value) => value,
                None => old(self).hide_cursor,
            },
    {
        if let Some(value) = requests.grab {
            if grabbed {
                self.grab_cursor = value;
            }
        }
        if let Some(value) = requests.hide {
            self.hide_cursor = value;
        }
    }
}

/// Once the requests were applied and the cursor was grabbed, there is
/// nothing left to ask for.
pub proof fn lemma_cursor_settles(input_system: InputSystem, settings: Settings)
    ensures
        ({
            let requests = input_system.spec_cursor_requests(settings);
            let settled = InputSystem {
                has_window: input_system.has_window,
                grab_cursor: match requests.grab {
                    Some(value) => value,
                    None => input_system.grab_cursor,
                },
                hide_cursor: match requests.hide {
                    Some(value) => value,
                    None => input_system.hide_cursor,
                },
            };
            input_system.has_window ==> settled.spec_cursor_requests(settings) == (CursorRequests {
                grab: None,
                hide: None,
            })
        }),
{
}

} // verus!
