use vstd::prelude::*;

verus! {

/// A size in physical pixels.
#[derive(Clone, Copy, Debug, PartialEq, Eq, Structural)]
pub struct PhysicalSize {
    pub width: u32,
    pub height: u32,
}

/// Stores engine settings.
#[derive(Debug, PartialEq, Eq)]
pub struct Settings {
    pub window_title: String,
    pub window_size: PhysicalSize,
    /// Time between two updates of the game, in nanoseconds.
    pub time_per_update: u64,
    /// Time between two log lines about the frame rate, in nanoseconds.
    pub log_fps_frequency: u64,
    pub grab_cursor: bool,
    pub hide_cursor: bool,
    /// Number of uniform blocks of each kind that the pools of a renderer
    /// start with room for.
    pub uniform_pool_size: usize,
}

impl Settings {
    /// Creates new settings struct with given window title and screen size:
    /// an update every 16 ms, a log line every 5 s, the cursor free and
    /// visible, pools that start with room for 1024 uniform blocks of each
    /// kind.
    pub fn new(window_title: String, scr_width: u32, scr_height: u32) -> (settings: Settings)
        ensures
            settings.window_title@ == window_title@,
            settings.window_size == (PhysicalSize { width: scr_width, height: scr_height }),
            settings.time_per_update == 16_000_000,
            settings.log_fps_frequency == 5_000_000_000,
            !settings.grab_cursor,
            !settings.hide_cursor,
            settings.uniform_pool_size == 1024,
    {
        Settings {
            window_title,
            window_size: PhysicalSize { width: scr_width, height: scr_height },
            time_per_update: 16_000_000,
            log_fps_frequency: 5_000_000_000,
            grab_cursor: false,
            hide_cursor: false,
            uniform_pool_size: 1024,
        }
    }

    /// Changes window size.
    pub fn set_window_size(&mut self, value: PhysicalSize)
        ensures
            *final(self) == (Settings { window_size: value, ..*old(self) }),
    {
        self.window_size = value;
    }

    /// Returns current window size.
    pub fn window_size(&self) -> (size: PhysicalSize)
        ensures
            size == self.window_size,
    {
        self.window_size
    }

    /// Returns window title.
    pub fn window_title(&self) -> (title: &String)
        ensures
            title@ == self.window_title@,
    {
        &self.window_title
    }

    pub fn set_grab_cursor(&mut self, value: bool)
        ensures
            *final(self) == (Settings { grab_cursor: value, ..*old(self) }),
    {
        self.grab_cursor = value;
    }

    pub fn grab_cursor(&self) -> (value: bool)
        ensures
            value == self.grab_cursor,
    {
        self.grab_cursor
    }

    pub fn set_hide_cursor(&mut self, value: bool)
        ensures
            *final(self) == (Settings { hide_cursor: value, ..*old(self) }),
    {
        self.hide_cursor = value;
    }

    pub fn hide_cursor(&self) -> (value: bool)
        ensures
            value == self.hide_cursor,
    {
        self.hide_cursor
    }

    /// Sets time step between game updates, in nanoseconds.
    pub fn set_time_per_update(&mut self, value: u64)
        ensures
            *final(self) == (Settings { time_per_update: value, ..*old(self) }),
    {
        self.time_per_update = value;
    }

    /// Returns time step between game updates, in nanoseconds.
    pub fn time_per_update(&self) -> (value: u64)
        ensures
            value == self.time_per_update,
    {
        self.time_per_update
    }

    /// Sets duration between game fps logs, in nanoseconds.
    pub fn set_log_fps_frequency(&mut self, value: u64)
        ensures
            *final(self) == (Settings { log_fps_frequency: value, ..*old(self) }),
    {
        self.log_fps_frequency = value;
    }

    /// Returns duration between game fps logs, in nanoseconds.
    pub fn log_fps_frequency(&self) -> (value: u64)
        ensures
            value == self.log_fps_frequency,
    {
        self.log_fps_frequency
    }

    /// Sets the number of uniform blocks of each kind that the pools of a
    /// renderer start with room for. A renderer takes the number when it
    /// is created.
    pub fn set_uniform_pool_size(&mut self, value: usize)
        ensures
            *final(self) == (Settings { uniform_pool_size: value, ..*old(self) }),
    {
        self.uniform_pool_size = value;
    }

    /// Returns the number of uniform blocks of each kind that the pools of
    /// a renderer start with room for.
    pub fn uniform_pool_size(&self) -> (value: usize)
        ensures
            value == self.uniform_pool_size,
    {
        self.uniform_pool_size
    }
}

} // verus!
