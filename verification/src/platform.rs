use vstd::prelude::*;

use crate::display::Display;
use crate::error::Error;
use crate::keyboard::Keyboard;

verus! {

/// How many instructions a frame may retire: none while paused, exactly one
/// per frame while stepping, a time-scaled batch while running.
pub enum ExecutionMode {
    Running,
    Paused,
    Step,
}

/// The host side of the machine: it supplies keypad snapshots, a monotonic
/// wall clock and the execution mode, and receives the framebuffer and the
/// audio gate once per frame. Host calls may fail with a host-defined error
/// that subsumes the machine's own taxonomy.
pub trait Platform {
    type Error: From<Error>;

    /// The current keypad snapshot.
    fn get_keys(&self) -> Keyboard;

    /// Presents the framebuffer.
    fn draw_display(&mut self, display: &Display) -> Result<(), Self::Error>;

    /// Opens or closes the audio gate.
    fn play_sound(&mut self, enabled: bool) -> Result<(), Self::Error>;

    /// Monotonic time since an arbitrary origin, in microseconds.
    fn get_time(&self) -> u64;

    /// The current execution mode.
    fn get_execution_mode(&self) -> ExecutionMode;
}

} // verus!
