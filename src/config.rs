//! The settings that a front end hands to the machine.
use vstd::prelude::*;

verus! {

/// Where the program image comes from, how fast to run, and where to load it.
pub struct Config {
    /// The file that holds the program image.
    pub rom_path: String,
    /// Instructions per second that the front end aims for.
    pub cpu_hertz: u32,
    /// Decrements per second of the delay timer.
    pub delay_timer_hertz: u8,
    /// Decrements per second of the sound timer.
    pub sound_timer_hertz: u8,
    /// The address at which the program image is loaded.
    pub rom_offset: u16,
}

} // verus!
