//! Output screens and their selection. Each screen declares whether it
//! renders into a visible window; the GL resource handling itself lives in
//! the unverified rendering front end, which holds the program ids recorded
//! here. Screens are selected by name, with the LED-disk emulator as the
//! default.

use vstd::prelude::*;

verus! {

/// An output screen for rendered frames.
pub trait Screen {
    /// Whether this screen renders into a visible window.
    spec fn spec_uses_window(&self) -> bool;

    /// Whether this screen renders into a visible window.
    fn uses_window(&self) -> (r: bool)
        ensures
            r == self.spec_uses_window(),
    ;
}

/// A plain full-window screen drawing the texture directly.
pub struct RawScreen {
    pub program_id: u32,
}

impl RawScreen {
    /// A raw screen before its shader program is compiled.
    pub fn new() -> (r: RawScreen)
        ensures
            r.program_id == 0,
    {
        RawScreen { program_id: 0 }
    }
}

impl Screen for RawScreen {
    open spec fn spec_uses_window(&self) -> bool {
        true
    }

    fn uses_window(&self) -> (r: bool)
        ensures
            r == self.spec_uses_window(),
    {
        true
    }
}

/// An on-screen emulation of the physical LED disk.
pub struct LedDiskEmulatorScreen {
    pub program_id: u32,
}

impl LedDiskEmulatorScreen {
    /// An emulator screen before its shader program is compiled.
    pub fn new() -> (r: LedDiskEmulatorScreen)
        ensures
            r.program_id == 0,
    {
        LedDiskEmulatorScreen { program_id: 0 }
    }
}

impl Screen for LedDiskEmulatorScreen {
    open spec fn spec_uses_window(&self) -> bool {
        true
    }

    fn uses_window(&self) -> (r: bool)
        ensures
            r == self.spec_uses_window(),
    {
        true
    }
}

/// The physical LED array, driven over SPI by a hand-off thread outside
/// this crate; it needs no window.
pub struct HardwareScreen {}

impl Screen for HardwareScreen {
    open spec fn spec_uses_window(&self) -> bool {
        false
    }

    fn uses_window(&self) -> (r: bool)
        ensures
            r == self.spec_uses_window(),
    {
        false
    }
}

/// Selects a screen by name: `"raw"` for the plain window, `"emulator"`
/// for the LED-disk emulation, and the emulator for any other name. (The
/// physical LED array is wired up outside this crate.) Every screen chosen
/// here renders into a window.
pub fn create_screen(selected_screen: String) -> Box<dyn Screen> {
    let raw: String = "raw".to_owned();
    if selected_screen == raw {
        Box::new(RawScreen::new())
    } else {
        Box::new(LedDiskEmulatorScreen::new())
    }
}

} // verus!
