//! What crosses the border between host and machine.
use crate::c64host::C64Frame;
use vstd::prelude::*;

verus! {

/// Input from the host.
#[allow(inconsistent_fields)]
#[derive(Clone, Copy, Debug, PartialEq, Eq)]
pub enum HostInput {
    /// A position of the C64's keyboard matrix.
    Key { row: u8, col: u8, down: bool },
    /// The joystick on control port 2, lines active low (idle 0xFF).
    Joystick(u8),
    /// The joystick on control port 1 or 2, lines active low: bit 0 up, 1 down,
    /// 2 left, 3 right, 4 fire (idle 0xFF). Other ports are dropped.
    JoystickPort { port: u8, lines: u8 },
    /// The menu button.
    MenuButton(bool),
    /// A key of the USB keyboard by its usage ID, modifiers 0xE0-0xE7.
    UsbKey { usage: u8, down: bool },
    /// Plug the device on a hub port (from 1) in or out.
    UsbPlug { port: u8, connected: bool },
    /// Move the USB mouse right and down, turn its wheel, hold buttons.
    UsbMouse { dx: i32, dy: i32, wheel: i32, buttons: u8 },
    /// The RESTORE key: NMI level while held.
    Restore(bool),
    /// Keys that act as a joystick: key codes (row * 8 + column, 0xFF for no key)
    /// of up, down, left and right, the control port that they drive, and the key
    /// code of fire.
    WasdToJoy { port: u8, codes: [u8; 4], fire: u8 },
}

/// Everything that a renderer needs to draw the overlay.
#[derive(Debug, Default)]
pub struct DisplaySnapshot {
    /// Registers of the overlay's character generator.
    pub regs: [u8; 16],
    /// Screen RAM (4096 bytes).
    pub screen: Vec<u8>,
    /// Colour RAM (4096 bytes).
    pub color: Vec<u8>,
    /// HDMI palette (16 of 4 bytes).
    pub palette: Vec<u8>,
    /// HDMI timing registers.
    pub hdmi: [u8; 30],
    /// The part of the VIC's picture that goes to the scaler: x, y, half the width,
    /// half the height.
    pub cropper: [u8; 4],
    /// Emulated time of the snapshot.
    pub now_ms: u64,
    /// The C64's picture under the overlay; None without a C64.
    pub c64: Option<C64Frame>,
}

/// The host's end of the wired network. Frames run from the destination address to
/// the end of the payload, without preamble and checksum.
pub trait NetBackend {
    /// A frame that the guest sent.
    fn send(&mut self, frame: &[u8]);

    /// Serve the host's side without blocking: every frame for the guest.
    fn poll(&mut self) -> Vec<Vec<u8>>;
}

} // verus!
