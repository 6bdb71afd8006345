//! Host input on its way to the devices, and the picture on its way back.
use crate::c64::C64Port;
use crate::c64_state::{PortRegs, PortState};
use crate::c64host::C64Backend;
use crate::host::HostInput;
use crate::iomap::{Device, DeviceState, IoMap, MapState};
use vstd::prelude::*;

verus! {

/// Input for a device other than the C64's port.
#[allow(inconsistent_fields)]
#[derive(Clone, Copy, Debug, PartialEq, Eq, Structural)]
pub enum DeviceInput {
    /// The keyboard that the overlay scans.
    OverlayKey { row: u8, col: u8, down: bool },
    /// The joystick that the overlay reads.
    OverlayJoystick { port: u8, lines: u8 },
    MenuButton(bool),
    UsbKey { usage: u8, down: bool },
    UsbPlug { port: u8, connected: bool },
    UsbMouse { dx: i32, dy: i32, wheel: i32, buttons: u8 },
}

/// What a device other than the C64's port gets of an input. Keys and joysticks
/// reach the overlay as well as the C64.
pub open spec fn elsewhere(ev: HostInput) -> Option<DeviceInput> {
    match ev {
        HostInput::Key { row, col, down } => Some(DeviceInput::OverlayKey { row, col, down }),
        HostInput::Joystick(lines) => Some(DeviceInput::OverlayJoystick { port: 2, lines }),
        HostInput::JoystickPort { port, lines } => if port == 1 || port == 2 {
            Some(DeviceInput::OverlayJoystick { port, lines })
        } else {
            None
        },
        HostInput::MenuButton(on) => Some(DeviceInput::MenuButton(on)),
        HostInput::UsbKey { usage, down } => Some(DeviceInput::UsbKey { usage, down }),
        HostInput::UsbPlug { port, connected } => Some(DeviceInput::UsbPlug { port, connected }),
        HostInput::UsbMouse { dx, dy, wheel, buttons } => Some(
            DeviceInput::UsbMouse { dx, dy, wheel, buttons },
        ),
        _ => None,
    }
}

/// The port with the joystick on a control port moved. Other ports are dropped.
pub open spec fn stick_moved<B: C64Backend>(p: PortState<B::State>, port: u8, lines: u8)
    -> PortState<B::State> {
    if port == 1 {
        crate::c64_state::joysticks_applied::<B>(
            crate::c64::alone(PortState { regs: PortRegs { joy1: lines, ..p.regs }, ..p }),
        ).port
    } else if port == 2 {
        crate::c64_state::joysticks_applied::<B>(
            crate::c64::alone(PortState { regs: PortRegs { joy2: lines, ..p.regs }, ..p }),
        ).port
    } else {
        p
    }
}

/// The port with other keys for the joystick.
pub open spec fn keys_assigned<B: C64Backend>(
    p: PortState<B::State>,
    port: u8,
    codes: Seq<u8>,
    fire: u8,
) -> PortState<B::State> {
    let q = PortState {
        regs: PortRegs {
            up: codes[0],
            down: codes[1],
            left: codes[2],
            right: codes[3],
            fire,
            ..p.regs
        },
        ..p
    };
    if port == 1 || port == 2 {
        crate::c64_state::joysticks_applied::<B>(
            crate::c64::alone(PortState { regs: PortRegs { keys_port: port, ..q.regs }, ..q }),
        ).port
    } else {
        q
    }
}

/// The C64's port after an input. While the overlay owns the keyboard no key goes
/// down in the C64; releases always pass, so a key held across the menu does not
/// stick.
pub open spec fn port_after<B: C64Backend>(p: PortState<B::State>, ev: HostInput, owned: bool)
    -> PortState<B::State> {
    match ev {
        HostInput::Key { row, col, down } => if down && owned {
            p
        } else {
            crate::c64_state::keyed::<B>(crate::c64::alone(p), row, col, down).port
        },
        HostInput::Joystick(lines) => stick_moved::<B>(p, 2, lines),
        HostInput::JoystickPort { port, lines } => stick_moved::<B>(p, port, lines),
        HostInput::Restore(held) => crate::c64_state::nmi_applied::<B>(
            crate::c64::alone(PortState { regs: PortRegs { restore: held, ..p.regs }, ..p }),
        ).port,
        HostInput::WasdToJoy { port, codes, fire } => keys_assigned::<B>(p, port, codes@, fire),
        _ => p,
    }
}

/// What a device other than the C64's port gets of an input.
pub fn route(ev: &HostInput) -> (r: Option<DeviceInput>)
    ensures
        r == elsewhere(*ev),
{
    match *ev {
        HostInput::Key { row, col, down } => Some(DeviceInput::OverlayKey { row, col, down }),
        HostInput::Joystick(lines) => Some(DeviceInput::OverlayJoystick { port: 2, lines }),
        HostInput::JoystickPort { port, lines } => if port == 1 || port == 2 {
            Some(DeviceInput::OverlayJoystick { port, lines })
        } else {
            None
        },
        HostInput::MenuButton(on) => Some(DeviceInput::MenuButton(on)),
        HostInput::UsbKey { usage, down } => Some(DeviceInput::UsbKey { usage, down }),
        HostInput::UsbPlug { port, connected } => Some(DeviceInput::UsbPlug { port, connected }),
        HostInput::UsbMouse { dx, dy, wheel, buttons } => Some(
            DeviceInput::UsbMouse { dx, dy, wheel, buttons },
        ),
        _ => None,
    }
}

/// Hand an input to the C64's port. `owned`: the overlay owns the keyboard.
pub fn input_c64<B: C64Backend>(p: &mut C64Port<B>, ev: &HostInput, owned: bool)
    requires
        old(p)@.valid(),
    ensures
        final(p)@ == port_after::<B>(old(p)@, *ev, owned),
        final(p)@.valid(),
{
    match *ev {
        HostInput::Key { row, col, down } => {
            if !(down && owned) {
                p.set_key(row, col, down);
            }
        },
        HostInput::Joystick(lines) => p.set_joystick(2, lines),
        HostInput::JoystickPort { port, lines } => p.set_joystick(port, lines),
        HostInput::Restore(held) => p.set_restore(held),
        HostInput::WasdToJoy { port, codes, fire } => {
            p.set_wasd_to_joy(codes);
            p.set_wasd_fire(fire);
            p.set_wasd_to_joy_port(port);
        },
        _ => {},
    }
}

/// The number of the first C64 port among the devices, from `from` on.
pub open spec fn first_port<S>(devices: Seq<DeviceState<S>>, from: int) -> Option<int>
    decreases devices.len() - from,
{
    if from < 0 || from >= devices.len() {
        None
    } else if devices[from] is C64 {
        Some(from)
    } else {
        first_port(devices, from + 1)
    }
}

impl<S> MapState<S> {
    /// The C64's port.
    pub open spec fn port(self) -> Option<int> {
        first_port(self.devices, 0)
    }

    /// The map with another state of its C64's port.
    pub open spec fn with_port(self, i: int, p: PortState<S>) -> MapState<S> {
        MapState { devices: self.devices.update(i, DeviceState::C64(p)), ..self }
    }
}

impl<B: C64Backend> IoMap<B> {
    /// The number of the C64's port.
    pub fn find_port(&self) -> (r: Option<usize>)
        ensures
            match r {
                Some(i) => {
                    &&& self@.port() == Some(i as int)
                    &&& i < self.devices@.len()
                    &&& self.devices@[i as int] is C64
                },
                None => self@.port() is None,
            },
    {
        let mut i: usize = 0;
        while i < self.devices.len()
            invariant
                i <= self.devices@.len(),
                self@.port() == first_port(self@.devices, i as int),
            decreases self.devices@.len() - i,
        {
            assert(self@.devices[i as int] == self.devices@[i as int]@);
            match &self.devices[i] {
                Device::C64(_) => {
                    return Some(i);
                },
                _ => {},
            }
            i = i + 1;
        }
        None
    }

    /// Hand a host input to the C64's port, if there is one. `owned`: the overlay
    /// owns the keyboard. Returns what another device gets of it.
    pub fn input(&mut self, ev: &HostInput, owned: bool) -> (r: Option<DeviceInput>)
        requires
            old(self)@.valid(),
        ensures
            r == elsewhere(*ev),
            final(self)@ == (match old(self)@.port() {
                Some(i) => old(self)@.with_port(
                    i,
                    port_after::<B>(old(self)@.devices[i]->C64_0, *ev, owned),
                ),
                None => old(self)@,
            }),
            final(self)@.valid(),
    {
        match self.find_port() {
            Some(i) => {
                let ghost before = self@;
                assert(self@.devices[i as int] == self.devices@[i as int]@);
                assert(self@.devices[i as int].valid());
                match &mut self.devices[i] {
                    Device::C64(p) => input_c64(p, ev, owned),
                    _ => {},
                }
                assert(self@.devices =~= before.with_port(
                    i as int,
                    port_after::<B>(before.devices[i as int]->C64_0, *ev, owned),
                ).devices);
            },
            None => {},
        }
        route(ev)
    }

    /// The picture of the C64, if there is one.
    pub fn frame(&self) -> (f: Option<crate::c64host::C64Frame>)
        ensures
            match self@.port() {
                Some(i) => match self@.devices[i]->C64_0.c64 {
                    Some(s) => f matches Some(f) && f@ == B::picture(s),
                    None => f is None,
                },
                None => f is None,
            },
    {
        match self.find_port() {
            Some(i) => {
                assert(self@.devices[i as int] == self.devices@[i as int]@);
                match &self.devices[i] {
                    Device::C64(p) => p.frame(),
                    _ => None,
                }
            },
            None => None,
        }
    }
}

} // verus!
