//! The controller ports at the pace of the master clock.

use vstd::array::spec_array_update;
use vstd::prelude::*;

use crate::nes::NesLines;

verus! {

/// The state of the two ports: the level of M2 at the last tick, the
/// buttons, how many of them each port has given out, and the strobe.
#[derive(Copy, Clone, Debug, PartialEq, Eq)]
pub struct JoystickState {
    pub last_m2: bool,
    pub pads: [[bool; 8]; 2],
    pub indices: [usize; 2],
    pub strobe: bool,
}

impl JoystickState {
    /// The ports with both counts reset while the strobe is high.
    pub open spec fn strobed(self) -> JoystickState {
        if self.strobe {
            JoystickState {
                indices: vstd::array::spec_array_fill_for_copy_type::<usize, 2>(0),
                ..self
            }
        } else {
            self
        }
    }

    /// The byte that port `pad` gives out next: `$40` with the button in bit
    /// 0, and `$41` once all eight buttons are out.
    pub open spec fn next_byte(self, pad: int) -> u8 {
        if self.indices[pad] >= 8 || self.pads[pad][self.indices[pad] as int] {
            0x41
        } else {
            0x40
        }
    }

    /// The ports after port `pad` gave out a button.
    pub open spec fn advanced(self, pad: int) -> JoystickState {
        if self.indices[pad] >= 8 {
            self
        } else {
            JoystickState {
                indices: spec_array_update(self.indices, pad, (self.indices[pad] + 1) as usize),
                ..self
            }
        }
    }

    /// Whether M2 has just risen.
    pub open spec fn m2_rose(self, bus: NesLines) -> bool {
        self.last_m2 != bus.cpu_m2 && bus.cpu_m2
    }

    /// The ports and the bus after the bus was served. The ports act when M2
    /// rises: a write to `$4016` sets the strobe, a read of `$4016` or
    /// `$4017` gives out a button.
    pub open spec fn service_cpu(self, bus: NesLines) -> (JoystickState, NesLines) {
        if !self.m2_rose(bus) {
            (self, bus)
        } else if bus.cpu_address == 0x4016 && !bus.everyone_reads_cpu_bus() {
            (JoystickState { strobe: bus.cpu_data % 2 == 1, ..self }, bus)
        } else if bus.cpu_address == 0x4016 && bus.everyone_reads_cpu_bus() {
            (self.advanced(0), NesLines { cpu_data: self.next_byte(0), ..bus })
        } else if bus.cpu_address == 0x4017 && bus.everyone_reads_cpu_bus() {
            (self.advanced(1), NesLines { cpu_data: self.next_byte(1), ..bus })
        } else {
            (self, bus)
        }
    }

    /// One tick of the master clock.
    pub open spec fn master_cycle(self, bus: NesLines) -> (JoystickState, NesLines) {
        let (served, lines) = self.strobed().service_cpu(bus);
        (JoystickState { last_m2: bus.cpu_m2, ..served }, lines)
    }
}

/// The two controller ports.
pub struct Joystick {
    state: JoystickState,
}

impl View for Joystick {
    type V = JoystickState;

    closed spec fn view(&self) -> JoystickState {
        self.state
    }
}

impl Joystick {
    /// Two ports with no button held.
    pub fn new() -> (joystick: Self)
        ensures
            !joystick@.last_m2,
            !joystick@.strobe,
            forall|pad: int, button: int|
                0 <= pad < 2 && 0 <= button < 8 ==> !(#[trigger] joystick@.pads[pad][button]),
            forall|pad: int| 0 <= pad < 2 ==> #[trigger] joystick@.indices[pad] == 0,
    {
        Self {
            state: JoystickState {
                last_m2: false,
                pads: [[false; 8]; 2],
                indices: [0; 2],
                strobe: false,
            },
        }
    }

    /// One tick of the master clock.
    pub fn master_cycle(&mut self, bus: &mut NesLines)
        ensures
            (final(self)@, *final(bus)) == old(self)@.master_cycle(*old(bus)),
    {
        if self.state.strobe {
            self.state.indices = [0; 2];
        }
        let m2 = bus.cpu_m2;
        self.service_cpu(bus);
        self.state.last_m2 = m2;
    }

    fn service_cpu(&mut self, bus: &mut NesLines)
        ensures
            (final(self)@, *final(bus)) == old(self)@.service_cpu(*old(bus)),
    {
        let m2_edge = self.state.last_m2 != bus.cpu_m2;
        if !m2_edge || !bus.cpu_m2 {
            return ;
        }
        let reads = bus.everyone_reads_cpu_bus();
        if bus.cpu_address == 0x4016 && !reads {
            self.state.strobe = bus.cpu_data % 2 == 1;
        } else if bus.cpu_address == 0x4016 && reads {
            bus.cpu_data = self.next_bit(0);
        } else if bus.cpu_address == 0x4017 && reads {
            bus.cpu_data = self.next_bit(1);
        }
    }

    fn next_bit(&mut self, pad: usize) -> (byte: u8)
        requires
            pad < 2,
        ensures
            byte == old(self)@.next_byte(pad as int),
            final(self)@ == old(self)@.advanced(pad as int),
    {
        let index = self.state.indices[pad];
        let buttons = self.state.pads[pad];

        if index >= 8 {
            0x41
        } else {
            self.state.indices[pad] += 1;
            let value = if buttons[index] {
                0x41
            } else {
                0x40
            };
            value
        }
    }

    /// Holds or releases a button of a pad.
    pub fn set_button(&mut self, pad: u8, button: u8, pressed: bool)
        requires
            pad < 2,
            button < 8,
        ensures
            final(self)@ == (JoystickState {
                pads: spec_array_update(
                    old(self)@.pads,
                    pad as int,
                    spec_array_update(old(self)@.pads[pad as int], button as int, pressed),
                ),
                ..old(self)@
            }),
    {
        let pad = pad as usize;
        let button = button as usize;
        self.state.pads[pad][button] = pressed;
    }
}

} // verus!
