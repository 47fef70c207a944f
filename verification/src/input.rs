//! The controller ports as a pair of button sets that are read out one
//! button at a time.

use vstd::array::spec_array_update;
use vstd::prelude::*;

use crate::cpu::PinState;
use crate::nesbus::CpuBus;
use crate::util::{bit_u8, get_flag_u8, set_flag_u8, with_bit_u8};

verus! {

/// The bit of A in a [`Controller`].
pub const A: u8 = 0;

/// The bit of B.
pub const B: u8 = 1;

/// The bit of Select.
pub const SELECT: u8 = 2;

/// The bit of Start.
pub const START: u8 = 3;

/// The bit of Up.
pub const UP: u8 = 4;

/// The bit of Down.
pub const DOWN: u8 = 5;

/// The bit of Left.
pub const LEFT: u8 = 6;

/// The bit of Right.
pub const RIGHT: u8 = 7;

/// The buttons of one controller, one bit each.
#[derive(Copy, Clone, Debug, PartialEq, Eq, Hash, Structural)]
pub struct Controller(pub u8);

/// The state of the two ports: the buttons, how many of them each port has
/// given out since the last strobe, and the strobe.
#[derive(Copy, Clone, Debug, PartialEq, Eq)]
pub struct InputState {
    pub controllers: [Controller; 2],
    pub indices: [u8; 2],
    pub strobe: bool,
}

impl Controller {
    /// The buttons with one of them held or released.
    pub open spec fn with_button(self, button: u8, held: bool) -> Controller {
        Controller(with_bit_u8(self.0, button, held))
    }

    /// Holds or releases A.
    pub fn set_a(&mut self, a: bool)
        ensures
            *final(self) == old(self).with_button(A, a),
    {
        set_flag_u8(&mut self.0, A, a)
    }

    /// Holds or releases B.
    pub fn set_b(&mut self, a: bool)
        ensures
            *final(self) == old(self).with_button(B, a),
    {
        set_flag_u8(&mut self.0, B, a)
    }

    /// Holds or releases Select.
    pub fn set_select(&mut self, a: bool)
        ensures
            *final(self) == old(self).with_button(SELECT, a),
    {
        set_flag_u8(&mut self.0, SELECT, a)
    }

    /// Holds or releases Start.
    pub fn set_start(&mut self, a: bool)
        ensures
            *final(self) == old(self).with_button(START, a),
    {
        set_flag_u8(&mut self.0, START, a)
    }

    /// Holds or releases Up.
    pub fn set_up(&mut self, a: bool)
        ensures
            *final(self) == old(self).with_button(UP, a),
    {
        set_flag_u8(&mut self.0, UP, a)
    }

    /// Holds or releases Down.
    pub fn set_down(&mut self, a: bool)
        ensures
            *final(self) == old(self).with_button(DOWN, a),
    {
        set_flag_u8(&mut self.0, DOWN, a)
    }

    /// Holds or releases Left.
    pub fn set_left(&mut self, a: bool)
        ensures
            *final(self) == old(self).with_button(LEFT, a),
    {
        set_flag_u8(&mut self.0, LEFT, a)
    }

    /// Holds or releases Right.
    pub fn set_right(&mut self, a: bool)
        ensures
            *final(self) == old(self).with_button(RIGHT, a),
    {
        set_flag_u8(&mut self.0, RIGHT, a)
    }
}

impl InputState {
    /// No button held, nothing given out, strobe low.
    pub open spec fn released() -> InputState {
        InputState {
            controllers: vstd::array::spec_array_fill_for_copy_type::<Controller, 2>(Controller(0)),
            indices: vstd::array::spec_array_fill_for_copy_type::<u8, 2>(0),
            strobe: false,
        }
    }

    /// While the strobe is high both ports start over.
    pub open spec fn strobed(self) -> InputState {
        if self.strobe {
            InputState {
                indices: vstd::array::spec_array_fill_for_copy_type::<u8, 2>(0),
                ..self
            }
        } else {
            self
        }
    }

    /// The byte that a read of `port` returns: `$40` with the next button in
    /// bit 0, and `$41` once all eight buttons are out.
    pub open spec fn port_byte(self, port: int) -> u8 {
        if self.indices[port] >= 8 || bit_u8(self.controllers[port].0, self.indices[port]) {
            0x41
        } else {
            0x40
        }
    }

    /// The ports after the processor bus was seen. A write to `$4016` sets
    /// the strobe from bit 0; a read of `$4016` or `$4017` gives out the
    /// next button of the port.
    pub open spec fn handle_cpu(self, cpu: PinState) -> (InputState, PinState) {
        if !cpu.read {
            if cpu.address == 0x4016 {
                (InputState { strobe: cpu.data % 2 == 1, ..self }, cpu)
            } else {
                (self, cpu)
            }
        } else if cpu.address == 0x4016 || cpu.address == 0x4017 {
            let port = cpu.address % 2;
            (
                if self.indices[port as int] >= 8 {
                    self
                } else {
                    InputState {
                        indices: spec_array_update(
                            self.indices,
                            port as int,
                            (self.indices[port as int] + 1) as u8,
                        ),
                        ..self
                    }
                },
                PinState { data: self.port_byte(port as int), ..cpu },
            )
        } else {
            (self, cpu)
        }
    }

    /// One processor cycle: the strobe acts, then the bus is served.
    pub open spec fn cycle(self, cpu: PinState) -> (InputState, PinState) {
        self.strobed().handle_cpu(cpu)
    }
}

/// The two controller ports at `$4016` and `$4017`.
pub struct Input {
    state: InputState,
}

impl View for Input {
    type V = InputState;

    closed spec fn view(&self) -> InputState {
        self.state
    }
}

impl Input {
    /// Two ports with no button held.
    pub fn init() -> (input: Self)
        ensures
            input@ == InputState::released(),
    {
        Self { state: InputState { controllers: [Controller(0); 2], indices: [0; 2], strobe: false } }
    }

    /// One processor cycle.
    pub fn cycle(&mut self, cpu: &mut CpuBus)
        ensures
            (final(self)@, final(cpu)@) == old(self)@.cycle(old(cpu)@),
    {
        self.strobe();
        self.handle_cpu(cpu);
    }

    fn strobe(&mut self)
        ensures
            final(self)@ == old(self)@.strobed(),
    {
        if self.state.strobe {
            self.state.indices = [0; 2];
        }
    }

    fn handle_cpu(&mut self, cpu: &mut CpuBus)
        ensures
            (final(self)@, final(cpu)@) == old(self)@.handle_cpu(old(cpu)@),
    {
        if !cpu.read() {
            if cpu.address() != 0x4016 {
                return ;
            }
            let strobe = cpu.data() % 2 == 1;
            self.state.strobe = strobe;
        } else {
            if cpu.address() != 0x4016 && cpu.address() != 0x4017 {
                return ;
            }
            let port = (cpu.address() % 2) as usize;
            let index = self.state.indices[port];
            if index >= 8 {
                cpu.set_data(0x41);
                return ;
            }
            let bit = get_flag_u8(self.state.controllers[port].0, index);
            cpu.set_data(if bit {
                0x41
            } else {
                0x40
            });
            self.state.indices[port] += 1;
        }
    }

    /// The buttons of one of the two controllers, for the driver to set.
    pub fn controller_mut(&mut self, controller: u8) -> (buttons: &mut Controller)
        requires
            controller < 2,
        ensures
            *buttons == old(self)@.controllers[controller as int],
            final(self)@ == (InputState {
                controllers: spec_array_update(
                    old(self)@.controllers,
                    controller as int,
                    *final(buttons),
                ),
                ..old(self)@
            }),
    {
        &mut self.state.controllers[controller as usize]
    }
}

} // verus!
