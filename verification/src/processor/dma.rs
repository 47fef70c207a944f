//! The sprite DMA unit of the processor package, driven by the pins it
//! shares with the core.

use vstd::prelude::*;

verus! {

/// Where a transfer stands.
#[derive(Clone, Copy, Debug, PartialEq, Eq, Structural)]
pub enum State {
    Idle,
    /// The unit waits for the core to stop and for a get cycle.
    Initializing,
    /// A byte of the page is on the bus.
    Reading,
    /// The byte is being written to `$2004`.
    Writing,
    /// The last byte is being written.
    Ending,
}

/// What the unit sees at a tick of the master clock.
#[derive(Clone, Copy, Debug, PartialEq, Eq, Structural)]
pub struct InPins {
    pub m2: bool,
    pub cpu_halted: bool,
    pub data: u8,
    pub address: u16,
    pub read: bool,
}

/// What the unit drives: the request to stop the core and, during a
/// transfer, the bus.
#[derive(Clone, Copy, Debug, PartialEq, Eq, Structural)]
pub struct OutPins {
    pub halt_cpu: bool,
    pub data: Option<u8>,
    pub address: Option<u16>,
    pub read: bool,
}

/// The state of the unit.
#[derive(Clone, Copy, Debug, PartialEq, Eq, Structural)]
pub struct OamDmaState {
    pub last_m2: bool,
    pub get_cycle: bool,
    pub state: State,
    pub address_high: u8,
    pub address_low: u8,
    pub out: OutPins,
}

impl InPins {
    /// Nothing on the bus, reading.
    pub open spec fn idle() -> InPins {
        InPins { m2: false, cpu_halted: false, data: 0, address: 0, read: true }
    }

    /// Nothing on the bus, reading.
    pub fn init() -> (pins: Self)
        ensures
            pins == InPins::idle(),
    {
        Self { m2: false, cpu_halted: false, data: 0, address: 0, read: true }
    }
}

impl OutPins {
    /// Nothing driven.
    pub open spec fn idle() -> OutPins {
        OutPins { halt_cpu: false, data: None, address: None, read: true }
    }

    /// Nothing driven.
    pub fn init() -> (pins: Self)
        ensures
            pins == OutPins::idle(),
    {
        Self { halt_cpu: false, data: None, address: None, read: true }
    }
}

impl OamDmaState {
    /// The unit at power-on.
    pub open spec fn power_on() -> OamDmaState {
        OamDmaState {
            last_m2: false,
            get_cycle: true,
            state: State::Idle,
            address_high: 0,
            address_low: 0,
            out: OutPins::idle(),
        }
    }

    /// The address of the byte to transfer next.
    pub open spec fn address(self) -> u16 {
        (self.address_low + 256 * self.address_high) as u16
    }

    /// Whether M2 has just fallen.
    pub open spec fn m2_fell(self, pins: InPins) -> bool {
        self.last_m2 && !pins.m2
    }

    /// Whether M2 has just risen.
    pub open spec fn m2_rose(self, pins: InPins) -> bool {
        pins.m2 && !self.last_m2
    }

    /// One step of the transfer, taken when M2 falls. Reading starts once
    /// the core has stopped and a get cycle has come; the byte read is
    /// written to `$2004` in the next cycle; the byte at offset `$FF` ends
    /// the transfer and releases the core.
    pub open spec fn cycle(self, pins: InPins) -> OamDmaState {
        match self.state {
            State::Idle => self,
            State::Initializing => if self.get_cycle && pins.cpu_halted {
                OamDmaState {
                    out: OutPins { address: Some(self.address()), read: true, ..self.out },
                    state: State::Reading,
                    ..self
                }
            } else {
                self
            },
            State::Reading => OamDmaState {
                out: OutPins {
                    data: Some(pins.data),
                    read: false,
                    address: Some(0x2004),
                    halt_cpu: self.out.halt_cpu && self.address_low != 0xFF,
                },
                state: if self.address_low == 0xFF {
                    State::Ending
                } else {
                    State::Writing
                },
                ..self
            },
            State::Writing => {
                let low = ((self.address_low + 1) % 256) as u8;
                OamDmaState {
                    address_low: low,
                    out: OutPins {
                        read: true,
                        data: None,
                        address: Some((low + 256 * self.address_high) as u16),
                        ..self.out
                    },
                    state: State::Reading,
                    ..self
                }
            },
            State::Ending => OamDmaState {
                address_low: 0,
                out: OutPins { data: None, read: true, address: None, ..self.out },
                state: State::Idle,
                ..self
            },
        }
    }

    /// The unit after the bus was served: when M2 rises on a write to
    /// `$4014`, the byte written becomes the page of a new transfer and the
    /// core is asked to stop.
    pub open spec fn service_cpu(self, pins: InPins) -> OamDmaState {
        if self.m2_rose(pins) && pins.address == 0x4014 && !pins.read {
            OamDmaState {
                address_high: pins.data,
                state: State::Initializing,
                out: OutPins { halt_cpu: true, ..self.out },
                ..self
            }
        } else {
            self
        }
    }

    /// One tick of the master clock.
    pub open spec fn master_cycle(self, pins: InPins) -> OamDmaState {
        let stepped = if self.m2_fell(pins) {
            let cycled = self.cycle(pins);
            OamDmaState { get_cycle: !cycled.get_cycle, ..cycled }
        } else {
            self
        };
        OamDmaState { last_m2: pins.m2, ..stepped.service_cpu(pins) }
    }
}

/// The sprite DMA unit.
pub struct OamDma {
    state: OamDmaState,
}

impl View for OamDma {
    type V = OamDmaState;

    closed spec fn view(&self) -> OamDmaState {
        self.state
    }
}

impl OamDma {
    /// The unit at power-on.
    pub fn init() -> (dma: Self)
        ensures
            dma@ == OamDmaState::power_on(),
    {
        Self {
            state: OamDmaState {
                last_m2: false,
                get_cycle: true,
                state: State::Idle,
                address_high: 0,
                address_low: 0,
                out: OutPins::init(),
            },
        }
    }

    /// One tick of the master clock.
    pub fn master_cycle(&mut self, pins: InPins)
        ensures
            final(self)@ == old(self)@.master_cycle(pins),
    {
        let low_edge = self.state.last_m2 && self.state.last_m2 != pins.m2;
        if low_edge {
            self.cycle(pins);
            self.state.get_cycle = !self.state.get_cycle;
        }
        self.service_cpu(pins);

        self.state.last_m2 = pins.m2;
    }

    fn cycle(&mut self, pins: InPins)
        ensures
            final(self)@ == old(self)@.cycle(pins),
    {
        match self.state.state {
            State::Idle => (),
            State::Initializing => {
                if self.state.get_cycle && pins.cpu_halted {
                    self.state.out.address = Some(self.address());
                    self.state.out.read = true;
                    self.state.state = State::Reading;
                }
            },
            State::Reading => {
                self.state.out.data = Some(pins.data);
                self.state.out.read = false;
                self.state.out.address = Some(0x2004);
                self.state.state = State::Writing;

                if self.state.address_low == 0xFF {
                    self.state.out.halt_cpu = false;
                    self.state.state = State::Ending;
                }
            },
            State::Writing => {
                self.state.address_low = self.state.address_low.wrapping_add(1);
                self.state.out.read = true;
                self.state.out.data = None;
                self.state.out.address = Some(self.address());
                self.state.state = State::Reading;
            },
            State::Ending => {
                self.state.out.data = None;
                self.state.address_low = 0;
                self.state.out.read = true;
                self.state.out.address = None;
                self.state.state = State::Idle;
            },
        }
    }

    fn service_cpu(&mut self, pins: InPins)
        ensures
            final(self)@ == old(self)@.service_cpu(pins),
    {
        let high_edge = pins.m2 && pins.m2 != self.state.last_m2;
        if !high_edge {
            return ;
        }
        if pins.address != 0x4014 {
            return ;
        }
        if pins.read {
            return ;
        }
        self.state.address_high = pins.data;
        self.state.state = State::Initializing;
        self.state.out.halt_cpu = true;
    }

    fn address(&self) -> (address: u16)
        ensures
            address == self@.address(),
    {
        self.state.address_low as u16 + (self.state.address_high as u16) * 256
    }

    /// What the unit drives.
    pub fn out(&self) -> (pins: OutPins)
        ensures
            pins == self@.out,
    {
        self.state.out
    }
}

} // verus!
