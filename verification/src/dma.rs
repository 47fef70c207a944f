//! The sprite DMA unit at the pace of the master clock.

use vstd::prelude::*;

use crate::nes::NesLines;

verus! {

/// Where a transfer stands.
#[derive(Copy, Clone, Debug, PartialEq, Eq, Structural)]
pub enum Status {
    Idle,
    /// A transfer was asked for.
    Begin,
    /// The unit waits for the processor to stop and for a get cycle.
    Initializing,
    /// A byte of the page is being read.
    Reading,
    /// The byte is being written to `$2004`.
    Writing,
    /// The last byte is being written.
    Done,
}

/// The state of the unit: its place in the twelve master ticks of a
/// processor cycle, whether the cycle is a get cycle, the level of M2 at the
/// last tick, and the transfer.
#[derive(Copy, Clone, Debug, PartialEq, Eq, Structural)]
pub struct DmaState {
    pub dma_cycle: u8,
    pub get_cycle: bool,
    pub last_m2: bool,
    pub status: Status,
    pub address_high: u8,
    pub address_low: u8,
}

impl DmaState {
    /// The unit at power-on.
    pub open spec fn power_on() -> DmaState {
        DmaState {
            dma_cycle: 0,
            get_cycle: true,
            last_m2: false,
            status: Status::Idle,
            address_high: 0,
            address_low: 0,
        }
    }

    /// The address of the byte to transfer next.
    pub open spec fn address(self) -> u16 {
        (self.address_low + 256 * self.address_high) as u16
    }

    /// Whether this tick is the one in twelve at which the unit steps.
    pub open spec fn should_cycle(self) -> bool {
        self.dma_cycle == 0
    }

    /// The master tick counted, modulo twelve.
    pub open spec fn tick(self) -> DmaState {
        DmaState { dma_cycle: ((self.dma_cycle + 1) % 12) as u8, ..self }
    }

    /// The unit and the bus after the bus was served: when M2 rises on a
    /// write to `$4014`, the byte written becomes the page of a new
    /// transfer and the processor is asked to stop.
    pub open spec fn service_cpu(self, bus: NesLines) -> (DmaState, NesLines) {
        if bus.cpu_m2 && self.last_m2 != bus.cpu_m2 && bus.cpu_address == 0x4014 && !bus.cpu_read {
            (
                DmaState {
                    address_high: bus.cpu_data,
                    address_low: 0,
                    status: Status::Begin,
                    ..self
                },
                NesLines { oam_dma_halts_cpu: true, ..bus },
            )
        } else {
            (self, bus)
        }
    }

    /// One step of the transfer, taken every twelfth tick. The unit starts
    /// reading once the processor has stopped and a get cycle has come; then
    /// reads and writes alternate until the byte at offset `$FF` has been
    /// written.
    pub open spec fn cycle(self, bus: NesLines) -> (DmaState, NesLines) {
        if !self.should_cycle() {
            (self, bus)
        } else {
            let (stepped, lines) = match self.status {
                Status::Idle => (self, bus),
                Status::Begin => (
                    DmaState { status: Status::Initializing, ..self },
                    NesLines { oam_dma_halts_cpu: true, ..bus },
                ),
                Status::Initializing => if self.get_cycle && bus.cpu_halted {
                    (
                        DmaState { status: Status::Reading, ..self },
                        NesLines { cpu_address: self.address(), oam_dma_writes: false, ..bus },
                    )
                } else {
                    (self, bus)
                },
                Status::Reading => (
                    DmaState {
                        status: if self.address_low == 0xFF {
                            Status::Done
                        } else {
                            Status::Writing
                        },
                        ..self
                    },
                    NesLines { cpu_address: 0x2004, oam_dma_writes: true, ..bus },
                ),
                Status::Writing => {
                    let moved = DmaState {
                        address_low: ((self.address_low + 1) % 256) as u8,
                        status: Status::Reading,
                        ..self
                    };
                    (
                        moved,
                        NesLines { cpu_address: moved.address(), oam_dma_writes: false, ..bus },
                    )
                },
                Status::Done => (
                    DmaState { status: Status::Idle, ..self },
                    NesLines { oam_dma_halts_cpu: false, oam_dma_writes: false, ..bus },
                ),
            };
            (DmaState { get_cycle: !self.get_cycle, ..stepped }, lines)
        }
    }

    /// One tick of the master clock: the bus is served, the transfer steps,
    /// and the tick is counted.
    pub open spec fn master_cycle(self, bus: NesLines) -> (DmaState, NesLines) {
        let (served, lines) = self.service_cpu(bus);
        let (stepped, lines) = served.cycle(lines);
        (DmaState { last_m2: bus.cpu_m2, ..stepped.tick() }, lines)
    }
}

/// The sprite DMA unit.
pub struct Dma {
    state: DmaState,
}

impl View for Dma {
    type V = DmaState;

    closed spec fn view(&self) -> DmaState {
        self.state
    }
}

impl Dma {
    /// The unit at power-on.
    pub fn new() -> (dma: Self)
        ensures
            dma@ == DmaState::power_on(),
    {
        Dma {
            state: DmaState {
                dma_cycle: 0,
                get_cycle: true,
                last_m2: false,
                status: Status::Idle,
                address_high: 0,
                address_low: 0,
            },
        }
    }

    /// One tick of the master clock.
    pub fn master_cycle(&mut self, bus: &mut NesLines)
        ensures
            (final(self)@, *final(bus)) == old(self)@.master_cycle(*old(bus)),
    {
        let m2 = bus.cpu_m2;
        self.service_cpu(bus);
        self.cycle(bus);
        self.tick();
        self.state.last_m2 = m2;
    }

    fn tick(&mut self)
        ensures
            final(self)@ == old(self)@.tick(),
    {
        self.state.dma_cycle = (self.state.dma_cycle % 12 + 1) % 12;
    }

    fn service_cpu(&mut self, bus: &mut NesLines)
        ensures
            (final(self)@, *final(bus)) == old(self)@.service_cpu(*old(bus)),
            final(bus).cpu_m2 == old(bus).cpu_m2,
    {
        let m2_edge = bus.cpu_m2 && self.state.last_m2 != bus.cpu_m2;
        if !m2_edge {
            return ;
        }
        let address = bus.cpu_address as usize;
        if address != 0x4014 || bus.cpu_read {
            return ;
        }
        self.state.address_high = bus.cpu_data;
        self.state.address_low = 0;
        bus.oam_dma_halts_cpu = true;
        self.state.status = Status::Begin;
    }

    fn cycle(&mut self, bus: &mut NesLines)
        ensures
            (final(self)@, *final(bus)) == old(self)@.cycle(*old(bus)),
    {
        if !self.should_cycle() {
            return ;
        }
        self.state.status = match self.state.status {
            Status::Idle => Status::Idle,
            Status::Begin => {
                bus.oam_dma_halts_cpu = true;
                Status::Initializing
            },
            Status::Initializing => {
                if self.state.get_cycle && bus.cpu_halted {
                    bus.cpu_address = self.address();
                    bus.oam_dma_writes = false;
                    Status::Reading
                } else {
                    Status::Initializing
                }
            },
            Status::Reading => {
                bus.cpu_address = 0x2004;
                bus.oam_dma_writes = true;
                if self.state.address_low == 0xFF {
                    Status::Done
                } else {
                    Status::Writing
                }
            },
            Status::Writing => {
                self.state.address_low = self.state.address_low.wrapping_add(1);
                bus.cpu_address = self.address();
                bus.oam_dma_writes = false;
                Status::Reading
            },
            Status::Done => {
                bus.oam_dma_halts_cpu = false;
                bus.oam_dma_writes = false;
                Status::Idle
            },
        };

        self.state.get_cycle = !self.state.get_cycle;
    }

    fn address(&self) -> (address: u16)
        ensures
            address == self@.address(),
    {
        let high = (self.state.address_high as u16) * 256;
        let low = self.state.address_low as u16;
        low + high
    }

    fn should_cycle(&self) -> (steps: bool)
        ensures
            steps == self@.should_cycle(),
    {
        self.state.dma_cycle == 0
    }
}

} // verus!
