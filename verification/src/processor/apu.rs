//! The sound unit of the processor package as far as the processor can see
//! it: its registers at `$4000` to `$4017` and its two interrupts.

use vstd::prelude::*;

verus! {

/// What the unit sees at a tick of the master clock.
#[derive(Copy, Clone, Debug, PartialEq, Eq, Structural)]
pub struct AInPins {
    pub m2: bool,
    pub address: u16,
    pub data: u8,
    pub read: bool,
}

/// What the unit drives: a byte on the data lines when one of its registers
/// has been read, and its interrupt request.
#[derive(Copy, Clone, Debug, PartialEq, Eq, Structural)]
pub struct AOutPins {
    pub data: Option<u8>,
    pub irq: bool,
}

/// The registers of the sample channel.
#[derive(Copy, Clone, Debug, PartialEq, Eq, Structural)]
pub struct Dmc {
    pub irq_enable: bool,
    pub loop_enable: bool,
    pub frequency: u8,
    pub load_counter: u8,
    pub sample_address: u8,
    pub sample_length: u8,
}

/// The channel enables and the two interrupt flags.
#[derive(Copy, Clone, Debug, PartialEq, Eq, Structural)]
pub struct Status {
    pub enable_dmc: bool,
    pub enable_noise: bool,
    pub enable_triangle: bool,
    pub enable_pulse_1: bool,
    pub enable_pulse_2: bool,
    pub dmc_interrupt: bool,
    pub frame_interrupt: bool,
}

/// The frame counter.
#[derive(Copy, Clone, Debug, PartialEq, Eq, Structural)]
pub struct FrameCounter {
    pub mode: bool,
    pub irq_enable: bool,
    pub tick: u8,
    pub cycle: u16,
}

/// The state of the unit.
#[derive(Copy, Clone, Debug, PartialEq, Eq, Structural)]
pub struct ApuState {
    pub master_cycle: u8,
    pub last_m2: bool,
    pub dmc: Dmc,
    pub status: Status,
    pub frame_counter: FrameCounter,
    pub out: AOutPins,
}

impl AInPins {
    /// Every line low.
    pub fn init() -> (pins: Self)
        ensures
            pins == (AInPins { m2: false, address: 0, data: 0, read: false }),
    {
        Self { m2: false, address: 0, data: 0, read: false }
    }
}

impl AOutPins {
    /// Nothing driven.
    pub fn init() -> (pins: Self)
        ensures
            pins == (AOutPins { data: None, irq: false }),
    {
        Self { data: None, irq: false }
    }
}

impl Dmc {
    /// Every register zero.
    pub open spec fn cleared() -> Dmc {
        Dmc {
            irq_enable: false,
            loop_enable: false,
            frequency: 0,
            load_counter: 0,
            sample_address: 0,
            sample_length: 0,
        }
    }

    fn init() -> (dmc: Self)
        ensures
            dmc == Dmc::cleared(),
    {
        Self {
            irq_enable: false,
            loop_enable: false,
            frequency: 0,
            load_counter: 0,
            sample_address: 0,
            sample_length: 0,
        }
    }
}

impl Status {
    /// Every channel off, no interrupt.
    pub open spec fn cleared() -> Status {
        Status {
            enable_dmc: false,
            enable_noise: false,
            enable_triangle: false,
            enable_pulse_1: false,
            enable_pulse_2: false,
            dmc_interrupt: false,
            frame_interrupt: false,
        }
    }

    fn init() -> (status: Self)
        ensures
            status == Status::cleared(),
    {
        Self {
            enable_dmc: false,
            enable_noise: false,
            enable_triangle: false,
            enable_pulse_1: false,
            enable_pulse_2: false,
            dmc_interrupt: false,
            frame_interrupt: false,
        }
    }
}

impl FrameCounter {
    /// The counter at rest.
    pub open spec fn cleared() -> FrameCounter {
        FrameCounter { mode: false, irq_enable: false, tick: 0, cycle: 0 }
    }

    fn init() -> (counter: Self)
        ensures
            counter == FrameCounter::cleared(),
    {
        Self { mode: false, irq_enable: false, tick: 0, cycle: 0 }
    }
}

impl ApuState {
    /// The unit at power-on.
    pub open spec fn power_on() -> ApuState {
        ApuState {
            master_cycle: 0,
            last_m2: false,
            dmc: Dmc::cleared(),
            status: Status::cleared(),
            frame_counter: FrameCounter::cleared(),
            out: AOutPins { data: None, irq: false },
        }
    }

    /// Whether this tick is the one in twenty-four at which the unit steps.
    pub open spec fn should_cycle(self) -> bool {
        self.master_cycle == 0
    }

    /// One step of the frame counter: the frame interrupt flag follows the
    /// sequence, which moves on every 3728 steps through four or five
    /// ticks.
    pub open spec fn cycle(self) -> ApuState {
        let tick = if self.frame_counter.cycle == 0 {
            ((self.frame_counter.tick + 1) % (if self.frame_counter.mode {
                5int
            } else {
                4
            })) as u8
        } else {
            self.frame_counter.tick
        };
        ApuState {
            status: Status { frame_interrupt: self.frame_counter.tick == 0, ..self.status },
            frame_counter: FrameCounter {
                tick,
                cycle: ((self.frame_counter.cycle + 1) % 3728) as u16,
                ..self.frame_counter
            },
            ..self
        }
    }

    /// Whether the processor accesses one of the unit's registers at this
    /// tick: M2 has just risen on an address from `$4000` to `$4017`.
    pub open spec fn accessed(self, pins: AInPins) -> bool {
        self.last_m2 != pins.m2 && pins.m2 && 0x4000 <= pins.address < 0x4018
    }

    /// The unit after a write to one of its registers.
    #[verifier::opaque]
    pub open spec fn written(self, register: int, data: u8) -> ApuState {
        if register == 0x10 {
            ApuState {
                dmc: Dmc {
                    irq_enable: data / 128 == 1,
                    loop_enable: (data / 64) % 2 == 1,
                    frequency: data % 16,
                    ..self.dmc
                },
                ..self
            }
        } else if register == 0x11 {
            ApuState { dmc: Dmc { load_counter: data % 128, ..self.dmc }, ..self }
        } else if register == 0x12 {
            ApuState { dmc: Dmc { sample_address: data, ..self.dmc }, ..self }
        } else if register == 0x13 {
            ApuState { dmc: Dmc { sample_length: data, ..self.dmc }, ..self }
        } else if register == 0x15 {
            ApuState {
                status: Status {
                    enable_dmc: (data / 16) % 2 == 1,
                    enable_noise: (data / 8) % 2 == 1,
                    enable_triangle: (data / 4) % 2 == 1,
                    enable_pulse_2: (data / 2) % 2 == 1,
                    enable_pulse_1: data % 2 == 1,
                    ..self.status
                },
                ..self
            }
        } else if register == 0x17 {
            ApuState {
                frame_counter: FrameCounter {
                    mode: data / 128 == 1,
                    irq_enable: (data / 64) % 2 == 0,
                    ..self.frame_counter
                },
                ..self
            }
        } else {
            self
        }
    }

    /// The byte that a read of `$4015` returns: the two interrupt flags in
    /// bits 7 and 6.
    pub open spec fn status_byte(self) -> u8 {
        ((if self.status.dmc_interrupt {
            128int
        } else {
            0
        }) + (if self.status.frame_interrupt {
            64int
        } else {
            0
        })) as u8
    }

    /// The unit after the bus was served. Only `$4015` can be read: the read
    /// returns the interrupt flags and clears the frame interrupt.
    pub open spec fn service_cpu(self, pins: AInPins) -> ApuState {
        if !self.accessed(pins) {
            self
        } else if !pins.read {
            self.written(pins.address - 0x4000, pins.data)
        } else if pins.address == 0x4015 {
            ApuState {
                out: AOutPins { data: Some(self.status_byte()), ..self.out },
                status: Status { frame_interrupt: false, ..self.status },
                ..self
            }
        } else {
            self
        }
    }

    /// One tick of the master clock.
    pub open spec fn master_cycle(self, pins: AInPins) -> ApuState {
        let stepped = if self.should_cycle() {
            self.cycle()
        } else {
            self
        };
        let served = stepped.service_cpu(pins);
        ApuState {
            master_cycle: ((self.master_cycle + 1) % 24) as u8,
            last_m2: pins.m2,
            out: AOutPins {
                irq: served.status.dmc_interrupt || served.status.frame_interrupt,
                ..served.out
            },
            ..served
        }
    }
}

/// The sound unit.
pub struct Apu {
    state: ApuState,
}

impl View for Apu {
    type V = ApuState;

    closed spec fn view(&self) -> ApuState {
        self.state
    }
}

impl Apu {
    /// The unit at power-on.
    pub fn init() -> (apu: Self)
        ensures
            apu@ == ApuState::power_on(),
    {
        Self {
            state: ApuState {
                master_cycle: 0,
                last_m2: false,
                dmc: Dmc::init(),
                status: Status::init(),
                frame_counter: FrameCounter::init(),
                out: AOutPins::init(),
            },
        }
    }

    /// One tick of the master clock.
    pub fn master_cycle(&mut self, pins: AInPins)
        ensures
            final(self)@ == old(self)@.master_cycle(pins),
    {
        proof {
            reveal(ApuState::written);
        }
        if self.should_cycle() {
            self.cycle(pins);
        }
        self.service_cpu(pins);
        self.tick_counter();

        self.state.last_m2 = pins.m2;
        self.state.out.irq = self.state.status.dmc_interrupt || self.state.status.frame_interrupt;
    }

    fn cycle(&mut self, _pins: AInPins)
        ensures
            final(self)@ == old(self)@.cycle(),
    {
        self.state.status.frame_interrupt = self.state.frame_counter.tick == 0;

        if self.state.frame_counter.cycle == 0 {
            let max: u8 = if self.state.frame_counter.mode {
                5
            } else {
                4
            };
            self.state.frame_counter.tick = ((self.state.frame_counter.tick as u16 + 1) % (
            max as u16)) as u8;
        }
        self.state.frame_counter.cycle = ((self.state.frame_counter.cycle as u32 + 1)
            % 3728) as u16;
    }

    fn service_cpu(&mut self, pins: AInPins)
        ensures
            final(self)@ == old(self)@.service_cpu(pins),
    {
        let m2_edge = self.state.last_m2 != pins.m2;
        if !m2_edge || !pins.m2 {
            return ;
        }
        if !(0x4000 <= pins.address && pins.address < 0x4018) {
            return ;
        }
        let address = pins.address - 0x4000;
        if pins.read {
            self.read_register(address);
        } else {
            self.write_register(address, pins.data);
        }
    }

    /// A read of the register at offset `address`. Only the status register
    /// at offset `$15` answers.
    fn read_register(&mut self, address: u16)
        ensures
            final(self)@ == (if address == 0x15 {
                ApuState {
                    out: AOutPins { data: Some(old(self)@.status_byte()), ..old(self)@.out },
                    status: Status { frame_interrupt: false, ..old(self)@.status },
                    ..old(self)@
                }
            } else {
                old(self)@
            }),
    {
        if address == 0x15 {
            let dmc_irq: u8 = if self.state.status.dmc_interrupt {
                128
            } else {
                0
            };
            let frame_irq: u8 = if self.state.status.frame_interrupt {
                64
            } else {
                0
            };
            self.state.out.data = Some(dmc_irq + frame_irq);

            self.state.status.frame_interrupt = false;
        }
    }

    /// A write to the register at offset `address`. The offsets below `$10`
    /// belong to the sound channels, `$14` to the sprite DMA and `$16` to the
    /// controller ports: nothing of theirs is kept here.
    #[verifier::rlimit(40)]
    fn write_register(&mut self, address: u16, data: u8)
        ensures
            final(self)@ == old(self)@.written(address as int, data),
    {
        proof {
            reveal(ApuState::written);
        }
        match address {
            0x10 => {
                self.state.dmc.irq_enable = data / 128 == 1;
                self.state.dmc.loop_enable = (data / 64) % 2 == 1;
                self.state.dmc.frequency = data % 16;
            },
            0x11 => {
                self.state.dmc.load_counter = data % 128;
            },
            0x12 => {
                self.state.dmc.sample_address = data;
            },
            0x13 => {
                self.state.dmc.sample_length = data;
            },
            0x15 => {
                self.state.status.enable_dmc = (data / 16) % 2 == 1;
                self.state.status.enable_noise = (data / 8) % 2 == 1;
                self.state.status.enable_triangle = (data / 4) % 2 == 1;
                self.state.status.enable_pulse_2 = (data / 2) % 2 == 1;
                self.state.status.enable_pulse_1 = data % 2 == 1;
            },
            0x17 => {
                self.state.frame_counter.mode = data / 128 == 1;
                self.state.frame_counter.irq_enable = (data / 64) % 2 == 0;
            },
            _ => (),
        }
    }

    fn should_cycle(&self) -> (steps: bool)
        ensures
            steps == self@.should_cycle(),
    {
        self.state.master_cycle == 0
    }

    fn tick_counter(&mut self)
        ensures
            final(self)@ == (ApuState {
                master_cycle: ((old(self)@.master_cycle + 1) % 24) as u8,
                ..old(self)@
            }),
    {
        self.state.master_cycle = ((self.state.master_cycle as u16 + 1) % 24) as u8;
    }

    /// What the unit drives.
    pub fn out(&self) -> (pins: AOutPins)
        ensures
            pins == self@.out,
    {
        self.state.out
    }
}

} // verus!
