//! Controller handle: the bank address map and a model of the controller's
//! SDRAM-related register block.
//!
//! The handle owns the register block exclusively: it can only be built by
//! consuming the move-only peripheral token [`FmcPeripheral`], of which
//! platform start-up must create exactly one. Every register write the
//! bring-up sequencer performs goes through a method of [`Fmc`] whose
//! contract states the new register value exactly, and every SDRAM protocol
//! action is appended to the handle's ordered action log, so that the whole
//! bring-up trace is pinned by the contracts in [`crate::sdram`].

use vstd::prelude::*;

verus! {

/// One of the memory-mapped windows the controller exposes. Each bank is a
/// fixed 256 MB slice of the processor's address space.
#[derive(Clone, Copy, Debug, PartialEq, Eq, Structural)]
pub enum FmcBank {
    Bank1,
    Bank2,
    Bank3,
    Bank4,
    Bank5,
    Bank6,
}

/// Base address of each controller bank in the processor's memory map.
pub open spec fn spec_bank_base(b: FmcBank) -> u32 {
    match b {
        FmcBank::Bank1 => 0x6000_0000u32,
        FmcBank::Bank2 => 0x7000_0000u32,
        FmcBank::Bank3 => 0x8000_0000u32,
        FmcBank::Bank4 => 0x9000_0000u32,
        FmcBank::Bank5 => 0xC000_0000u32,
        FmcBank::Bank6 => 0xD000_0000u32,
    }
}

impl FmcBank {
    /// Base address of this bank.
    pub fn ptr(self) -> (a: u32)
        ensures
            a == spec_bank_base(self),
    {
        match self {
            FmcBank::Bank1 => 0x6000_0000u32,
            FmcBank::Bank2 => 0x7000_0000u32,
            FmcBank::Bank3 => 0x8000_0000u32,
            FmcBank::Bank4 => 0x9000_0000u32,
            FmcBank::Bank5 => 0xC000_0000u32,
            FmcBank::Bank6 => 0xD000_0000u32,
        }
    }
}

/// One of the two controller banks that can drive an SDRAM device.
#[derive(Clone, Copy, Debug, PartialEq, Eq, Structural)]
pub enum SdramBank {
    Bank1,
    Bank2,
}

impl SdramBank {
    /// The bank selector as a number, 1 or 2.
    pub open spec fn spec_number(self) -> u8 {
        match self {
            SdramBank::Bank1 => 1u8,
            SdramBank::Bank2 => 2u8,
        }
    }

    /// The bank selector as a number, 1 or 2.
    pub fn number(self) -> (n: u8)
        ensures
            n == self.spec_number(),
    {
        match self {
            SdramBank::Bank1 => 1u8,
            SdramBank::Bank2 => 2u8,
        }
    }
}

/// A bus command the controller can issue to the SDRAM device. Issuing one
/// writes the command register; the device acts on it immediately and gives
/// no acknowledgement.
#[derive(Clone, Copy, Debug, PartialEq, Eq, Structural)]
pub enum SdramCommand {
    /// Start driving the clock to the device.
    ClockEnable,
    /// Precharge (close) every open row in every internal bank.
    PrechargeAll,
    /// One auto-refresh cycle.
    AutoRefresh,
    /// Load the device's mode register with the given bit pattern.
    LoadMode(u16),
}

/// One action of the bring-up protocol, in the order the sequencer performs
/// them. The controller handle logs each action, so the exact protocol a
/// bring-up ran is a verified value.
#[derive(Clone, Copy, Debug, PartialEq, Eq, Structural)]
pub enum BringUpStep {
    /// The control register of the target bank was programmed.
    ProgramControl(u32),
    /// The timing register of the target bank was programmed.
    ProgramTiming(u32),
    /// A command was issued to the target bank.
    IssueCommand(SdramCommand),
    /// The mandated wait of this many microseconds was honoured.
    WaitMicros(u32),
    /// The auto-refresh interval register was programmed, in clock cycles.
    ProgramRefresh(u32),
}

/// The command-register word for issuing `c` to `bank`: the command code in
/// the low bits, the target-bank select bit (bit 4 for bank 1, bit 3 for
/// bank 2), and for a mode-register load the bit pattern from bit 9 up.
pub open spec fn spec_command_word(bank: SdramBank, c: SdramCommand) -> u32 {
    (match c {
        SdramCommand::ClockEnable => 1u32,
        SdramCommand::PrechargeAll => 2u32,
        SdramCommand::AutoRefresh => 3u32,
        SdramCommand::LoadMode(m) => 4u32 | ((m as u32) << 9),
    }) | (match bank {
        SdramBank::Bank1 => 0x10u32,
        SdramBank::Bank2 => 0x08u32,
    })
}

/// The controller's SDRAM-related registers: the master control register,
/// one control and one timing register per SDRAM bank, the command register
/// and the refresh-interval register.
#[derive(Clone, Copy, Debug, PartialEq, Eq, Structural)]
pub struct FmcRegisters {
    /// Master control register; bit 31 is the controller enable bit.
    pub bcr1: u32,
    /// SDRAM control register, bank 1.
    pub sdcr1: u32,
    /// SDRAM control register, bank 2.
    pub sdcr2: u32,
    /// SDRAM timing register, bank 1.
    pub sdtr1: u32,
    /// SDRAM timing register, bank 2.
    pub sdtr2: u32,
    /// SDRAM command register.
    pub sdcmr: u32,
    /// SDRAM refresh-interval register, in controller clock cycles.
    pub sdrtr: u32,
}

/// The register block as it stands after the handle's reset pulse.
pub open spec fn spec_reset_registers() -> FmcRegisters {
    FmcRegisters { bcr1: 0, sdcr1: 0, sdcr2: 0, sdtr1: 0, sdtr2: 0, sdcmr: 0, sdrtr: 0 }
}

/// The controller enable bit of the master control register.
pub const FMC_ENABLE_BIT: u32 = 0x8000_0000;

/// The register block after the controller's master enable bit is set.
pub open spec fn spec_enable(r: FmcRegisters) -> FmcRegisters {
    FmcRegisters { bcr1: r.bcr1 | FMC_ENABLE_BIT, ..r }
}

/// Setting the master enable bit is idempotent: enabling an enabled
/// controller changes nothing.
pub proof fn lemma_enable_idempotent(r: FmcRegisters)
    ensures
        spec_enable(spec_enable(r)) == spec_enable(r),
{
    let b = r.bcr1;
    assert((b | FMC_ENABLE_BIT) | FMC_ENABLE_BIT == b | FMC_ENABLE_BIT) by (bit_vector);
}

/// The move-only token standing for the controller peripheral. Platform
/// start-up must create exactly one per process lifetime; the token is
/// consumed by [`Fmc::new`], so at most one handle can be built from it.
pub struct FmcPeripheral {
    _seal: (),
}

impl FmcPeripheral {
    /// Creates the peripheral token. To keep the controller handle unique,
    /// platform start-up must call this exactly once per process lifetime;
    /// that obligation mirrors taking the device's peripheral singleton and
    /// cannot be checked here.
    pub fn new() -> FmcPeripheral {
        FmcPeripheral { _seal: () }
    }
}

/// Exclusive handle to the controller: the register model and the ordered
/// log of bring-up actions performed through the handle.
pub struct Fmc {
    /// Current values of the SDRAM-related registers.
    pub regs: FmcRegisters,
    /// Every bring-up action performed through this handle, oldest first.
    pub log: Vec<BringUpStep>,
}

impl Fmc {
    /// Consumes the peripheral token, enables the controller's clock gate,
    /// pulses its reset line and returns the exclusive handle, with the
    /// register block in its reset state. Cannot fail: an unconfigured
    /// clock tree is an upstream defect this driver cannot detect.
    pub fn new(token: FmcPeripheral) -> (f: Fmc)
        ensures
            f.regs == spec_reset_registers(),
            f.log@ == Seq::<BringUpStep>::empty(),
    {
        let FmcPeripheral { _seal } = token;
        Fmc {
            regs: FmcRegisters {
                bcr1: 0,
                sdcr1: 0,
                sdcr2: 0,
                sdtr1: 0,
                sdtr2: 0,
                sdcmr: 0,
                sdrtr: 0,
            },
            log: Vec::new(),
        }
    }

    /// Base address of a controller bank, by its selector number (1 to 6).
    pub fn bank_address(bank: u8) -> (a: u32)
        requires
            1 <= bank <= 6,
        ensures
            a == spec_bank_address(bank),
    {
        match bank {
            1u8 => 0x6000_0000u32,
            2u8 => 0x7000_0000u32,
            3u8 => 0x8000_0000u32,
            4u8 => 0x9000_0000u32,
            5u8 => 0xC000_0000u32,
            _ => 0xD000_0000u32,
        }
    }

    /// Sets the controller's master enable bit. Must precede any
    /// bank-specific configuration; idempotent (see
    /// [`lemma_enable_idempotent`]).
    pub fn enable(&mut self)
        ensures
            final(self).regs == spec_enable(old(self).regs),
            final(self).log@ == old(self).log@,
    {
        self.regs.bcr1 = self.regs.bcr1 | FMC_ENABLE_BIT;
    }

    /// Programs the control register of the given SDRAM bank.
    pub fn write_control(&mut self, bank: SdramBank, value: u32)
        ensures
            bank == SdramBank::Bank1 ==> final(self).regs == (FmcRegisters {
                sdcr1: value,
                ..old(self).regs
            }),
            bank == SdramBank::Bank2 ==> final(self).regs == (FmcRegisters {
                sdcr2: value,
                ..old(self).regs
            }),
            final(self).log@ == old(self).log@.push(BringUpStep::ProgramControl(value)),
    {
        match bank {
            SdramBank::Bank1 => {
                self.regs.sdcr1 = value;
            },
            SdramBank::Bank2 => {
                self.regs.sdcr2 = value;
            },
        }
        self.log.push(BringUpStep::ProgramControl(value));
    }

    /// Programs the timing register of the given SDRAM bank.
    pub fn write_timing(&mut self, bank: SdramBank, value: u32)
        ensures
            bank == SdramBank::Bank1 ==> final(self).regs == (FmcRegisters {
                sdtr1: value,
                ..old(self).regs
            }),
            bank == SdramBank::Bank2 ==> final(self).regs == (FmcRegisters {
                sdtr2: value,
                ..old(self).regs
            }),
            final(self).log@ == old(self).log@.push(BringUpStep::ProgramTiming(value)),
    {
        match bank {
            SdramBank::Bank1 => {
                self.regs.sdtr1 = value;
            },
            SdramBank::Bank2 => {
                self.regs.sdtr2 = value;
            },
        }
        self.log.push(BringUpStep::ProgramTiming(value));
    }

    /// Issues a command to the given SDRAM bank by writing the command
    /// register. Fire-and-forget: the controller offers no acknowledgement.
    pub fn send_command(&mut self, bank: SdramBank, c: SdramCommand)
        ensures
            final(self).regs == (FmcRegisters {
                sdcmr: spec_command_word(bank, c),
                ..old(self).regs
            }),
            final(self).log@ == old(self).log@.push(BringUpStep::IssueCommand(c)),
    {
        let code: u32 = match c {
            SdramCommand::ClockEnable => 1u32,
            SdramCommand::PrechargeAll => 2u32,
            SdramCommand::AutoRefresh => 3u32,
            SdramCommand::LoadMode(m) => 4u32 | ((m as u32) << 9),
        };
        let target: u32 = match bank {
            SdramBank::Bank1 => 0x10u32,
            SdramBank::Bank2 => 0x08u32,
        };
        self.regs.sdcmr = code | target;
        self.log.push(BringUpStep::IssueCommand(c));
    }

    /// Programs the auto-refresh interval register, in clock cycles.
    pub fn write_refresh_interval(&mut self, cycles: u32)
        ensures
            final(self).regs == (FmcRegisters { sdrtr: cycles, ..old(self).regs }),
            final(self).log@ == old(self).log@.push(BringUpStep::ProgramRefresh(cycles)),
    {
        self.regs.sdrtr = cycles;
        self.log.push(BringUpStep::ProgramRefresh(cycles));
    }

    /// Records that the mandated wait of `us` microseconds was honoured.
    pub fn record_wait(&mut self, us: u32)
        ensures
            final(self).regs == old(self).regs,
            final(self).log@ == old(self).log@.push(BringUpStep::WaitMicros(us)),
    {
        self.log.push(BringUpStep::WaitMicros(us));
    }
}

/// Base address of a controller bank, by its selector number (1 to 6).
pub open spec fn spec_bank_address(bank: u8) -> u32 {
    match bank {
        1u8 => 0x6000_0000u32,
        2u8 => 0x7000_0000u32,
        3u8 => 0x8000_0000u32,
        4u8 => 0x9000_0000u32,
        5u8 => 0xC000_0000u32,
        _ => 0xD000_0000u32,
    }
}

} // verus!
