//! Bring-up sequencer: drives a raw SDRAM device from power-on to normal
//! read/write-ready state.
//!
//! The protocol is fixed by the device class: program the controller's
//! control and timing registers, enable the device clock and wait out the
//! power-up stabilisation delay, precharge all rows, prime the refresh
//! state with a burst of auto-refresh commands, load the mode register, and
//! finally program the refresh interval. [`spec_bring_up_plan`] states that
//! ordered action list once; [`run_bring_up`] is proved to perform exactly
//! it, and [`Sdram::init`] is the one-shot entry point that consumes the
//! sequencer, so a second bring-up of the same handle cannot be written.

use vstd::prelude::*;

use crate::bundle::{PinBundle, SdramVariant, BusWidth, InternalBanks};
use crate::fmc::{
    BringUpStep, Fmc, FmcPeripheral, FmcRegisters, SdramBank, SdramCommand, spec_bank_address,
    spec_command_word, spec_enable, spec_reset_registers,
};
use crate::timing::{
    ns_to_cycles, ns_to_micros, refresh_interval_cycles, spec_ns_to_cycles, spec_ns_to_micros,
    spec_refresh_interval, MILLIS_PER_SECOND, NANOS_PER_SECOND,
};

verus! {

/// A blocking delay provider: the platform's timer capability. The
/// sequencer relies on it for every mandated wait; its unit contract
/// (microseconds, blocking) is authoritative, and implementations come from
/// platform code outside this crate.
pub trait DelayUs {
    /// Blocks for at least `us` microseconds before returning.
    fn delay_us(&mut self, us: u32);
}

/// The timing constants and mode-register pattern of one SDRAM part,
/// together with the configuration it is wired for. Created as a named
/// constant per supported device; never mutated.
#[derive(Clone, Copy, Debug, PartialEq, Eq, Structural)]
pub struct DeviceProfile {
    /// Usable capacity of the device, in bytes.
    pub capacity_bytes: u32,
    /// Row-address width, 11 to 13 bits (2048 to 8192 rows).
    pub row_bits: u8,
    /// Column-address width, 8 to 11 bits.
    pub column_bits: u8,
    /// Column-access latency, 1 to 3 cycles.
    pub cas_latency: u8,
    /// The period within which every row must be refreshed, in
    /// milliseconds.
    pub refresh_period_ms: u32,
    /// Power-up stabilisation delay before any command, in microseconds.
    pub startup_delay_us: u32,
    /// Number of auto-refresh commands priming the device's refresh state,
    /// 1 to 16.
    pub auto_refresh_count: u8,
    /// Mode-register bit pattern (burst length, burst type, latency), at
    /// most 13 bits.
    pub mode_register: u16,
    /// Minimum delay from mode-register load to an active command, in
    /// nanoseconds.
    pub mode_to_active_ns: u32,
    /// Minimum delay when leaving self-refresh, in nanoseconds.
    pub exit_self_refresh_ns: u32,
    /// Minimum delay from an active command to a precharge, in nanoseconds.
    pub active_to_precharge_ns: u32,
    /// Minimum row-cycle time, in nanoseconds.
    pub row_cycle_ns: u32,
    /// Minimum write-recovery time, in nanoseconds.
    pub write_recovery_ns: u32,
    /// Minimum row-precharge time, in nanoseconds.
    pub row_precharge_ns: u32,
    /// Minimum row-to-column delay, in nanoseconds.
    pub row_to_column_ns: u32,
    /// The configuration the device is wired for.
    pub variant: SdramVariant,
}

impl DeviceProfile {
    /// Well-formedness of the declared constants: every field in the range
    /// its register field or unit can carry.
    pub open spec fn wf(self) -> bool {
        &&& 1 <= self.capacity_bytes
        &&& 11 <= self.row_bits <= 13
        &&& 8 <= self.column_bits <= 11
        &&& 1 <= self.cas_latency <= 3
        &&& 1 <= self.refresh_period_ms <= MILLIS_PER_SECOND
        &&& 1 <= self.startup_delay_us <= 1_000_000
        &&& 1 <= self.auto_refresh_count <= 16
        &&& self.mode_register < 0x2000
        &&& 1 <= self.mode_to_active_ns <= NANOS_PER_SECOND
        &&& 1 <= self.exit_self_refresh_ns <= NANOS_PER_SECOND
        &&& 1 <= self.active_to_precharge_ns <= NANOS_PER_SECOND
        &&& 1 <= self.row_cycle_ns <= NANOS_PER_SECOND
        &&& 1 <= self.write_recovery_ns <= NANOS_PER_SECOND
        &&& 1 <= self.row_precharge_ns <= NANOS_PER_SECOND
        &&& 1 <= self.row_to_column_ns <= NANOS_PER_SECOND
    }
}

/// Number of rows the profile declares, from its row-address width.
pub open spec fn spec_rows(p: DeviceProfile) -> u32 {
    if p.row_bits == 11 {
        2048u32
    } else if p.row_bits == 12 {
        4096u32
    } else {
        8192u32
    }
}

/// Number of rows the profile declares, from its row-address width.
pub fn rows(p: &DeviceProfile) -> (r: u32)
    ensures
        r == spec_rows(*p),
{
    if p.row_bits == 11 {
        2048u32
    } else if p.row_bits == 12 {
        4096u32
    } else {
        8192u32
    }
}

/// True when every scaled timing constant fits its four-bit register field
/// at this clock rate: each must come to between 1 and 16 cycles. A profile
/// and clock that do not fit are a wiring-level misconfiguration the driver
/// must not round away.
pub open spec fn spec_timing_fits(p: DeviceProfile, clk_hz: u32) -> bool {
    &&& 1 <= spec_ns_to_cycles(p.mode_to_active_ns, clk_hz) <= 16
    &&& 1 <= spec_ns_to_cycles(p.exit_self_refresh_ns, clk_hz) <= 16
    &&& 1 <= spec_ns_to_cycles(p.active_to_precharge_ns, clk_hz) <= 16
    &&& 1 <= spec_ns_to_cycles(p.row_cycle_ns, clk_hz) <= 16
    &&& 1 <= spec_ns_to_cycles(p.write_recovery_ns, clk_hz) <= 16
    &&& 1 <= spec_ns_to_cycles(p.row_precharge_ns, clk_hz) <= 16
    &&& 1 <= spec_ns_to_cycles(p.row_to_column_ns, clk_hz) <= 16
}

/// Decides [`spec_timing_fits`]: whether every scaled timing constant fits
/// its register field at this clock rate.
pub fn timing_fits(p: &DeviceProfile, clk_hz: u32) -> (b: bool)
    requires
        p.wf(),
    ensures
        b == spec_timing_fits(*p, clk_hz),
{
    let c1 = ns_to_cycles(p.mode_to_active_ns, clk_hz);
    let c2 = ns_to_cycles(p.exit_self_refresh_ns, clk_hz);
    let c3 = ns_to_cycles(p.active_to_precharge_ns, clk_hz);
    let c4 = ns_to_cycles(p.row_cycle_ns, clk_hz);
    let c5 = ns_to_cycles(p.write_recovery_ns, clk_hz);
    let c6 = ns_to_cycles(p.row_precharge_ns, clk_hz);
    let c7 = ns_to_cycles(p.row_to_column_ns, clk_hz);
    1 <= c1 && c1 <= 16 && 1 <= c2 && c2 <= 16 && 1 <= c3 && c3 <= 16 && 1 <= c4 && c4 <= 16
        && 1 <= c5 && c5 <= 16 && 1 <= c6 && c6 <= 16 && 1 <= c7 && c7 <= 16
}

/// The control-register word for the profile: column and row address widths
/// (stored minus 8 and minus 11), bus width (16 or 32 bits) in bits 4 to 5,
/// internal-bank count flag in bit 6 and column-access latency in bits 7
/// to 8.
pub open spec fn spec_sdcr(p: DeviceProfile) -> u32 {
    let nc = (p.column_bits - 8) as u32;
    let nr = (p.row_bits - 11) as u32;
    let mwid = match p.variant.width {
        BusWidth::Sixteen => 1u32,
        BusWidth::ThirtyTwo => 2u32,
    };
    let nb = match p.variant.internal_banks {
        InternalBanks::Two => 0u32,
        InternalBanks::Four => 1u32,
    };
    let cas = p.cas_latency as u32;
    nc | (nr << 2) | (mwid << 4) | (nb << 6) | (cas << 7)
}

/// Packs the control-register word for the profile.
pub fn sdcr_value(p: &DeviceProfile) -> (v: u32)
    requires
        p.wf(),
    ensures
        v == spec_sdcr(*p),
{
    let nc: u32 = (p.column_bits - 8) as u32;
    let nr: u32 = (p.row_bits - 11) as u32;
    let mwid: u32 = match p.variant.width {
        BusWidth::Sixteen => 1u32,
        BusWidth::ThirtyTwo => 2u32,
    };
    let nb: u32 = match p.variant.internal_banks {
        InternalBanks::Two => 0u32,
        InternalBanks::Four => 1u32,
    };
    let cas: u32 = p.cas_latency as u32;
    nc | (nr << 2) | (mwid << 4) | (nb << 6) | (cas << 7)
}

/// The timing-register word for the profile at the given clock rate: seven
/// four-bit fields, each a datasheet minimum scaled into clock cycles
/// rounded up and stored minus one. From the low bits up: mode-register to
/// active, exit self-refresh, active to precharge, row cycle, write
/// recovery, row precharge, row to column.
pub open spec fn spec_sdtr(p: DeviceProfile, clk_hz: u32) -> u32 {
    let tmrd = (spec_ns_to_cycles(p.mode_to_active_ns, clk_hz) - 1) as u32;
    let txsr = (spec_ns_to_cycles(p.exit_self_refresh_ns, clk_hz) - 1) as u32;
    let tras = (spec_ns_to_cycles(p.active_to_precharge_ns, clk_hz) - 1) as u32;
    let trc = (spec_ns_to_cycles(p.row_cycle_ns, clk_hz) - 1) as u32;
    let twr = (spec_ns_to_cycles(p.write_recovery_ns, clk_hz) - 1) as u32;
    let trp = (spec_ns_to_cycles(p.row_precharge_ns, clk_hz) - 1) as u32;
    let trcd = (spec_ns_to_cycles(p.row_to_column_ns, clk_hz) - 1) as u32;
    tmrd | (txsr << 4) | (tras << 8) | (trc << 12) | (twr << 16) | (trp << 20) | (trcd << 24)
}

/// Packs the timing-register word for the profile at the given clock rate.
pub fn sdtr_value(p: &DeviceProfile, clk_hz: u32) -> (v: u32)
    requires
        p.wf(),
        spec_timing_fits(*p, clk_hz),
    ensures
        v == spec_sdtr(*p, clk_hz),
{
    let tmrd = ns_to_cycles(p.mode_to_active_ns, clk_hz) - 1;
    let txsr = ns_to_cycles(p.exit_self_refresh_ns, clk_hz) - 1;
    let tras = ns_to_cycles(p.active_to_precharge_ns, clk_hz) - 1;
    let trc = ns_to_cycles(p.row_cycle_ns, clk_hz) - 1;
    let twr = ns_to_cycles(p.write_recovery_ns, clk_hz) - 1;
    let trp = ns_to_cycles(p.row_precharge_ns, clk_hz) - 1;
    let trcd = ns_to_cycles(p.row_to_column_ns, clk_hz) - 1;
    tmrd | (txsr << 4) | (tras << 8) | (trc << 12) | (twr << 16) | (trp << 20) | (trcd << 24)
}

/// The auto-refresh priming burst: `n` auto-refresh commands, each followed
/// by the mandated row-cycle wait.
pub open spec fn spec_refresh_burst(n: nat, gap_us: u32) -> Seq<BringUpStep>
    decreases n,
{
    if n == 0 {
        Seq::empty()
    } else {
        spec_refresh_burst((n - 1) as nat, gap_us) + seq![
            BringUpStep::IssueCommand(SdramCommand::AutoRefresh),
            BringUpStep::WaitMicros(gap_us),
        ]
    }
}

/// The complete ordered bring-up protocol for a profile at a clock rate:
/// program control and timing registers, enable the device clock and wait
/// out power-up stabilisation, precharge all rows and wait the row-precharge
/// time, prime refresh state with the auto-refresh burst, load the mode
/// register, and program the refresh interval.
pub open spec fn spec_bring_up_plan(p: DeviceProfile, clk_hz: u32) -> Seq<BringUpStep> {
    seq![
        BringUpStep::ProgramControl(spec_sdcr(p)),
        BringUpStep::ProgramTiming(spec_sdtr(p, clk_hz)),
        BringUpStep::IssueCommand(SdramCommand::ClockEnable),
        BringUpStep::WaitMicros(p.startup_delay_us),
        BringUpStep::IssueCommand(SdramCommand::PrechargeAll),
        BringUpStep::WaitMicros(spec_ns_to_micros(p.row_precharge_ns) as u32),
    ] + spec_refresh_burst(p.auto_refresh_count as nat, spec_ns_to_micros(p.row_cycle_ns) as u32)
        + seq![
        BringUpStep::IssueCommand(SdramCommand::LoadMode(p.mode_register)),
        BringUpStep::ProgramRefresh(
            spec_refresh_interval(p.refresh_period_ms, spec_rows(p), clk_hz) as u32,
        ),
    ]
}

/// The register block after a bring-up for the profile, starting from `r`:
/// the controller enabled, the target bank's control and timing registers
/// programmed, the command register left at the final mode-register load,
/// and the refresh interval programmed.
pub open spec fn spec_regs_after(r: FmcRegisters, p: DeviceProfile, clk_hz: u32) -> FmcRegisters {
    let bank = p.variant.bank;
    let cmd = spec_command_word(bank, SdramCommand::LoadMode(p.mode_register));
    let rtr = spec_refresh_interval(p.refresh_period_ms, spec_rows(p), clk_hz) as u32;
    match bank {
        SdramBank::Bank1 => FmcRegisters {
            sdcr1: spec_sdcr(p),
            sdtr1: spec_sdtr(p, clk_hz),
            sdcmr: cmd,
            sdrtr: rtr,
            ..spec_enable(r)
        },
        SdramBank::Bank2 => FmcRegisters {
            sdcr2: spec_sdcr(p),
            sdtr2: spec_sdtr(p, clk_hz),
            sdcmr: cmd,
            sdrtr: rtr,
            ..spec_enable(r)
        },
    }
}

/// Blocks for `us` microseconds through the delay provider and records the
/// honoured wait in the handle's log.
fn wait_micros<D: DelayUs>(fmc: &mut Fmc, delay: &mut D, us: u32)
    ensures
        final(fmc).regs == old(fmc).regs,
        final(fmc).log@ == old(fmc).log@.push(BringUpStep::WaitMicros(us)),
{
    delay.delay_us(us);
    fmc.record_wait(us);
}

/// Runs the bring-up protocol on the handle: enables the controller, then
/// performs exactly the steps of [`spec_bring_up_plan`], in order, honouring
/// every mandated wait through the delay provider. The handle's log is
/// extended by precisely the plan, and the registers end as
/// [`spec_regs_after`] states.
pub fn run_bring_up<D: DelayUs>(fmc: &mut Fmc, p: &DeviceProfile, clk_hz: u32, delay: &mut D)
    requires
        p.wf(),
        spec_timing_fits(*p, clk_hz),
    ensures
        final(fmc).regs == spec_regs_after(old(fmc).regs, *p, clk_hz),
        final(fmc).log@ == old(fmc).log@ + spec_bring_up_plan(*p, clk_hz),
{
    let bank = p.variant.bank;
    fmc.enable();
    let sdcr = sdcr_value(p);
    fmc.write_control(bank, sdcr);
    let sdtr = sdtr_value(p, clk_hz);
    fmc.write_timing(bank, sdtr);
    fmc.send_command(bank, SdramCommand::ClockEnable);
    wait_micros(fmc, delay, p.startup_delay_us);
    fmc.send_command(bank, SdramCommand::PrechargeAll);
    let trp_us = ns_to_micros(p.row_precharge_ns);
    wait_micros(fmc, delay, trp_us);

    let ghost regs_mid = fmc.regs;
    let ghost log_mid = fmc.log@;
    let trc_us = ns_to_micros(p.row_cycle_ns);
    let mut i: u8 = 0;
    while i < p.auto_refresh_count
        invariant
            0 <= i <= p.auto_refresh_count,
            fmc.log@ == log_mid + spec_refresh_burst(i as nat, trc_us),
            i == 0 ==> fmc.regs == regs_mid,
            i > 0 ==> fmc.regs == (FmcRegisters {
                sdcmr: spec_command_word(p.variant.bank, SdramCommand::AutoRefresh),
                ..regs_mid
            }),
        decreases p.auto_refresh_count - i as int,
    {
        fmc.send_command(p.variant.bank, SdramCommand::AutoRefresh);
        wait_micros(fmc, delay, trc_us);
        proof {
            assert(spec_refresh_burst((i + 1) as nat, trc_us) == spec_refresh_burst(
                i as nat,
                trc_us,
            ) + seq![
                BringUpStep::IssueCommand(SdramCommand::AutoRefresh),
                BringUpStep::WaitMicros(trc_us),
            ]);
            assert(fmc.log@ =~= log_mid + spec_refresh_burst((i + 1) as nat, trc_us));
        }
        i = i + 1;
    }

    fmc.send_command(bank, SdramCommand::LoadMode(p.mode_register));
    let nrows = rows(p);
    let rtr = refresh_interval_cycles(p.refresh_period_ms, nrows, clk_hz);
    fmc.write_refresh_interval(rtr);
    proof {
        assert(final(fmc).log@ =~= old(fmc).log@ + spec_bring_up_plan(*p, clk_hz));
    }
}

/// The output of a successful bring-up: the now-usable external RAM region.
/// The caller is the region's sole owner; the driver returns it exactly
/// once and offers no aliasing protection beyond that.
#[derive(Clone, Copy, Debug, PartialEq, Eq, Structural)]
pub struct MemoryWindow {
    /// Base address of the region in the processor's memory map.
    pub base_address: u32,
    /// Length of the region, in bytes.
    pub length_bytes: u32,
}

/// The bring-up sequencer: owns the controller handle, the validated pin
/// bundle and the device profile, and is consumed by [`Sdram::init`], so a
/// bring-up can only be started once per sequencer.
pub struct Sdram {
    fmc: Fmc,
    bundle: PinBundle,
    profile: DeviceProfile,
}

impl Sdram {
    /// The profile the sequencer was built with.
    pub closed spec fn spec_profile(self) -> DeviceProfile {
        self.profile
    }

    /// The bundle the sequencer was built with.
    pub closed spec fn spec_bundle(self) -> PinBundle {
        self.bundle
    }

    /// The controller handle the sequencer owns.
    pub closed spec fn spec_fmc(self) -> Fmc {
        self.fmc
    }

    /// Well-formedness: the profile's constants are in range, the bundle
    /// satisfies its variant, and bundle and profile declare the same
    /// variant, so a bus-width mismatch between them cannot be expressed.
    pub open spec fn wf(self) -> bool {
        &&& self.spec_profile().wf()
        &&& self.spec_bundle().wf()
        &&& self.spec_bundle().spec_variant() == self.spec_profile().variant
    }

    /// Builds the sequencer: consumes the peripheral token into an
    /// exclusive controller handle and takes ownership of the validated pin
    /// bundle and the device profile. Bundle and profile must declare the
    /// same variant; a program violating that is rejected before it runs.
    pub fn new(token: FmcPeripheral, bundle: PinBundle, profile: DeviceProfile) -> (s: Sdram)
        requires
            bundle.wf(),
            profile.wf(),
            bundle.spec_variant() == profile.variant,
        ensures
            s.wf(),
            s.spec_profile() == profile,
            s.spec_bundle() == bundle,
            s.spec_fmc().regs == spec_reset_registers(),
            s.spec_fmc().log@ == Seq::<BringUpStep>::empty(),
    {
        let fmc = Fmc::new(token);
        Sdram { fmc, bundle, profile }
    }

    /// Brings the device up and returns the validated memory window
    /// together with the controller handle, whose log then holds exactly
    /// the protocol that ran. Consumes the sequencer: no second `init` on
    /// the same handle can be written. There is no error path and no retry;
    /// a bring-up that does not take first time is a wiring or timing
    /// defect retrying cannot fix.
    pub fn init<D: DelayUs>(self, clk_hz: u32, delay: &mut D) -> (r: (MemoryWindow, Fmc))
        requires
            self.wf(),
            spec_timing_fits(self.spec_profile(), clk_hz),
        ensures
            r.0.base_address == spec_bank_address(
                self.spec_profile().variant.bank.spec_number(),
            ),
            r.0.length_bytes == self.spec_profile().capacity_bytes,
            r.1.regs == spec_regs_after(self.spec_fmc().regs, self.spec_profile(), clk_hz),
            r.1.log@ == self.spec_fmc().log@ + spec_bring_up_plan(self.spec_profile(), clk_hz),
    {
        let Sdram { mut fmc, bundle: _, profile } = self;
        run_bring_up(&mut fmc, &profile, clk_hz, delay);
        let base = Fmc::bank_address(profile.variant.bank.number());
        (MemoryWindow { base_address: base, length_bytes: profile.capacity_bytes }, fmc)
    }
}

} // verus!
