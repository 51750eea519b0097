use stm32h7_fmc::Is42s32800g;
use stm32h7_fmc::Sdram;
use stm32h7_fmc::bundle::{BusWidth, InternalBanks, PinBundle, SdramVariant};
use stm32h7_fmc::fmc::{BringUpStep, Fmc, FmcPeripheral, SdramBank, SdramCommand};
use stm32h7_fmc::pins::{PinId, PinPort};
use stm32h7_fmc::sdram::{DelayUs, DeviceProfile, run_bring_up, timing_fits};

/// A delay provider that records every wait it was asked to honour.
struct RecordingDelay {
    waits: Vec<u32>,
}

impl DelayUs for RecordingDelay {
    fn delay_us(&mut self, us: u32) {
        self.waits.push(us);
    }
}

fn pin(port: PinPort, line: u8) -> PinId {
    PinId { port, line }
}

/// The disco-board wiring: a 32-bit, four-internal-bank device on
/// controller SDRAM bank 2.
fn bank2_32bit_pins() -> Vec<PinId> {
    let mut pins = vec![
        pin(PinPort::F, 0),
        pin(PinPort::F, 1),
        pin(PinPort::F, 2),
        pin(PinPort::F, 3),
        pin(PinPort::F, 4),
        pin(PinPort::F, 5),
        pin(PinPort::F, 12),
        pin(PinPort::F, 13),
        pin(PinPort::F, 14),
        pin(PinPort::F, 15),
        pin(PinPort::G, 0),
        pin(PinPort::G, 1),
        pin(PinPort::G, 4),
        pin(PinPort::G, 5),
        pin(PinPort::D, 14),
        pin(PinPort::D, 15),
        pin(PinPort::D, 0),
        pin(PinPort::D, 1),
        pin(PinPort::E, 7),
        pin(PinPort::E, 8),
        pin(PinPort::E, 9),
        pin(PinPort::E, 10),
        pin(PinPort::E, 11),
        pin(PinPort::E, 12),
        pin(PinPort::E, 13),
        pin(PinPort::E, 14),
        pin(PinPort::E, 15),
        pin(PinPort::D, 8),
        pin(PinPort::D, 9),
        pin(PinPort::D, 10),
        pin(PinPort::H, 8),
        pin(PinPort::H, 9),
        pin(PinPort::H, 10),
        pin(PinPort::H, 11),
        pin(PinPort::H, 12),
        pin(PinPort::H, 13),
        pin(PinPort::H, 14),
        pin(PinPort::H, 15),
        pin(PinPort::I, 0),
        pin(PinPort::I, 1),
        pin(PinPort::I, 2),
        pin(PinPort::I, 3),
        pin(PinPort::I, 6),
        pin(PinPort::I, 7),
        pin(PinPort::I, 9),
        pin(PinPort::I, 10),
        pin(PinPort::E, 0),
        pin(PinPort::E, 1),
        pin(PinPort::I, 4),
        pin(PinPort::I, 5),
        pin(PinPort::H, 7),  // SDCKE1
        pin(PinPort::G, 8),  // SDCLK
        pin(PinPort::G, 15), // SDNCAS
        pin(PinPort::H, 6),  // SDNE1
        pin(PinPort::F, 11), // SDNRAS
        pin(PinPort::H, 5),  // SDNWE
    ];
    assert_eq!(pins.len(), 56);
    pins
}

#[test]
fn enable_is_idempotent() {
    let mut fmc = Fmc::new(FmcPeripheral::new());
    fmc.enable();
    let once = fmc.regs;
    let log_len = fmc.log.len();
    fmc.enable();
    assert_eq!(fmc.regs, once);
    assert_eq!(fmc.log.len(), log_len);
    assert_eq!(fmc.regs.bcr1, 0x8000_0000);
}

#[test]
fn bring_up_programs_the_registers() {
    let profile = Is42s32800g::profile(SdramBank::Bank2);
    let clk_hz = 100_000_000;
    assert!(timing_fits(&profile, clk_hz));
    let mut fmc = Fmc::new(FmcPeripheral::new());
    let mut delay = RecordingDelay { waits: Vec::new() };
    run_bring_up(&mut fmc, &profile, clk_hz, &mut delay);

    assert_eq!(fmc.regs.bcr1, 0x8000_0000);
    // Column bits 9, row bits 12, 32-bit bus, four banks, latency 3.
    assert_eq!(fmc.regs.sdcr2, 0x01E5);
    assert_eq!(fmc.regs.sdcr1, 0);
    // At 10 ns per cycle: 2, 7, 5, 6, 2, 2, 2 cycles, each stored minus 1.
    assert_eq!(fmc.regs.sdtr2, 0x0111_5461);
    assert_eq!(fmc.regs.sdtr1, 0);
    // The last command issued is the mode-register load to bank 2.
    assert_eq!(fmc.regs.sdcmr, 0x0004_600C);
    // 64 ms over 4096 rows at 100 MHz, rounded down.
    assert_eq!(fmc.regs.sdrtr, 1562);
}

#[test]
fn bring_up_follows_the_protocol_order() {
    let profile = Is42s32800g::profile(SdramBank::Bank2);
    let mut fmc = Fmc::new(FmcPeripheral::new());
    let mut delay = RecordingDelay { waits: Vec::new() };
    run_bring_up(&mut fmc, &profile, 100_000_000, &mut delay);

    let mut expected = vec![
        BringUpStep::ProgramControl(0x01E5),
        BringUpStep::ProgramTiming(0x0111_5461),
        BringUpStep::IssueCommand(SdramCommand::ClockEnable),
        BringUpStep::WaitMicros(100),
        BringUpStep::IssueCommand(SdramCommand::PrechargeAll),
        BringUpStep::WaitMicros(1),
    ];
    for _ in 0..8 {
        expected.push(BringUpStep::IssueCommand(SdramCommand::AutoRefresh));
        expected.push(BringUpStep::WaitMicros(1));
    }
    expected.push(BringUpStep::IssueCommand(SdramCommand::LoadMode(0x0230)));
    expected.push(BringUpStep::ProgramRefresh(1562));
    assert_eq!(fmc.log, expected);
}

#[test]
fn bring_up_honours_every_wait() {
    let profile = Is42s32800g::profile(SdramBank::Bank2);
    let mut fmc = Fmc::new(FmcPeripheral::new());
    let mut delay = RecordingDelay { waits: Vec::new() };
    run_bring_up(&mut fmc, &profile, 100_000_000, &mut delay);

    // The power-up stabilisation wait, the precharge wait, and one
    // row-cycle wait after each of the eight auto-refresh commands.
    assert_eq!(delay.waits.len(), 10);
    assert_eq!(delay.waits[0], 100);
    assert!(delay.waits[1] >= 1);
    for w in &delay.waits[2..] {
        assert!(*w >= 1);
    }
}

#[test]
fn init_returns_the_window() {
    // A device profile declaring 16 MB capacity on controller bank 2, a
    // 32-bit bus and four internal banks, refreshing 8192 rows in 64 ms.
    let profile = DeviceProfile {
        capacity_bytes: 16 * 1024 * 1024,
        row_bits: 13,
        column_bits: 9,
        cas_latency: 3,
        refresh_period_ms: 64,
        startup_delay_us: 100,
        auto_refresh_count: 8,
        mode_register: 0x0230,
        mode_to_active_ns: 12,
        exit_self_refresh_ns: 70,
        active_to_precharge_ns: 42,
        row_cycle_ns: 60,
        write_recovery_ns: 12,
        row_precharge_ns: 18,
        row_to_column_ns: 18,
        variant: SdramVariant {
            width: BusWidth::ThirtyTwo,
            internal_banks: InternalBanks::Four,
            bank: SdramBank::Bank2,
        },
    };
    let bundle = PinBundle::try_new(bank2_32bit_pins(), profile.variant).unwrap();
    let sdram = Sdram::new(FmcPeripheral::new(), bundle, profile);
    let mut delay = RecordingDelay { waits: Vec::new() };
    let (window, fmc) = sdram.init(100_000_000, &mut delay);

    assert_eq!(window.base_address, 0x7000_0000);
    assert_eq!(window.length_bytes, 16 * 1024 * 1024);
    // The full protocol ran: 6 leading steps, 8 refresh pairs, 2 closing.
    assert_eq!(fmc.log.len(), 24);
    // 64 ms over 8192 rows at 100 MHz, rounded down: 781 cycles.
    assert_eq!(fmc.regs.sdrtr, 781);
    // The precharge register field holds 2 cycles (stored minus one) for
    // 18 ns at 100 MHz: bits 20 to 23 of the timing word.
    assert_eq!((fmc.regs.sdtr2 >> 20) & 0xF, 1);
}

#[test]
fn sixteen_bit_device_programs_bank_one() {
    let profile = stm32h7_fmc::Is42s16400j::profile(SdramBank::Bank1);
    let mut fmc = Fmc::new(FmcPeripheral::new());
    let mut delay = RecordingDelay { waits: Vec::new() };
    run_bring_up(&mut fmc, &profile, 100_000_000, &mut delay);

    // Column bits 8, row bits 12, 16-bit bus, four banks, latency 3:
    // 0 | (1 << 2) | (1 << 4) | (1 << 6) | (3 << 7).
    assert_eq!(fmc.regs.sdcr1, 0x01D4);
    assert_eq!(fmc.regs.sdcr2, 0);
    // The final command targets bank 1 (bit 4): mode-register load.
    assert_eq!(fmc.regs.sdcmr, 0x0004_6014);
}
