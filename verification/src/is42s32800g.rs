//! Device profile for the IS42S32800G: a 256 Mbit (32 MB) synchronous DRAM,
//! 8 M words of 32 bits in four internal banks, 4096 rows by 512 columns.
//! Timing constants follow the part's datasheet at its rated speed grade.

use vstd::prelude::*;

use crate::bundle::{BusWidth, InternalBanks, SdramVariant};
use crate::fmc::SdramBank;
use crate::sdram::DeviceProfile;

verus! {

/// The IS42S32800G part.
pub struct Is42s32800g;

/// The profile constants of the IS42S32800G, wired to the given controller
/// SDRAM bank.
pub open spec fn spec_is42s32800g(bank: SdramBank) -> DeviceProfile {
    DeviceProfile {
        capacity_bytes: 0x0200_0000,
        row_bits: 12,
        column_bits: 9,
        cas_latency: 3,
        refresh_period_ms: 64,
        startup_delay_us: 100,
        auto_refresh_count: 8,
        mode_register: 0x0230,
        mode_to_active_ns: 12,
        exit_self_refresh_ns: 70,
        active_to_precharge_ns: 42,
        row_cycle_ns: 60,
        write_recovery_ns: 12,
        row_precharge_ns: 18,
        row_to_column_ns: 18,
        variant: SdramVariant {
            width: BusWidth::ThirtyTwo,
            internal_banks: InternalBanks::Four,
            bank,
        },
    }
}

impl Is42s32800g {
    /// The device profile, wired to the given controller SDRAM bank: 32 MB,
    /// 32-bit bus, four internal banks, mode register set for single-word
    /// writes with a column-access latency of 3.
    pub fn profile(bank: SdramBank) -> (p: DeviceProfile)
        ensures
            p == spec_is42s32800g(bank),
            p.wf(),
    {
        DeviceProfile {
            capacity_bytes: 0x0200_0000,
            row_bits: 12,
            column_bits: 9,
            cas_latency: 3,
            refresh_period_ms: 64,
            startup_delay_us: 100,
            auto_refresh_count: 8,
            mode_register: 0x0230,
            mode_to_active_ns: 12,
            exit_self_refresh_ns: 70,
            active_to_precharge_ns: 42,
            row_cycle_ns: 60,
            write_recovery_ns: 12,
            row_precharge_ns: 18,
            row_to_column_ns: 18,
            variant: SdramVariant {
                width: BusWidth::ThirtyTwo,
                internal_banks: InternalBanks::Four,
                bank,
            },
        }
    }
}

} // verus!
