//! Device profile for the IS42S16400J: a 64 Mbit (8 MB) synchronous DRAM,
//! 1 M words of 16 bits in each of four internal banks, 4096 rows by 256
//! columns. Timing constants follow the part's datasheet at its rated speed
//! grade.

use vstd::prelude::*;

use crate::bundle::{BusWidth, InternalBanks, SdramVariant};
use crate::fmc::SdramBank;
use crate::sdram::DeviceProfile;

verus! {

/// The IS42S16400J part.
pub struct Is42s16400j;

/// The profile constants of the IS42S16400J, wired to the given controller
/// SDRAM bank.
pub open spec fn spec_is42s16400j(bank: SdramBank) -> DeviceProfile {
    DeviceProfile {
        capacity_bytes: 0x0080_0000,
        row_bits: 12,
        column_bits: 8,
        cas_latency: 3,
        refresh_period_ms: 64,
        startup_delay_us: 100,
        auto_refresh_count: 8,
        mode_register: 0x0230,
        mode_to_active_ns: 14,
        exit_self_refresh_ns: 70,
        active_to_precharge_ns: 42,
        row_cycle_ns: 63,
        write_recovery_ns: 14,
        row_precharge_ns: 15,
        row_to_column_ns: 15,
        variant: SdramVariant {
            width: BusWidth::Sixteen,
            internal_banks: InternalBanks::Four,
            bank,
        },
    }
}

impl Is42s16400j {
    /// The device profile, wired to the given controller SDRAM bank: 8 MB,
    /// 16-bit bus, four internal banks, mode register set for single-word
    /// writes with a column-access latency of 3.
    pub fn profile(bank: SdramBank) -> (p: DeviceProfile)
        ensures
            p == spec_is42s16400j(bank),
            p.wf(),
    {
        DeviceProfile {
            capacity_bytes: 0x0080_0000,
            row_bits: 12,
            column_bits: 8,
            cas_latency: 3,
            refresh_period_ms: 64,
            startup_delay_us: 100,
            auto_refresh_count: 8,
            mode_register: 0x0230,
            mode_to_active_ns: 14,
            exit_self_refresh_ns: 70,
            active_to_precharge_ns: 42,
            row_cycle_ns: 63,
            write_recovery_ns: 14,
            row_precharge_ns: 15,
            row_to_column_ns: 15,
            variant: SdramVariant {
                width: BusWidth::Sixteen,
                internal_banks: InternalBanks::Four,
                bank,
            },
        }
    }
}

} // verus!
