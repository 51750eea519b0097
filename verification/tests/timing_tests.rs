use stm32h7_fmc::fmc::{Fmc, FmcBank};
use stm32h7_fmc::timing::{ns_to_cycles, ns_to_micros, refresh_interval_cycles};

#[test]
fn bank_addresses_are_fixed() {
    assert_eq!(Fmc::bank_address(1), 0x6000_0000);
    assert_eq!(Fmc::bank_address(2), 0x7000_0000);
    assert_eq!(Fmc::bank_address(3), 0x8000_0000);
    assert_eq!(Fmc::bank_address(5), 0xC000_0000);
    assert_eq!(Fmc::bank_address(6), 0xD000_0000);
}

#[test]
fn bank_base_pointers_match_the_map() {
    assert_eq!(FmcBank::Bank1.ptr(), 0x6000_0000);
    assert_eq!(FmcBank::Bank2.ptr(), 0x7000_0000);
    assert_eq!(FmcBank::Bank3.ptr(), 0x8000_0000);
    assert_eq!(FmcBank::Bank4.ptr(), 0x9000_0000);
    assert_eq!(FmcBank::Bank5.ptr(), 0xC000_0000);
    assert_eq!(FmcBank::Bank6.ptr(), 0xD000_0000);
}

#[test]
fn precharge_cycles_round_up() {
    // 18 ns at 100 MHz (10 ns per cycle) must program 2 cycles, not 1.
    assert_eq!(ns_to_cycles(18, 100_000_000), 2);
}

#[test]
fn exact_multiples_do_not_round() {
    assert_eq!(ns_to_cycles(20, 100_000_000), 2);
    assert_eq!(ns_to_cycles(21, 100_000_000), 3);
    assert_eq!(ns_to_cycles(10, 100_000_000), 1);
    assert_eq!(ns_to_cycles(1, 100_000_000), 1);
    assert_eq!(ns_to_cycles(0, 100_000_000), 0);
}

#[test]
fn cycles_at_other_clock_rates() {
    // 60 ns at 166 MHz: 9.96 cycles, so 10.
    assert_eq!(ns_to_cycles(60, 166_000_000), 10);
    // 70 ns at 166 MHz: 11.62 cycles, so 12.
    assert_eq!(ns_to_cycles(70, 166_000_000), 12);
}

#[test]
fn refresh_interval_rounds_down() {
    // 64 ms over 8192 rows at 100 MHz: 781.25 cycles per row, so 781.
    assert_eq!(refresh_interval_cycles(64, 8192, 100_000_000), 781);
}

#[test]
fn refresh_interval_for_4096_rows() {
    // 64 ms over 4096 rows at 100 MHz: 1562.5 cycles per row, so 1562.
    assert_eq!(refresh_interval_cycles(64, 4096, 100_000_000), 1562);
}

#[test]
fn micros_round_up() {
    assert_eq!(ns_to_micros(18), 1);
    assert_eq!(ns_to_micros(1000), 1);
    assert_eq!(ns_to_micros(1001), 2);
    assert_eq!(ns_to_micros(0), 0);
}
