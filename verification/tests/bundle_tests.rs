use stm32h7_fmc::bundle::{BusWidth, InternalBanks, PinBundle, SdramVariant, required_roles};
use stm32h7_fmc::fmc::SdramBank;
use stm32h7_fmc::pins::{PinId, PinPort, SignalRole, pin_supports};

fn pin(port: PinPort, line: u8) -> PinId {
    PinId { port, line }
}

/// A pin list that fills every role of the variant, taken from the
/// multiplexing table: address lines, bank-address lines, data lines,
/// byte-lane enables, then clock enable, clock, column strobe, chip select,
/// row strobe and write enable.
fn valid_pins(v: SdramVariant) -> Vec<PinId> {
    let mut pins = vec![
        pin(PinPort::F, 0),
        pin(PinPort::F, 1),
        pin(PinPort::F, 2),
        pin(PinPort::F, 3),
        pin(PinPort::F, 4),
        pin(PinPort::F, 5),
        pin(PinPort::F, 12),
        pin(PinPort::F, 13),
        pin(PinPort::F, 14),
        pin(PinPort::F, 15),
        pin(PinPort::G, 0),
        pin(PinPort::G, 1),
    ];
    pins.push(pin(PinPort::G, 4)); // BA0
    if v.internal_banks == InternalBanks::Four {
        pins.push(pin(PinPort::G, 5)); // BA1
    }
    let data16 = [
        pin(PinPort::D, 14),
        pin(PinPort::D, 15),
        pin(PinPort::D, 0),
        pin(PinPort::D, 1),
        pin(PinPort::E, 7),
        pin(PinPort::E, 8),
        pin(PinPort::E, 9),
        pin(PinPort::E, 10),
        pin(PinPort::E, 11),
        pin(PinPort::E, 12),
        pin(PinPort::E, 13),
        pin(PinPort::E, 14),
        pin(PinPort::E, 15),
        pin(PinPort::D, 8),
        pin(PinPort::D, 9),
        pin(PinPort::D, 10),
    ];
    pins.extend_from_slice(&data16);
    if v.width == BusWidth::ThirtyTwo {
        let data_high = [
            pin(PinPort::H, 8),
            pin(PinPort::H, 9),
            pin(PinPort::H, 10),
            pin(PinPort::H, 11),
            pin(PinPort::H, 12),
            pin(PinPort::H, 13),
            pin(PinPort::H, 14),
            pin(PinPort::H, 15),
            pin(PinPort::I, 0),
            pin(PinPort::I, 1),
            pin(PinPort::I, 2),
            pin(PinPort::I, 3),
            pin(PinPort::I, 6),
            pin(PinPort::I, 7),
            pin(PinPort::I, 9),
            pin(PinPort::I, 10),
        ];
        pins.extend_from_slice(&data_high);
    }
    pins.push(pin(PinPort::E, 0)); // NBL0
    pins.push(pin(PinPort::E, 1)); // NBL1
    if v.width == BusWidth::ThirtyTwo {
        pins.push(pin(PinPort::I, 4)); // NBL2
        pins.push(pin(PinPort::I, 5)); // NBL3
    }
    match v.bank {
        SdramBank::Bank1 => pins.push(pin(PinPort::C, 3)), // SDCKE0
        SdramBank::Bank2 => pins.push(pin(PinPort::H, 7)), // SDCKE1
    }
    pins.push(pin(PinPort::G, 8)); // SDCLK
    pins.push(pin(PinPort::G, 15)); // SDNCAS
    match v.bank {
        SdramBank::Bank1 => pins.push(pin(PinPort::C, 2)), // SDNE0
        SdramBank::Bank2 => pins.push(pin(PinPort::H, 6)), // SDNE1
    }
    pins.push(pin(PinPort::F, 11)); // SDNRAS
    pins.push(pin(PinPort::H, 5)); // SDNWE
    pins
}

fn all_variants() -> Vec<SdramVariant> {
    let mut out = Vec::new();
    for width in [BusWidth::Sixteen, BusWidth::ThirtyTwo] {
        for internal_banks in [InternalBanks::Two, InternalBanks::Four] {
            for bank in [SdramBank::Bank1, SdramBank::Bank2] {
                out.push(SdramVariant { width, internal_banks, bank });
            }
        }
    }
    out
}

#[test]
fn registry_accepts_table_entries() {
    assert!(pin_supports(pin(PinPort::F, 0), SignalRole::Address(0)));
    assert!(pin_supports(pin(PinPort::G, 14), SignalRole::Address(25)));
    assert!(pin_supports(pin(PinPort::G, 4), SignalRole::BankAddress(0)));
    assert!(pin_supports(pin(PinPort::I, 10), SignalRole::Data(31)));
    assert!(pin_supports(pin(PinPort::E, 0), SignalRole::ByteEnable(0)));
    assert!(pin_supports(pin(PinPort::A, 7), SignalRole::SdWriteEnable));
    assert!(pin_supports(pin(PinPort::C, 0), SignalRole::SdWriteEnable));
    assert!(pin_supports(pin(PinPort::H, 5), SignalRole::SdWriteEnable));
    assert!(pin_supports(pin(PinPort::C, 3), SignalRole::SdClockEnable(0)));
    assert!(pin_supports(pin(PinPort::C, 5), SignalRole::SdClockEnable(0)));
    assert!(pin_supports(pin(PinPort::H, 2), SignalRole::SdClockEnable(0)));
    assert!(pin_supports(pin(PinPort::B, 5), SignalRole::SdClockEnable(1)));
    assert!(pin_supports(pin(PinPort::G, 9), SignalRole::NandChipEnable));
    assert!(pin_supports(pin(PinPort::G, 9), SignalRole::ChipSelect(2)));
}

#[test]
fn registry_rejects_foreign_pairs() {
    assert!(!pin_supports(pin(PinPort::F, 1), SignalRole::Address(0)));
    assert!(!pin_supports(pin(PinPort::G, 8), SignalRole::Data(0)));
    assert!(!pin_supports(pin(PinPort::A, 7), SignalRole::SdClock));
    assert!(!pin_supports(pin(PinPort::F, 0), SignalRole::Address(26)));
    assert!(!pin_supports(pin(PinPort::C, 3), SignalRole::SdClockEnable(1)));
}

#[test]
fn role_list_is_ordered_and_sized() {
    let v = SdramVariant {
        width: BusWidth::ThirtyTwo,
        internal_banks: InternalBanks::Four,
        bank: SdramBank::Bank2,
    };
    let roles = required_roles(v);
    // 12 address + 2 bank + 32 data + 4 byte enables + 6 control signals.
    assert_eq!(roles.len(), 56);
    assert_eq!(roles[0], SignalRole::Address(0));
    assert_eq!(roles[11], SignalRole::Address(11));
    assert_eq!(roles[12], SignalRole::BankAddress(0));
    assert_eq!(roles[13], SignalRole::BankAddress(1));
    assert_eq!(roles[14], SignalRole::Data(0));
    assert_eq!(roles[45], SignalRole::Data(31));
    assert_eq!(roles[46], SignalRole::ByteEnable(0));
    assert_eq!(roles[49], SignalRole::ByteEnable(3));
    assert_eq!(roles[50], SignalRole::SdClockEnable(1));
    assert_eq!(roles[51], SignalRole::SdClock);
    assert_eq!(roles[52], SignalRole::SdColumnStrobe);
    assert_eq!(roles[53], SignalRole::SdChipSelect(1));
    assert_eq!(roles[54], SignalRole::SdRowStrobe);
    assert_eq!(roles[55], SignalRole::SdWriteEnable);
}

#[test]
fn sixteen_bit_role_list_is_shorter() {
    let v = SdramVariant {
        width: BusWidth::Sixteen,
        internal_banks: InternalBanks::Two,
        bank: SdramBank::Bank1,
    };
    let roles = required_roles(v);
    // 12 address + 1 bank + 16 data + 2 byte enables + 6 control signals.
    assert_eq!(roles.len(), 37);
    assert_eq!(roles[12], SignalRole::BankAddress(0));
    assert_eq!(roles[13], SignalRole::Data(0));
    assert_eq!(roles[29], SignalRole::ByteEnable(0));
    assert_eq!(roles[31], SignalRole::SdClockEnable(0));
    assert_eq!(roles[36], SignalRole::SdWriteEnable);
}

#[test]
fn complete_bundles_construct_for_every_variant() {
    for v in all_variants() {
        let pins = valid_pins(v);
        let bundle = PinBundle::try_new(pins, v);
        assert!(bundle.is_some());
        let bundle = bundle.unwrap();
        assert_eq!(bundle.variant(), v);
    }
}

#[test]
fn missing_roles_fail_for_every_variant() {
    for v in all_variants() {
        // Too short: the last required role is missing.
        let mut pins = valid_pins(v);
        pins.pop();
        assert!(PinBundle::try_new(pins, v).is_none());
    }
}

#[test]
fn wrong_address_pin_fails() {
    let v = SdramVariant {
        width: BusWidth::ThirtyTwo,
        internal_banks: InternalBanks::Four,
        bank: SdramBank::Bank2,
    };
    let mut pins = valid_pins(v);
    // A data-capable pin cannot stand in an address position.
    pins[0] = pin(PinPort::D, 14);
    assert!(PinBundle::try_new(pins, v).is_none());
}

#[test]
fn wrong_bank_pin_fails() {
    let v = SdramVariant {
        width: BusWidth::Sixteen,
        internal_banks: InternalBanks::Four,
        bank: SdramBank::Bank1,
    };
    let mut pins = valid_pins(v);
    // Bank 1 needs its own clock-enable pin; bank 2's will not do.
    pins[32] = pin(PinPort::H, 7);
    assert!(PinBundle::try_new(pins, v).is_none());
}

#[test]
fn swapped_pins_fail() {
    let v = SdramVariant {
        width: BusWidth::Sixteen,
        internal_banks: InternalBanks::Two,
        bank: SdramBank::Bank1,
    };
    let mut pins = valid_pins(v);
    // The bundle is positional: swapping two address lines breaks it.
    pins.swap(0, 1);
    assert!(PinBundle::try_new(pins, v).is_none());
}

#[test]
fn alternate_routing_options_are_accepted() {
    let v = SdramVariant {
        width: BusWidth::Sixteen,
        internal_banks: InternalBanks::Two,
        bank: SdramBank::Bank1,
    };
    let mut pins = valid_pins(v);
    // The table offers several pins for clock enable 0, chip select 0 and
    // the write enable; any of them must do.
    pins[31] = pin(PinPort::H, 2); // SDCKE0 alternative
    pins[34] = pin(PinPort::C, 4); // SDNE0 alternative
    pins[36] = pin(PinPort::A, 7); // SDNWE alternative
    assert!(PinBundle::try_new(pins, v).is_some());
}
