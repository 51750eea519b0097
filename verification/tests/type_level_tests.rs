use stm32h7_fmc::bundle::PinsSdram;
use stm32h7_fmc::fmc::Fmc;
use stm32h7_fmc::pins::{
    PC2, PC3, PD0, PD1, PD10, PD14, PD15, PD8, PD9, PE0, PE1, PE10, PE11, PE12, PE13, PE14, PE15,
    PE7, PE8, PE9, PF0, PF1, PF11, PF12, PF13, PF14, PF15, PF2, PF3, PF4, PF5, PG0, PG1, PG15,
    PG4, PG5, PG8, PH10, PH11, PH12, PH13, PH14, PH15, PH5, PH6, PH7, PH8, PH9, PI0, PI1, PI10,
    PI2, PI3, PI4, PI5, PI6, PI7, PI9,
};
use stm32h7_fmc::{PinsSdramBank1, PinsSdramBank2};

/// The disco-board wiring as a type: 32-bit bus, four internal banks, on
/// controller SDRAM bank 2. That this type implements `PinsSdram` is the
/// type-level proof that every position carries a capable pin.
type DiscoBank2Pins = PinsSdramBank2<(
    PF0,
    PF1,
    PF2,
    PF3,
    PF4,
    PF5,
    PF12,
    PF13,
    PF14,
    PF15,
    PG0,
    PG1,
    PG4,
    PG5,
    PD14,
    PD15,
    PD0,
    PD1,
    PE7,
    PE8,
    PE9,
    PE10,
    PE11,
    PE12,
    PE13,
    PE14,
    PE15,
    PD8,
    PD9,
    PD10,
    PH8,
    PH9,
    PH10,
    PH11,
    PH12,
    PH13,
    PH14,
    PH15,
    PI0,
    PI1,
    PI2,
    PI3,
    PI6,
    PI7,
    PI9,
    PI10,
    PE0,
    PE1,
    PI4,
    PI5,
    PH7,
    PG8,
    PG15,
    PH6,
    PF11,
    PH5,
)>;

/// A 16-bit, two-internal-bank wiring on controller SDRAM bank 1.
type Narrow16Bank1Pins = PinsSdramBank1<(
    PF0,
    PF1,
    PF2,
    PF3,
    PF4,
    PF5,
    PF12,
    PF13,
    PF14,
    PF15,
    PG0,
    PG1,
    PG4,
    PD14,
    PD15,
    PD0,
    PD1,
    PE7,
    PE8,
    PE9,
    PE10,
    PE11,
    PE12,
    PE13,
    PE14,
    PE15,
    PD8,
    PD9,
    PD10,
    PE0,
    PE1,
    PC3,
    PG8,
    PG15,
    PC2,
    PF11,
    PH5,
)>;

#[test]
fn wide_pin_set_type_checks_for_bank_two() {
    assert_eq!(<DiscoBank2Pins as PinsSdram<Fmc>>::EXTERNAL_BANK, 2);
    assert_eq!(<DiscoBank2Pins as PinsSdram<Fmc>>::NUMBER_INTERNAL_BANKS, 4);
    assert_eq!(<DiscoBank2Pins as PinsSdram<Fmc>>::ADDRESS_LINES, 12);
}

#[test]
fn narrow_pin_set_type_checks_for_bank_one() {
    assert_eq!(<Narrow16Bank1Pins as PinsSdram<Fmc>>::EXTERNAL_BANK, 1);
    assert_eq!(<Narrow16Bank1Pins as PinsSdram<Fmc>>::NUMBER_INTERNAL_BANKS, 2);
    assert_eq!(<Narrow16Bank1Pins as PinsSdram<Fmc>>::ADDRESS_LINES, 12);
}
