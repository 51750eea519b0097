//! Pin-capability registry.
//!
//! The silicon's alternate-function multiplexing table fixes, once and for
//! all, which package pins can drive which controller signal roles. The
//! registry is stated twice, over the same table:
//!
//! - at the type level, as marker traits (one per signal role) implemented
//!   for zero-size pin tags, so that a pin set wired to the wrong pins
//!   cannot even type-check (see [`crate::bundle::PinsSdram`]);
//! - at the value level, as the spec function [`spec_pin_supports`] and its
//!   executable twin [`pin_supports`], which the bundle validator in
//!   [`crate::bundle`] is proved against.

use vstd::prelude::*;

use crate::fmc::Fmc;

verus! {

/// A GPIO port of the package.
#[derive(Clone, Copy, Debug, PartialEq, Eq, Structural)]
pub enum PinPort {
    A,
    B,
    C,
    D,
    E,
    F,
    G,
    H,
    I,
}

/// One physical package pin, named by its port and line number (0 to 15).
#[derive(Clone, Copy, Debug, PartialEq, Eq, Structural)]
pub struct PinId {
    pub port: PinPort,
    pub line: u8,
}

impl PinId {
    /// True exactly when this pin is the given port and line.
    pub fn at(&self, port: PinPort, line: u8) -> (b: bool)
        ensures
            b == (*self == (PinId { port, line })),
    {
        self.port == port && self.line == line
    }
}

/// A controller signal role a pin may be asked to drive.
#[derive(Clone, Copy, Debug, PartialEq, Eq, Structural)]
pub enum SignalRole {
    /// Address line, indexed 0 to 25.
    Address(u8),
    /// Internal-bank address line, indexed 0 to 1.
    BankAddress(u8),
    /// Controller clock output (non-SDRAM devices).
    Clk,
    /// Data line, indexed 0 to 31.
    Data(u8),
    /// Multiplexed data/address line, indexed 0 to 15.
    DataAddress(u8),
    /// Interrupt input from an external flash device.
    Interrupt,
    /// Byte-lane enable, indexed 0 to 3.
    ByteEnable(u8),
    /// Chip enable for an external flash device.
    NandChipEnable,
    /// Chip select for a static-memory bank, indexed 1 to 4.
    ChipSelect(u8),
    /// Address latch.
    Latch,
    /// Output enable.
    OutputEnable,
    /// Wait input.
    WaitInput,
    /// Write enable.
    WriteEnable,
    /// SDRAM clock enable, indexed 0 to 1 (one per controller SDRAM bank).
    SdClockEnable(u8),
    /// SDRAM clock.
    SdClock,
    /// SDRAM column strobe.
    SdColumnStrobe,
    /// SDRAM chip select, indexed 0 to 1 (one per controller SDRAM bank).
    SdChipSelect(u8),
    /// SDRAM row strobe.
    SdRowStrobe,
    /// SDRAM write enable.
    SdWriteEnable,
}

pub open spec fn pa(line: u8) -> PinId {
    PinId { port: PinPort::A, line }
}

pub open spec fn pb(line: u8) -> PinId {
    PinId { port: PinPort::B, line }
}

pub open spec fn pc(line: u8) -> PinId {
    PinId { port: PinPort::C, line }
}

pub open spec fn pd(line: u8) -> PinId {
    PinId { port: PinPort::D, line }
}

pub open spec fn pe(line: u8) -> PinId {
    PinId { port: PinPort::E, line }
}

pub open spec fn pf(line: u8) -> PinId {
    PinId { port: PinPort::F, line }
}

pub open spec fn pg(line: u8) -> PinId {
    PinId { port: PinPort::G, line }
}

pub open spec fn ph(line: u8) -> PinId {
    PinId { port: PinPort::H, line }
}

pub open spec fn pi(line: u8) -> PinId {
    PinId { port: PinPort::I, line }
}

/// The multiplexing table: true exactly when pin `p` can drive role `r`.
pub open spec fn spec_pin_supports(p: PinId, r: SignalRole) -> bool {
    match r {
        SignalRole::Address(i) => match i {
            0u8 => p == pf(0),
            1u8 => p == pf(1),
            2u8 => p == pf(2),
            3u8 => p == pf(3),
            4u8 => p == pf(4),
            5u8 => p == pf(5),
            6u8 => p == pf(12),
            7u8 => p == pf(13),
            8u8 => p == pf(14),
            9u8 => p == pf(15),
            10u8 => p == pg(0),
            11u8 => p == pg(1),
            12u8 => p == pg(2),
            13u8 => p == pg(3),
            14u8 => p == pg(4),
            15u8 => p == pg(5),
            16u8 => p == pd(11),
            17u8 => p == pd(12),
            18u8 => p == pd(13),
            19u8 => p == pe(3),
            20u8 => p == pe(4),
            21u8 => p == pe(5),
            22u8 => p == pe(6),
            23u8 => p == pe(2),
            24u8 => p == pg(13),
            25u8 => p == pg(14),
            _ => false,
        },
        SignalRole::BankAddress(i) => match i {
            0u8 => p == pg(4),
            1u8 => p == pg(5),
            _ => false,
        },
        SignalRole::Clk => p == pd(3),
        SignalRole::Data(i) => match i {
            0u8 => p == pd(14),
            1u8 => p == pd(15),
            2u8 => p == pd(0),
            3u8 => p == pd(1),
            4u8 => p == pe(7),
            5u8 => p == pe(8),
            6u8 => p == pe(9),
            7u8 => p == pe(10),
            8u8 => p == pe(11),
            9u8 => p == pe(12),
            10u8 => p == pe(13),
            11u8 => p == pe(14),
            12u8 => p == pe(15),
            13u8 => p == pd(8),
            14u8 => p == pd(9),
            15u8 => p == pd(10),
            16u8 => p == ph(8),
            17u8 => p == ph(9),
            18u8 => p == ph(10),
            19u8 => p == ph(11),
            20u8 => p == ph(12),
            21u8 => p == ph(13),
            22u8 => p == ph(14),
            23u8 => p == ph(15),
            24u8 => p == pi(0),
            25u8 => p == pi(1),
            26u8 => p == pi(2),
            27u8 => p == pi(3),
            28u8 => p == pi(6),
            29u8 => p == pi(7),
            30u8 => p == pi(9),
            31u8 => p == pi(10),
            _ => false,
        },
        SignalRole::DataAddress(i) => match i {
            0u8 => p == pd(14),
            1u8 => p == pd(15),
            2u8 => p == pd(0),
            3u8 => p == pd(1),
            4u8 => p == pe(7),
            5u8 => p == pe(8),
            6u8 => p == pe(9),
            7u8 => p == pe(10),
            8u8 => p == pe(11),
            9u8 => p == pe(12),
            10u8 => p == pe(13),
            11u8 => p == pe(14),
            12u8 => p == pe(15),
            13u8 => p == pd(8),
            14u8 => p == pd(9),
            15u8 => p == pd(10),
            _ => false,
        },
        SignalRole::Interrupt => p == pg(7),
        SignalRole::ByteEnable(i) => match i {
            0u8 => p == pe(0),
            1u8 => p == pe(1),
            2u8 => p == pi(4),
            3u8 => p == pi(5),
            _ => false,
        },
        SignalRole::NandChipEnable => p == pc(8) || p == pg(9),
        SignalRole::ChipSelect(i) => match i {
            1u8 => p == pc(7) || p == pd(7),
            2u8 => p == pc(8) || p == pg(9),
            3u8 => p == pg(6) || p == pg(10),
            4u8 => p == pg(12),
            _ => false,
        },
        SignalRole::Latch => p == pb(7),
        SignalRole::OutputEnable => p == pd(4),
        SignalRole::WaitInput => p == pc(6) || p == pd(6),
        SignalRole::WriteEnable => p == pd(5),
        SignalRole::SdClockEnable(i) => match i {
            0u8 => p == pc(3) || p == pc(5) || p == ph(2),
            1u8 => p == pb(5) || p == ph(7),
            _ => false,
        },
        SignalRole::SdClock => p == pg(8),
        SignalRole::SdColumnStrobe => p == pg(15),
        SignalRole::SdChipSelect(i) => match i {
            0u8 => p == pc(2) || p == pc(4) || p == ph(3),
            1u8 => p == pb(6) || p == ph(6),
            _ => false,
        },
        SignalRole::SdRowStrobe => p == pf(11),
        SignalRole::SdWriteEnable => p == pa(7) || p == pc(0) || p == ph(5),
    }
}

/// Executable twin of [`spec_pin_supports`] for address-line roles.
fn supports_address(p: PinId, i: u8) -> (b: bool)
    ensures
        b == spec_pin_supports(p, SignalRole::Address(i)),
{
    match i {
        0u8 => p.at(PinPort::F, 0),
        1u8 => p.at(PinPort::F, 1),
        2u8 => p.at(PinPort::F, 2),
        3u8 => p.at(PinPort::F, 3),
        4u8 => p.at(PinPort::F, 4),
        5u8 => p.at(PinPort::F, 5),
        6u8 => p.at(PinPort::F, 12),
        7u8 => p.at(PinPort::F, 13),
        8u8 => p.at(PinPort::F, 14),
        9u8 => p.at(PinPort::F, 15),
        10u8 => p.at(PinPort::G, 0),
        11u8 => p.at(PinPort::G, 1),
        12u8 => p.at(PinPort::G, 2),
        13u8 => p.at(PinPort::G, 3),
        14u8 => p.at(PinPort::G, 4),
        15u8 => p.at(PinPort::G, 5),
        16u8 => p.at(PinPort::D, 11),
        17u8 => p.at(PinPort::D, 12),
        18u8 => p.at(PinPort::D, 13),
        19u8 => p.at(PinPort::E, 3),
        20u8 => p.at(PinPort::E, 4),
        21u8 => p.at(PinPort::E, 5),
        22u8 => p.at(PinPort::E, 6),
        23u8 => p.at(PinPort::E, 2),
        24u8 => p.at(PinPort::G, 13),
        25u8 => p.at(PinPort::G, 14),
        _ => false,
    }
}

/// Executable twin of [`spec_pin_supports`] for data-line roles.
fn supports_data(p: PinId, i: u8) -> (b: bool)
    ensures
        b == spec_pin_supports(p, SignalRole::Data(i)),
{
    match i {
        0u8 => p.at(PinPort::D, 14),
        1u8 => p.at(PinPort::D, 15),
        2u8 => p.at(PinPort::D, 0),
        3u8 => p.at(PinPort::D, 1),
        4u8 => p.at(PinPort::E, 7),
        5u8 => p.at(PinPort::E, 8),
        6u8 => p.at(PinPort::E, 9),
        7u8 => p.at(PinPort::E, 10),
        8u8 => p.at(PinPort::E, 11),
        9u8 => p.at(PinPort::E, 12),
        10u8 => p.at(PinPort::E, 13),
        11u8 => p.at(PinPort::E, 14),
        12u8 => p.at(PinPort::E, 15),
        13u8 => p.at(PinPort::D, 8),
        14u8 => p.at(PinPort::D, 9),
        15u8 => p.at(PinPort::D, 10),
        16u8 => p.at(PinPort::H, 8),
        17u8 => p.at(PinPort::H, 9),
        18u8 => p.at(PinPort::H, 10),
        19u8 => p.at(PinPort::H, 11),
        20u8 => p.at(PinPort::H, 12),
        21u8 => p.at(PinPort::H, 13),
        22u8 => p.at(PinPort::H, 14),
        23u8 => p.at(PinPort::H, 15),
        24u8 => p.at(PinPort::I, 0),
        25u8 => p.at(PinPort::I, 1),
        26u8 => p.at(PinPort::I, 2),
        27u8 => p.at(PinPort::I, 3),
        28u8 => p.at(PinPort::I, 6),
        29u8 => p.at(PinPort::I, 7),
        30u8 => p.at(PinPort::I, 9),
        31u8 => p.at(PinPort::I, 10),
        _ => false,
    }
}

/// Executable twin of [`spec_pin_supports`] for multiplexed data/address roles.
fn supports_data_address(p: PinId, i: u8) -> (b: bool)
    ensures
        b == spec_pin_supports(p, SignalRole::DataAddress(i)),
{
    match i {
        0u8 => p.at(PinPort::D, 14),
        1u8 => p.at(PinPort::D, 15),
        2u8 => p.at(PinPort::D, 0),
        3u8 => p.at(PinPort::D, 1),
        4u8 => p.at(PinPort::E, 7),
        5u8 => p.at(PinPort::E, 8),
        6u8 => p.at(PinPort::E, 9),
        7u8 => p.at(PinPort::E, 10),
        8u8 => p.at(PinPort::E, 11),
        9u8 => p.at(PinPort::E, 12),
        10u8 => p.at(PinPort::E, 13),
        11u8 => p.at(PinPort::E, 14),
        12u8 => p.at(PinPort::E, 15),
        13u8 => p.at(PinPort::D, 8),
        14u8 => p.at(PinPort::D, 9),
        15u8 => p.at(PinPort::D, 10),
        _ => false,
    }
}

/// Executable twin of [`spec_pin_supports`] for the remaining control roles.
fn supports_control(p: PinId, r: SignalRole) -> (b: bool)
    requires
        !(r matches SignalRole::Address(_)),
        !(r matches SignalRole::Data(_)),
        !(r matches SignalRole::DataAddress(_)),
    ensures
        b == spec_pin_supports(p, r),
{
    match r {
        SignalRole::BankAddress(i) => match i {
            0u8 => p.at(PinPort::G, 4),
            1u8 => p.at(PinPort::G, 5),
            _ => false,
        },
        SignalRole::Clk => p.at(PinPort::D, 3),
        SignalRole::Interrupt => p.at(PinPort::G, 7),
        SignalRole::ByteEnable(i) => match i {
            0u8 => p.at(PinPort::E, 0),
            1u8 => p.at(PinPort::E, 1),
            2u8 => p.at(PinPort::I, 4),
            3u8 => p.at(PinPort::I, 5),
            _ => false,
        },
        SignalRole::NandChipEnable => p.at(PinPort::C, 8) || p.at(PinPort::G, 9),
        SignalRole::ChipSelect(i) => match i {
            1u8 => p.at(PinPort::C, 7) || p.at(PinPort::D, 7),
            2u8 => p.at(PinPort::C, 8) || p.at(PinPort::G, 9),
            3u8 => p.at(PinPort::G, 6) || p.at(PinPort::G, 10),
            4u8 => p.at(PinPort::G, 12),
            _ => false,
        },
        SignalRole::Latch => p.at(PinPort::B, 7),
        SignalRole::OutputEnable => p.at(PinPort::D, 4),
        SignalRole::WaitInput => p.at(PinPort::C, 6) || p.at(PinPort::D, 6),
        SignalRole::WriteEnable => p.at(PinPort::D, 5),
        SignalRole::SdClockEnable(i) => match i {
            0u8 => p.at(PinPort::C, 3) || p.at(PinPort::C, 5) || p.at(PinPort::H, 2),
            1u8 => p.at(PinPort::B, 5) || p.at(PinPort::H, 7),
            _ => false,
        },
        SignalRole::SdClock => p.at(PinPort::G, 8),
        SignalRole::SdColumnStrobe => p.at(PinPort::G, 15),
        SignalRole::SdChipSelect(i) => match i {
            0u8 => p.at(PinPort::C, 2) || p.at(PinPort::C, 4) || p.at(PinPort::H, 3),
            1u8 => p.at(PinPort::B, 6) || p.at(PinPort::H, 6),
            _ => false,
        },
        SignalRole::SdRowStrobe => p.at(PinPort::F, 11),
        SignalRole::SdWriteEnable => {
            p.at(PinPort::A, 7) || p.at(PinPort::C, 0) || p.at(PinPort::H, 5)
        },
        _ => false,
    }
}

/// Executable twin of [`spec_pin_supports`]: consults the multiplexing table.
pub fn pin_supports(p: PinId, r: SignalRole) -> (b: bool)
    ensures
        b == spec_pin_supports(p, r),
{
    match r {
        SignalRole::Address(i) => supports_address(p, i),
        SignalRole::Data(i) => supports_data(p, i),
        SignalRole::DataAddress(i) => supports_data_address(p, i),
        _ => supports_control(p, r),
    }
}

// ---------------------------------------------------------------------
// Type-level registry: one marker trait per signal role, one zero-size
// tag per package pin, and one impl per entry of the multiplexing table
// above. The generic parameter stands for the controller instance the
// pin is routed to.
// ---------------------------------------------------------------------

pub trait A0<FMC> {}

pub trait A1<FMC> {}

pub trait A2<FMC> {}

pub trait A3<FMC> {}

pub trait A4<FMC> {}

pub trait A5<FMC> {}

pub trait A6<FMC> {}

pub trait A7<FMC> {}

pub trait A8<FMC> {}

pub trait A9<FMC> {}

pub trait A10<FMC> {}

pub trait A11<FMC> {}

pub trait A12<FMC> {}

pub trait A13<FMC> {}

pub trait A14<FMC> {}

pub trait A15<FMC> {}

pub trait A16<FMC> {}

pub trait A17<FMC> {}

pub trait A18<FMC> {}

pub trait A19<FMC> {}

pub trait A20<FMC> {}

pub trait A21<FMC> {}

pub trait A22<FMC> {}

pub trait A23<FMC> {}

pub trait A24<FMC> {}

pub trait A25<FMC> {}

pub trait BA0<FMC> {}

pub trait BA1<FMC> {}

pub trait CLK<FMC> {}

pub trait D0<FMC> {}

pub trait D1<FMC> {}

pub trait D2<FMC> {}

pub trait D3<FMC> {}

pub trait D4<FMC> {}

pub trait D5<FMC> {}

pub trait D6<FMC> {}

pub trait D7<FMC> {}

pub trait D8<FMC> {}

pub trait D9<FMC> {}

pub trait D10<FMC> {}

pub trait D11<FMC> {}

pub trait D12<FMC> {}

pub trait D13<FMC> {}

pub trait D14<FMC> {}

pub trait D15<FMC> {}

pub trait D16<FMC> {}

pub trait D17<FMC> {}

pub trait D18<FMC> {}

pub trait D19<FMC> {}

pub trait D20<FMC> {}

pub trait D21<FMC> {}

pub trait D22<FMC> {}

pub trait D23<FMC> {}

pub trait D24<FMC> {}

pub trait D25<FMC> {}

pub trait D26<FMC> {}

pub trait D27<FMC> {}

pub trait D28<FMC> {}

pub trait D29<FMC> {}

pub trait D30<FMC> {}

pub trait D31<FMC> {}

pub trait DA0<FMC> {}

pub trait DA1<FMC> {}

pub trait DA2<FMC> {}

pub trait DA3<FMC> {}

pub trait DA4<FMC> {}

pub trait DA5<FMC> {}

pub trait DA6<FMC> {}

pub trait DA7<FMC> {}

pub trait DA8<FMC> {}

pub trait DA9<FMC> {}

pub trait DA10<FMC> {}

pub trait DA11<FMC> {}

pub trait DA12<FMC> {}

pub trait DA13<FMC> {}

pub trait DA14<FMC> {}

pub trait DA15<FMC> {}

pub trait INT<FMC> {}

pub trait NBL0<FMC> {}

pub trait NBL1<FMC> {}

pub trait NBL2<FMC> {}

pub trait NBL3<FMC> {}

pub trait NCE<FMC> {}

pub trait NE1<FMC> {}

pub trait NE2<FMC> {}

pub trait NE3<FMC> {}

pub trait NE4<FMC> {}

pub trait NL<FMC> {}

pub trait NOE<FMC> {}

pub trait NWAIT<FMC> {}

pub trait NWE<FMC> {}

pub trait SDCKE0<FMC> {}

pub trait SDCKE1<FMC> {}

pub trait SDCLK<FMC> {}

pub trait SDNCAS<FMC> {}

pub trait SDNE0<FMC> {}

pub trait SDNE1<FMC> {}

pub trait SDNRAS<FMC> {}

pub trait SDNWE<FMC> {}

pub struct PA7;

pub struct PB5;

pub struct PB6;

pub struct PB7;

pub struct PC0;

pub struct PC2;

pub struct PC3;

pub struct PC4;

pub struct PC5;

pub struct PC6;

pub struct PC7;

pub struct PC8;

pub struct PD0;

pub struct PD1;

pub struct PD3;

pub struct PD4;

pub struct PD5;

pub struct PD6;

pub struct PD7;

pub struct PD8;

pub struct PD9;

pub struct PD10;

pub struct PD11;

pub struct PD12;

pub struct PD13;

pub struct PD14;

pub struct PD15;

pub struct PE0;

pub struct PE1;

pub struct PE2;

pub struct PE3;

pub struct PE4;

pub struct PE5;

pub struct PE6;

pub struct PE7;

pub struct PE8;

pub struct PE9;

pub struct PE10;

pub struct PE11;

pub struct PE12;

pub struct PE13;

pub struct PE14;

pub struct PE15;

pub struct PF0;

pub struct PF1;

pub struct PF2;

pub struct PF3;

pub struct PF4;

pub struct PF5;

pub struct PF11;

pub struct PF12;

pub struct PF13;

pub struct PF14;

pub struct PF15;

pub struct PG0;

pub struct PG1;

pub struct PG2;

pub struct PG3;

pub struct PG4;

pub struct PG5;

pub struct PG6;

pub struct PG7;

pub struct PG8;

pub struct PG9;

pub struct PG10;

pub struct PG12;

pub struct PG13;

pub struct PG14;

pub struct PG15;

pub struct PH2;

pub struct PH3;

pub struct PH5;

pub struct PH6;

pub struct PH7;

pub struct PH8;

pub struct PH9;

pub struct PH10;

pub struct PH11;

pub struct PH12;

pub struct PH13;

pub struct PH14;

pub struct PH15;

pub struct PI0;

pub struct PI1;

pub struct PI2;

pub struct PI3;

pub struct PI4;

pub struct PI5;

pub struct PI6;

pub struct PI7;

pub struct PI9;

pub struct PI10;

impl A0<Fmc> for PF0 {}

impl A1<Fmc> for PF1 {}

impl A2<Fmc> for PF2 {}

impl A3<Fmc> for PF3 {}

impl A4<Fmc> for PF4 {}

impl A5<Fmc> for PF5 {}

impl A6<Fmc> for PF12 {}

impl A7<Fmc> for PF13 {}

impl A8<Fmc> for PF14 {}

impl A9<Fmc> for PF15 {}

impl A10<Fmc> for PG0 {}

impl A11<Fmc> for PG1 {}

impl A12<Fmc> for PG2 {}

impl A13<Fmc> for PG3 {}

impl A14<Fmc> for PG4 {}

impl A15<Fmc> for PG5 {}

impl A16<Fmc> for PD11 {}

impl A17<Fmc> for PD12 {}

impl A18<Fmc> for PD13 {}

impl A19<Fmc> for PE3 {}

impl A20<Fmc> for PE4 {}

impl A21<Fmc> for PE5 {}

impl A22<Fmc> for PE6 {}

impl A23<Fmc> for PE2 {}

impl A24<Fmc> for PG13 {}

impl A25<Fmc> for PG14 {}

impl BA0<Fmc> for PG4 {}

impl BA1<Fmc> for PG5 {}

impl CLK<Fmc> for PD3 {}

impl D0<Fmc> for PD14 {}

impl D1<Fmc> for PD15 {}

impl D2<Fmc> for PD0 {}

impl D3<Fmc> for PD1 {}

impl D4<Fmc> for PE7 {}

impl D5<Fmc> for PE8 {}

impl D6<Fmc> for PE9 {}

impl D7<Fmc> for PE10 {}

impl D8<Fmc> for PE11 {}

impl D9<Fmc> for PE12 {}

impl D10<Fmc> for PE13 {}

impl D11<Fmc> for PE14 {}

impl D12<Fmc> for PE15 {}

impl D13<Fmc> for PD8 {}

impl D14<Fmc> for PD9 {}

impl D15<Fmc> for PD10 {}

impl D16<Fmc> for PH8 {}

impl D17<Fmc> for PH9 {}

impl D18<Fmc> for PH10 {}

impl D19<Fmc> for PH11 {}

impl D20<Fmc> for PH12 {}

impl D21<Fmc> for PH13 {}

impl D22<Fmc> for PH14 {}

impl D23<Fmc> for PH15 {}

impl D24<Fmc> for PI0 {}

impl D25<Fmc> for PI1 {}

impl D26<Fmc> for PI2 {}

impl D27<Fmc> for PI3 {}

impl D28<Fmc> for PI6 {}

impl D29<Fmc> for PI7 {}

impl D30<Fmc> for PI9 {}

impl D31<Fmc> for PI10 {}

impl DA0<Fmc> for PD14 {}

impl DA1<Fmc> for PD15 {}

impl DA2<Fmc> for PD0 {}

impl DA3<Fmc> for PD1 {}

impl DA4<Fmc> for PE7 {}

impl DA5<Fmc> for PE8 {}

impl DA6<Fmc> for PE9 {}

impl DA7<Fmc> for PE10 {}

impl DA8<Fmc> for PE11 {}

impl DA9<Fmc> for PE12 {}

impl DA10<Fmc> for PE13 {}

impl DA11<Fmc> for PE14 {}

impl DA12<Fmc> for PE15 {}

impl DA13<Fmc> for PD8 {}

impl DA14<Fmc> for PD9 {}

impl DA15<Fmc> for PD10 {}

impl INT<Fmc> for PG7 {}

impl NBL0<Fmc> for PE0 {}

impl NBL1<Fmc> for PE1 {}

impl NBL2<Fmc> for PI4 {}

impl NBL3<Fmc> for PI5 {}

impl NCE<Fmc> for PC8 {}

impl NCE<Fmc> for PG9 {}

impl NE1<Fmc> for PC7 {}

impl NE1<Fmc> for PD7 {}

impl NE2<Fmc> for PC8 {}

impl NE2<Fmc> for PG9 {}

impl NE3<Fmc> for PG6 {}

impl NE3<Fmc> for PG10 {}

impl NE4<Fmc> for PG12 {}

impl NL<Fmc> for PB7 {}

impl NOE<Fmc> for PD4 {}

impl NWAIT<Fmc> for PC6 {}

impl NWAIT<Fmc> for PD6 {}

impl NWE<Fmc> for PD5 {}

impl SDCKE0<Fmc> for PC3 {}

impl SDCKE0<Fmc> for PC5 {}

impl SDCKE0<Fmc> for PH2 {}

impl SDCKE1<Fmc> for PB5 {}

impl SDCKE1<Fmc> for PH7 {}

impl SDCLK<Fmc> for PG8 {}

impl SDNCAS<Fmc> for PG15 {}

impl SDNE0<Fmc> for PC2 {}

impl SDNE0<Fmc> for PC4 {}

impl SDNE0<Fmc> for PH3 {}

impl SDNE1<Fmc> for PB6 {}

impl SDNE1<Fmc> for PH6 {}

impl SDNRAS<Fmc> for PF11 {}

impl SDNWE<Fmc> for PA7 {}

impl SDNWE<Fmc> for PC0 {}

impl SDNWE<Fmc> for PH5 {}

} // verus!
