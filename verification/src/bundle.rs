//! Pin bundle validator.
//!
//! A configuration variant (bus width, internal-bank count, target
//! controller bank) determines an exact ordered list of required signal
//! roles: address lines low to high, then internal-bank address lines, then
//! data lines low to high, then byte-lane enables, then the six control
//! signals in canonical order (clock enable, clock, column strobe, chip
//! select, row strobe, write enable). A pin bundle exists only when every
//! position of that list is filled by a pin the multiplexing table allows
//! there: [`PinBundle::new`] demands it of every verified caller, and
//! [`PinBundle::try_new`] decides it, provably equivalent to the
//! requirement. Once built, a bundle is immutable.

use vstd::prelude::*;

use crate::pins::{PinId, SignalRole, spec_pin_supports, pin_supports};
use crate::fmc::SdramBank;
use crate::pins::{
    A0, A1, A2, A3, A4, A5, A6, A7, A8, A9, A10, A11, BA0, BA1, D0, D1, D2,
    D3, D4, D5, D6, D7, D8, D9, D10, D11, D12, D13, D14, D15, D16, D17, D18,
    D19, D20, D21, D22, D23, D24, D25, D26, D27, D28, D29, D30, D31, NBL0,
    NBL1, NBL2, NBL3, SDCKE0, SDCKE1, SDCLK, SDNCAS, SDNE0, SDNE1, SDNRAS,
    SDNWE,
};

verus! {

/// Width of the data bus to the SDRAM device, in bits.
#[derive(Clone, Copy, Debug, PartialEq, Eq, Structural)]
pub enum BusWidth {
    /// A 16-bit data bus.
    Sixteen,
    /// A 32-bit data bus.
    ThirtyTwo,
}

impl BusWidth {
    /// Number of data lines.
    pub open spec fn spec_data_lines(self) -> nat {
        match self {
            BusWidth::Sixteen => 16nat,
            BusWidth::ThirtyTwo => 32nat,
        }
    }

    /// Number of byte-lane enables: one per 8 data lines.
    pub open spec fn spec_byte_enables(self) -> nat {
        match self {
            BusWidth::Sixteen => 2nat,
            BusWidth::ThirtyTwo => 4nat,
        }
    }

    /// The width in bits, 16 or 32.
    pub open spec fn spec_bits(self) -> u8 {
        match self {
            BusWidth::Sixteen => 16u8,
            BusWidth::ThirtyTwo => 32u8,
        }
    }
}

/// Number of independently addressable arrays inside the SDRAM device.
#[derive(Clone, Copy, Debug, PartialEq, Eq, Structural)]
pub enum InternalBanks {
    /// Two internal banks, selected by one bank-address line.
    Two,
    /// Four internal banks, selected by two bank-address lines.
    Four,
}

impl InternalBanks {
    /// Number of bank-address lines needed to select an internal bank.
    pub open spec fn spec_bank_lines(self) -> nat {
        match self {
            InternalBanks::Two => 1nat,
            InternalBanks::Four => 2nat,
        }
    }

    /// The internal-bank count, 2 or 4.
    pub open spec fn spec_count(self) -> u8 {
        match self {
            InternalBanks::Two => 2u8,
            InternalBanks::Four => 4u8,
        }
    }
}

/// One supported configuration: bus width, internal-bank count and target
/// controller bank.
#[derive(Clone, Copy, Debug, PartialEq, Eq, Structural)]
pub struct SdramVariant {
    /// Width of the data bus.
    pub width: BusWidth,
    /// Internal-bank count of the device.
    pub internal_banks: InternalBanks,
    /// The controller SDRAM bank the device is wired to.
    pub bank: SdramBank,
}

/// Number of address lines every supported variant requires.
pub const ADDRESS_LINES: u8 = 12;

/// Number of roles the variant requires in total.
pub open spec fn spec_role_count(v: SdramVariant) -> nat {
    12 + v.internal_banks.spec_bank_lines() + v.width.spec_data_lines()
        + v.width.spec_byte_enables() + 6
}

/// The role required at position `i` of a bundle for variant `v`: address
/// lines low to high, then bank-address lines, then data lines low to high,
/// then byte-lane enables, then the six control signals in canonical order.
pub open spec fn spec_role_at(v: SdramVariant, i: int) -> SignalRole {
    let nb = v.internal_banks.spec_bank_lines() as int;
    let nd = v.width.spec_data_lines() as int;
    let ne = v.width.spec_byte_enables() as int;
    let sd = (v.bank.spec_number() - 1) as u8;
    if i < 12 {
        SignalRole::Address(i as u8)
    } else if i < 12 + nb {
        SignalRole::BankAddress((i - 12) as u8)
    } else if i < 12 + nb + nd {
        SignalRole::Data((i - 12 - nb) as u8)
    } else if i < 12 + nb + nd + ne {
        SignalRole::ByteEnable((i - 12 - nb - nd) as u8)
    } else {
        let k = i - (12 + nb + nd + ne);
        if k == 0 {
            SignalRole::SdClockEnable(sd)
        } else if k == 1 {
            SignalRole::SdClock
        } else if k == 2 {
            SignalRole::SdColumnStrobe
        } else if k == 3 {
            SignalRole::SdChipSelect(sd)
        } else if k == 4 {
            SignalRole::SdRowStrobe
        } else {
            SignalRole::SdWriteEnable
        }
    }
}

/// The full ordered list of roles variant `v` requires.
pub open spec fn spec_required_roles(v: SdramVariant) -> Seq<SignalRole> {
    Seq::new(spec_role_count(v), |i: int| spec_role_at(v, i))
}

/// Computes the ordered list of roles variant `v` requires.
pub fn required_roles(v: SdramVariant) -> (roles: Vec<SignalRole>)
    ensures
        roles@ == spec_required_roles(v),
{
    let nb: u8 = match v.internal_banks {
        InternalBanks::Two => 1u8,
        InternalBanks::Four => 2u8,
    };
    let nd: u8 = match v.width {
        BusWidth::Sixteen => 16u8,
        BusWidth::ThirtyTwo => 32u8,
    };
    let ne: u8 = match v.width {
        BusWidth::Sixteen => 2u8,
        BusWidth::ThirtyTwo => 4u8,
    };
    let sd: u8 = v.bank.number() - 1;
    let mut roles: Vec<SignalRole> = Vec::new();
    let mut i: u8 = 0;
    while i < 12
        invariant
            i <= 12,
            roles@.len() == i as nat,
            forall|k: int| 0 <= k < i as int ==> roles@[k] == spec_role_at(v, k),
        decreases 12 - i as int,
    {
        roles.push(SignalRole::Address(i));
        i = i + 1;
    }
    let mut i: u8 = 0;
    while i < nb
        invariant
            i <= nb,
            nb == v.internal_banks.spec_bank_lines(),
            roles@.len() == 12 + i as nat,
            forall|k: int| 0 <= k < roles@.len() ==> roles@[k] == spec_role_at(v, k),
        decreases nb - i as int,
    {
        roles.push(SignalRole::BankAddress(i));
        i = i + 1;
    }
    let mut i: u8 = 0;
    while i < nd
        invariant
            i <= nd,
            nb == v.internal_banks.spec_bank_lines(),
            nd == v.width.spec_data_lines(),
            roles@.len() == 12 + nb as nat + i as nat,
            forall|k: int| 0 <= k < roles@.len() ==> roles@[k] == spec_role_at(v, k),
        decreases nd - i as int,
    {
        roles.push(SignalRole::Data(i));
        i = i + 1;
    }
    let mut i: u8 = 0;
    while i < ne
        invariant
            i <= ne,
            nb == v.internal_banks.spec_bank_lines(),
            nd == v.width.spec_data_lines(),
            ne == v.width.spec_byte_enables(),
            roles@.len() == 12 + nb as nat + nd as nat + i as nat,
            forall|k: int| 0 <= k < roles@.len() ==> roles@[k] == spec_role_at(v, k),
        decreases ne - i as int,
    {
        roles.push(SignalRole::ByteEnable(i));
        i = i + 1;
    }
    roles.push(SignalRole::SdClockEnable(sd));
    roles.push(SignalRole::SdClock);
    roles.push(SignalRole::SdColumnStrobe);
    roles.push(SignalRole::SdChipSelect(sd));
    roles.push(SignalRole::SdRowStrobe);
    roles.push(SignalRole::SdWriteEnable);
    proof {
        assert(roles@ =~= spec_required_roles(v));
    }
    roles
}

/// True exactly when `pins` fills every role position of variant `v` with a
/// pin the multiplexing table allows there.
pub open spec fn spec_bundle_valid(pins: Seq<PinId>, v: SdramVariant) -> bool {
    &&& pins.len() == spec_role_count(v)
    &&& forall|i: int|
        0 <= i < pins.len() ==> #[trigger] spec_pin_supports(pins[i], spec_role_at(v, i))
}

/// An ordered collection of pins, one per required role of one variant,
/// proven to satisfy the variant's role requirements at construction and
/// immutable afterwards.
pub struct PinBundle {
    pins: Vec<PinId>,
    variant: SdramVariant,
}

impl PinBundle {
    /// The pins of the bundle, in role order.
    pub closed spec fn spec_pins(self) -> Seq<PinId> {
        self.pins@
    }

    /// The variant the bundle was built for.
    pub closed spec fn spec_variant(self) -> SdramVariant {
        self.variant
    }

    /// Well-formedness: the bundle satisfies its variant's requirements.
    /// Both constructors establish it, and nothing can unmake it.
    pub open spec fn wf(self) -> bool {
        spec_bundle_valid(self.spec_pins(), self.spec_variant())
    }

    /// Builds a bundle from a pin list already known to satisfy the
    /// variant's role requirements. A program in which the requirement does
    /// not hold is rejected before it runs, so no invalid bundle is ever
    /// representable in verified code.
    pub fn new(pins: Vec<PinId>, variant: SdramVariant) -> (b: PinBundle)
        requires
            spec_bundle_valid(pins@, variant),
        ensures
            b.spec_pins() == pins@,
            b.spec_variant() == variant,
            b.wf(),
    {
        PinBundle { pins, variant }
    }

    /// Decides whether `pins` satisfies `variant`'s role requirements:
    /// returns the bundle exactly when they do, and nothing otherwise.
    pub fn try_new(pins: Vec<PinId>, variant: SdramVariant) -> (r: Option<PinBundle>)
        ensures
            r is Some <==> spec_bundle_valid(pins@, variant),
            r matches Some(b) ==> b.spec_pins() == pins@ && b.spec_variant() == variant
                && b.wf(),
    {
        let roles = required_roles(variant);
        if pins.len() != roles.len() {
            return None;
        }
        let mut i: usize = 0;
        while i < pins.len()
            invariant
                0 <= i <= pins.len(),
                pins@.len() == spec_role_count(variant),
                roles@ == spec_required_roles(variant),
                forall|k: int|
                    0 <= k < i as int ==> #[trigger] spec_pin_supports(
                        pins@[k],
                        spec_role_at(variant, k),
                    ),
            decreases pins.len() - i,
        {
            if !pin_supports(pins[i], roles[i]) {
                return None;
            }
            i = i + 1;
        }
        Some(PinBundle { pins, variant })
    }

    /// Number of pins in the bundle.
    pub fn len(&self) -> (n: usize)
        ensures
            n == self.spec_pins().len(),
    {
        self.pins.len()
    }

    /// The pin at role position `i`.
    pub fn pin(&self, i: usize) -> (p: PinId)
        requires
            i < self.spec_pins().len(),
        ensures
            p == self.spec_pins()[i as int],
    {
        self.pins[i]
    }

    /// The variant the bundle was built for.
    pub fn variant(&self) -> (v: SdramVariant)
        ensures
            v == self.spec_variant(),
    {
        self.variant
    }
}

/// A bundle with any one required role missing cannot be built: if position
/// `i` of the role list is not filled by a capable pin (or the list is too
/// short to reach it), the pin list is invalid for the variant, so neither
/// constructor of [`PinBundle`] admits it.
pub proof fn lemma_missing_role_rejected(pins: Seq<PinId>, v: SdramVariant, i: int)
    requires
        0 <= i < spec_role_count(v),
        i < pins.len() ==> !spec_pin_supports(pins[i], spec_role_at(v, i)),
    ensures
        !spec_bundle_valid(pins, v),
{
}

/// A bundle with every required role present, each filled by a pin whose
/// capability matches, is always accepted: the pin list is valid for the
/// variant, so [`PinBundle::try_new`] returns it and [`PinBundle::new`]
/// admits it.
pub proof fn lemma_complete_bundle_accepted(pins: Seq<PinId>, v: SdramVariant)
    requires
        pins.len() == spec_role_count(v),
        forall|i: int|
            0 <= i < pins.len() ==> #[trigger] spec_pin_supports(pins[i], spec_role_at(v, i)),
    ensures
        spec_bundle_valid(pins, v),
{
}

// ---------------------------------------------------------------------
// Type-level pin sets: a tuple of pin tags, wrapped in a marker naming the
// target controller SDRAM bank, implements `PinsSdram` exactly when every
// tuple position carries a tag the multiplexing table allows in that role.
// A program wiring any position to an incapable pin does not type-check.
// ---------------------------------------------------------------------

/// A pin set and what it is wired for, at the type level.
pub trait PinsSdram<FMC> {
    /// The controller SDRAM bank the set drives, 1 or 2.
    const EXTERNAL_BANK: u8;

    /// The internal-bank count the set selects among, 2 or 4.
    const NUMBER_INTERNAL_BANKS: u8;

    /// The number of address lines in the set.
    const ADDRESS_LINES: u8;
}

/// Set of pins for an SDRAM device on controller SDRAM bank 1.
#[derive(Clone, Copy, Debug, PartialEq)]
pub struct PinsSdramBank1<T>(pub T);

/// Set of pins for an SDRAM device on controller SDRAM bank 2.
#[derive(Clone, Copy, Debug, PartialEq)]
pub struct PinsSdramBank2<T>(pub T);

/// 16-bit SDRAM with 12 address lines and 2 internal banks on
/// controller SDRAM bank 1.
impl<
    FMC, PA0, PA1, PA2, PA3, PA4, PA5, PA6, PA7, PA8, PA9, PA10, PA11, PBA0, PD0, PD1, PD2,
    PD3, PD4, PD5, PD6, PD7, PD8, PD9, PD10, PD11, PD12, PD13, PD14, PD15, PNBL0, PNBL1,
    PSDCKE, PSDCLK, PSDNCAS, PSDNE, PSDNRAS, PSDNWE,
> PinsSdram<FMC> for PinsSdramBank1<(
        PA0, PA1, PA2, PA3, PA4, PA5, PA6, PA7, PA8, PA9, PA10, PA11, PBA0, PD0, PD1,
        PD2, PD3, PD4, PD5, PD6, PD7, PD8, PD9, PD10, PD11, PD12, PD13, PD14, PD15,
        PNBL0, PNBL1, PSDCKE, PSDCLK, PSDNCAS, PSDNE, PSDNRAS, PSDNWE,
)> where
    PA0: A0<FMC>,
    PA1: A1<FMC>,
    PA2: A2<FMC>,
    PA3: A3<FMC>,
    PA4: A4<FMC>,
    PA5: A5<FMC>,
    PA6: A6<FMC>,
    PA7: A7<FMC>,
    PA8: A8<FMC>,
    PA9: A9<FMC>,
    PA10: A10<FMC>,
    PA11: A11<FMC>,
    PBA0: BA0<FMC>,
    PD0: D0<FMC>,
    PD1: D1<FMC>,
    PD2: D2<FMC>,
    PD3: D3<FMC>,
    PD4: D4<FMC>,
    PD5: D5<FMC>,
    PD6: D6<FMC>,
    PD7: D7<FMC>,
    PD8: D8<FMC>,
    PD9: D9<FMC>,
    PD10: D10<FMC>,
    PD11: D11<FMC>,
    PD12: D12<FMC>,
    PD13: D13<FMC>,
    PD14: D14<FMC>,
    PD15: D15<FMC>,
    PNBL0: NBL0<FMC>,
    PNBL1: NBL1<FMC>,
    PSDCKE: SDCKE0<FMC>,
    PSDCLK: SDCLK<FMC>,
    PSDNCAS: SDNCAS<FMC>,
    PSDNE: SDNE0<FMC>,
    PSDNRAS: SDNRAS<FMC>,
    PSDNWE: SDNWE<FMC>,
{
    const EXTERNAL_BANK: u8 = 1;
    const NUMBER_INTERNAL_BANKS: u8 = 2;
    const ADDRESS_LINES: u8 = 12;
}

/// 16-bit SDRAM with 12 address lines and 4 internal banks on
/// controller SDRAM bank 1.
impl<
    FMC, PA0, PA1, PA2, PA3, PA4, PA5, PA6, PA7, PA8, PA9, PA10, PA11, PBA0, PBA1, PD0, PD1,
    PD2, PD3, PD4, PD5, PD6, PD7, PD8, PD9, PD10, PD11, PD12, PD13, PD14, PD15, PNBL0,
    PNBL1, PSDCKE, PSDCLK, PSDNCAS, PSDNE, PSDNRAS, PSDNWE,
> PinsSdram<FMC> for PinsSdramBank1<(
        PA0, PA1, PA2, PA3, PA4, PA5, PA6, PA7, PA8, PA9, PA10, PA11, PBA0, PBA1, PD0,
        PD1, PD2, PD3, PD4, PD5, PD6, PD7, PD8, PD9, PD10, PD11, PD12, PD13, PD14, PD15,
        PNBL0, PNBL1, PSDCKE, PSDCLK, PSDNCAS, PSDNE, PSDNRAS, PSDNWE,
)> where
    PA0: A0<FMC>,
    PA1: A1<FMC>,
    PA2: A2<FMC>,
    PA3: A3<FMC>,
    PA4: A4<FMC>,
    PA5: A5<FMC>,
    PA6: A6<FMC>,
    PA7: A7<FMC>,
    PA8: A8<FMC>,
    PA9: A9<FMC>,
    PA10: A10<FMC>,
    PA11: A11<FMC>,
    PBA0: BA0<FMC>,
    PBA1: BA1<FMC>,
    PD0: D0<FMC>,
    PD1: D1<FMC>,
    PD2: D2<FMC>,
    PD3: D3<FMC>,
    PD4: D4<FMC>,
    PD5: D5<FMC>,
    PD6: D6<FMC>,
    PD7: D7<FMC>,
    PD8: D8<FMC>,
    PD9: D9<FMC>,
    PD10: D10<FMC>,
    PD11: D11<FMC>,
    PD12: D12<FMC>,
    PD13: D13<FMC>,
    PD14: D14<FMC>,
    PD15: D15<FMC>,
    PNBL0: NBL0<FMC>,
    PNBL1: NBL1<FMC>,
    PSDCKE: SDCKE0<FMC>,
    PSDCLK: SDCLK<FMC>,
    PSDNCAS: SDNCAS<FMC>,
    PSDNE: SDNE0<FMC>,
    PSDNRAS: SDNRAS<FMC>,
    PSDNWE: SDNWE<FMC>,
{
    const EXTERNAL_BANK: u8 = 1;
    const NUMBER_INTERNAL_BANKS: u8 = 4;
    const ADDRESS_LINES: u8 = 12;
}

/// 16-bit SDRAM with 12 address lines and 2 internal banks on
/// controller SDRAM bank 2.
impl<
    FMC, PA0, PA1, PA2, PA3, PA4, PA5, PA6, PA7, PA8, PA9, PA10, PA11, PBA0, PD0, PD1, PD2,
    PD3, PD4, PD5, PD6, PD7, PD8, PD9, PD10, PD11, PD12, PD13, PD14, PD15, PNBL0, PNBL1,
    PSDCKE, PSDCLK, PSDNCAS, PSDNE, PSDNRAS, PSDNWE,
> PinsSdram<FMC> for PinsSdramBank2<(
        PA0, PA1, PA2, PA3, PA4, PA5, PA6, PA7, PA8, PA9, PA10, PA11, PBA0, PD0, PD1,
        PD2, PD3, PD4, PD5, PD6, PD7, PD8, PD9, PD10, PD11, PD12, PD13, PD14, PD15,
        PNBL0, PNBL1, PSDCKE, PSDCLK, PSDNCAS, PSDNE, PSDNRAS, PSDNWE,
)> where
    PA0: A0<FMC>,
    PA1: A1<FMC>,
    PA2: A2<FMC>,
    PA3: A3<FMC>,
    PA4: A4<FMC>,
    PA5: A5<FMC>,
    PA6: A6<FMC>,
    PA7: A7<FMC>,
    PA8: A8<FMC>,
    PA9: A9<FMC>,
    PA10: A10<FMC>,
    PA11: A11<FMC>,
    PBA0: BA0<FMC>,
    PD0: D0<FMC>,
    PD1: D1<FMC>,
    PD2: D2<FMC>,
    PD3: D3<FMC>,
    PD4: D4<FMC>,
    PD5: D5<FMC>,
    PD6: D6<FMC>,
    PD7: D7<FMC>,
    PD8: D8<FMC>,
    PD9: D9<FMC>,
    PD10: D10<FMC>,
    PD11: D11<FMC>,
    PD12: D12<FMC>,
    PD13: D13<FMC>,
    PD14: D14<FMC>,
    PD15: D15<FMC>,
    PNBL0: NBL0<FMC>,
    PNBL1: NBL1<FMC>,
    PSDCKE: SDCKE1<FMC>,
    PSDCLK: SDCLK<FMC>,
    PSDNCAS: SDNCAS<FMC>,
    PSDNE: SDNE1<FMC>,
    PSDNRAS: SDNRAS<FMC>,
    PSDNWE: SDNWE<FMC>,
{
    const EXTERNAL_BANK: u8 = 2;
    const NUMBER_INTERNAL_BANKS: u8 = 2;
    const ADDRESS_LINES: u8 = 12;
}

/// 16-bit SDRAM with 12 address lines and 4 internal banks on
/// controller SDRAM bank 2.
impl<
    FMC, PA0, PA1, PA2, PA3, PA4, PA5, PA6, PA7, PA8, PA9, PA10, PA11, PBA0, PBA1, PD0, PD1,
    PD2, PD3, PD4, PD5, PD6, PD7, PD8, PD9, PD10, PD11, PD12, PD13, PD14, PD15, PNBL0,
    PNBL1, PSDCKE, PSDCLK, PSDNCAS, PSDNE, PSDNRAS, PSDNWE,
> PinsSdram<FMC> for PinsSdramBank2<(
        PA0, PA1, PA2, PA3, PA4, PA5, PA6, PA7, PA8, PA9, PA10, PA11, PBA0, PBA1, PD0,
        PD1, PD2, PD3, PD4, PD5, PD6, PD7, PD8, PD9, PD10, PD11, PD12, PD13, PD14, PD15,
        PNBL0, PNBL1, PSDCKE, PSDCLK, PSDNCAS, PSDNE, PSDNRAS, PSDNWE,
)> where
    PA0: A0<FMC>,
    PA1: A1<FMC>,
    PA2: A2<FMC>,
    PA3: A3<FMC>,
    PA4: A4<FMC>,
    PA5: A5<FMC>,
    PA6: A6<FMC>,
    PA7: A7<FMC>,
    PA8: A8<FMC>,
    PA9: A9<FMC>,
    PA10: A10<FMC>,
    PA11: A11<FMC>,
    PBA0: BA0<FMC>,
    PBA1: BA1<FMC>,
    PD0: D0<FMC>,
    PD1: D1<FMC>,
    PD2: D2<FMC>,
    PD3: D3<FMC>,
    PD4: D4<FMC>,
    PD5: D5<FMC>,
    PD6: D6<FMC>,
    PD7: D7<FMC>,
    PD8: D8<FMC>,
    PD9: D9<FMC>,
    PD10: D10<FMC>,
    PD11: D11<FMC>,
    PD12: D12<FMC>,
    PD13: D13<FMC>,
    PD14: D14<FMC>,
    PD15: D15<FMC>,
    PNBL0: NBL0<FMC>,
    PNBL1: NBL1<FMC>,
    PSDCKE: SDCKE1<FMC>,
    PSDCLK: SDCLK<FMC>,
    PSDNCAS: SDNCAS<FMC>,
    PSDNE: SDNE1<FMC>,
    PSDNRAS: SDNRAS<FMC>,
    PSDNWE: SDNWE<FMC>,
{
    const EXTERNAL_BANK: u8 = 2;
    const NUMBER_INTERNAL_BANKS: u8 = 4;
    const ADDRESS_LINES: u8 = 12;
}

/// 32-bit SDRAM with 12 address lines and 2 internal banks on
/// controller SDRAM bank 1.
impl<
    FMC, PA0, PA1, PA2, PA3, PA4, PA5, PA6, PA7, PA8, PA9, PA10, PA11, PBA0, PD0, PD1, PD2,
    PD3, PD4, PD5, PD6, PD7, PD8, PD9, PD10, PD11, PD12, PD13, PD14, PD15, PD16, PD17, PD18,
    PD19, PD20, PD21, PD22, PD23, PD24, PD25, PD26, PD27, PD28, PD29, PD30, PD31, PNBL0,
    PNBL1, PNBL2, PNBL3, PSDCKE, PSDCLK, PSDNCAS, PSDNE, PSDNRAS, PSDNWE,
> PinsSdram<FMC> for PinsSdramBank1<(
        PA0, PA1, PA2, PA3, PA4, PA5, PA6, PA7, PA8, PA9, PA10, PA11, PBA0, PD0, PD1,
        PD2, PD3, PD4, PD5, PD6, PD7, PD8, PD9, PD10, PD11, PD12, PD13, PD14, PD15,
        PD16, PD17, PD18, PD19, PD20, PD21, PD22, PD23, PD24, PD25, PD26, PD27, PD28,
        PD29, PD30, PD31, PNBL0, PNBL1, PNBL2, PNBL3, PSDCKE, PSDCLK, PSDNCAS, PSDNE,
        PSDNRAS, PSDNWE,
)> where
    PA0: A0<FMC>,
    PA1: A1<FMC>,
    PA2: A2<FMC>,
    PA3: A3<FMC>,
    PA4: A4<FMC>,
    PA5: A5<FMC>,
    PA6: A6<FMC>,
    PA7: A7<FMC>,
    PA8: A8<FMC>,
    PA9: A9<FMC>,
    PA10: A10<FMC>,
    PA11: A11<FMC>,
    PBA0: BA0<FMC>,
    PD0: D0<FMC>,
    PD1: D1<FMC>,
    PD2: D2<FMC>,
    PD3: D3<FMC>,
    PD4: D4<FMC>,
    PD5: D5<FMC>,
    PD6: D6<FMC>,
    PD7: D7<FMC>,
    PD8: D8<FMC>,
    PD9: D9<FMC>,
    PD10: D10<FMC>,
    PD11: D11<FMC>,
    PD12: D12<FMC>,
    PD13: D13<FMC>,
    PD14: D14<FMC>,
    PD15: D15<FMC>,
    PD16: D16<FMC>,
    PD17: D17<FMC>,
    PD18: D18<FMC>,
    PD19: D19<FMC>,
    PD20: D20<FMC>,
    PD21: D21<FMC>,
    PD22: D22<FMC>,
    PD23: D23<FMC>,
    PD24: D24<FMC>,
    PD25: D25<FMC>,
    PD26: D26<FMC>,
    PD27: D27<FMC>,
    PD28: D28<FMC>,
    PD29: D29<FMC>,
    PD30: D30<FMC>,
    PD31: D31<FMC>,
    PNBL0: NBL0<FMC>,
    PNBL1: NBL1<FMC>,
    PNBL2: NBL2<FMC>,
    PNBL3: NBL3<FMC>,
    PSDCKE: SDCKE0<FMC>,
    PSDCLK: SDCLK<FMC>,
    PSDNCAS: SDNCAS<FMC>,
    PSDNE: SDNE0<FMC>,
    PSDNRAS: SDNRAS<FMC>,
    PSDNWE: SDNWE<FMC>,
{
    const EXTERNAL_BANK: u8 = 1;
    const NUMBER_INTERNAL_BANKS: u8 = 2;
    const ADDRESS_LINES: u8 = 12;
}

/// 32-bit SDRAM with 12 address lines and 4 internal banks on
/// controller SDRAM bank 1.
impl<
    FMC, PA0, PA1, PA2, PA3, PA4, PA5, PA6, PA7, PA8, PA9, PA10, PA11, PBA0, PBA1, PD0, PD1,
    PD2, PD3, PD4, PD5, PD6, PD7, PD8, PD9, PD10, PD11, PD12, PD13, PD14, PD15, PD16, PD17,
    PD18, PD19, PD20, PD21, PD22, PD23, PD24, PD25, PD26, PD27, PD28, PD29, PD30, PD31,
    PNBL0, PNBL1, PNBL2, PNBL3, PSDCKE, PSDCLK, PSDNCAS, PSDNE, PSDNRAS, PSDNWE,
> PinsSdram<FMC> for PinsSdramBank1<(
        PA0, PA1, PA2, PA3, PA4, PA5, PA6, PA7, PA8, PA9, PA10, PA11, PBA0, PBA1, PD0,
        PD1, PD2, PD3, PD4, PD5, PD6, PD7, PD8, PD9, PD10, PD11, PD12, PD13, PD14, PD15,
        PD16, PD17, PD18, PD19, PD20, PD21, PD22, PD23, PD24, PD25, PD26, PD27, PD28,
        PD29, PD30, PD31, PNBL0, PNBL1, PNBL2, PNBL3, PSDCKE, PSDCLK, PSDNCAS, PSDNE,
        PSDNRAS, PSDNWE,
)> where
    PA0: A0<FMC>,
    PA1: A1<FMC>,
    PA2: A2<FMC>,
    PA3: A3<FMC>,
    PA4: A4<FMC>,
    PA5: A5<FMC>,
    PA6: A6<FMC>,
    PA7: A7<FMC>,
    PA8: A8<FMC>,
    PA9: A9<FMC>,
    PA10: A10<FMC>,
    PA11: A11<FMC>,
    PBA0: BA0<FMC>,
    PBA1: BA1<FMC>,
    PD0: D0<FMC>,
    PD1: D1<FMC>,
    PD2: D2<FMC>,
    PD3: D3<FMC>,
    PD4: D4<FMC>,
    PD5: D5<FMC>,
    PD6: D6<FMC>,
    PD7: D7<FMC>,
    PD8: D8<FMC>,
    PD9: D9<FMC>,
    PD10: D10<FMC>,
    PD11: D11<FMC>,
    PD12: D12<FMC>,
    PD13: D13<FMC>,
    PD14: D14<FMC>,
    PD15: D15<FMC>,
    PD16: D16<FMC>,
    PD17: D17<FMC>,
    PD18: D18<FMC>,
    PD19: D19<FMC>,
    PD20: D20<FMC>,
    PD21: D21<FMC>,
    PD22: D22<FMC>,
    PD23: D23<FMC>,
    PD24: D24<FMC>,
    PD25: D25<FMC>,
    PD26: D26<FMC>,
    PD27: D27<FMC>,
    PD28: D28<FMC>,
    PD29: D29<FMC>,
    PD30: D30<FMC>,
    PD31: D31<FMC>,
    PNBL0: NBL0<FMC>,
    PNBL1: NBL1<FMC>,
    PNBL2: NBL2<FMC>,
    PNBL3: NBL3<FMC>,
    PSDCKE: SDCKE0<FMC>,
    PSDCLK: SDCLK<FMC>,
    PSDNCAS: SDNCAS<FMC>,
    PSDNE: SDNE0<FMC>,
    PSDNRAS: SDNRAS<FMC>,
    PSDNWE: SDNWE<FMC>,
{
    const EXTERNAL_BANK: u8 = 1;
    const NUMBER_INTERNAL_BANKS: u8 = 4;
    const ADDRESS_LINES: u8 = 12;
}

/// 32-bit SDRAM with 12 address lines and 2 internal banks on
/// controller SDRAM bank 2.
impl<
    FMC, PA0, PA1, PA2, PA3, PA4, PA5, PA6, PA7, PA8, PA9, PA10, PA11, PBA0, PD0, PD1, PD2,
    PD3, PD4, PD5, PD6, PD7, PD8, PD9, PD10, PD11, PD12, PD13, PD14, PD15, PD16, PD17, PD18,
    PD19, PD20, PD21, PD22, PD23, PD24, PD25, PD26, PD27, PD28, PD29, PD30, PD31, PNBL0,
    PNBL1, PNBL2, PNBL3, PSDCKE, PSDCLK, PSDNCAS, PSDNE, PSDNRAS, PSDNWE,
> PinsSdram<FMC> for PinsSdramBank2<(
        PA0, PA1, PA2, PA3, PA4, PA5, PA6, PA7, PA8, PA9, PA10, PA11, PBA0, PD0, PD1,
        PD2, PD3, PD4, PD5, PD6, PD7, PD8, PD9, PD10, PD11, PD12, PD13, PD14, PD15,
        PD16, PD17, PD18, PD19, PD20, PD21, PD22, PD23, PD24, PD25, PD26, PD27, PD28,
        PD29, PD30, PD31, PNBL0, PNBL1, PNBL2, PNBL3, PSDCKE, PSDCLK, PSDNCAS, PSDNE,
        PSDNRAS, PSDNWE,
)> where
    PA0: A0<FMC>,
    PA1: A1<FMC>,
    PA2: A2<FMC>,
    PA3: A3<FMC>,
    PA4: A4<FMC>,
    PA5: A5<FMC>,
    PA6: A6<FMC>,
    PA7: A7<FMC>,
    PA8: A8<FMC>,
    PA9: A9<FMC>,
    PA10: A10<FMC>,
    PA11: A11<FMC>,
    PBA0: BA0<FMC>,
    PD0: D0<FMC>,
    PD1: D1<FMC>,
    PD2: D2<FMC>,
    PD3: D3<FMC>,
    PD4: D4<FMC>,
    PD5: D5<FMC>,
    PD6: D6<FMC>,
    PD7: D7<FMC>,
    PD8: D8<FMC>,
    PD9: D9<FMC>,
    PD10: D10<FMC>,
    PD11: D11<FMC>,
    PD12: D12<FMC>,
    PD13: D13<FMC>,
    PD14: D14<FMC>,
    PD15: D15<FMC>,
    PD16: D16<FMC>,
    PD17: D17<FMC>,
    PD18: D18<FMC>,
    PD19: D19<FMC>,
    PD20: D20<FMC>,
    PD21: D21<FMC>,
    PD22: D22<FMC>,
    PD23: D23<FMC>,
    PD24: D24<FMC>,
    PD25: D25<FMC>,
    PD26: D26<FMC>,
    PD27: D27<FMC>,
    PD28: D28<FMC>,
    PD29: D29<FMC>,
    PD30: D30<FMC>,
    PD31: D31<FMC>,
    PNBL0: NBL0<FMC>,
    PNBL1: NBL1<FMC>,
    PNBL2: NBL2<FMC>,
    PNBL3: NBL3<FMC>,
    PSDCKE: SDCKE1<FMC>,
    PSDCLK: SDCLK<FMC>,
    PSDNCAS: SDNCAS<FMC>,
    PSDNE: SDNE1<FMC>,
    PSDNRAS: SDNRAS<FMC>,
    PSDNWE: SDNWE<FMC>,
{
    const EXTERNAL_BANK: u8 = 2;
    const NUMBER_INTERNAL_BANKS: u8 = 2;
    const ADDRESS_LINES: u8 = 12;
}

/// 32-bit SDRAM with 12 address lines and 4 internal banks on
/// controller SDRAM bank 2.
impl<
    FMC, PA0, PA1, PA2, PA3, PA4, PA5, PA6, PA7, PA8, PA9, PA10, PA11, PBA0, PBA1, PD0, PD1,
    PD2, PD3, PD4, PD5, PD6, PD7, PD8, PD9, PD10, PD11, PD12, PD13, PD14, PD15, PD16, PD17,
    PD18, PD19, PD20, PD21, PD22, PD23, PD24, PD25, PD26, PD27, PD28, PD29, PD30, PD31,
    PNBL0, PNBL1, PNBL2, PNBL3, PSDCKE, PSDCLK, PSDNCAS, PSDNE, PSDNRAS, PSDNWE,
> PinsSdram<FMC> for PinsSdramBank2<(
        PA0, PA1, PA2, PA3, PA4, PA5, PA6, PA7, PA8, PA9, PA10, PA11, PBA0, PBA1, PD0,
        PD1, PD2, PD3, PD4, PD5, PD6, PD7, PD8, PD9, PD10, PD11, PD12, PD13, PD14, PD15,
        PD16, PD17, PD18, PD19, PD20, PD21, PD22, PD23, PD24, PD25, PD26, PD27, PD28,
        PD29, PD30, PD31, PNBL0, PNBL1, PNBL2, PNBL3, PSDCKE, PSDCLK, PSDNCAS, PSDNE,
        PSDNRAS, PSDNWE,
)> where
    PA0: A0<FMC>,
    PA1: A1<FMC>,
    PA2: A2<FMC>,
    PA3: A3<FMC>,
    PA4: A4<FMC>,
    PA5: A5<FMC>,
    PA6: A6<FMC>,
    PA7: A7<FMC>,
    PA8: A8<FMC>,
    PA9: A9<FMC>,
    PA10: A10<FMC>,
    PA11: A11<FMC>,
    PBA0: BA0<FMC>,
    PBA1: BA1<FMC>,
    PD0: D0<FMC>,
    PD1: D1<FMC>,
    PD2: D2<FMC>,
    PD3: D3<FMC>,
    PD4: D4<FMC>,
    PD5: D5<FMC>,
    PD6: D6<FMC>,
    PD7: D7<FMC>,
    PD8: D8<FMC>,
    PD9: D9<FMC>,
    PD10: D10<FMC>,
    PD11: D11<FMC>,
    PD12: D12<FMC>,
    PD13: D13<FMC>,
    PD14: D14<FMC>,
    PD15: D15<FMC>,
    PD16: D16<FMC>,
    PD17: D17<FMC>,
    PD18: D18<FMC>,
    PD19: D19<FMC>,
    PD20: D20<FMC>,
    PD21: D21<FMC>,
    PD22: D22<FMC>,
    PD23: D23<FMC>,
    PD24: D24<FMC>,
    PD25: D25<FMC>,
    PD26: D26<FMC>,
    PD27: D27<FMC>,
    PD28: D28<FMC>,
    PD29: D29<FMC>,
    PD30: D30<FMC>,
    PD31: D31<FMC>,
    PNBL0: NBL0<FMC>,
    PNBL1: NBL1<FMC>,
    PNBL2: NBL2<FMC>,
    PNBL3: NBL3<FMC>,
    PSDCKE: SDCKE1<FMC>,
    PSDCLK: SDCLK<FMC>,
    PSDNCAS: SDNCAS<FMC>,
    PSDNE: SDNE1<FMC>,
    PSDNRAS: SDNRAS<FMC>,
    PSDNWE: SDNWE<FMC>,
{
    const EXTERNAL_BANK: u8 = 2;
    const NUMBER_INTERNAL_BANKS: u8 = 4;
    const ADDRESS_LINES: u8 = 12;
}

} // verus!
