//! Values of the RCC, PWR and FLASH register fields that the clock logic
//! writes or reads, with their bit encodings on the STM32L0.
use vstd::prelude::*;

verus! {

/// AHB prescaler (RCC_CFGR.HPRE).
#[derive(Clone, Copy, Debug, PartialEq, Eq, Structural)]
pub enum Hpre {
    DIV1,
    DIV2,
    DIV4,
    DIV8,
    DIV16,
    DIV64,
    DIV128,
    DIV256,
    DIV512,
}

impl Hpre {
    /// The field's encoding.
    pub open spec fn bits(self) -> u8 {
        match self {
            Hpre::DIV1 => 0x0,
            Hpre::DIV2 => 0x8,
            Hpre::DIV4 => 0x9,
            Hpre::DIV8 => 0xa,
            Hpre::DIV16 => 0xb,
            Hpre::DIV64 => 0xc,
            Hpre::DIV128 => 0xd,
            Hpre::DIV256 => 0xe,
            Hpre::DIV512 => 0xf,
        }
    }

    pub fn to_bits(self) -> (b: u8)
        ensures
            b == self.bits(),
    {
        match self {
            Hpre::DIV1 => 0x0,
            Hpre::DIV2 => 0x8,
            Hpre::DIV4 => 0x9,
            Hpre::DIV8 => 0xa,
            Hpre::DIV16 => 0xb,
            Hpre::DIV64 => 0xc,
            Hpre::DIV128 => 0xd,
            Hpre::DIV256 => 0xe,
            Hpre::DIV512 => 0xf,
        }
    }
}

/// APB prescaler (RCC_CFGR.PPRE1 and PPRE2).
#[derive(Clone, Copy, Debug, PartialEq, Eq, Structural)]
pub enum Ppre {
    DIV1,
    DIV2,
    DIV4,
    DIV8,
    DIV16,
}

impl Ppre {
    /// The field's encoding.
    pub open spec fn bits(self) -> u8 {
        match self {
            Ppre::DIV1 => 0x0,
            Ppre::DIV2 => 0x4,
            Ppre::DIV4 => 0x5,
            Ppre::DIV8 => 0x6,
            Ppre::DIV16 => 0x7,
        }
    }

    pub fn to_bits(self) -> (b: u8)
        ensures
            b == self.bits(),
    {
        match self {
            Ppre::DIV1 => 0x0,
            Ppre::DIV2 => 0x4,
            Ppre::DIV4 => 0x5,
            Ppre::DIV8 => 0x6,
            Ppre::DIV16 => 0x7,
        }
    }
}

/// Voltage scaling range (PWR_CR.VOS).
#[derive(Clone, Copy, Debug, PartialEq, Eq, Structural)]
pub enum Vos {
    /// 1.8 V
    RANGE1,
    /// 1.5 V
    RANGE2,
    /// 1.2 V
    RANGE3,
}

impl Vos {
    /// The field's encoding.
    pub open spec fn bits(self) -> u8 {
        match self {
            Vos::RANGE1 => 1,
            Vos::RANGE2 => 2,
            Vos::RANGE3 => 3,
        }
    }

    pub fn to_bits(self) -> (b: u8)
        ensures
            b == self.bits(),
    {
        match self {
            Vos::RANGE1 => 1,
            Vos::RANGE2 => 2,
            Vos::RANGE3 => 3,
        }
    }
}

/// MSI clock range (RCC_ICSCR.MSIRANGE).
#[derive(Clone, Copy, Debug, PartialEq, Eq, Structural)]
pub enum Msirange {
    RANGE0,
    RANGE1,
    RANGE2,
    RANGE3,
    RANGE4,
    RANGE5,
    RANGE6,
}

impl Msirange {
    /// The field's encoding.
    pub open spec fn bits(self) -> u8 {
        match self {
            Msirange::RANGE0 => 0,
            Msirange::RANGE1 => 1,
            Msirange::RANGE2 => 2,
            Msirange::RANGE3 => 3,
            Msirange::RANGE4 => 4,
            Msirange::RANGE5 => 5,
            Msirange::RANGE6 => 6,
        }
    }

    pub fn to_bits(self) -> (b: u8)
        ensures
            b == self.bits(),
    {
        match self {
            Msirange::RANGE0 => 0,
            Msirange::RANGE1 => 1,
            Msirange::RANGE2 => 2,
            Msirange::RANGE3 => 3,
            Msirange::RANGE4 => 4,
            Msirange::RANGE5 => 5,
            Msirange::RANGE6 => 6,
        }
    }
}

/// PLL multiplication factor (RCC_CFGR.PLLMUL).
#[derive(Clone, Copy, Debug, PartialEq, Eq, Structural)]
pub enum Pllmul {
    MUL3,
    MUL4,
    MUL6,
    MUL8,
    MUL12,
    MUL16,
    MUL24,
    MUL32,
    MUL48,
}

impl Pllmul {
    /// The field's encoding.
    pub open spec fn bits(self) -> u8 {
        match self {
            Pllmul::MUL3 => 0,
            Pllmul::MUL4 => 1,
            Pllmul::MUL6 => 2,
            Pllmul::MUL8 => 3,
            Pllmul::MUL12 => 4,
            Pllmul::MUL16 => 5,
            Pllmul::MUL24 => 6,
            Pllmul::MUL32 => 7,
            Pllmul::MUL48 => 8,
        }
    }

    pub fn to_bits(self) -> (b: u8)
        ensures
            b == self.bits(),
    {
        match self {
            Pllmul::MUL3 => 0,
            Pllmul::MUL4 => 1,
            Pllmul::MUL6 => 2,
            Pllmul::MUL8 => 3,
            Pllmul::MUL12 => 4,
            Pllmul::MUL16 => 5,
            Pllmul::MUL24 => 6,
            Pllmul::MUL32 => 7,
            Pllmul::MUL48 => 8,
        }
    }
}

/// PLL output division (RCC_CFGR.PLLDIV).
#[derive(Clone, Copy, Debug, PartialEq, Eq, Structural)]
pub enum Plldiv {
    DIV2,
    DIV3,
    DIV4,
}

impl Plldiv {
    /// The field's encoding.
    pub open spec fn bits(self) -> u8 {
        match self {
            Plldiv::DIV2 => 1,
            Plldiv::DIV3 => 2,
            Plldiv::DIV4 => 3,
        }
    }

    pub fn to_bits(self) -> (b: u8)
        ensures
            b == self.bits(),
    {
        match self {
            Plldiv::DIV2 => 1,
            Plldiv::DIV3 => 2,
            Plldiv::DIV4 => 3,
        }
    }
}

/// PLL entry clock source (RCC_CFGR.PLLSRC).
#[derive(Clone, Copy, Debug, PartialEq, Eq, Structural)]
pub enum Pllsrc {
    HSI16,
    HSE,
}

impl Pllsrc {
    /// The field's encoding.
    pub open spec fn bits(self) -> u8 {
        match self {
            Pllsrc::HSI16 => 0,
            Pllsrc::HSE => 1,
        }
    }

    pub fn to_bits(self) -> (b: u8)
        ensures
            b == self.bits(),
    {
        match self {
            Pllsrc::HSI16 => 0,
            Pllsrc::HSE => 1,
        }
    }
}

/// System clock switch (RCC_CFGR.SW).
#[derive(Clone, Copy, Debug, PartialEq, Eq, Structural)]
pub enum Sw {
    MSI,
    HSI16,
    HSE,
    PLL,
}

impl Sw {
    /// The field's encoding.
    pub open spec fn bits(self) -> u8 {
        match self {
            Sw::MSI => 0,
            Sw::HSI16 => 1,
            Sw::HSE => 2,
            Sw::PLL => 3,
        }
    }

    pub fn to_bits(self) -> (b: u8)
        ensures
            b == self.bits(),
    {
        match self {
            Sw::MSI => 0,
            Sw::HSI16 => 1,
            Sw::HSE => 2,
            Sw::PLL => 3,
        }
    }
}

/// LSE oscillator drive capability (RCC_CSR.LSEDRV).
#[derive(Clone, Copy, Debug, PartialEq, Eq, Structural)]
pub enum Lsedrv {
    LOW,
    MEDIUMLOW,
    MEDIUMHIGH,
    HIGH,
}

impl Lsedrv {
    /// The field's encoding.
    pub open spec fn bits(self) -> u8 {
        match self {
            Lsedrv::LOW => 0,
            Lsedrv::MEDIUMLOW => 1,
            Lsedrv::MEDIUMHIGH => 2,
            Lsedrv::HIGH => 3,
        }
    }

    /// The value whose encoding is the two low bits of `val`.
    pub open spec fn spec_from_bits(val: u8) -> Lsedrv {
        let v = val % 4;
        if v == 0 {
            Lsedrv::LOW
        } else if v == 1 {
            Lsedrv::MEDIUMLOW
        } else if v == 2 {
            Lsedrv::MEDIUMHIGH
        } else {
            Lsedrv::HIGH
        }
    }

    pub fn to_bits(self) -> (b: u8)
        ensures
            b == self.bits(),
    {
        match self {
            Lsedrv::LOW => 0,
            Lsedrv::MEDIUMLOW => 1,
            Lsedrv::MEDIUMHIGH => 2,
            Lsedrv::HIGH => 3,
        }
    }

    /// Decodes the field from the two low bits of `val`; higher bits are ignored.
    pub fn from_bits(val: u8) -> (d: Lsedrv)
        ensures
            d == Lsedrv::spec_from_bits(val),
            d.bits() == val % 4,
    {
        let v = val % 4;
        if v == 0 {
            Lsedrv::LOW
        } else if v == 1 {
            Lsedrv::MEDIUMLOW
        } else if v == 2 {
            Lsedrv::MEDIUMHIGH
        } else {
            Lsedrv::HIGH
        }
    }
}

/// RTC clock source (RCC_CSR.RTCSEL).
#[derive(Clone, Copy, Debug, PartialEq, Eq, Structural)]
pub enum Rtcsel {
    /// No clock.
    NOCLOCK,
    LSE,
    LSI,
    /// HSE divided by the RTC prescaler.
    HSE,
}

impl Rtcsel {
    /// The field's encoding.
    pub open spec fn bits(self) -> u8 {
        match self {
            Rtcsel::NOCLOCK => 0,
            Rtcsel::LSE => 1,
            Rtcsel::LSI => 2,
            Rtcsel::HSE => 3,
        }
    }

    /// The value whose encoding is the two low bits of `val`.
    pub open spec fn spec_from_bits(val: u8) -> Rtcsel {
        let v = val % 4;
        if v == 0 {
            Rtcsel::NOCLOCK
        } else if v == 1 {
            Rtcsel::LSE
        } else if v == 2 {
            Rtcsel::LSI
        } else {
            Rtcsel::HSE
        }
    }

    pub fn to_bits(self) -> (b: u8)
        ensures
            b == self.bits(),
    {
        match self {
            Rtcsel::NOCLOCK => 0,
            Rtcsel::LSE => 1,
            Rtcsel::LSI => 2,
            Rtcsel::HSE => 3,
        }
    }

    /// Decodes the field from the two low bits of `val`; higher bits are ignored.
    pub fn from_bits(val: u8) -> (s: Rtcsel)
        ensures
            s == Rtcsel::spec_from_bits(val),
            s.bits() == val % 4,
    {
        let v = val % 4;
        if v == 0 {
            Rtcsel::NOCLOCK
        } else if v == 1 {
            Rtcsel::LSE
        } else if v == 2 {
            Rtcsel::LSI
        } else {
            Rtcsel::HSE
        }
    }
}

/// Decoding a field's encoding gives the value back.
pub proof fn lemma_field_roundtrip(d: Lsedrv, s: Rtcsel)
    ensures
        Lsedrv::spec_from_bits(d.bits()) == d,
        Rtcsel::spec_from_bits(s.bits()) == s,
{
}

/// Distinct values of a field have distinct encodings.
pub proof fn lemma_encodings_injective(
    h1: Hpre, h2: Hpre, p1: Ppre, p2: Ppre, v1: Vos, v2: Vos, r1: Msirange, r2: Msirange,
    m1: Pllmul, m2: Pllmul, d1: Plldiv, d2: Plldiv, s1: Pllsrc, s2: Pllsrc, w1: Sw, w2: Sw,
    l1: Lsedrv, l2: Lsedrv, c1: Rtcsel, c2: Rtcsel,
)
    ensures
        h1.bits() == h2.bits() ==> h1 == h2,
        p1.bits() == p2.bits() ==> p1 == p2,
        v1.bits() == v2.bits() ==> v1 == v2,
        r1.bits() == r2.bits() ==> r1 == r2,
        m1.bits() == m2.bits() ==> m1 == m2,
        d1.bits() == d2.bits() ==> d1 == d2,
        s1.bits() == s2.bits() ==> s1 == s2,
        w1.bits() == w2.bits() ==> w1 == w2,
        l1.bits() == l2.bits() ==> l1 == l2,
        c1.bits() == c2.bits() ==> c1 == c2,
{
}

} // verus!
