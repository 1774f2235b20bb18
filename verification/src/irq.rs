//! The interrupt controller: a 5-bit enable mask and a 5-bit request mask,
//! one bit per source, priority ordered with bit 0 highest.

use vstd::prelude::*;

verus! {

/// The five interrupt sources, each bound to a fixed mask bit, dispatch
/// vector and priority (the mask's bit position; lower is served first).
#[derive(Clone, Copy, Debug, PartialEq, Eq, Structural)]
pub enum Interrupt {
    VBlank,
    LcdStat,
    Timer,
    Serial,
    Joypad,
}

impl Interrupt {
    pub open spec fn spec_mask(self) -> u8 {
        match self {
            Interrupt::VBlank => 0x01,
            Interrupt::LcdStat => 0x02,
            Interrupt::Timer => 0x04,
            Interrupt::Serial => 0x08,
            Interrupt::Joypad => 0x10,
        }
    }

    pub fn mask(&self) -> (r: u8)
        ensures
            r == self.spec_mask(),
    {
        match self {
            Interrupt::VBlank => 0x01,
            Interrupt::LcdStat => 0x02,
            Interrupt::Timer => 0x04,
            Interrupt::Serial => 0x08,
            Interrupt::Joypad => 0x10,
        }
    }

    /// The source's position in the priority order; 0 is served first.
    pub open spec fn spec_priority(self) -> int {
        match self {
            Interrupt::VBlank => 0,
            Interrupt::LcdStat => 1,
            Interrupt::Timer => 2,
            Interrupt::Serial => 3,
            Interrupt::Joypad => 4,
        }
    }

    pub open spec fn spec_from_u8(value: u8) -> Option<Interrupt> {
        if value == 0x01 {
            Some(Interrupt::VBlank)
        } else if value == 0x02 {
            Some(Interrupt::LcdStat)
        } else if value == 0x04 {
            Some(Interrupt::Timer)
        } else if value == 0x08 {
            Some(Interrupt::Serial)
        } else if value == 0x10 {
            Some(Interrupt::Joypad)
        } else {
            None
        }
    }

    pub fn from_u8(value: u8) -> (r: Option<Interrupt>)
        ensures
            r == Interrupt::spec_from_u8(value),
    {
        match value {
            0x01 => Some(Interrupt::VBlank),
            0x02 => Some(Interrupt::LcdStat),
            0x04 => Some(Interrupt::Timer),
            0x08 => Some(Interrupt::Serial),
            0x10 => Some(Interrupt::Joypad),
            _ => None,
        }
    }

    /// The fixed dispatch vector of the source.
    pub open spec fn spec_addr(self) -> u16 {
        match self {
            Interrupt::VBlank => 0x40,
            Interrupt::LcdStat => 0x48,
            Interrupt::Timer => 0x50,
            Interrupt::Serial => 0x58,
            Interrupt::Joypad => 0x60,
        }
    }

    pub fn addr(&self) -> (r: u16)
        ensures
            r == self.spec_addr(),
    {
        match self {
            Interrupt::VBlank => 0x40,
            Interrupt::LcdStat => 0x48,
            Interrupt::Timer => 0x50,
            Interrupt::Serial => 0x58,
            Interrupt::Joypad => 0x60,
        }
    }
}

#[derive(Clone, Copy, Debug, PartialEq, Eq, Structural)]
pub struct Irq {
    pub enable: u8,
    pub request: u8,
}

/// Acknowledging serves the pending source with the lowest priority number:
/// the lowest set bit common to both masks is cleared from the request mask
/// and its source returned. With no common bit nothing changes.
pub open spec fn spec_ack(irq: Irq) -> (Irq, Option<Interrupt>) {
    let common = irq.enable & irq.request;
    if common & 0x01 != 0 {
        (Irq { request: irq.request & 0xFE, ..irq }, Some(Interrupt::VBlank))
    } else if common & 0x02 != 0 {
        (Irq { request: irq.request & 0xFD, ..irq }, Some(Interrupt::LcdStat))
    } else if common & 0x04 != 0 {
        (Irq { request: irq.request & 0xFB, ..irq }, Some(Interrupt::Timer))
    } else if common & 0x08 != 0 {
        (Irq { request: irq.request & 0xF7, ..irq }, Some(Interrupt::Serial))
    } else if common & 0x10 != 0 {
        (Irq { request: irq.request & 0xEF, ..irq }, Some(Interrupt::Joypad))
    } else {
        (irq, None)
    }
}

impl Irq {
    /// Both masks hold five significant bits; the upper three are always
    /// clear.
    pub open spec fn wf(self) -> bool {
        self.enable < 0x20 && self.request < 0x20
    }

    pub open spec fn initial() -> Irq {
        Irq { enable: 0, request: 0 }
    }

    pub fn new() -> (r: Irq)
        ensures
            r == Irq::initial(),
    {
        Irq { enable: 0, request: 0 }
    }

    /// Stores the low five bits of `bits` as the enable mask.
    pub fn set_enable(&mut self, bits: u8)
        ensures
            *final(self) == (Irq { enable: bits & 0x1F, ..*old(self) }),
    {
        self.enable = bits & 0x1F;
    }

    pub fn get_enable(&self) -> (r: u8)
        ensures
            r == self.enable,
    {
        self.enable
    }

    /// Stores the low five bits of `bits` as the request mask.
    pub fn set_request(&mut self, bits: u8)
        ensures
            *final(self) == (Irq { request: bits & 0x1F, ..*old(self) }),
    {
        self.request = bits & 0x1F;
    }

    pub fn get_request(&self) -> (r: u8)
        ensures
            r == self.request,
    {
        self.request
    }

    /// Raises the source's bit in the request mask; the other bits and the
    /// enable mask are untouched.
    pub fn request_interrupt(&mut self, interrupt: Interrupt)
        ensures
            *final(self) == (Irq {
                request: old(self).request | interrupt.spec_mask(),
                ..*old(self)
            }),
    {
        self.request = self.request | interrupt.mask();
    }

    /// A source is pending exactly when its bit is set in both masks.
    pub fn has_interrupt(&self) -> (r: bool)
        ensures
            r == (self.enable & self.request != 0),
    {
        self.enable & self.request != 0
    }

    pub fn ack_interrupt(&mut self) -> (r: Option<Interrupt>)
        ensures
            (*final(self), r) == spec_ack(*old(self)),
    {
        let common = self.enable & self.request;
        if common & 0x01 != 0 {
            self.request = self.request & 0xFE;
            Some(Interrupt::VBlank)
        } else if common & 0x02 != 0 {
            self.request = self.request & 0xFD;
            Some(Interrupt::LcdStat)
        } else if common & 0x04 != 0 {
            self.request = self.request & 0xFB;
            Some(Interrupt::Timer)
        } else if common & 0x08 != 0 {
            self.request = self.request & 0xF7;
            Some(Interrupt::Serial)
        } else if common & 0x10 != 0 {
            self.request = self.request & 0xEF;
            Some(Interrupt::Joypad)
        } else {
            None
        }
    }
}

/// Masking a byte to its low five bits gives a well-formed interrupt mask.
pub(crate) proof fn lemma_mask5(b: u8)
    ensures
        b & 0x1F < 0x20,
{
    assert(b & 0x1F < 0x20) by (bit_vector);
}

/// A bitwise conjunction never exceeds either operand.
pub(crate) proof fn lemma_and_le(a: u8, b: u8)
    ensures
        a & b <= a,
        a & b <= b,
{
    assert(a & b <= a && a & b <= b) by (bit_vector);
}

/// Raising bits of one five-bit mask in another keeps it five bits wide.
pub(crate) proof fn lemma_or5(a: u8, b: u8)
    requires
        a < 0x20,
        b < 0x20,
    ensures
        (a | b) < 0x20,
{
    assert(a < 0x20 && b < 0x20 ==> (a | b) < 0x20) by (bit_vector);
}

/// Acknowledge with no pending source returns none and changes nothing.
pub proof fn lemma_ack_empty(irq: Irq)
    requires
        irq.enable & irq.request == 0,
    ensures
        spec_ack(irq) == (irq, None::<Interrupt>),
{
    let common = irq.enable & irq.request;
    assert(common & 0x01 == 0 && common & 0x02 == 0 && common & 0x04 == 0 && common & 0x08 == 0
        && common & 0x10 == 0) by (bit_vector)
        requires
            common == 0,
    ;
}

/// Acknowledge with a pending source returns the common set bit of lowest
/// priority number, clears exactly that bit from the request mask, and
/// leaves the enable mask as it was.
pub proof fn lemma_ack_lowest(irq: Irq)
    requires
        irq.wf(),
        irq.enable & irq.request != 0,
    ensures
        spec_ack(irq).1 matches Some(s) && {
            let common = irq.enable & irq.request;
            &&& common & s.spec_mask() != 0
            &&& forall|t: Interrupt|
                t.spec_priority() < s.spec_priority() ==> common & t.spec_mask() == 0
            &&& spec_ack(irq).0 == (Irq { request: irq.request & !s.spec_mask(), ..irq })
        },
{
    let common = irq.enable & irq.request;
    assert(!0x01u8 == 0xFEu8) by (bit_vector);
    assert(!0x02u8 == 0xFDu8) by (bit_vector);
    assert(!0x04u8 == 0xFBu8) by (bit_vector);
    assert(!0x08u8 == 0xF7u8) by (bit_vector);
    assert(!0x10u8 == 0xEFu8) by (bit_vector);
    let enable = irq.enable;
    let request = irq.request;
    assert(common & 0x01 == 0 && common & 0x02 == 0 && common & 0x04 == 0 && common & 0x08 == 0
        && common & 0x10 == 0 ==> common == 0) by (bit_vector)
        requires
            common == enable & request && enable < 0x20,
    ;
}

} // verus!
