use vstd::prelude::*;

verus! {

/// A bill value recognised by the acceptor, in abstract currency units.
#[derive(Debug, Clone, Copy, PartialEq, Eq, Structural)]
pub enum BillNominal {
    Dram1000,
    Dram2000,
    Dram5000,
    Dram10000,
    Dram20000,
}

/// The bill that a device nominal code stands for, if any.
pub open spec fn nominal_of_code(code: u8) -> Option<BillNominal> {
    if code == 0x00 {
        Some(BillNominal::Dram1000)
    } else if code == 0x0C {
        Some(BillNominal::Dram2000)
    } else if code == 0x01 {
        Some(BillNominal::Dram5000)
    } else if code == 0x02 {
        Some(BillNominal::Dram10000)
    } else if code == 0x03 {
        Some(BillNominal::Dram20000)
    } else {
        None
    }
}

/// The bill of a face value, if any.
pub open spec fn nominal_of_value(v: int) -> Option<BillNominal> {
    if v == 1000 {
        Some(BillNominal::Dram1000)
    } else if v == 2000 {
        Some(BillNominal::Dram2000)
    } else if v == 5000 {
        Some(BillNominal::Dram5000)
    } else if v == 10000 {
        Some(BillNominal::Dram10000)
    } else if v == 20000 {
        Some(BillNominal::Dram20000)
    } else {
        None
    }
}

/// The bill at a position in ascending order of face value.
pub open spec fn nominal_at(i: int) -> BillNominal {
    if i == 0 {
        BillNominal::Dram1000
    } else if i == 1 {
        BillNominal::Dram2000
    } else if i == 2 {
        BillNominal::Dram5000
    } else if i == 3 {
        BillNominal::Dram10000
    } else {
        BillNominal::Dram20000
    }
}

/// The number of distinct bills.
pub const NOMINAL_COUNT: usize = 5;

impl BillNominal {
    /// The code by which the device reports the bill.
    pub open spec fn spec_code(self) -> u8 {
        match self {
            BillNominal::Dram1000 => 0x00,
            BillNominal::Dram2000 => 0x0C,
            BillNominal::Dram5000 => 0x01,
            BillNominal::Dram10000 => 0x02,
            BillNominal::Dram20000 => 0x03,
        }
    }

    /// The position of the bill in ascending order of face value.
    pub open spec fn spec_index(self) -> int {
        match self {
            BillNominal::Dram1000 => 0,
            BillNominal::Dram2000 => 1,
            BillNominal::Dram5000 => 2,
            BillNominal::Dram10000 => 3,
            BillNominal::Dram20000 => 4,
        }
    }

    /// The position of the bill in ascending order of face value.
    pub fn index(&self) -> (r: usize)
        ensures
            r as int == self.spec_index(),
            r < NOMINAL_COUNT,
            nominal_at(r as int) == *self,
    {
        match self {
            BillNominal::Dram1000 => 0,
            BillNominal::Dram2000 => 1,
            BillNominal::Dram5000 => 2,
            BillNominal::Dram10000 => 3,
            BillNominal::Dram20000 => 4,
        }
    }

    /// The bill at a position in ascending order of face value.
    pub fn at(i: usize) -> (r: BillNominal)
        requires
            i < NOMINAL_COUNT,
        ensures
            r == nominal_at(i as int),
            r.spec_index() == i as int,
    {
        match i {
            0 => BillNominal::Dram1000,
            1 => BillNominal::Dram2000,
            2 => BillNominal::Dram5000,
            3 => BillNominal::Dram10000,
            _ => BillNominal::Dram20000,
        }
    }

    /// The bill of a face value, if any.
    pub fn from_value(v: i64) -> (r: Option<BillNominal>)
        ensures
            r == nominal_of_value(v as int),
    {
        match v {
            1000 => Some(BillNominal::Dram1000),
            2000 => Some(BillNominal::Dram2000),
            5000 => Some(BillNominal::Dram5000),
            10000 => Some(BillNominal::Dram10000),
            20000 => Some(BillNominal::Dram20000),
            _ => None,
        }
    }

    /// The face value of the bill.
    pub open spec fn spec_value(self) -> int {
        match self {
            BillNominal::Dram1000 => 1000,
            BillNominal::Dram2000 => 2000,
            BillNominal::Dram5000 => 5000,
            BillNominal::Dram10000 => 10000,
            BillNominal::Dram20000 => 20000,
        }
    }

    /// Decodes a nominal code as sent by the device in a stacked-bill frame.
    pub fn from_code(code: u8) -> (r: Option<BillNominal>)
        ensures
            r == nominal_of_code(code),
    {
        match code {
            0x00 => Some(BillNominal::Dram1000),
            0x0C => Some(BillNominal::Dram2000),
            0x01 => Some(BillNominal::Dram5000),
            0x02 => Some(BillNominal::Dram10000),
            0x03 => Some(BillNominal::Dram20000),
            _ => None,
        }
    }

    /// The face value of the bill.
    pub fn value(&self) -> (r: i32)
        ensures
            r as int == self.spec_value(),
    {
        match self {
            BillNominal::Dram1000 => 1000,
            BillNominal::Dram2000 => 2000,
            BillNominal::Dram5000 => 5000,
            BillNominal::Dram10000 => 10000,
            BillNominal::Dram20000 => 20000,
        }
    }
}

/// Exactly the five codes 0x00, 0x01, 0x02, 0x03 and 0x0C stand for a bill;
/// two different codes never stand for the same bill, and every bill has a code.
pub proof fn lemma_nominal_codes(a: u8, b: u8)
    ensures
        nominal_of_code(a) is Some <==> (a == 0x00 || a == 0x01 || a == 0x02 || a == 0x03 || a
            == 0x0C),
        a != b && nominal_of_code(a) is Some ==> nominal_of_code(a) != nominal_of_code(b),
        forall|d: BillNominal| nominal_of_code(#[trigger] d.spec_code()) == Some(d),
{
}

} // verus!
