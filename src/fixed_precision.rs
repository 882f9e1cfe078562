use vstd::prelude::*;

verus! {

/// How many scaled units make one whole unit: amounts carry four decimal digits.
pub const PRECISION_MULTIPLIER: usize = 10000;

/// An exact decimal amount: an integer count of `1 / PRECISION_MULTIPLIER` units.
#[derive(Clone, Copy, Debug, PartialEq, Eq, Structural, PartialOrd, Ord)]
pub struct FixedPrecision {
    number: isize,
}

/// The amount type that the ledger works with.
pub type FixedPrecision4 = FixedPrecision;

impl View for FixedPrecision {
    type V = int;

    /// The number of scaled units held.
    closed spec fn view(&self) -> int {
        self.number as int
    }
}

/// Whether `v` can be held by a `FixedPrecision`.
pub open spec fn in_range(v: int) -> bool {
    isize::MIN <= v <= isize::MAX
}

/// The signed value of a decimal written as sign, whole units and a fraction
/// in scaled units.
pub open spec fn parts_value(negative: bool, whole: int, fraction: int) -> int {
    let magnitude = whole * PRECISION_MULTIPLIER + fraction;
    if negative {
        -magnitude
    } else {
        magnitude
    }
}

/// The decimal parts of `v` scaled units: its sign, its whole units and the
/// remaining fraction.
pub open spec fn parts_of(v: int) -> (bool, int, int) {
    let magnitude = if v < 0 {
        -v
    } else {
        v
    };
    (v < 0, magnitude / (PRECISION_MULTIPLIER as int), magnitude % (PRECISION_MULTIPLIER as int))
}

impl FixedPrecision {
    /// The amount made of `number` scaled units.
    pub fn from_scaled(number: isize) -> (r: Self)
        ensures
            r@ == number,
    {
        FixedPrecision { number }
    }

    /// The number of scaled units in this amount.
    pub fn scaled(&self) -> (r: isize)
        ensures
            r == self@,
    {
        self.number
    }

    /// The decimal form of this amount: whether it is negative, its whole
    /// units, and the fraction below one unit in scaled units.
    pub fn to_parts(&self) -> (r: (bool, u64, u16))
        ensures
            (r.0, r.1 as int, r.2 as int) == parts_of(self@),
    {
        let n = self.number as i128;
        let magnitude: u64 = if n < 0 {
            (-n) as u64
        } else {
            n as u64
        };
        let m = PRECISION_MULTIPLIER as u64;
        (n < 0, magnitude / m, (magnitude % m) as u16)
    }

    /// The amount written as sign, whole units and fraction; `None` when the
    /// fraction is not below one unit or the value is out of range.
    pub fn from_parts(negative: bool, whole: u64, fraction: u16) -> (r: Option<Self>)
        ensures
            r is Some <==> (fraction < PRECISION_MULTIPLIER && in_range(
                parts_value(negative, whole as int, fraction as int),
            )),
            r matches Some(x) ==> x@ == parts_value(negative, whole as int, fraction as int),
    {
        if fraction as usize >= PRECISION_MULTIPLIER {
            return None;
        }
        assert(whole as int * 10000 <= u64::MAX as int * 10000) by (nonlinear_arith);
        let magnitude = whole as i128 * PRECISION_MULTIPLIER as i128 + fraction as i128;
        let v = if negative {
            -magnitude
        } else {
            magnitude
        };
        if v < isize::MIN as i128 || v > isize::MAX as i128 {
            return None;
        }
        Some(FixedPrecision { number: v as isize })
    }

    /// The sum of two amounts.
    pub fn add(self, rhs: Self) -> (r: Self)
        requires
            in_range(self@ + rhs@),
        ensures
            r@ == self@ + rhs@,
    {
        FixedPrecision { number: self.number + rhs.number }
    }

    /// Adds `rhs` to this amount in place.
    pub fn add_assign(&mut self, rhs: Self)
        requires
            in_range(old(self)@ + rhs@),
        ensures
            final(self)@ == old(self)@ + rhs@,
    {
        self.number = self.number + rhs.number;
    }

    /// Subtracts `rhs` from this amount in place.
    pub fn sub_assign(&mut self, rhs: Self)
        requires
            in_range(old(self)@ - rhs@),
        ensures
            final(self)@ == old(self)@ - rhs@,
    {
        self.number = self.number - rhs.number;
    }

    /// Whether this amount is strictly below `rhs`.
    pub fn lt(&self, rhs: &Self) -> (r: bool)
        ensures
            r == (self@ < rhs@),
    {
        self.number < rhs.number
    }

    /// Whether this amount is at most `rhs`.
    pub fn le(&self, rhs: &Self) -> (r: bool)
        ensures
            r == (self@ <= rhs@),
    {
        self.number <= rhs.number
    }
}

impl Default for FixedPrecision {
    /// The zero amount.
    fn default() -> (r: Self)
        ensures
            r@ == 0,
    {
        FixedPrecision { number: 0 }
    }
}

} // verus!
