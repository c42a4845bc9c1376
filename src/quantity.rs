use vstd::prelude::*;

verus! {

/// Largest mantissa magnitude an exact decimal can hold (96 bits).
pub const MAX_MANTISSA: i128 = 79228162514264337593543950335;

/// Largest number of fractional digits an exact decimal can hold.
pub const MAX_SCALE: u32 = 28;

/// An exact decimal number: `mantissa / 10^scale`.
#[derive(Debug, Clone, Copy, PartialEq, Eq, Structural)]
pub struct Quantity {
    pub mantissa: i128,
    pub scale: u32,
}

/// What `rust_decimal::Decimal::checked_add` returns for two decimals given as
/// (mantissa, scale) pairs: `None` on overflow, else the sum as a pair.
pub uninterp spec fn decimal_checked_add(a: (i128, u32), b: (i128, u32)) -> Option<(i128, u32)>;

/// The (mantissa, scale) pair of an optional quantity.
pub open spec fn opt_view(q: Option<Quantity>) -> Option<(i128, u32)> {
    match q {
        Some(v) => Some(v@),
        None => None,
    }
}

impl Quantity {
    pub open spec fn view(self) -> (i128, u32) {
        (self.mantissa, self.scale)
    }

    /// The value is representable as an exact decimal.
    pub open spec fn wf(self) -> bool {
        -MAX_MANTISSA <= self.mantissa <= MAX_MANTISSA && self.scale <= MAX_SCALE
    }

    pub open spec fn spec_zero() -> Quantity {
        Quantity { mantissa: 0, scale: 0 }
    }

    /// The decimal zero.
    pub fn zero() -> (r: Quantity)
        ensures
            r == Quantity::spec_zero(),
            r.wf(),
    {
        Quantity { mantissa: 0, scale: 0 }
    }

    /// The sum of two quantities, or `None` where it overflows.
    pub fn checked_add(self, other: Quantity) -> (r: Option<Quantity>)
        requires
            self.wf(),
            other.wf(),
        ensures
            r matches Some(q) ==> q.wf(),
            opt_view(r) == decimal_checked_add(self@, other@),
    {
        decimal_add(self, other)
    }
}

/// Relies on rust_decimal's `Decimal::from_i128_with_scale` (which accepts any
/// 96-bit mantissa with a scale up to 28), `Decimal::checked_add` (the sum, or
/// `None` on overflow) and `Decimal::mantissa` / `Decimal::scale`, which give back a
/// decimal within those same bounds.
#[verifier::external_body]
fn decimal_add(a: Quantity, b: Quantity) -> (r: Option<Quantity>)
    requires
        a.wf(),
        b.wf(),
    ensures
        r matches Some(q) ==> q.wf(),
        opt_view(r) == decimal_checked_add(a@, b@),
{
    let x = rust_decimal::Decimal::from_i128_with_scale(a.mantissa, a.scale);
    let y = rust_decimal::Decimal::from_i128_with_scale(b.mantissa, b.scale);
    match x.checked_add(y) {
        Some(d) => Some(Quantity { mantissa: d.mantissa(), scale: d.scale() }),
        None => None,
    }
}

} // verus!
