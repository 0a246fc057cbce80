use vstd::prelude::*;

verus! {

/// Largest mantissa magnitude that a 96-bit decimal can carry.
pub const MAX_MANTISSA: i128 = 0x0000_0000_FFFF_FFFF_FFFF_FFFF_FFFF_FFFF;

/// Largest scale (count of fractional digits) that a decimal can carry.
pub const MAX_SCALE: u32 = 28;

/// A fixed-point decimal value, read as `mantissa * 10^(-scale)`.
/// It mirrors the 96-bit representation of `rust_decimal::Decimal`,
/// so every well-formed value converts to that type without loss.
#[derive(Clone, Copy, PartialEq, Eq, Structural, Debug)]
pub struct Dec {
    pub mantissa: i128,
    pub scale: u32,
}

impl Dec {
    /// A representable decimal: scale within bounds, mantissa within 96 bits.
    pub open spec fn wf(self) -> bool {
        self.scale <= MAX_SCALE && -MAX_MANTISSA <= self.mantissa <= MAX_MANTISSA
    }

    /// The decimal zero.
    pub fn zero() -> (r: Dec)
        ensures
            r == (Dec { mantissa: 0, scale: 0 }),
            r.wf(),
    {
        Dec { mantissa: 0, scale: 0 }
    }

    /// Builds a decimal from its parts when they are representable.
    pub fn checked(mantissa: i128, scale: u32) -> (r: Option<Dec>)
        ensures
            r is Some <==> (Dec { mantissa, scale }).wf(),
            r matches Some(d) ==> d == (Dec { mantissa, scale }),
    {
        if scale <= MAX_SCALE && -MAX_MANTISSA <= mantissa && mantissa <= MAX_MANTISSA {
            Some(Dec { mantissa, scale })
        } else {
            None
        }
    }
}

/// What round-half-to-even gives on a decimal's parts, for a requested
/// count of fractional digits. The value is pinned only by the facts the
/// trusted rounding call states of it.
pub uninterp spec fn round_half_even(mantissa: i128, scale: u32, dp: u32) -> (i128, u32);

/// The rounded twin of `d`, with at most `dp` fractional digits.
pub open spec fn spec_round_dp(d: Dec, dp: u32) -> Dec {
    Dec {
        mantissa: round_half_even(d.mantissa, d.scale, dp).0,
        scale: round_half_even(d.mantissa, d.scale, dp).1,
    }
}

/// Relies on `rust_decimal::Decimal::round_dp`: round-half-to-even (banker's
/// rounding) to `dp` fractional digits. Its source returns the value unchanged
/// when it already has no more than `dp` fractional digits, and the result
/// never has more than `dp` of them; the result is always representable.
#[verifier::external_body]
pub(crate) fn round_dp(d: &Dec, dp: u32) -> (r: Dec)
    requires
        d.wf(),
    ensures
        (r.mantissa, r.scale) == round_half_even(d.mantissa, d.scale, dp),
        r == spec_round_dp(*d, dp),
        d.scale <= dp ==> r == *d,
        r.scale <= dp,
        r.wf(),
{
    let v = rust_decimal::Decimal::from_i128_with_scale(d.mantissa, d.scale).round_dp(dp);
    Dec { mantissa: v.mantissa(), scale: v.scale() }
}

} // verus!
