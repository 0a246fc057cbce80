use vstd::prelude::*;

use crate::decimal::{round_dp, spec_round_dp, Dec};

verus! {

/// One element of a wire candle array, as the decoding shell hands it in:
/// the element's integer reading (when the number is an integer that fits
/// `i64`) and its fixed-point decimal reading (when finite and representable).
#[derive(Clone, Copy, Debug)]
pub struct WireNumber {
    pub integer: Option<i64>,
    pub decimal: Option<Dec>,
}

impl WireNumber {
    /// A representable wire element: its decimal reading, if any, is in range.
    pub open spec fn wf(self) -> bool {
        self.decimal matches Some(d) ==> d.wf()
    }
}

/// Why decoding a wire candle array failed.
#[derive(Clone, Copy, PartialEq, Eq, Structural, Debug)]
pub enum DecodeError {
    /// The array does not hold exactly six elements.
    WrongArity { found: usize },
    /// The leading timestamp element is not an integer.
    NotAnInteger,
    /// A payload mapping binds the same key twice.
    DuplicateKey,
}

/// A single candlestick record: a timestamp and the open, high, low, close
/// and volume readings of one interval, in the numeric representation `T`.
#[derive(Clone, Copy, PartialEq, Eq, Debug)]
pub struct Candle<T> {
    pub timestamp: i64,
    pub open: T,
    pub high: T,
    pub low: T,
    pub close: T,
    pub volume: T,
}

impl Candle<Option<Dec>> {
    /// A representable wire candle: every present decimal field is in range.
    pub open spec fn wf(self) -> bool {
        &&& (self.open matches Some(d) ==> d.wf())
        &&& (self.high matches Some(d) ==> d.wf())
        &&& (self.low matches Some(d) ==> d.wf())
        &&& (self.close matches Some(d) ==> d.wf())
        &&& (self.volume matches Some(d) ==> d.wf())
    }

    /// Decodes a candle from a positional wire array
    /// `(timestamp, open, high, low, close, volume)`: exactly six elements,
    /// the first of them an integer. Anything else is rejected whole.
    pub fn from_wire(values: &Vec<WireNumber>) -> (r: Result<Candle<Option<Dec>>, DecodeError>)
        ensures
            r is Ok <==> (values@.len() == 6 && values@[0].integer is Some),
            r matches Ok(c) ==> ({
                &&& values@[0].integer == Some(c.timestamp)
                &&& c.open == values@[1].decimal
                &&& c.high == values@[2].decimal
                &&& c.low == values@[3].decimal
                &&& c.close == values@[4].decimal
                &&& c.volume == values@[5].decimal
            }),
            (forall|i: int| 0 <= i < values@.len() ==> values@[i].wf())
                ==> (r matches Ok(c) ==> c.wf()),
            values@.len() != 6 ==> r == Err::<Candle<Option<Dec>>, DecodeError>(
                DecodeError::WrongArity { found: values@.len() as usize },
            ),
            values@.len() == 6 && values@[0].integer is None
                ==> r == Err::<Candle<Option<Dec>>, DecodeError>(DecodeError::NotAnInteger),
    {
        if values.len() != 6 {
            return Err(DecodeError::WrongArity { found: values.len() });
        }
        let timestamp: i64 = match values[0].integer {
            Some(t) => t,
            None => {
                return Err(DecodeError::NotAnInteger);
            },
        };
        Ok(Candle {
            timestamp,
            open: values[1].decimal,
            high: values[2].decimal,
            low: values[3].decimal,
            close: values[4].decimal,
            volume: values[5].decimal,
        })
    }
}

/// The decimal a wire field stands for: its reading when one exists,
/// and the zero fallback when the source value had none (a float that
/// was not finite, or not representable).
pub open spec fn spec_field_base(f: Option<Dec>) -> Dec {
    match f {
        Some(d) => d,
        None => Dec { mantissa: 0, scale: 0 },
    }
}

/// What converting one wire field to a rounded decimal gives.
pub open spec fn spec_field_to_decimal(f: Option<Dec>, dp: u32) -> Dec {
    spec_round_dp(spec_field_base(f), dp)
}

/// What converting a whole wire candle gives: the timestamp copied
/// unchanged, every other field rounded to `dp` fractional digits.
pub open spec fn spec_to_decimal(c: Candle<Option<Dec>>, dp: u32) -> Candle<Dec> {
    Candle {
        timestamp: c.timestamp,
        open: spec_field_to_decimal(c.open, dp),
        high: spec_field_to_decimal(c.high, dp),
        low: spec_field_to_decimal(c.low, dp),
        close: spec_field_to_decimal(c.close, dp),
        volume: spec_field_to_decimal(c.volume, dp),
    }
}

/// Converts one wire field: a missing reading falls back to zero, and the
/// result is rounded half-to-even to `dp` fractional digits.
pub fn field_to_decimal(f: &Option<Dec>, dp: u32) -> (r: Dec)
    requires
        f matches Some(d) ==> d.wf(),
    ensures
        r == spec_field_to_decimal(*f, dp),
        f is None ==> r == (Dec { mantissa: 0, scale: 0 }),
        r.scale <= dp,
        r.wf(),
{
    let base = match f {
        Some(d) => *d,
        None => Dec::zero(),
    };
    round_dp(&base, dp)
}

impl Candle<Option<Dec>> {
    /// Converts the candle to its decimal representation: the timestamp is
    /// copied untouched; every price and volume field is rounded half-to-even
    /// to `precision` fractional digits, a field without a decimal reading
    /// becoming zero rather than an error.
    pub fn to_decimal(&self, precision: u32) -> (r: Candle<Dec>)
        requires
            self.wf(),
        ensures
            r == spec_to_decimal(*self, precision),
            r.timestamp == self.timestamp,
            self.open is None ==> r.open == (Dec { mantissa: 0, scale: 0 }),
            self.high is None ==> r.high == (Dec { mantissa: 0, scale: 0 }),
            self.low is None ==> r.low == (Dec { mantissa: 0, scale: 0 }),
            self.close is None ==> r.close == (Dec { mantissa: 0, scale: 0 }),
            self.volume is None ==> r.volume == (Dec { mantissa: 0, scale: 0 }),
            r.open.scale <= precision && r.high.scale <= precision && r.low.scale <= precision
                && r.close.scale <= precision && r.volume.scale <= precision,
    {
        Candle {
            timestamp: self.timestamp,
            open: field_to_decimal(&self.open, precision),
            high: field_to_decimal(&self.high, precision),
            low: field_to_decimal(&self.low, precision),
            close: field_to_decimal(&self.close, precision),
            volume: field_to_decimal(&self.volume, precision),
        }
    }
}

} // verus!
