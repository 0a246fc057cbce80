use vstd::prelude::*;

use crate::args::CallArgument;
use crate::candle::{spec_to_decimal, Candle, DecodeError};
use crate::decimal::Dec;

verus! {

/// The first value bound to `key` in an association list, scanned from the
/// front. This is the mathematical reading of every keyed lookup below.
pub open spec fn assoc<V>(entries: Seq<(String, V)>, key: Seq<char>) -> Option<V>
    decreases entries.len(),
{
    if entries.len() == 0 {
        None
    } else if entries[0].0@ == key {
        Some(entries[0].1)
    } else {
        assoc(entries.skip(1), key)
    }
}

/// No two entries of the list bind the same key.
pub open spec fn unique_keys<V>(entries: Seq<(String, V)>) -> bool {
    forall|i: int, j: int|
        0 <= i < j < entries.len() ==> (#[trigger] entries[i]).0@ != (#[trigger] entries[j]).0@
}

proof fn lemma_assoc_skip<V>(entries: Seq<(String, V)>, key: Seq<char>, i: int)
    requires
        0 <= i <= entries.len(),
        forall|j: int| 0 <= j < i ==> (#[trigger] entries[j]).0@ != key,
    ensures
        assoc(entries, key) == assoc(entries.skip(i), key),
    decreases i,
{
    if i > 0 {
        assert(entries[0].0@ != key);
        assert forall|j: int| 0 <= j < i - 1 implies (#[trigger] entries.skip(1)[j]).0@ != key by {
            assert(entries.skip(1)[j] == entries[j + 1]);
        }
        lemma_assoc_skip(entries.skip(1), key, i - 1);
        assert(entries.skip(1).skip(i - 1) =~= entries.skip(i));
    } else {
        assert(entries.skip(0) =~= entries);
    }
}

/// Finds the value bound to `key`, scanning the entries from the front.
fn find_entry<'a, V>(entries: &'a Vec<(String, V)>, key: &str) -> (r: Option<&'a V>)
    ensures
        r matches Some(v) ==> assoc(entries@, key@) == Some(*v),
        r is None <==> assoc(entries@, key@) is None,
        r matches Some(v) ==> exists|i: int|
            0 <= i < entries@.len() && (#[trigger] entries@[i]).0@ == key@ && entries@[i].1 == *v,
{
    let owned: String = key.to_owned();
    let mut i: usize = 0;
    while i < entries.len()
        invariant
            i <= entries@.len(),
            owned@ == key@,
            forall|j: int| 0 <= j < i ==> (#[trigger] entries@[j]).0@ != key@,
        decreases entries@.len() - i,
    {
        if entries[i].0 == owned {
            proof {
                lemma_assoc_skip(entries@, key@, i as int);
                assert(entries@.skip(i as int)[0] == entries@[i as int]);
            }
            return Some(&entries[i].1);
        }
        i += 1;
    }
    proof {
        lemma_assoc_skip(entries@, key@, entries@.len() as int);
    }
    None
}

/// Checks that no key occurs twice in the entry list.
fn keys_unique<V>(entries: &Vec<(String, V)>) -> (r: bool)
    ensures
        r == unique_keys(entries@),
{
    let mut i: usize = 0;
    while i < entries.len()
        invariant
            i <= entries@.len(),
            forall|p: int, q: int|
                0 <= p < q < entries@.len() && p < i ==> (#[trigger] entries@[p]).0@ != (
                #[trigger] entries@[q]).0@,
        decreases entries@.len() - i,
    {
        let mut j: usize = i + 1;
        while j < entries.len()
            invariant
                i < j <= entries@.len(),
                i < entries@.len(),
                forall|q: int| i < q < j ==> (#[trigger] entries@[q]).0@ != entries@[i as int].0@,
            decreases entries@.len() - j,
        {
            if entries[i].0 == entries[j].0 {
                return false;
            }
            j += 1;
        }
        i += 1;
    }
    true
}

/// The decoded payload for one symbol: its exchange, the candles in the
/// order received, and the count of fractional digits kept when converting
/// the candles to decimals.
#[derive(Clone, Debug)]
pub struct TickersData {
    pub symbol: String,
    pub exchange: String,
    pub candles: Vec<Candle<Option<Dec>>>,
    pub precision: u32,
}

impl TickersData {
    /// A representable ticker: every candle is representable.
    pub open spec fn wf(self) -> bool {
        forall|i: int| 0 <= i < self.candles@.len() ==> (#[trigger] self.candles@[i]).wf()
    }

    /// The decimal view of the ticker: every candle converted with this
    /// ticker's own precision, in the original order.
    pub open spec fn decimal_view(self) -> Seq<Candle<Dec>> {
        self.candles@.map(|i: int, c: Candle<Option<Dec>>| spec_to_decimal(c, self.precision))
    }

    /// The candles as received, in their original order.
    pub fn get_candles(&self) -> (r: &Vec<Candle<Option<Dec>>>)
        ensures
            r@ == self.candles@,
    {
        &self.candles
    }

    /// The candles converted to decimals with this ticker's precision.
    /// Nothing is cached: every call recomputes the conversions.
    pub fn get_candles_decimal(&self) -> (r: Vec<Candle<Dec>>)
        requires
            self.wf(),
        ensures
            r@ == self.decimal_view(),
            r@.len() == self.candles@.len(),
            forall|i: int|
                0 <= i < r@.len() ==> r@[i] == spec_to_decimal(self.candles@[i], self.precision),
    {
        let mut out: Vec<Candle<Dec>> = Vec::new();
        let mut i: usize = 0;
        while i < self.candles.len()
            invariant
                i <= self.candles@.len(),
                self.wf(),
                out@.len() == i,
                forall|j: int|
                    0 <= j < i ==> out@[j] == spec_to_decimal(self.candles@[j], self.precision),
            decreases self.candles@.len() - i,
        {
            let c = self.candles[i].to_decimal(self.precision);
            out.push(c);
            i += 1;
        }
        proof {
            assert(out@ =~= self.decimal_view());
        }
        out
    }
}

/// Law: the decimal accessor keeps the candle order — the converted sequence
/// has exactly one element for each source candle, at the same index, and
/// that element is the conversion of the source candle standing there.
pub proof fn lemma_decimal_order_preserved(t: TickersData)
    ensures
        t.decimal_view().len() == t.candles@.len(),
        forall|i: int|
            0 <= i < t.candles@.len() ==> t.decimal_view()[i] == spec_to_decimal(
                t.candles@[i],
                t.precision,
            ),
{
}

/// Which lookup surface a missed key belongs to.
#[derive(Clone, Copy, PartialEq, Eq, Structural, Debug)]
pub enum LookupKind {
    Symbol,
    PipeSource,
    Ticker,
    Argument,
}

/// A failed lookup: either the key is absent from the queried mapping, or
/// the text bound to it does not parse as the requested type.
#[derive(Clone, Debug)]
pub enum LookupError {
    NotFound { kind: LookupKind, key: String },
    ParseError { key: String },
}

/// Does `e` report a missing key of the given kind?
pub open spec fn is_not_found(e: LookupError, kind: LookupKind, key: Seq<char>) -> bool {
    match e {
        LookupError::NotFound { kind: k, key: s } => k == kind && s@ == key,
        LookupError::ParseError { .. } => false,
    }
}

/// Does `e` report that the text bound to `key` did not parse?
pub open spec fn is_parse_error(e: LookupError, key: Seq<char>) -> bool {
    match e {
        LookupError::ParseError { key: s } => s@ == key,
        LookupError::NotFound { .. } => false,
    }
}

impl LookupError {
    /// The numeric code of the failure: 1 for a missing symbol, 2 for a
    /// missing pipe source, 3 for a missing ticker, 4 for a missing call
    /// argument and 5 for one that did not parse.
    pub open spec fn spec_code(self) -> u32 {
        match self {
            LookupError::NotFound { kind, .. } => match kind {
                LookupKind::Symbol => 1u32,
                LookupKind::PipeSource => 2u32,
                LookupKind::Ticker => 3u32,
                LookupKind::Argument => 4u32,
            },
            LookupError::ParseError { .. } => 5u32,
        }
    }

    /// The numeric code of the failure.
    pub fn code(&self) -> (c: u32)
        ensures
            c == self.spec_code(),
    {
        match self {
            LookupError::NotFound { kind, .. } => match kind {
                LookupKind::Symbol => 1,
                LookupKind::PipeSource => 2,
                LookupKind::Ticker => 3,
                LookupKind::Argument => 4,
            },
            LookupError::ParseError { .. } => 5,
        }
    }

    /// The key whose lookup failed.
    pub fn key(&self) -> (k: &String)
        ensures
            is_not_found(*self, LookupKind::Symbol, k@) || is_not_found(
                *self,
                LookupKind::PipeSource,
                k@,
            ) || is_not_found(*self, LookupKind::Ticker, k@) || is_not_found(
                *self,
                LookupKind::Argument,
                k@,
            ) || is_parse_error(*self, k@),
    {
        match self {
            LookupError::NotFound { key, .. } => key,
            LookupError::ParseError { key } => key,
        }
    }
}

/// The whole decoded request payload: the per-symbol ticker data, the raw
/// piped texts, and the raw call arguments, each an association list with
/// unique keys, fixed once at decode time.
#[derive(Clone, Debug)]
pub struct FinData {
    pub tickers_data: Vec<(String, TickersData)>,
    pub piped_data: Vec<(String, String)>,
    pub call_arguments: Vec<(String, String)>,
}

impl FinData {
    /// A representable payload: no mapping binds a key twice, and every
    /// ticker is representable.
    pub open spec fn wf(self) -> bool {
        &&& unique_keys(self.tickers_data@)
        &&& unique_keys(self.piped_data@)
        &&& unique_keys(self.call_arguments@)
        &&& forall|i: int|
            0 <= i < self.tickers_data@.len() ==> (#[trigger] self.tickers_data@[i]).1.wf()
    }

    /// Builds the payload from its three decoded entry lists, atomically:
    /// it is rejected whole when any list binds one key twice.
    pub fn from_entries(
        tickers_data: Vec<(String, TickersData)>,
        piped_data: Vec<(String, String)>,
        call_arguments: Vec<(String, String)>,
    ) -> (r: Result<FinData, DecodeError>)
        requires
            forall|i: int| 0 <= i < tickers_data@.len() ==> (#[trigger] tickers_data@[i]).1.wf(),
        ensures
            r is Ok <==> unique_keys(tickers_data@) && unique_keys(piped_data@) && unique_keys(
                call_arguments@,
            ),
            r matches Ok(f) ==> f == (FinData { tickers_data, piped_data, call_arguments }),
            r matches Ok(f) ==> f.wf(),
            r matches Err(e) ==> e == DecodeError::DuplicateKey,
    {
        if !keys_unique(&tickers_data) || !keys_unique(&piped_data) || !keys_unique(
            &call_arguments,
        ) {
            return Err(DecodeError::DuplicateKey);
        }
        Ok(FinData { tickers_data, piped_data, call_arguments })
    }

    /// All symbol labels present, in decode order.
    pub fn get_labels(&self) -> (r: Vec<String>)
        ensures
            r@.len() == self.tickers_data@.len(),
            forall|i: int| 0 <= i < r@.len() ==> r@[i]@ == (#[trigger] self.tickers_data@[i]).0@,
    {
        let mut out: Vec<String> = Vec::new();
        let mut i: usize = 0;
        while i < self.tickers_data.len()
            invariant
                i <= self.tickers_data@.len(),
                out@.len() == i,
                forall|j: int| 0 <= j < i ==> out@[j]@ == (#[trigger] self.tickers_data@[j]).0@,
            decreases self.tickers_data@.len() - i,
        {
            out.push(self.tickers_data[i].0.clone());
            i += 1;
        }
        out
    }

    /// The candles received for `label`, or a not-found failure naming the
    /// missing symbol.
    pub fn get_candles(&self, label: &str) -> (r: Result<&Vec<Candle<Option<Dec>>>, LookupError>)
        ensures
            r is Ok <==> assoc(self.tickers_data@, label@) is Some,
            r matches Ok(v) ==> (assoc(self.tickers_data@, label@) matches Some(t) && v@
                == t.candles@),
            r matches Err(e) ==> is_not_found(e, LookupKind::Symbol, label@),
    {
        match find_entry(&self.tickers_data, label) {
            Some(t) => Ok(&t.candles),
            None => Err(
                LookupError::NotFound { kind: LookupKind::Symbol, key: label.to_owned() },
            ),
        }
    }

    /// All pipe source names present, in decode order.
    pub fn get_pipe_sources(&self) -> (r: Vec<String>)
        ensures
            r@.len() == self.piped_data@.len(),
            forall|i: int| 0 <= i < r@.len() ==> r@[i]@ == (#[trigger] self.piped_data@[i]).0@,
    {
        let mut out: Vec<String> = Vec::new();
        let mut i: usize = 0;
        while i < self.piped_data.len()
            invariant
                i <= self.piped_data@.len(),
                out@.len() == i,
                forall|j: int| 0 <= j < i ==> out@[j]@ == (#[trigger] self.piped_data@[j]).0@,
            decreases self.piped_data@.len() - i,
        {
            out.push(self.piped_data[i].0.clone());
            i += 1;
        }
        out
    }

    /// The raw text piped in from `source`, or a not-found failure naming
    /// the missing source.
    pub fn get_data_from_pipe(&self, source: &str) -> (r: Result<&String, LookupError>)
        ensures
            r is Ok <==> assoc(self.piped_data@, source@) is Some,
            r matches Ok(v) ==> assoc(self.piped_data@, source@) == Some(*v),
            r matches Err(e) ==> is_not_found(e, LookupKind::PipeSource, source@),
    {
        match find_entry(&self.piped_data, source) {
            Some(v) => Ok(v),
            None => Err(
                LookupError::NotFound { kind: LookupKind::PipeSource, key: source.to_owned() },
            ),
        }
    }

    /// The whole ticker record for `label`, or a not-found failure naming
    /// the missing ticker.
    pub fn get_ticker(&self, label: &str) -> (r: Result<&TickersData, LookupError>)
        ensures
            r is Ok <==> assoc(self.tickers_data@, label@) is Some,
            r matches Ok(t) ==> assoc(self.tickers_data@, label@) == Some(*t),
            r matches Err(e) ==> is_not_found(e, LookupKind::Ticker, label@),
            self.wf() ==> (r matches Ok(t) ==> t.wf()),
    {
        match find_entry(&self.tickers_data, label) {
            Some(t) => Ok(t),
            None => Err(
                LookupError::NotFound { kind: LookupKind::Ticker, key: label.to_owned() },
            ),
        }
    }

    /// The candles for `label` converted to decimals, the precision taken
    /// from that ticker, or a not-found failure naming the missing ticker.
    pub fn get_candles_decimal(&self, label: &str) -> (r: Result<Vec<Candle<Dec>>, LookupError>)
        requires
            self.wf(),
        ensures
            r is Ok <==> assoc(self.tickers_data@, label@) is Some,
            r matches Ok(v) ==> (assoc(self.tickers_data@, label@) matches Some(t) && v@
                == t.decimal_view()),
            r matches Err(e) ==> is_not_found(e, LookupKind::Ticker, label@),
    {
        match self.get_ticker(label) {
            Ok(t) => Ok(t.get_candles_decimal()),
            Err(e) => Err(e),
        }
    }

    /// The raw call-argument mapping, read-only.
    pub fn get_call_arguments(&self) -> (r: &Vec<(String, String)>)
        ensures
            r@ == self.call_arguments@,
    {
        &self.call_arguments
    }

    /// The call argument under `key`, parsed into the requested type. A
    /// missing key gives a not-found failure and text that does not parse
    /// gives a parse failure, each naming the key.
    pub fn get_call_argument<T: CallArgument>(&self, key: &str) -> (r: Result<T, LookupError>)
        ensures
            r is Ok <==> (assoc(self.call_arguments@, key@) matches Some(v) && T::parse_ok(v@)),
            r matches Ok(t) ==> (assoc(self.call_arguments@, key@) matches Some(v)
                && t.text_parses_to(v@)),
            assoc(self.call_arguments@, key@) is None ==> (r matches Err(e) && is_not_found(
                e,
                LookupKind::Argument,
                key@,
            )),
            (assoc(self.call_arguments@, key@) matches Some(v) && !T::parse_ok(v@)) ==> (r matches
                Err(e) && is_parse_error(e, key@)),
    {
        let text = match find_entry(&self.call_arguments, key) {
            Some(v) => v,
            None => {
                return Err(
                    LookupError::NotFound { kind: LookupKind::Argument, key: key.to_owned() },
                );
            },
        };
        match T::parse_arg(text.as_str()) {
            Some(v) => Ok(v),
            None => Err(LookupError::ParseError { key: key.to_owned() }),
        }
    }
}

} // verus!
