//! Instruments and the identifiers that every exchange integration shares.

use vstd::prelude::*;
use vstd::std_specs::convert::FromSpecImpl;

verus! {

/// The spelling that `barter_integration::model::Symbol::new` stores for an input text:
/// `str::to_lowercase` of it.
pub uninterp spec fn symbol_spelling(input: Seq<char>) -> Seq<char>;

/// Calls `barter_integration::model::Symbol::new` on `input` and hands the stored text
/// back. `Symbol::new` keeps `input.into().to_lowercase()`, which depends on `input`
/// alone; `AsRef<str>` returns that text unchanged.
#[verifier::external_body]
fn symbol_text(input: &str) -> (text: String)
    ensures
        text@ == symbol_spelling(input@),
{
    barter_integration::model::Symbol::new(input).as_ref().to_string()
}

/// Whether `text` is the spelling of a symbol: what [`symbol_spelling`] makes of some
/// input.
pub open spec fn is_symbol(text: Seq<char>) -> bool {
    exists|input: Seq<char>| text == #[trigger] symbol_spelling(input)
}

/// A currency symbol such as `btc` or `usdt`, kept in lower case.
#[derive(Eq, PartialEq, Ord, PartialOrd, Hash, Debug)]
pub struct Symbol(String);

impl View for Symbol {
    type V = Seq<char>;

    closed spec fn view(&self) -> Seq<char> {
        self.0@
    }
}

impl DeepView for Symbol {
    type V = Seq<char>;

    open spec fn deep_view(&self) -> Seq<char> {
        self@
    }
}

impl Clone for Symbol {
    fn clone(&self) -> (symbol: Symbol)
        ensures
            symbol == *self,
    {
        proof {
            use_type_invariant(self);
        }
        Symbol(self.0.clone())
    }
}

impl Symbol {
    /// A symbol holds the spelling of the text it was made from, and no other text.
    #[verifier::type_invariant]
    closed spec fn well_formed(self) -> bool {
        is_symbol(self.0@)
    }

    /// The symbol spelled by `input`, whatever case `input` is written in.
    pub fn new(input: &str) -> (symbol: Symbol)
        ensures
            symbol@ == symbol_spelling(input@),
    {
        Symbol(symbol_text(input))
    }

    /// The symbol's text.
    pub fn as_str(&self) -> (text: &str)
        ensures
            text@ == self@,
            is_symbol(text@),
    {
        proof {
            use_type_invariant(self);
        }
        self.0.as_str()
    }
}

impl<'a> From<&'a str> for Symbol {
    fn from(input: &'a str) -> (symbol: Symbol)
        ensures
            symbol@ == symbol_spelling(input@),
    {
        Symbol::new(input)
    }
}

impl<'a> FromSpecImpl<&'a str> for Symbol {
    /// The contract of `from` says what the conversion gives; no spec function does.
    open spec fn obeys_from_spec() -> bool {
        false
    }

    open spec fn from_spec(input: &'a str) -> Symbol {
        arbitrary()
    }
}

impl From<String> for Symbol {
    fn from(input: String) -> (symbol: Symbol)
        ensures
            symbol@ == symbol_spelling(input@),
    {
        Symbol::new(input.as_str())
    }
}

impl FromSpecImpl<String> for Symbol {
    /// The contract of `from` says what the conversion gives; no spec function does.
    open spec fn obeys_from_spec() -> bool {
        false
    }

    open spec fn from_spec(input: String) -> Symbol {
        arbitrary()
    }
}

/// The class of contract that an instrument is.
#[derive(Copy, Clone, Eq, PartialEq, Ord, PartialOrd, Hash, Debug)]
pub enum InstrumentKind {
    Spot,
    FuturePerpetual,
}

/// Converts `kind` to `barter_integration::model::InstrumentKind` and formats it with that
/// type's `Display`, which writes `spot` for `Spot` and `future_perpetual` for
/// `FuturePerpetual`.
#[verifier::external_body]
fn instrument_kind_text(kind: InstrumentKind) -> (text: String)
    ensures
        text@ == kind.name(),
{
    let kind = match kind {
        InstrumentKind::Spot => barter_integration::model::InstrumentKind::Spot,
        InstrumentKind::FuturePerpetual => {
            barter_integration::model::InstrumentKind::FuturePerpetual
        },
    };
    kind.to_string()
}

impl InstrumentKind {
    /// The kind's name in snake case.
    pub open spec fn name(self) -> Seq<char> {
        match self {
            InstrumentKind::Spot => "spot"@,
            InstrumentKind::FuturePerpetual => "future_perpetual"@,
        }
    }

    /// The kind's name in snake case, as a `String`.
    pub fn to_string(&self) -> (text: String)
        ensures
            text@ == self.name(),
    {
        instrument_kind_text(*self)
    }
}

impl Default for InstrumentKind {
    fn default() -> (kind: InstrumentKind)
        ensures
            kind == InstrumentKind::Spot,
    {
        InstrumentKind::Spot
    }
}

/// What an [`Instrument`] holds, as contracts speak of it.
pub struct InstrumentView {
    pub base: Seq<char>,
    pub quote: Seq<char>,
    pub kind: InstrumentKind,
}

/// A base and quote pair together with the kind of contract traded on it.
#[derive(Eq, PartialEq, Ord, PartialOrd, Hash, Debug)]
pub struct Instrument {
    pub base: Symbol,
    pub quote: Symbol,
    pub kind: InstrumentKind,
}

impl View for Instrument {
    type V = InstrumentView;

    open spec fn view(&self) -> InstrumentView {
        InstrumentView { base: self.base@, quote: self.quote@, kind: self.kind }
    }
}

impl DeepView for Instrument {
    type V = InstrumentView;

    open spec fn deep_view(&self) -> InstrumentView {
        self@
    }
}

impl Clone for Instrument {
    fn clone(&self) -> (instrument: Instrument)
        ensures
            instrument == *self,
    {
        Instrument { base: self.base.clone(), quote: self.quote.clone(), kind: self.kind }
    }
}

impl Instrument {
    /// The instrument with the given base and quote symbols and kind.
    pub fn new<S>(base: S, quote: S, kind: InstrumentKind) -> (instrument: Instrument)
        where
            S: Into<Symbol>,
        ensures
            call_ensures(S::into, (base,), instrument.base),
            call_ensures(S::into, (quote,), instrument.quote),
            instrument.kind == kind,
    {
        Instrument { base: base.into(), quote: quote.into(), kind }
    }
}

impl<S> From<(S, S, InstrumentKind)> for Instrument where S: Into<Symbol> {
    fn from(parts: (S, S, InstrumentKind)) -> (instrument: Instrument)
        ensures
            call_ensures(S::into, (parts.0,), instrument.base),
            call_ensures(S::into, (parts.1,), instrument.quote),
            instrument.kind == parts.2,
    {
        Instrument::new(parts.0, parts.1, parts.2)
    }
}

impl<S> FromSpecImpl<(S, S, InstrumentKind)> for Instrument where S: Into<Symbol> {
    /// The contract of `from` says what the conversion gives; no spec function does.
    open spec fn obeys_from_spec() -> bool {
        false
    }

    open spec fn from_spec(parts: (S, S, InstrumentKind)) -> Instrument {
        arbitrary()
    }
}

/// The key under which one subscription's messages arrive: the exchange's channel and its
/// spelling of the market.
#[derive(Eq, PartialEq, Ord, PartialOrd, Hash, Debug)]
pub struct SubscriptionId(pub String);

impl View for SubscriptionId {
    type V = Seq<char>;

    open spec fn view(&self) -> Seq<char> {
        self.0@
    }
}

impl DeepView for SubscriptionId {
    type V = Seq<char>;

    open spec fn deep_view(&self) -> Seq<char> {
        self@
    }
}

impl Clone for SubscriptionId {
    fn clone(&self) -> (id: SubscriptionId)
        ensures
            id == *self,
    {
        SubscriptionId(self.0.clone())
    }
}

impl SubscriptionId {
    /// The identifier's text.
    pub fn as_str(&self) -> (text: &str)
        ensures
            text@ == self@,
    {
        self.0.as_str()
    }

    /// Whether the two identifiers are the same text.
    pub fn matches(&self, other: &SubscriptionId) -> (same: bool)
        ensures
            same == (self@ == other@),
    {
        self.0 == other.0
    }
}

impl<'a> From<&'a str> for SubscriptionId {
    fn from(input: &'a str) -> (id: SubscriptionId)
        ensures
            id@ == input@,
    {
        SubscriptionId(input.to_owned())
    }
}

impl<'a> FromSpecImpl<&'a str> for SubscriptionId {
    /// The contract of `from` says what the conversion gives; no spec function does.
    open spec fn obeys_from_spec() -> bool {
        false
    }

    open spec fn from_spec(input: &'a str) -> SubscriptionId {
        arbitrary()
    }
}

impl From<String> for SubscriptionId {
    fn from(input: String) -> (id: SubscriptionId)
        ensures
            id == SubscriptionId(input),
    {
        SubscriptionId(input)
    }
}

impl FromSpecImpl<String> for SubscriptionId {
    open spec fn obeys_from_spec() -> bool {
        true
    }

    open spec fn from_spec(input: String) -> SubscriptionId {
        SubscriptionId(input)
    }
}

} // verus!
