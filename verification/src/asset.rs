use vstd::prelude::*;

verus! {

use vstd::string::StringExecFns;

/// The direction of an order: buy or sell.
///
/// A closed set compared by value; exactly one value per order, no default.
#[allow(non_camel_case_types)]
#[derive(Debug, Clone, Copy, PartialEq, Eq, Structural)]
pub enum Side {
    BUY,
    SELL,
}

/// How long an order stays active and how partial fills are handled.
///
/// A closed set compared by value.
#[allow(non_camel_case_types)]
#[derive(Debug, Clone, Copy, PartialEq, Eq, Structural)]
pub enum TimeInForce {
    /// Good till cancelled: the order rests until explicitly withdrawn.
    GTC,
    /// Immediate or cancel: fill what is available now, discard the rest.
    IOC,
    /// Fill or kill: fill completely at once, or not at all.
    FOK,
}

/// What an asset shows through the `TradableAsset` accessors: its ticker
/// symbol, display name and free-text description.
pub struct AssetView {
    pub ticker: Seq<char>,
    pub name: Seq<char>,
    pub description: Seq<char>,
}

/// Any asset that can be traded.
///
/// Implementers hold their three text attributes immutably after
/// construction, so a value may be shared freely, across threads included:
/// the accessors are pure reads and no synchronization is needed.
pub trait TradableAsset: Send + Sync {
    /// The three observable attributes of this asset.
    spec fn asset(&self) -> AssetView;

    /// The asset's trading symbol, e.g. "AAPL".
    fn ticker(&self) -> (r: &str)
        ensures
            r@ == self.asset().ticker,
    ;

    /// The asset's human-readable display name.
    fn name(&self) -> (r: &str)
        ensures
            r@ == self.asset().name,
    ;

    /// A free-text description of the asset.
    fn description(&self) -> (r: &str)
        ensures
            r@ == self.asset().description,
    ;
}

/// An equity.
#[derive(Debug, Clone)]
pub struct Stock {
    ticker: String,
    name: String,
    description: String,
}

/// A cryptocurrency. Same shape as `Stock`, kept distinct because the two
/// kinds of asset are expected to grow different behavior.
#[derive(Debug, Clone)]
pub struct Crypto {
    ticker: String,
    name: String,
    description: String,
}

impl Stock {
    /// Builds a stock holding owned copies of the three fields, unmodified.
    pub fn new(ticker: &str, name: &str, description: &str) -> (s: Self)
        ensures
            s.asset().ticker == ticker@,
            s.asset().name == name@,
            s.asset().description == description@,
    {
        Stock {
            ticker: String::from_str(ticker),
            name: String::from_str(name),
            description: String::from_str(description),
        }
    }
}

impl TradableAsset for Stock {
    closed spec fn asset(&self) -> AssetView {
        AssetView { ticker: self.ticker@, name: self.name@, description: self.description@ }
    }

    fn ticker(&self) -> &str {
        self.ticker.as_str()
    }

    fn name(&self) -> &str {
        self.name.as_str()
    }

    fn description(&self) -> &str {
        self.description.as_str()
    }
}

impl Crypto {
    /// Builds a cryptocurrency holding owned copies of the three fields,
    /// unmodified.
    pub fn new(ticker: &str, name: &str, description: &str) -> (c: Self)
        ensures
            c.asset().ticker == ticker@,
            c.asset().name == name@,
            c.asset().description == description@,
    {
        Crypto {
            ticker: String::from_str(ticker),
            name: String::from_str(name),
            description: String::from_str(description),
        }
    }
}

impl TradableAsset for Crypto {
    closed spec fn asset(&self) -> AssetView {
        AssetView { ticker: self.ticker@, name: self.name@, description: self.description@ }
    }

    fn ticker(&self) -> &str {
        self.ticker.as_str()
    }

    fn name(&self) -> &str {
        self.name.as_str()
    }

    fn description(&self) -> &str {
        self.description.as_str()
    }
}

/// Round-trip identity: an asset whose observable attributes are the triple
/// `(t, n, d)` — as a freshly constructed `Stock` or `Crypto` is, by the
/// contract of `new` — hands back through the accessor contracts exactly
/// those three values, unmodified.
pub proof fn lemma_round_trip<A: TradableAsset>(a: &A, t: Seq<char>, n: Seq<char>, d: Seq<char>)
    requires
        a.asset() == (AssetView { ticker: t, name: n, description: d }),
    ensures
        a.asset().ticker == t,
        a.asset().name == n,
        a.asset().description == d,
{
}

/// Two assets with identical observable attributes are observably
/// equivalent through the capability, even if they are distinct instances
/// of distinct concrete types: each accessor is specified to return the
/// same text for both.
pub proof fn lemma_equal_fields_equivalent<A: TradableAsset, B: TradableAsset>(a: &A, b: &B)
    requires
        a.asset() == b.asset(),
    ensures
        a.asset().ticker == b.asset().ticker,
        a.asset().name == b.asset().name,
        a.asset().description == b.asset().description,
{
}

/// `Side` is a closed two-value set: buy and sell differ, and every side
/// `s` is one of the two — so each value equals only itself.
pub proof fn lemma_side_closed(s: Side)
    ensures
        Side::BUY != Side::SELL,
        s == Side::BUY || s == Side::SELL,
{
    match s {
        Side::BUY => {},
        Side::SELL => {},
    }
}

/// `TimeInForce` is a closed three-value set: the three policies are
/// pairwise distinct, and every value `t` is one of the three.
pub proof fn lemma_time_in_force_closed(t: TimeInForce)
    ensures
        TimeInForce::GTC != TimeInForce::IOC,
        TimeInForce::GTC != TimeInForce::FOK,
        TimeInForce::IOC != TimeInForce::FOK,
        t == TimeInForce::GTC || t == TimeInForce::IOC || t == TimeInForce::FOK,
{
    match t {
        TimeInForce::GTC => {},
        TimeInForce::IOC => {},
        TimeInForce::FOK => {},
    }
}

} // verus!
