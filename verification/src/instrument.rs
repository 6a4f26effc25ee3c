use vstd::prelude::*;

use crate::bonds::BondIssuer;
use crate::commodities::CommodityName;
use crate::crypto::CryptoName;
use crate::forex::CurrencyName;
use crate::names::{lower_text, split_words, NameFromEnum};
use crate::orders::OrderKind;
use crate::stocks::Company;

verus! {

/// A tradable instrument: a stock, a bond, a currency, a commodity or a coin.
#[derive(Clone, Copy, Debug, PartialEq, Eq, Structural)]
pub enum InstrumentKind {
    Stock(Company),
    Bond(BondIssuer),
    Forex(CurrencyName),
    Commodity(CommodityName),
    Crypto(CryptoName),
}

impl InstrumentKind {
    /// The identifier of the company, issuer, currency, commodity or coin.
    pub open spec fn name_ident(self) -> Seq<char> {
        match self {
            InstrumentKind::Stock(name) => name.spec_ident(),
            InstrumentKind::Bond(issuer) => issuer.issuer_ident(),
            InstrumentKind::Forex(name) => name.spec_ident(),
            InstrumentKind::Commodity(name) => name.spec_ident(),
            InstrumentKind::Crypto(name) => name.spec_ident(),
        }
    }

    /// The lower-case name: that of the underlying, followed by " bond" for a bond.
    pub open spec fn spec_lowername(self) -> Seq<char> {
        match self {
            InstrumentKind::Bond(_) => lower_text(split_words(self.name_ident())) + " bond"@,
            _ => lower_text(split_words(self.name_ident())),
        }
    }

    /// The name of the instrument, e.g. "Goldman Sachs".
    pub fn name(&self) -> (r: String)
        ensures
            r@ == split_words(self.name_ident()),
    {
        match self {
            InstrumentKind::Stock(name) => name.to_name(),
            InstrumentKind::Bond(name) => name.to_name(),
            InstrumentKind::Forex(name) => name.to_name(),
            InstrumentKind::Commodity(name) => name.to_name(),
            InstrumentKind::Crypto(name) => name.to_name(),
        }
    }

    /// The lower-case name of the instrument, e.g. "goldman sachs bond".
    pub fn lowername(&self) -> (r: String)
        ensures
            r@ == self.spec_lowername(),
    {
        match self {
            InstrumentKind::Stock(name) => name.to_lowername(),
            InstrumentKind::Bond(name) => name.to_lowername(),
            InstrumentKind::Forex(name) => name.to_lowername(),
            InstrumentKind::Commodity(name) => name.to_lowername(),
            InstrumentKind::Crypto(name) => name.to_lowername(),
        }
    }

    /// The kinds of order that can be placed on the instrument.
    pub open spec fn spec_order_options(self) -> Seq<OrderKind> {
        match self {
            InstrumentKind::Bond(_) => seq![OrderKind::MarketOrder],
            InstrumentKind::Forex(_) => seq![
                OrderKind::MarketOrder,
                OrderKind::LimitOrder,
                OrderKind::TrailingOrder,
            ],
            InstrumentKind::Commodity(_) => seq![
                OrderKind::MarketOrder,
                OrderKind::LimitOrder,
                OrderKind::TrailingOrder,
                OrderKind::ShortSell,
            ],
            InstrumentKind::Crypto(_) => seq![
                OrderKind::MarketOrder,
                OrderKind::LimitOrder,
                OrderKind::TrailingOrder,
            ],
            InstrumentKind::Stock(_) => OrderKind::spec_all(),
        }
    }

    /// The kinds of order that can be placed on the instrument: every kind for a
    /// stock, market orders only for a bond.
    pub fn order_options(&self) -> (r: Vec<OrderKind>)
        ensures
            r@ == self.spec_order_options(),
    {
        let mut r: Vec<OrderKind> = Vec::new();
        match self {
            InstrumentKind::Bond(_) => {
                r.push(OrderKind::MarketOrder);
            },
            InstrumentKind::Forex(_) => {
                r.push(OrderKind::MarketOrder);
                r.push(OrderKind::LimitOrder);
                r.push(OrderKind::TrailingOrder);
            },
            InstrumentKind::Commodity(_) => {
                r.push(OrderKind::MarketOrder);
                r.push(OrderKind::LimitOrder);
                r.push(OrderKind::TrailingOrder);
                r.push(OrderKind::ShortSell);
            },
            InstrumentKind::Crypto(_) => {
                r.push(OrderKind::MarketOrder);
                r.push(OrderKind::LimitOrder);
                r.push(OrderKind::TrailingOrder);
            },
            InstrumentKind::Stock(_) => {
                r = OrderKind::all();
            },
        }
        proof {
            assert(r@ =~= self.spec_order_options());
        }
        r
    }

    /// Whether the instrument is a stock.
    pub fn is_stock(&self) -> (r: bool)
        ensures
            r == (self is Stock),
    {
        matches!(self, InstrumentKind::Stock(_))
    }

    /// Whether the instrument is a bond.
    pub fn is_bond(&self) -> (r: bool)
        ensures
            r == (self is Bond),
    {
        matches!(self, InstrumentKind::Bond(_))
    }

    /// Whether the instrument is a commodity.
    pub fn is_commodity(&self) -> (r: bool)
        ensures
            r == (self is Commodity),
    {
        matches!(self, InstrumentKind::Commodity(_))
    }

    /// Whether the instrument is a coin.
    pub fn is_crypto(&self) -> (r: bool)
        ensures
            r == (self is Crypto),
    {
        matches!(self, InstrumentKind::Crypto(_))
    }
}

} // verus!
