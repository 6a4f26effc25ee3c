use vstd::prelude::*;

use crate::names::{first_word, split_words, NameFromEnum};

verus! {

/// The description of MarketOrder.
pub const ORDER_MARKET_ORDER: &'static str = "Buy or sell an instrument at the current market price.";

/// The description of LimitOrder.
pub const ORDER_LIMIT_ORDER: &'static str = "Set a specific price to buy or sell an instrument. The order automatically \
    executes when the instrument reaches that price. If there isn't enough cash \
    to buy or instruments to sell at the time of execution, the order is cancelled.";

/// The description of TrailingOrder.
pub const ORDER_TRAILING_ORDER: &'static str = "A trailing order is a stop order that automatically follows (or trails) the \
    market once the price of an instrument has begun moving in a favourable direction. \
    If the market later reverses direction, the stop price remains fixed, and the \
    order is executed when the limit price is reached. If there isn't enough cash \
    to buy or instruments to sell at the time of execution, the order is cancelled.";

/// The description of ShortSell.
pub const ORDER_SHORT_SELL: &'static str = "Short selling is a trading strategy where an investor bets against an instrument, \
    expecting its price to decline. First, the investor borrows shares from a broker \
    and immediately sells them at the current market price. If the stock price drops, \
    the investor can buy the shares back at a lower price and return them to the \
    broker, pocketing the difference as profit. The investor pays interest during \
    the time the shares are borrowed. If the stock price rises, the investor must \
    buy back the shares at a higher price, resulting in a loss.";

/// The description of Futures.
pub const ORDER_FUTURES: &'static str = "Financial contracts to buy or sell instruments against a predetermined price \
    in the future. Buying a future (going long) automatically buys the underlying \
    instrument for the strike price at the maturity date. Selling a future (going \
    short) provides immediate cash and the obligation to deliver the underlying \
    instrument at the strike price at the maturity date. If the underlying instrument \
    is not owned, it's automatically bought at the current market price and it greatly \
    reduces the credit score.\n\n\
    Note that buying and selling the same amount of futures don't 'cancel' each other \
    out due to the different maturity dates. Futures in this game are hold-to-maturity \
    only, meaning that they can't be traded before the maturity date.";

/// The description of Options.
pub const ORDER_OPTIONS: &'static str = "Financial contracts that grant the right, but not the obligation, to buy or sell \
    instruments at a predetermined price at the maturity date. Buying a call option \
    gives the right to buy the underlying instrument at the strike price, while buying \
    a put option gives the right to sell it. Selling (writing) an option provides \
    immediate cash but creates a contingent obligation if the option is exercised by \
    the buyer.\n\n\
    Unlike futures, options can expire worthless if market prices don't reach favorable \
    levels, making them less risky for buyers but riskier for sellers. Exercising an \
    option automatically executes the corresponding buy or sell transaction at the \
    strike price. If the necessary instruments aren't available, they are acquired at \
    the current market price and the credit score is greatly reduced.\n\n\
    In this game, all options are European-style and hold-to-maturity only — they can \
    only be exercised at the maturity date and cannot be traded once purchased.";

/// The kinds of order the player can place.
#[derive(Clone, Copy, Debug, PartialEq, Eq, Structural)]
pub enum OrderKind {
    MarketOrder,
    LimitOrder,
    TrailingOrder,
    ShortSell,
    Futures,
    Options,
}

impl NameFromEnum for OrderKind {
    open spec fn spec_ident(&self) -> Seq<char> {
        match self {
            OrderKind::MarketOrder => "MarketOrder"@,
            OrderKind::LimitOrder => "LimitOrder"@,
            OrderKind::TrailingOrder => "TrailingOrder"@,
            OrderKind::ShortSell => "ShortSell"@,
            OrderKind::Futures => "Futures"@,
            OrderKind::Options => "Options"@,
        }
    }

    fn ident(&self) -> (r: &'static str) {
        match self {
            OrderKind::MarketOrder => "MarketOrder",
            OrderKind::LimitOrder => "LimitOrder",
            OrderKind::TrailingOrder => "TrailingOrder",
            OrderKind::ShortSell => "ShortSell",
            OrderKind::Futures => "Futures",
            OrderKind::Options => "Options",
        }
    }
}

impl OrderKind {
    pub open spec fn spec_emoji(self) -> &'static str {
        match self {
            OrderKind::MarketOrder => "🏪",
            OrderKind::LimitOrder => "♾",
            OrderKind::TrailingOrder => "🚶‍",
            OrderKind::ShortSell => "📉",
            OrderKind::Futures => "⏱",
            OrderKind::Options => "📝",
        }
    }

    /// The icon of the kind of order.
    pub fn emoji(&self) -> (r: &'static str)
        ensures
            r == self.spec_emoji(),
    {
        match self {
            OrderKind::MarketOrder => "🏪",
            OrderKind::LimitOrder => "♾",
            OrderKind::TrailingOrder => "🚶‍",
            OrderKind::ShortSell => "📉",
            OrderKind::Futures => "⏱",
            OrderKind::Options => "📝",
        }
    }

    /// The first word of the name, e.g. "Market" for a market order.
    pub fn abbr(&self) -> (r: String)
        ensures
            r@ == first_word(split_words(self.spec_ident())),
    {
        crate::names::first_word_of(self.to_name().as_str())
    }

    /// Whether the order is a future or an option.
    pub fn is_derivative(&self) -> (r: bool)
        ensures
            r == (*self == OrderKind::Futures || *self == OrderKind::Options),
    {
        matches!(self, OrderKind::Futures | OrderKind::Options)
    }

    /// Whether the order is a short sale, a future or an option.
    pub fn is_short_derivative(&self) -> (r: bool)
        ensures
            r == (*self == OrderKind::ShortSell || *self == OrderKind::Futures || *self
                == OrderKind::Options),
    {
        matches!(self, OrderKind::ShortSell | OrderKind::Futures | OrderKind::Options)
    }

    pub open spec fn spec_description(self) -> &'static str {
        match self {
            OrderKind::MarketOrder => ORDER_MARKET_ORDER,
            OrderKind::LimitOrder => ORDER_LIMIT_ORDER,
            OrderKind::TrailingOrder => ORDER_TRAILING_ORDER,
            OrderKind::ShortSell => ORDER_SHORT_SELL,
            OrderKind::Futures => ORDER_FUTURES,
            OrderKind::Options => ORDER_OPTIONS,
        }
    }

    /// How the order works.
    pub fn description(&self) -> (r: &'static str)
        ensures
            r == self.spec_description(),
    {
        match self {
            OrderKind::MarketOrder => ORDER_MARKET_ORDER,
            OrderKind::LimitOrder => ORDER_LIMIT_ORDER,
            OrderKind::TrailingOrder => ORDER_TRAILING_ORDER,
            OrderKind::ShortSell => ORDER_SHORT_SELL,
            OrderKind::Futures => ORDER_FUTURES,
            OrderKind::Options => ORDER_OPTIONS,
        }
    }

    pub open spec fn spec_all() -> Seq<OrderKind> {
        seq![OrderKind::MarketOrder, OrderKind::LimitOrder, OrderKind::TrailingOrder, OrderKind::ShortSell, OrderKind::Futures, OrderKind::Options]
    }

    /// Every variant, in declaration order.
    pub fn all() -> (r: Vec<OrderKind>)
        ensures
            r@ == Self::spec_all(),
    {
        let mut r: Vec<OrderKind> = Vec::new();
        r.push(OrderKind::MarketOrder);
        r.push(OrderKind::LimitOrder);
        r.push(OrderKind::TrailingOrder);
        r.push(OrderKind::ShortSell);
        r.push(OrderKind::Futures);
        r.push(OrderKind::Options);
        proof {
            assert(r@ =~= Self::spec_all());
        }
        r
    }
}

impl Default for OrderKind {
    /// A market order.
    fn default() -> (r: Self)
        ensures
            r == OrderKind::MarketOrder,
    {
        OrderKind::MarketOrder
    }
}

/// What an order does with the instrument.
#[derive(Clone, Copy, Debug, PartialEq, Eq, Structural)]
pub enum Command {
    Buy,
    Sell,
    Close,
}

impl NameFromEnum for Command {
    open spec fn spec_ident(&self) -> Seq<char> {
        match self {
            Command::Buy => "Buy"@,
            Command::Sell => "Sell"@,
            Command::Close => "Close"@,
        }
    }

    fn ident(&self) -> (r: &'static str) {
        match self {
            Command::Buy => "Buy",
            Command::Sell => "Sell",
            Command::Close => "Close",
        }
    }
}

/// Shown where a value does not apply.
pub const NA: &'static str = "N/A";

/// The state of an order or a derivative.
#[derive(Clone, Debug)]
pub enum OrderStatus {
    Pending,
    Executed,
    Failed(String),
    Canceled,
}

impl OrderStatus {
    /// Why the order failed, or `NA` when it did not.
    pub fn reason(&self) -> (r: String)
        ensures
            r@ == match self {
                OrderStatus::Failed(reason) => reason@,
                _ => NA@,
            },
    {
        match self {
            OrderStatus::Failed(reason) => reason.clone(),
            _ => String::from_str(NA),
        }
    }

    /// Whether the order still waits to be processed.
    pub fn is_pending(&self) -> (r: bool)
        ensures
            r == (self is Pending),
    {
        matches!(self, OrderStatus::Pending)
    }
}

/// The position of the order with id `id` among the ids of the player's orders: the
/// first whose id is `id`, or `None` when no order has it. Clicking a row of the
/// open orders cancels the order found this way.
pub fn find_by_id(ids: &Vec<String>, id: &String) -> (r: Option<usize>)
    ensures
        match r {
            Some(i) => i < ids@.len() && ids@[i as int]@ == id@ && forall|j: int|
                0 <= j < i ==> (#[trigger] ids@[j])@ != id@,
            None => forall|j: int| 0 <= j < ids@.len() ==> (#[trigger] ids@[j])@ != id@,
        },
{
    let mut i: usize = 0;
    while i < ids.len()
        invariant
            i <= ids@.len(),
            forall|j: int| 0 <= j < i ==> (#[trigger] ids@[j])@ != id@,
        decreases ids@.len() - i,
    {
        if ids[i] == *id {
            return Some(i);
        }
        i = i + 1;
    }
    None
}

} // verus!
