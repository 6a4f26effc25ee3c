use vstd::prelude::*;

use crate::derivatives::{DerivativeAction, DerivativeKind, OptionKind};
use crate::orders::{Command, OrderKind};

verus! {

/// What the trade window asks for once one of its buttons was pressed.
#[derive(Clone, Copy, Debug, PartialEq, Eq, Structural)]
pub enum TradeRequest {
    /// A future or an option is entered into.
    Derivative { kind: DerivativeKind, option_kind: OptionKind, action: DerivativeAction },
    /// An order is placed: `amount` is negative for a short sale; `immediate` orders
    /// (market orders and short sales) are executed at once, the others wait for
    /// their price.
    Order { command: Command, amount: i32, immediate: bool },
}

/// The command of the button pressed: a purchase (also of a put option), a sale (also
/// of a call option) or a close; purchases take precedence over sales and sales over
/// closes.
pub open spec fn spec_clicked_command(
    buy: bool,
    buy_put: bool,
    sell: bool,
    sell_call: bool,
    close: bool,
) -> Option<Command> {
    if buy || buy_put {
        Some(Command::Buy)
    } else if sell || sell_call {
        Some(Command::Sell)
    } else if close {
        Some(Command::Close)
    } else {
        None
    }
}

/// What the trade window asks for, given the tab it shows, the buttons pressed and
/// the amount chosen: nothing without a button; on the futures and options tabs a
/// derivative (a put when the put button was pressed to buy or when selling without
/// the call button, a call otherwise; bought on a purchase, sold otherwise); on the
/// other tabs an order for the amount, negated for a short sale. The amount is taken
/// as an `i32` as it stands in memory, so one above `i32::MAX` wraps round.
pub open spec fn spec_trade_request(
    tab: OrderKind,
    buy: bool,
    buy_put: bool,
    sell: bool,
    sell_call: bool,
    close: bool,
    amount: u32,
) -> Option<TradeRequest> {
    match spec_clicked_command(buy, buy_put, sell, sell_call, close) {
        None => None,
        Some(command) => if tab == OrderKind::Futures || tab == OrderKind::Options {
            let option_kind = match command {
                Command::Buy => if buy_put {
                    OptionKind::Put
                } else {
                    OptionKind::Call
                },
                Command::Sell => if sell_call {
                    OptionKind::Call
                } else {
                    OptionKind::Put
                },
                Command::Close => OptionKind::Put,
            };
            Some(
                TradeRequest::Derivative {
                    kind: if tab == OrderKind::Futures {
                        DerivativeKind::Future
                    } else {
                        DerivativeKind::Option
                    },
                    option_kind,
                    action: if command == Command::Buy {
                        DerivativeAction::Bought
                    } else {
                        DerivativeAction::Sold
                    },
                },
            )
        } else {
            Some(
                TradeRequest::Order {
                    command,
                    amount: if tab == OrderKind::ShortSell {
                        -(amount as i32)
                    } else {
                        amount as i32 as int
                    } as i32,
                    immediate: tab == OrderKind::MarketOrder || tab == OrderKind::ShortSell,
                },
            )
        },
    }
}

/// What the trade window asks for (see `spec_trade_request`).
pub fn trade_request(
    tab: OrderKind,
    buy: bool,
    buy_put: bool,
    sell: bool,
    sell_call: bool,
    close: bool,
    amount: u32,
) -> (r: Option<TradeRequest>)
    requires
        tab == OrderKind::ShortSell ==> amount != 0x8000_0000,
    ensures
        r == spec_trade_request(tab, buy, buy_put, sell, sell_call, close, amount),
        (r is None) == !(buy || buy_put || sell || sell_call || close),
        r matches Some(TradeRequest::Order { immediate, .. }) ==> immediate == (tab
            == OrderKind::MarketOrder || tab == OrderKind::ShortSell),
        tab == OrderKind::MarketOrder && amount <= i32::MAX && (buy || buy_put || sell || sell_call
            || close) ==> (r matches Some(TradeRequest::Order { amount: a, immediate, .. }) && a
            == amount && immediate),
{
    let command = if buy || buy_put {
        Command::Buy
    } else if sell || sell_call {
        Command::Sell
    } else if close {
        Command::Close
    } else {
        return None;
    };
    if tab.is_derivative() {
        let option_kind = match command {
            Command::Buy => if buy_put {
                OptionKind::Put
            } else {
                OptionKind::Call
            },
            Command::Sell => if sell_call {
                OptionKind::Call
            } else {
                OptionKind::Put
            },
            Command::Close => OptionKind::Put,
        };
        Some(
            TradeRequest::Derivative {
                kind: if tab == OrderKind::Futures {
                    DerivativeKind::Future
                } else {
                    DerivativeKind::Option
                },
                option_kind,
                action: if command == Command::Buy {
                    DerivativeAction::Bought
                } else {
                    DerivativeAction::Sold
                },
            },
        )
    } else {
        assert(amount != 0x8000_0000u32 ==> (amount as i32) != i32::MIN) by (bit_vector);
        Some(
            TradeRequest::Order {
                command,
                amount: if tab == OrderKind::ShortSell {
                    -(amount as i32)
                } else {
                    amount as i32
                },
                immediate: tab == OrderKind::MarketOrder || tab == OrderKind::ShortSell,
            },
        )
    }
}

/// Every order from the short-sale tab is for the negated amount and executed at
/// once; every order from the limit and trailing tabs is for the amount itself and
/// waits for its price; derivatives come only from the futures and options tabs.
pub proof fn order_amounts_follow_the_tab(
    tab: OrderKind,
    buy: bool,
    buy_put: bool,
    sell: bool,
    sell_call: bool,
    close: bool,
    amount: u32,
)
    requires
        amount <= i32::MAX,
    ensures
        spec_trade_request(tab, buy, buy_put, sell, sell_call, close, amount) matches Some(
            TradeRequest::Order { amount: a, immediate, .. },
        ) ==> (tab == OrderKind::ShortSell ==> a == -amount && immediate) && ((tab
            == OrderKind::LimitOrder || tab == OrderKind::TrailingOrder) ==> a == amount
            && !immediate),
        spec_trade_request(tab, buy, buy_put, sell, sell_call, close, amount) matches Some(
            TradeRequest::Derivative { .. },
        ) ==> tab == OrderKind::Futures || tab == OrderKind::Options,
{
}

/// Which command a button press gives, on every tab: nothing without a button; a
/// purchase when a buy button was pressed; a sale when a sell button was pressed and
/// no buy button; a close otherwise. Every order from the market-order tab is for the
/// amount and executed at once, whatever its command.
pub proof fn presses_give_their_command(
    tab: OrderKind,
    buy: bool,
    buy_put: bool,
    sell: bool,
    sell_call: bool,
    close: bool,
    amount: u32,
)
    ensures
        !(buy || buy_put || sell || sell_call || close) ==> spec_trade_request(
            tab,
            buy,
            buy_put,
            sell,
            sell_call,
            close,
            amount,
        ) is None,
        (buy || buy_put || sell || sell_call || close) ==> spec_trade_request(
            tab,
            buy,
            buy_put,
            sell,
            sell_call,
            close,
            amount,
        ) is Some,
        spec_trade_request(tab, buy, buy_put, sell, sell_call, close, amount) matches Some(
            TradeRequest::Order { command, .. },
        ) ==> (command == Command::Buy) == (buy || buy_put) && (command == Command::Sell) == (!(buy
            || buy_put) && (sell || sell_call)) && (command == Command::Close) == (!(buy || buy_put
            || sell || sell_call) && close),
        spec_trade_request(tab, buy, buy_put, sell, sell_call, close, amount) matches Some(
            TradeRequest::Derivative { action, .. },
        ) ==> (action == DerivativeAction::Bought) == (buy || buy_put),
        tab == OrderKind::MarketOrder && amount <= i32::MAX && (buy || buy_put || sell || sell_call
            || close) ==> (spec_trade_request(tab, buy, buy_put, sell, sell_call, close, amount) matches Some(
            TradeRequest::Order { amount: a, immediate, .. },
        ) && a == amount && immediate),
{
}

} // verus!
