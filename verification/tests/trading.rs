use trading_game::calendar::inflow_forecast;
use trading_game::player::{margin_check, order_triggered, MarginAction};
use trading_game::derivatives::{maturity_shortfall, updated_execution, DerivativeAction, DerivativeKind, OptionKind};
use trading_game::factors::CreditScore;
use trading_game::messages::{MessageLevel, MESSAGE_DURATION};
use trading_game::orders::{Command, OrderKind};
use trading_game::trading::{trade_request, TradeRequest};

#[test]
fn trade_window_requests() {
    assert_eq!(trade_request(OrderKind::MarketOrder, false, false, false, false, false, 5), None);
    assert_eq!(
        trade_request(OrderKind::MarketOrder, true, false, false, false, false, 5),
        Some(TradeRequest::Order { command: Command::Buy, amount: 5, immediate: true })
    );
    assert_eq!(
        trade_request(OrderKind::ShortSell, true, false, false, false, false, 5),
        Some(TradeRequest::Order { command: Command::Buy, amount: -5, immediate: true })
    );
    assert_eq!(
        trade_request(OrderKind::LimitOrder, false, false, true, false, false, 7),
        Some(TradeRequest::Order { command: Command::Sell, amount: 7, immediate: false })
    );
    assert_eq!(
        trade_request(OrderKind::TrailingOrder, false, false, false, false, true, 7),
        Some(TradeRequest::Order { command: Command::Close, amount: 7, immediate: false })
    );
    assert_eq!(
        trade_request(OrderKind::Options, false, true, false, false, false, 3),
        Some(TradeRequest::Derivative {
            kind: DerivativeKind::Option,
            option_kind: OptionKind::Put,
            action: DerivativeAction::Bought,
        })
    );
    assert_eq!(
        trade_request(OrderKind::Options, false, false, false, true, false, 3),
        Some(TradeRequest::Derivative {
            kind: DerivativeKind::Option,
            option_kind: OptionKind::Call,
            action: DerivativeAction::Sold,
        })
    );
    assert_eq!(
        trade_request(OrderKind::Futures, true, false, false, false, false, 3),
        Some(TradeRequest::Derivative {
            kind: DerivativeKind::Future,
            option_kind: OptionKind::Call,
            action: DerivativeAction::Bought,
        })
    );
    assert_eq!(
        trade_request(OrderKind::Futures, false, false, true, false, false, 3),
        Some(TradeRequest::Derivative {
            kind: DerivativeKind::Future,
            option_kind: OptionKind::Put,
            action: DerivativeAction::Sold,
        })
    );
}

#[test]
fn option_execution_updates() {
    let bought = DerivativeAction::Bought;
    // A call in the money is executed when covered.
    assert!(updated_execution(DerivativeKind::Option, bought, OptionKind::Call, false, false, true, true, false, true, 0, 10));
    // Not when the cash cannot cover it.
    assert!(!updated_execution(DerivativeKind::Option, bought, OptionKind::Call, true, true, true, true, false, false, 0, 10));
    // A put needs the units.
    assert!(!updated_execution(DerivativeKind::Option, bought, OptionKind::Put, true, false, false, false, true, true, 9, 10));
    assert!(updated_execution(DerivativeKind::Option, bought, OptionKind::Put, true, false, false, false, true, true, 10, 10));
    // A choice fixed by the player is kept.
    assert!(!updated_execution(DerivativeKind::Option, DerivativeAction::Sold, OptionKind::Call, false, true, false, false, true, true, 0, 10));
    // Futures keep their setting.
    assert!(updated_execution(DerivativeKind::Future, bought, OptionKind::Put, true, false, false, false, false, false, 0, 10));
    assert_eq!(maturity_shortfall(DerivativeKind::Option, true, false, false, 0, 3), (true, false));
    assert_eq!(maturity_shortfall(DerivativeKind::Future, true, false, false, 0, 3), (false, false));
    assert_eq!(maturity_shortfall(DerivativeKind::Future, false, true, true, 1, 3), (false, true));
    assert_eq!(maturity_shortfall(DerivativeKind::Option, false, true, true, 1, 1), (false, false));
    assert_eq!(maturity_shortfall(DerivativeKind::Future, false, true, true, 25, 20), (false, false));
    assert_eq!(maturity_shortfall(DerivativeKind::Future, false, true, true, -5, 20), (false, true));
}

#[test]
fn monthly_credit_settlement() {
    let mut score = CreditScore::default();
    score.settle_month(false, false, false);
    assert_eq!(score.score(), 50);
    score.settle_month(true, true, false);
    assert_eq!(score.score(), 51);
    score.settle_month(true, false, true);
    assert_eq!(score.score(), 45);
}

#[test]
fn message_levels() {
    assert_eq!(MessageLevel::Info.sound(), "message");
    assert_eq!(MessageLevel::Warning.sound(), "warning");
    assert_eq!(MessageLevel::Error.sound(), "error");
    assert!(MessageLevel::Error.closable() && !MessageLevel::Warning.closable());
    assert_eq!(MESSAGE_DURATION, 4);
}

#[test]
fn order_triggers_and_margin_checks() {
    assert!(order_triggered(OrderKind::LimitOrder, true, true, false));
    assert!(!order_triggered(OrderKind::LimitOrder, true, false, true));
    assert!(order_triggered(OrderKind::LimitOrder, false, false, true));
    assert!(order_triggered(OrderKind::TrailingOrder, true, false, true));
    assert!(order_triggered(OrderKind::TrailingOrder, false, true, false));
    assert_eq!(margin_check(10, false, true, false, true, false), MarginAction::LiquidateLong);
    assert_eq!(margin_check(-10, false, false, true, false, true), MarginAction::LiquidateShort);
    assert_eq!(margin_check(10, false, false, false, true, false), MarginAction::Warn);
    assert_eq!(margin_check(10, true, false, false, true, false), MarginAction::Keep);
    assert_eq!(margin_check(-10, true, false, false, false, true), MarginAction::Warn);
    assert_eq!(margin_check(-10, false, false, false, false, true), MarginAction::Warn);
    assert_eq!(margin_check(0, false, true, true, true, true), MarginAction::Keep);
}

#[test]
fn amounts_beyond_i32_wrap_as_in_memory() {
    assert_eq!(
        trade_request(OrderKind::LimitOrder, true, false, false, false, false, 3_000_000_000),
        Some(TradeRequest::Order { command: Command::Buy, amount: -1_294_967_296, immediate: false })
    );
    assert_eq!(
        trade_request(OrderKind::ShortSell, true, false, false, false, false, 3_000_000_000),
        Some(TradeRequest::Order { command: Command::Buy, amount: 1_294_967_296, immediate: true })
    );
    // A put bought for u32::MAX units compares the units held with -1.
    assert!(updated_execution(
        DerivativeKind::Option,
        DerivativeAction::Bought,
        OptionKind::Put,
        true,
        true,
        false,
        false,
        true,
        true,
        5,
        u32::MAX,
    ));
}

#[test]
fn inflow_is_forecast_a_month_early() {
    assert_eq!(inflow_forecast(3), (true, false));
    assert_eq!(inflow_forecast(12), (true, true));
    assert_eq!(inflow_forecast(6), (true, true));
    assert_eq!(inflow_forecast(1), (false, false));
    assert_eq!(inflow_forecast(4), (false, false));
}
