use trading_game::calendar::GameDate;
use trading_game::crypto::CryptoName;
use trading_game::loans::can_repay_early;
use trading_game::day::{margin_pass, resolve_pending, settle_maturing, MarginView, MaturingView, PendingView, Settlement};
use trading_game::instrument::InstrumentKind;
use trading_game::orders::{find_by_id, Command, OrderKind, OrderStatus};
use trading_game::player::{Holdings, MarginAction};
use trading_game::stocks::Company;
use trading_game::ui_state::{OrderByState, OrderOptions};

fn position(amount: i32, warned: bool, below_margin: bool, above_margin: bool, below_warning: bool, above_warning: bool) -> MarginView {
    MarginView { amount, warned, below_margin, above_margin, below_warning, above_warning }
}

#[test]
fn margin_pass_liquidates_warns_and_keeps() {
    let mut book = vec![
        position(10, false, true, false, true, false),
        position(-4, false, false, true, false, true),
        position(-4, false, false, false, false, true),
        position(-4, true, false, false, false, true),
        position(3, false, false, false, false, false),
    ];
    let actions = margin_pass(&mut book);
    assert_eq!(
        actions,
        vec![
            MarginAction::LiquidateLong,
            MarginAction::LiquidateShort,
            MarginAction::Warn,
            MarginAction::Warn,
            MarginAction::Keep,
        ]
    );
    assert_eq!(
        book,
        vec![
            position(-4, true, false, false, false, true),
            position(-4, true, false, false, false, true),
            position(3, false, false, false, false, false),
        ]
    );
    // A second day liquidates nothing, and warns the short positions above their
    // warning level again.
    let again = margin_pass(&mut book);
    assert_eq!(again, vec![MarginAction::Warn, MarginAction::Warn, MarginAction::Keep]);
    let mut long = vec![position(5, false, false, false, true, false)];
    assert_eq!(margin_pass(&mut long), vec![MarginAction::Warn]);
    assert_eq!(margin_pass(&mut long), vec![MarginAction::Keep]);
}

#[test]
fn pending_orders_are_resolved_against_the_holdings() {
    let apple = InstrumentKind::Stock(Company::Apple);
    let coin = InstrumentKind::Crypto(CryptoName::Bitcoin);
    let mut holdings = Holdings::default();
    holdings.buy(apple, 5);
    let order = |kind, command, instrument, amount, lower_bound, at_or_below, at_or_above, enough_cash| PendingView {
        kind,
        command,
        instrument,
        amount,
        lower_bound,
        at_or_below,
        at_or_above,
        enough_cash,
    };
    let orders = vec![
        order(OrderKind::LimitOrder, Command::Buy, apple, 2, true, false, true, true),
        order(OrderKind::LimitOrder, Command::Buy, apple, 2, true, true, false, false),
        order(OrderKind::TrailingOrder, Command::Sell, apple, 5, true, false, true, false),
        order(OrderKind::TrailingOrder, Command::Sell, apple, 6, false, true, false, false),
        order(OrderKind::LimitOrder, Command::Close, coin, 1, false, false, true, true),
    ];
    let r = resolve_pending(&holdings, &orders);
    assert_eq!(r.len(), 5);
    assert!(r[0].is_none());
    assert!(matches!(&r[1], Some(OrderStatus::Failed(m)) if m == "not enough cash"));
    assert!(matches!(&r[2], Some(OrderStatus::Executed)));
    assert!(matches!(&r[3], Some(OrderStatus::Failed(m)) if m == "insufficient owned"));
    assert!(matches!(&r[4], Some(OrderStatus::Failed(m)) if m == "none owned"));
}

#[test]
fn tables_are_arranged_by_their_column() {
    let up = OrderByState { order: OrderOptions::Created, descending: false };
    let down = OrderByState { order: OrderOptions::Created, descending: true };
    let keys: Vec<i64> = vec![30, 10, 20, 10, -5];
    assert_eq!(up.arrange(&keys), vec![4, 1, 3, 2, 0]);
    assert_eq!(down.arrange(&keys), vec![0, 2, 3, 1, 4]);
    assert_eq!(up.arrange(&vec![]), Vec::<usize>::new());
}

#[test]
fn loans_are_repaid_early_only_after_six_months() {
    let start = GameDate::from_day_number(739252);
    assert_eq!(start.plus_months(6).map(|d| d.day_number), Some(739433));
    assert_eq!(can_repay_early(&start, &GameDate::from_day_number(739300)), Some(false));
    assert_eq!(can_repay_early(&start, &GameDate::from_day_number(739433)), Some(false));
    assert_eq!(can_repay_early(&start, &GameDate::from_day_number(739434)), Some(true));
}

#[test]
fn maturing_derivatives_settle_one_after_the_other() {
    let apple = InstrumentKind::Stock(Company::Apple);
    let coin = InstrumentKind::Crypto(CryptoName::Bitcoin);
    let mut holdings = Holdings::default();
    holdings.buy(apple, 3);
    let nvidia = InstrumentKind::Stock(Company::Nvidia);
    holdings.buy(nvidia, 7);
    let maturing = vec![
        MaturingView { instrument: apple, amount: 2, execute: true, is_buy: true },
        MaturingView { instrument: apple, amount: 4, execute: true, is_buy: false },
        MaturingView { instrument: apple, amount: 3, execute: true, is_buy: false },
        MaturingView { instrument: coin, amount: 9, execute: false, is_buy: true },
        MaturingView { instrument: coin, amount: 2, execute: true, is_buy: false },
    ];
    let r = settle_maturing(&mut holdings, &maturing);
    assert_eq!(
        r,
        vec![
            Settlement::Bought,
            Settlement::Delivered { missing: 0 },
            Settlement::Delivered { missing: 2 },
            Settlement::Lapsed,
            Settlement::Delivered { missing: 2 },
        ]
    );
    assert_eq!(holdings.get_owned(&apple), 0);
    assert_eq!(holdings.get_owned(&coin), 0);
    assert_eq!(holdings.get_owned(&nvidia), 7);
}

#[test]
fn orders_are_found_by_id() {
    let ids = vec!["a1".to_string(), "b2".to_string(), "a1".to_string()];
    assert_eq!(find_by_id(&ids, &"a1".to_string()), Some(0));
    assert_eq!(find_by_id(&ids, &"b2".to_string()), Some(1));
    assert_eq!(find_by_id(&ids, &"c3".to_string()), None);
    assert_eq!(find_by_id(&vec![], &"a1".to_string()), None);
}
