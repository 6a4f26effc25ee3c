use trading_game::calendar::{is_coupon_month, is_dividend_month, DaySchedule, GameDate};
use trading_game::derivatives::{derivative_maturity, DerivativeTerm};
use trading_game::factors::CreditScore;
use trading_game::instrument::InstrumentKind;
use trading_game::loans::{loan_maturity, round_to_loan_step, LoanProvider, Term, LOAN_STEP};
use trading_game::orders::{Command, OrderStatus};
use trading_game::player::{cover_sale, order_outcome, Favourites, Holdings};
use trading_game::politics::{Culture, Government, Ideology, Orientation, PoliticalField, Politics};
use trading_game::research::{dependencies_met, TechName};
use trading_game::settings::{AudioSetting, NordLight, Theme};
use trading_game::states::{enter_key, escape_key, AppState, GameState};
use trading_game::stocks::Company;
use trading_game::ui_state::{OrderByState, OrderOptions, OverviewState, OverviewTab, Tab};
use trading_game::commodities::CommodityName;

#[test]
fn calendar_of_day_numbers() {
    assert_eq!(GameDate::from_day_number(1).calendar(), Some((1, 1, 1)));
    assert_eq!(GameDate::from_day_number(730000).calendar(), Some((1999, 9, 3)));
    assert_eq!(GameDate::from_day_number(i32::MAX).calendar(), None);
    let new_year = GameDate::from_day_number(739252);
    assert_eq!(new_year.calendar(), Some((2025, 1, 1)));
    assert_eq!(new_year.next_day().map(|d| d.day_number), Some(739253));
    assert!(new_year.is_before(&GameDate::from_day_number(739253)));
    assert!(!new_year.is_before(&new_year));
}

#[test]
fn months_are_added_with_clamping() {
    let end_of_january = GameDate::from_day_number(739282);
    assert_eq!(end_of_january.calendar(), Some((2025, 1, 31)));
    assert_eq!(end_of_january.plus_months(1).map(|d| d.day_number), Some(739310));
    assert_eq!(end_of_january.plus_months(2).map(|d| d.day_number), Some(739341));
    assert_eq!(end_of_january.plus_months(0), Some(end_of_january));
    assert_eq!(end_of_january.plus_months(12).map(|d| d.day_number), Some(739647));
}

#[test]
fn day_schedule() {
    let first = DaySchedule::from_calendar(1, 1);
    assert!(first.month_start && first.quarter_start && first.half_year_start && first.year_start);
    assert!(!first.outflow_check);
    let april = DaySchedule::from_calendar(4, 1);
    assert!(april.quarter_start && !april.half_year_start && !april.year_start);
    let twentieth = DaySchedule::from_calendar(5, 20);
    assert!(twentieth.outflow_check && !twentieth.month_start);
    assert!(is_dividend_month(10) && !is_dividend_month(11));
    assert!(is_coupon_month(7) && !is_coupon_month(4));
    let date = GameDate::from_day_number(739252);
    assert_eq!(DaySchedule::for_date(&date), Some(first));
}

#[test]
fn loans_and_derivatives() {
    assert_eq!(Term::ThreeYears.years(), 3);
    assert_eq!(Term::FiveYears.n_installments(), 60);
    assert_eq!(Term::OneYear.installments_left(5), 7);
    assert_eq!(Term::default(), Term::FiveYears);
    assert_eq!(LoanProvider::default(), LoanProvider::Bank);
    assert_eq!(round_to_loan_step(12_345), 12_000);
    assert_eq!(round_to_loan_step(999), 0);
    assert_eq!(LOAN_STEP, 1_000);
    let start = GameDate::from_day_number(739252);
    assert_eq!(loan_maturity(&start, &Term::OneYear).map(|d| d.day_number), Some(739617));
    assert_eq!(loan_maturity(&start, &Term::ThreeYears).map(|d| d.day_number), start.plus_months(36).map(|d| d.day_number));
    assert_eq!(DerivativeTerm::ThreeMonths.days(), 90);
    assert_eq!(derivative_maturity(&start, &DerivativeTerm::OneYear).map(|d| d.day_number), Some(739617));
}

#[test]
fn research_dependencies() {
    assert_eq!(TechName::LimitOrder.dependencies(), None);
    assert_eq!(TechName::ShortSelling.dependencies(), Some(vec![TechName::TrailingOrder, TechName::MarginLoan]));
    assert!(dependencies_met(&TechName::ESG, &vec![]));
    assert!(!dependencies_met(&TechName::ShortSelling, &vec![TechName::TrailingOrder]));
    assert!(dependencies_met(&TechName::ShortSelling, &vec![TechName::MarginLoan, TechName::TrailingOrder]));
    assert_eq!(TechName::all().len(), 20);
}

#[test]
fn political_stances() {
    let politics = Politics {
        government: Government::Democracy,
        ideology: Ideology::Right,
        culture: Culture::Neutral,
        orientation: Orientation::Capitalism,
    };
    assert_eq!(politics.get(&PoliticalField::Government), "Democracy");
    assert_eq!(politics.matches(&PoliticalField::Government, -3), 1);
    assert_eq!(politics.matches(&PoliticalField::Government, 3), -1);
    assert_eq!(politics.matches(&PoliticalField::Culture, 3), 0);
    assert_eq!(politics.matches(&PoliticalField::Orientation, 1), 1);
    assert_eq!(politics.matches(&PoliticalField::Ideology, 0), -1);
    assert_eq!(Politics::default().get(&PoliticalField::Ideology), "Neutral");
    assert_eq!(PoliticalField::Culture.fields().len(), 3);
}

#[test]
fn credit_score_steps() {
    let mut score = CreditScore::default();
    assert_eq!(score.score(), 50);
    score.increase(true);
    assert_eq!(score.score(), 52);
    score.increase(false);
    assert_eq!(score.score(), 53);
    score.decrease(false);
    assert_eq!(score.score(), 41);
    score.decrease(true);
    assert_eq!(score.score(), 35);
    for _ in 0..10 {
        score.decrease(false);
    }
    assert_eq!(score.score(), 0);
    for _ in 0..50 {
        score.increase(true);
    }
    assert_eq!(score.score(), 100);
    score.increase(true);
    assert_eq!(score.score(), 100);
}

#[test]
fn credit_score_is_capped_at_the_maximum() {
    let mut score = CreditScore::default();
    for _ in 0..49 {
        score.increase(false);
    }
    assert_eq!(score.score(), 99);
    score.increase(true);
    assert_eq!(score.score(), 100);
    score.increase(true);
    assert_eq!(score.score(), 100);
}

#[test]
fn favourites_store_and_recall() {
    let oil = InstrumentKind::Commodity(CommodityName::Oil);
    let apple = InstrumentKind::Stock(Company::Apple);
    let mut favourites = Favourites::default();
    assert!(!favourites.contains(&oil));
    assert_eq!(favourites.digit_key(3, false, Some(apple)), Some(apple));
    assert_eq!(favourites.digit_key(3, true, Some(oil)), Some(oil));
    assert!(favourites.contains(&oil));
    assert!(!favourites.contains(&apple));
    assert_eq!(favourites.digit_key(3, false, Some(apple)), Some(oil));
    assert_eq!(favourites.digit_key(4, false, None), None);
    assert_eq!(favourites.digit_key(5, true, None), None);
    assert_eq!(favourites.0.len(), 1);
}

#[test]
fn holdings_and_sales() {
    let oil = InstrumentKind::Commodity(CommodityName::Oil);
    let apple = InstrumentKind::Stock(Company::Apple);
    let shell = InstrumentKind::Stock(Company::Shell);
    let mut holdings = Holdings::default();
    holdings.execute(Command::Buy, apple, -4);
    holdings.execute(Command::Buy, oil, 7);
    assert_eq!(holdings.get_owned(&oil), 7);
    assert_eq!(holdings.get_owned(&apple), -4);
    assert_eq!(holdings.get_owned(&shell), 0);
    assert_eq!(holdings.positions(), vec![(apple, -4), (oil, 7)]);
    holdings.execute(Command::Sell, oil, 2);
    assert_eq!(holdings.get_owned(&oil), 5);
    holdings.execute(Command::Sell, shell, 2);
    assert!(!holdings.get(&shell));
    holdings.execute(Command::Buy, apple, 4);
    assert!(!holdings.get(&apple));
    assert_eq!(holdings.positions(), vec![(oil, 5)]);
    holdings.execute(Command::Close, oil, 0);
    assert!(holdings.positions().is_empty());
    holdings.buy(oil, 3);
    assert_eq!(holdings.deliver(oil, 5), 2);
    assert!(holdings.get(&oil));
    assert_eq!(holdings.get_owned(&oil), 0);
    assert_eq!(holdings.deliver(shell, 5), 5);
    holdings.drop_empty();
    assert!(!holdings.get(&oil));
    assert_eq!(cover_sale(Some(10), 4), (Some(6), 0));
    assert_eq!(cover_sale(Some(3), 5), (Some(0), 2));
    assert_eq!(cover_sale(Some(-2), 5), (Some(-2), 5));
    assert_eq!(cover_sale(None, 5), (None, 5));
}

#[test]
fn order_outcomes() {
    assert!(matches!(order_outcome(Command::Buy, true, 0, 5), OrderStatus::Executed));
    assert_eq!(order_outcome(Command::Buy, false, 0, 5).reason(), "not enough cash");
    assert!(matches!(order_outcome(Command::Sell, false, 5, 5), OrderStatus::Executed));
    assert_eq!(order_outcome(Command::Sell, true, 4, 5).reason(), "insufficient owned");
    assert!(matches!(order_outcome(Command::Close, false, 1, 5), OrderStatus::Executed));
    assert_eq!(order_outcome(Command::Close, true, 0, 5).reason(), "none owned");
}

#[test]
fn settings_and_theme() {
    assert_eq!(AudioSetting::default(), AudioSetting::NoMusic);
    assert_eq!(AudioSetting::Mute.next(), AudioSetting::NoMusic);
    assert_eq!(AudioSetting::Sound.next(), AudioSetting::Mute);
    assert_eq!(AudioSetting::NoMusic.next().next().next(), AudioSetting::NoMusic);
    assert!(AudioSetting::NoMusic.plays_sound() && !AudioSetting::Mute.plays_sound());
    assert!(AudioSetting::Sound.plays_music() && !AudioSetting::NoMusic.plays_music());
    assert_eq!(Theme::default(), Theme::Dark);
    assert_eq!(Theme::Light.emoji(), "☀");
    assert_eq!(NordLight.name(), "Nord Light");
    assert!(!NordLight.dark_mode_visuals());
    assert_eq!(NordLight.margin_style(), 12);
    assert_eq!(NordLight.rounding_visuals(), 6);
    assert_eq!(NordLight.fg_primary_text_color_visuals(), Some((0, 0, 0)));
}

#[test]
fn keys_move_between_states() {
    assert_eq!(GameState::default(), GameState::StartGame);
    assert_eq!(AppState::default(), AppState::MainMenu);
    assert_eq!(GameState::Running.after_space(), Some(GameState::Paused));
    assert_eq!(GameState::Paused.after_space(), Some(GameState::Running));
    assert_eq!(GameState::InGameMenu.after_space(), None);
    assert_eq!(AppState::Settings.after_confirm(), Some(AppState::MainMenu));
    assert_eq!(AppState::Game.after_confirm(), None);
    let menu = escape_key(GameState::Running, false, false);
    assert_eq!(menu.game, Some(GameState::InGameMenu));
    let closing = escape_key(GameState::Paused, true, true);
    assert!(closing.close_modal && closing.game.is_none() && !closing.close_event);
    let event = escape_key(GameState::Running, false, true);
    assert_eq!(event.game, Some(GameState::Running));
    assert!(event.close_event);
    let end = escape_key(GameState::GameEnd, false, false);
    assert_eq!(end.app, Some(AppState::MainMenu));
    assert_eq!(escape_key(GameState::Settings, false, false).game, Some(GameState::InGameMenu));
    assert_eq!(enter_key(GameState::StartGame, false).game, Some(GameState::Running));
    assert_eq!(enter_key(GameState::Running, false).game, None);
    assert!(enter_key(GameState::Paused, true).close_event);
}

#[test]
fn tables_and_tabs() {
    let overview = OverviewState::default();
    assert_eq!(overview.tab, OverviewTab::Portfolio);
    assert_eq!(overview.pending_derivative, OrderByState { order: OrderOptions::Maturity, descending: false });
    assert_eq!(overview.term_loan.order, OrderOptions::Principal);
    let mut state = OrderByState::default();
    assert_eq!(state.direction_label(), "▲ Ascending");
    state.toggle_direction();
    assert_eq!(state.direction_label(), "▼ Descending");
    state.toggle_direction();
    assert_eq!(state, OrderByState::default());
    assert_eq!(Tab::default(), Tab::Overview);
    assert_eq!(Tab::Credit.emoji(), "💳");
}

#[test]
fn buying_then_selling_restores_positions() {
    let oil = InstrumentKind::Commodity(CommodityName::Oil);
    let apple = InstrumentKind::Stock(Company::Apple);
    let mut holdings = Holdings::default();
    holdings.execute(Command::Buy, apple, 3);
    holdings.execute(Command::Buy, oil, 7);
    holdings.execute(Command::Buy, oil, 4);
    holdings.execute(Command::Sell, oil, 4);
    assert_eq!(holdings.get_owned(&oil), 7);
    assert_eq!(holdings.get_owned(&apple), 3);
    holdings.execute(Command::Close, apple, 0);
    assert_eq!(holdings.get_owned(&oil), 7);
    assert!(!holdings.get(&apple));
}

#[test]
fn longer_terms_mature_later() {
    let start = GameDate::from_day_number(739252);
    let mut last = start.day_number;
    for term in [DerivativeTerm::OneMonth, DerivativeTerm::ThreeMonths, DerivativeTerm::SixMonths, DerivativeTerm::OneYear] {
        let due = derivative_maturity(&start, &term).unwrap().day_number;
        assert!(due > last);
        assert_eq!(due - start.day_number, term.days() as i32);
        last = due;
    }
    assert_eq!(GameDate::from_day_number(i32::MAX).plus_days(1), None);
}

#[test]
fn positions_keep_their_opening_order() {
    let oil = InstrumentKind::Commodity(CommodityName::Oil);
    let apple = InstrumentKind::Stock(Company::Apple);
    let shell = InstrumentKind::Stock(Company::Shell);
    let mut holdings = Holdings::new();
    holdings.execute(Command::Buy, shell, 2);
    holdings.execute(Command::Buy, apple, 3);
    holdings.execute(Command::Buy, oil, 1);
    holdings.execute(Command::Buy, shell, 5);
    assert_eq!(holdings.positions(), vec![(shell, 7), (apple, 3), (oil, 1)]);
    holdings.execute(Command::Close, apple, 0);
    assert_eq!(holdings.positions(), vec![(shell, 7), (oil, 1)]);
    holdings.execute(Command::Buy, apple, 4);
    assert_eq!(holdings.positions(), vec![(shell, 7), (oil, 1), (apple, 4)]);
}

#[test]
fn push_matches_stance() {
    let politics = Politics {
        government: Government::Neutral,
        ideology: Ideology::Left,
        culture: Culture::Progressive,
        orientation: Orientation::Socialism,
    };
    for field in [PoliticalField::Government, PoliticalField::Ideology, PoliticalField::Culture, PoliticalField::Orientation] {
        for v in [-3i8, 2] {
            let m = politics.matches(&field, v);
            assert_eq!(politics.matches(&field, -v), -m);
            let names = field.fields();
            let stance = politics.get(&field);
            let expected = if stance == names[1] {
                0
            } else if (v < 0 && stance == names[0]) || (v > 0 && stance == names[2]) {
                1
            } else {
                -1
            };
            assert_eq!(m, expected);
        }
    }
}
