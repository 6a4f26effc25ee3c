use trading_game::market::{is_drawable, MarketState};
use trading_game::bonds::{BondIssuer, BondQuality};
use trading_game::effects::{CurrencyMatch, Effect, Scale, Shift};
use trading_game::calendar::GameDate;
use trading_game::commodities::CommodityName;
use trading_game::countries::CountryName;
use trading_game::crypto::CryptoName;
use trading_game::events::{
    active_events, has_active_event, historical_events, EconomicEvent, EventCandidates, EventName,
};
use trading_game::names::NameFromEnum;
use trading_game::research::TechName;
use trading_game::sectors::SectorName;
use trading_game::stocks::{Company, ESGRating};

fn day(n: i32) -> GameDate {
    GameDate::from_day_number(n)
}

fn candidates() -> EventCandidates {
    EventCandidates {
        visible_cryptos: vec![CryptoName::Avalanche],
        production: vec![
            (CountryName::Brazil, vec![CommodityName::Coffee, CommodityName::Oil]),
            (CountryName::Russia, vec![CommodityName::LNG]),
        ],
        esg_ratings: vec![(Company::Apple, ESGRating::A), (Company::Shell, ESGRating::B)],
        retail_companies: vec![Company::Inditex],
        healthcare_companies: vec![Company::Pfizer],
    }
}

#[test]
fn titles_name_the_subject() {
    let start = day(739252);
    let ceo = EconomicEvent::new(EventName::CeoResignation(Company::Apple), start, 1);
    assert_eq!(ceo.title(), "The CEO of Apple resigns");
    assert_eq!(ceo.image(), "ceo-resignation");
    assert!(ceo.description().starts_with("The CEO of Apple resigns unexpectedly"));
    let drought = EconomicEvent::new(EventName::Drought(CountryName::SaudiArabia), start, 30);
    assert_eq!(drought.title(), "Prolonged drought in Saudi Arabia");
    let crash = EconomicEvent::new(EventName::CryptoCrash(CryptoName::Avalanche), start, 1);
    assert_eq!(crash.title(), "Avalanche crash");
    let ddos = EconomicEvent::new(EventName::DDos(Company::GoldmanSachs), start, 1);
    assert_eq!(ddos.title(), "DDoS attack on Goldman Sachs");
    assert_eq!(ddos.image(), "ddos");
    let covid = EconomicEvent::new(EventName::Covid, start, 120);
    assert_eq!(covid.title(), "Covid pandemic");
    assert_eq!(covid.image(), "covid");
    assert!(covid.description().starts_with("The Covid pandemic"));
    let war = EconomicEvent::new(EventName::TradeWar, start, 180);
    assert_eq!(war.title(), "USA - China trade war escalates");
    assert_eq!(EventName::RegulatoryCrackdown(SectorName::Energy).to_name(), "Regulatory Crackdown");
}

#[test]
fn durations() {
    assert_eq!(EventName::Covid.scaled_duration(1), 120);
    assert_eq!(EventName::Covid.scaled_duration(2), 240);
    assert_eq!(EventName::Crimea.scaled_duration(2), 1);
    for _ in 0..20 {
        let d = EventName::Covid.duration();
        assert!(d == 120 || d == 240);
        let g = EventName::Grounded.duration();
        assert!(g == 7 || g == 14);
        assert_eq!(EventName::NewProduct(Company::Apple).duration(), 1);
    }
}

#[test]
fn events_are_active_until_their_end() {
    let covid = EconomicEvent::new(EventName::Covid, day(100), 10);
    assert!(covid.is_active(&day(100)));
    assert!(covid.is_active(&day(109)));
    assert!(!covid.is_active(&day(110)));
    let gold = EconomicEvent::new(EventName::GoldRush, day(105), 40);
    let events = vec![covid, gold];
    assert_eq!(active_events(&events, &day(112)), vec![gold]);
    assert_eq!(historical_events(&events, &day(112)), vec![covid]);
    assert_eq!(active_events(&events, &day(200)).len(), 0);
    assert_eq!(historical_events(&events, &day(200)).len(), 2);
    assert!(has_active_event(&events, &EventName::Covid, &day(105)));
    assert!(!has_active_event(&events, &EventName::Covid, &day(110)));
    assert!(!has_active_event(&events, &EventName::Recession, &day(105)));
}

#[test]
fn weights_depend_on_research_and_history() {
    let today = day(1000);
    let none: Vec<EconomicEvent> = vec![];
    let w = EventName::weights(&vec![], &none, &today);
    assert_eq!(w.len(), EventName::all().len());
    assert_eq!(w.len(), 24);
    assert_eq!(w[0], 1);
    assert_eq!(EventName::Recession.weight(&vec![], &none, &today), 4);
    assert_eq!(EventName::GoldRush.weight(&vec![], &none, &today), 0);
    assert_eq!(EventName::GoldRush.weight(&vec![TechName::Commodities], &none, &today), 10);
    assert_eq!(EventName::CryptoFan(CryptoName::Avalanche).weight(&vec![], &none, &today), 0);
    assert_eq!(EventName::Crimea.weight(&vec![TechName::ForeignExchange], &none, &today), 1);
    assert_eq!(EventName::RussiaWar.weight(&vec![], &none, &today), 0);
    assert_eq!(EventName::Vaccine(Company::Apple).weight(&vec![], &none, &today), 1);

    let crimea = EconomicEvent::new(EventName::Crimea, day(990), 1);
    let covid = EconomicEvent::new(EventName::Covid, day(995), 120);
    let history = vec![crimea, covid];
    assert_eq!(EventName::Crimea.weight(&vec![TechName::ForeignExchange], &history, &today), 0);
    assert_eq!(EventName::Covid.weight(&vec![], &history, &today), 0);
    assert_eq!(EventName::Vaccine(Company::Apple).weight(&vec![], &history, &today), 3);
    assert_eq!(EventName::RussiaWar.weight(&vec![], &history, &today), 0);
    let still_crimea = vec![EconomicEvent::new(EventName::Crimea, day(990), 365)];
    assert_eq!(EventName::RussiaWar.weight(&vec![], &still_crimea, &today), 1);
    let storage = vec![EconomicEvent::new(EventName::StorageCosts, day(990), 90)];
    assert_eq!(EventName::StorageCosts.weight(&vec![TechName::Commodities], &storage, &today), 0);
    assert_eq!(EventName::StorageCosts.weight(&vec![TechName::Commodities], &storage, &day(1080)), 10);
    assert_eq!(EventName::BrazilPolitics.base_weight(), 1);
    assert_eq!(EventName::GoldRush.base_weight(), 10);
}

#[test]
fn new_events_fit_their_candidates() {
    let techs = vec![
        TechName::ForeignExchange,
        TechName::Commodities,
        TechName::Cryptocurrencies,
        TechName::ESG,
    ];
    let today = day(739252);
    let none: Vec<EconomicEvent> = vec![];
    let pool = candidates();
    for _ in 0..300 {
        let event = EventName::create(&techs, &none, &pool, &today);
        assert_eq!(event.start_date, today);
        match event.name {
            EventName::CryptoCrash(c) | EventName::CryptoFan(c) => assert_eq!(c, CryptoName::Avalanche),
            EventName::Drought(k) | EventName::Harvest(k) => assert_eq!(k, CountryName::Brazil),
            EventName::GasDiscovery(k) => assert_eq!(k, CountryName::Russia),
            EventName::OilDiscovery(k) => assert_eq!(k, CountryName::Brazil),
            EventName::EsgScandal(c) => assert_eq!(c, Company::Shell),
            EventName::NewProduct(c) => assert_eq!(c, Company::Inditex),
            EventName::Vaccine(c) => assert_eq!(c, Company::Pfizer),
            EventName::NewContract(c) => {
                assert!(matches!(c, Company::Boeing | Company::LockheedMartin | Company::Toyota))
            },
            EventName::RussiaWar => panic!("Russia cannot invade Ukraine without Crimea"),
            _ => {},
        }
        let base = EventName::all()
            .into_iter()
            .find(|n| std::mem::discriminant(n) == std::mem::discriminant(&event.name))
            .unwrap();
        let d = base.scaled_duration(1);
        assert!(event.duration == d || event.duration == 2 * d);
    }
}

#[test]
fn past_one_off_events_are_not_drawn() {
    let today = day(2000);
    let mut history = vec![];
    for name in EventName::all() {
        history.push(EconomicEvent::new(name, day(1), 1));
    }
    let w = EventName::weights(&vec![], &history, &today);
    for (name, weight) in EventName::all().iter().zip(w.iter()) {
        if matches!(name, EventName::Vaccine(_)) {
            assert_eq!(*weight, 1);
        } else {
            assert_eq!(*weight, 0);
        }
    }
    let only = vec![EconomicEvent::new(EventName::BrazilPolitics, day(1), 1)];
    let w = EventName::weights(&vec![], &only, &today);
    assert_eq!(w[0], 0);
    let event = EventName::create(&vec![], &only, &candidates(), &today);
    assert!(event.name != EventName::BrazilPolitics);
}

#[test]
fn event_effects() {
    let start = day(739252);
    let ceo = EconomicEvent::new(EventName::CeoResignation(Company::Apple), start, 1);
    assert_eq!(ceo.start(), vec![Effect::ScaleStockPrice(Company::Apple, Scale::Between(80, 90))]);
    assert!(ceo.advance().is_empty() && ceo.end().is_empty());
    let brazil = EconomicEvent::new(EventName::BrazilPolitics, start, 365);
    let bond = BondIssuer::Government(CountryName::Brazil);
    assert_eq!(brazil.start(), vec![Effect::SetBondQuality(bond, BondQuality::B)]);
    assert_eq!(brazil.end(), vec![Effect::SetBondQuality(bond, BondQuality::BBB)]);
    assert_eq!(
        brazil.advance(),
        vec![Effect::ScaleCurrencyValue(CurrencyMatch::Of(CountryName::Brazil), Scale::Fixed(101))]
    );
    let grounded = EconomicEvent::new(EventName::Grounded, start, 7);
    assert_eq!(grounded.start(), vec![Effect::ShiftSector(SectorName::Transport, Shift::Fixed(-10))]);
    assert_eq!(grounded.end(), vec![Effect::ShiftSector(SectorName::Transport, Shift::Fixed(10))]);
    assert_eq!(grounded.advance(), vec![Effect::ScaleStockPrice(Company::Boeing, Scale::Fixed(97))]);
    let scandal = EconomicEvent::new(EventName::EsgScandal(Company::Shell), start, 1);
    assert_eq!(scandal.start(), vec![]);
    assert_eq!(scandal.end(), vec![]);
    let crackdown = EconomicEvent::new(EventName::RegulatoryCrackdown(SectorName::Finance), start, 1);
    assert_eq!(crackdown.start(), vec![Effect::ShiftSector(SectorName::Finance, Shift::Negated(20, 40))]);
    let recession = EconomicEvent::new(EventName::Recession, start, 60);
    assert_eq!(recession.advance(), vec![Effect::LowerEconomy(2)]);
    assert_eq!(EconomicEvent::new(EventName::RussiaWar, start, 365).start().len(), 4);
    assert_eq!(EconomicEvent::new(EventName::Crimea, start, 1).start().len(), 3);
}

#[test]
fn candidates_from_game_data() {
    let esg: Vec<(Company, ESGRating)> = Company::all().into_iter().map(|c| (c, c.starting_esg())).collect();
    let pool = EventCandidates::from_game_data(vec![CryptoName::Avalanche], esg);
    assert_eq!(pool.production.len(), 12);
    assert_eq!(pool.production[9], (CountryName::Ukraine, vec![CommodityName::Wheat, CommodityName::Corn]));
    assert_eq!(pool.retail_companies, vec![Company::Inditex, Company::Unilever]);
    assert_eq!(pool.healthcare_companies, vec![Company::Moderna, Company::Pfizer]);
    let techs = vec![TechName::ForeignExchange, TechName::Commodities, TechName::Cryptocurrencies, TechName::ESG];
    let none: Vec<EconomicEvent> = vec![];
    for _ in 0..200 {
        let event = EventName::create(&techs, &none, &pool, &day(739252));
        match event.name {
            EventName::EsgScandal(c) => {
                assert!(matches!(c, Company::Boeing | Company::GoldmanSachs | Company::LockheedMartin | Company::Shell))
            },
            EventName::GasDiscovery(k) => assert!(k.production().contains(&CommodityName::LNG)),
            EventName::OilDiscovery(k) => assert!(k.production().contains(&CommodityName::Oil)),
            EventName::Drought(k) | EventName::Harvest(k) => assert!(k.production().iter().any(|c| c.is_food())),
            _ => {},
        }
    }
}

#[test]
fn draws_decide_the_event() {
    let pool = candidates();
    let names = EventName::all();
    let ceo = names.iter().position(|n| matches!(n, EventName::CeoResignation(_))).unwrap();
    let subjects = pool.subjects(&names[ceo]);
    assert_eq!(subjects.len(), Company::all().len());
    assert_eq!(pool.event_from_draws(ceo, 1), EventName::CeoResignation(Company::Boeing));
    let drought = names.iter().position(|n| matches!(n, EventName::Drought(_))).unwrap();
    assert_eq!(pool.subjects(&names[drought]), vec![EventName::Drought(CountryName::Brazil)]);
    let scandal = names.iter().position(|n| matches!(n, EventName::EsgScandal(_))).unwrap();
    assert_eq!(pool.event_from_draws(scandal, 0), EventName::EsgScandal(Company::Shell));
    let contract = names.iter().position(|n| matches!(n, EventName::NewContract(_))).unwrap();
    assert_eq!(
        pool.subjects(&names[contract]),
        vec![
            EventName::NewContract(Company::Boeing),
            EventName::NewContract(Company::LockheedMartin),
            EventName::NewContract(Company::Toyota),
        ]
    );
    assert_eq!(pool.event_from_draws(0, 0), EventName::BrazilPolitics);
    let crash = names.iter().position(|n| matches!(n, EventName::CryptoCrash(_))).unwrap();
    assert_eq!(pool.event_from_draws(crash, 0), EventName::CryptoCrash(CryptoName::Avalanche));
}

#[test]
fn market_state_round_trips() {
    let mut state = MarketState::start_of_game();
    let before = state.clone();
    assert_eq!(state.bond_ratings[1], BondQuality::BBB);
    let brazil = EconomicEvent::new(EventName::BrazilPolitics, day(1), 365);
    let start = brazil.start();
    state.apply_all(&start, &vec![0; start.len()]);
    assert_eq!(state.bond_ratings[1], BondQuality::B);
    let end = brazil.end();
    state.apply_all(&end, &vec![0; end.len()]);
    assert_eq!(state.bond_ratings, before.bond_ratings);
    let grounded = EconomicEvent::new(EventName::Grounded, day(1), 7);
    let start = grounded.start();
    state.apply_all(&start, &vec![0; start.len()]);
    assert_eq!(state.sector_scores[9], -10);
    let end = grounded.end();
    state.apply_all(&end, &vec![0; end.len()]);
    assert_eq!(state.sector_scores, before.sector_scores);
    let crackdown = EconomicEvent::new(EventName::RegulatoryCrackdown(SectorName::Finance), day(1), 1);
    state.apply(&crackdown.start()[0], 30);
    assert_eq!(state.sector_scores[2], -30);
    state.apply(&Effect::ShiftSector(SectorName::Finance, Shift::Between(-30, -10)), -29);
    assert_eq!(state.sector_scores[2], -50);
    let covid = EconomicEvent::new(EventName::Covid, day(1), 30);
    let effects = covid.start();
    assert!(effects.iter().all(is_drawable));
    let draws = state.apply_drawn(&effects);
    assert!(-30 <= draws[0] && draws[0] < -10);
    assert_eq!(state.sector_scores[9], draws[0]);
}
