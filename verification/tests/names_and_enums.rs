use trading_game::politics::{Culture, Government, Ideology, Orientation, Politics};
use trading_game::bonds::{BondIssuer, BondKind, BondQuality};
use trading_game::commodities::{CommodityName, Unit};
use trading_game::countries::{CountryName, MarketKind};
use trading_game::crypto::CryptoName;
use trading_game::forex::CurrencyName;
use trading_game::instrument::InstrumentKind;
use trading_game::names::{dash_spaces, display_lowername, display_name, first_word_of, NameFromEnum};
use trading_game::orders::{OrderKind, OrderStatus, NA};
use trading_game::sectors::{update_sector_value, SectorName, SECTOR_RANGE};
use trading_game::stocks::{Company, ESGRating};

#[test]
fn words_are_split_before_capitals() {
    assert_eq!(display_name("SaudiArabia"), "Saudi Arabia");
    assert_eq!(display_name("GoldmanSachs"), "Goldman Sachs");
    assert_eq!(display_name("USA"), "USA");
    assert_eq!(display_name("DDos"), "DDos");
    assert_eq!(display_name(""), "");
}

#[test]
fn lower_names_are_lower_case() {
    assert_eq!(display_lowername("SaudiArabia"), "saudi arabia");
    assert_eq!(display_lowername("LVMH"), "lvmh");
    assert_eq!(CountryName::SaudiArabia.to_lowername(), "saudi arabia");
}

#[test]
fn first_word_and_dashes() {
    assert_eq!(first_word_of("Market Order"), "Market");
    assert_eq!(first_word_of("Futures"), "Futures");
    assert_eq!(dash_spaces("ceo resignation"), "ceo-resignation");
    assert_eq!(dash_spaces("ddos"), "ddos");
}

#[test]
fn country_names_and_defaults() {
    assert_eq!(CountryName::SaudiArabia.to_name(), "Saudi Arabia");
    assert_eq!(CountryName::default(), CountryName::Australia);
    assert!(!CountryName::all().is_empty());
    assert_eq!(CountryName::all()[0], CountryName::Australia);
    assert!(!CountryName::Brazil.description().is_empty());
    assert!(!MarketKind::EmergingMarket.description().is_empty());
}

#[test]
fn bond_names_and_ratings() {
    let apple = BondIssuer::Corporate(Company::Apple);
    assert_eq!(apple.to_name(), "Apple");
    assert_eq!(apple.to_lowername(), "apple bond");
    assert_eq!(apple.image(), "apple-bond");
    assert_eq!(apple.kind(), BondKind::Corporate);
    let usa = BondIssuer::Government(CountryName::USA);
    assert_eq!(usa.to_lowername(), "usa bond");
    assert_eq!(usa.image(), "usa");
    assert_eq!(usa.kind(), BondKind::Government);
    assert_eq!(usa.description(), CountryName::USA.description());
    assert!(BondQuality::B.is_high_yield());
    assert!(!BondQuality::BB.is_high_yield());
    assert!(BondQuality::C.at_least_as_bad_as(&BondQuality::CCC));
    assert!(!BondQuality::AA.at_least_as_bad_as(&BondQuality::A));
    assert_eq!(BondKind::Government.emoji(), "💼");
}

#[test]
fn esg_ratings_move_by_grades() {
    assert_eq!(ESGRating::AAA.increase(), ESGRating::AAA);
    assert_eq!(ESGRating::B.increase(), ESGRating::BB);
    assert_eq!(ESGRating::A.decrease(), ESGRating::BB);
    assert_eq!(ESGRating::B.decrease(), ESGRating::CCC);
    assert_eq!(ESGRating::CCC.decrease(), ESGRating::CCC);
    assert_eq!(ESGRating::A.decrease().increase(), ESGRating::BBB);
    assert!(ESGRating::BB.at_least_as_bad_as(&ESGRating::BB));
    assert!(!ESGRating::BBB.at_least_as_bad_as(&ESGRating::BB));
}

#[test]
fn commodities_currencies_and_coins() {
    assert!(CommodityName::Wheat.is_food());
    assert!(!CommodityName::Oil.is_food());
    assert!(!Unit::Barrel.abbr().is_empty());
    assert_eq!(CurrencyName::EUR.symbol(), "€");
    assert_eq!(CurrencyName::USD.symbol(), "$");
    assert_eq!(CryptoName::all().len(), 16);
    assert_eq!(CryptoName::default(), CryptoName::Avalanche);
    assert_eq!(Company::default(), Company::Apple);
}

#[test]
fn sectors_stay_in_range() {
    assert_eq!(update_sector_value(45, 10), SECTOR_RANGE);
    assert_eq!(update_sector_value(-45, -10), -SECTOR_RANGE);
    assert_eq!(update_sector_value(10, -25), -15);
    assert_eq!(SectorName::default(), SectorName::Energy);
    assert!(!SectorName::Energy.emoji().is_empty());
}

#[test]
fn order_kinds() {
    assert_eq!(OrderKind::MarketOrder.abbr(), "Market");
    assert_eq!(OrderKind::Futures.abbr(), "Futures");
    assert!(OrderKind::Options.is_derivative());
    assert!(!OrderKind::ShortSell.is_derivative());
    assert!(OrderKind::ShortSell.is_short_derivative());
    assert!(!OrderKind::LimitOrder.is_short_derivative());
    assert_eq!(OrderKind::all().len(), 6);
    assert_eq!(OrderStatus::Failed("none owned".to_string()).reason(), "none owned");
    assert_eq!(OrderStatus::Executed.reason(), NA);
    assert!(OrderStatus::Pending.is_pending());
    assert!(!OrderStatus::Canceled.is_pending());
}

#[test]
fn instrument_names_and_options() {
    let bond = InstrumentKind::Bond(BondIssuer::Corporate(Company::GoldmanSachs));
    assert_eq!(bond.name(), "Goldman Sachs");
    assert_eq!(bond.lowername(), "goldman sachs bond");
    assert_eq!(bond.order_options(), vec![OrderKind::MarketOrder]);
    let stock = InstrumentKind::Stock(Company::Nvidia);
    assert_eq!(stock.order_options().len(), 6);
    assert!(stock.is_stock() && !stock.is_bond());
    let coin = InstrumentKind::Crypto(CryptoName::Avalanche);
    assert_eq!(coin.order_options().len(), 3);
    assert!(coin.is_crypto());
    let oil = InstrumentKind::Commodity(CommodityName::Oil);
    assert_eq!(oil.order_options().last(), Some(&OrderKind::ShortSell));
    assert!(oil.is_commodity());
}

#[test]
fn game_data_tables() {
    assert_eq!(CountryName::EU.currency(), CurrencyName::EUR);
    assert_eq!(CurrencyName::ZAR.country(), CountryName::SouthAfrica);
    for country in CountryName::all() {
        assert_eq!(country.currency().country(), country);
    }
    assert_eq!(CountryName::Russia.market(), MarketKind::RestrictedMarket);
    assert_eq!(CountryName::Japan.production(), vec![CommodityName::Wheat]);
    assert_eq!(Company::Apple.sector_share(SectorName::Retail), 20);
    assert_eq!(Company::Nvidia.sector_share(SectorName::Technology), 85);
    assert_eq!(Company::Apple.sector_share(SectorName::Food), 0);
    assert_eq!(Company::Boeing.starting_esg(), ESGRating::CCC);
    assert_eq!(Company::Toyota.sector_shares().len(), 4);
}

#[test]
fn starting_ratings_units_and_stances() {
    assert_eq!(BondIssuer::Government(CountryName::Brazil).starting_quality(), BondQuality::BBB);
    assert_eq!(BondIssuer::Government(CountryName::Russia).starting_quality(), BondQuality::CCC);
    assert_eq!(BondIssuer::Corporate(Company::Nvidia).starting_quality(), BondQuality::B);
    assert_eq!(CommodityName::Oil.unit(), Unit::Barrel);
    assert_eq!(CommodityName::Gold.unit(), Unit::Gram);
    assert_eq!(
        SectorName::Military.politics(),
        Politics {
            government: Government::Autocracy,
            ideology: Ideology::Right,
            culture: Culture::Conservative,
            orientation: Orientation::Capitalism,
        }
    );
    assert_eq!(SectorName::Food.politics().ideology, Ideology::Left);
    assert_eq!(SectorName::Food.politics().government, Government::Neutral);
}
