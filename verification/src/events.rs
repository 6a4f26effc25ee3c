use vstd::prelude::*;

use crate::calendar::GameDate;
use crate::commodities::CommodityName;
use crate::countries::CountryName;
use crate::crypto::CryptoName;
use crate::names::{dashed, dash_spaces, lower_text, split_words, NameFromEnum};
use crate::random::{lemma_weight_total_bound, random_index, weighted_pick};
use crate::research::{contains_tech, TechName};
use crate::sectors::SectorName;
use crate::stocks::{share_of, Company, ESGRating};

verus! {

/// The description of BrazilPolitics.
pub const EVENT_BRAZIL_POLITICS: &'static str = "A right-wing government in Brazil implements policies that favor deregulation \
    and privatization, leading to increased foreign investment. However, it also \
    results in social unrest and protests against inequality. The government's \
    focus on economic growth may lead to environmental concerns, particularly in \
    the Amazon rainforest.";

/// The description of CeoResignation, before the name of its subject.
pub const EVENT_CEO_RESIGNATION_PRE: &'static str = "The CEO of ";

/// The description of CeoResignation, after the name of its subject.
pub const EVENT_CEO_RESIGNATION_POST: &'static str = " resigns unexpectedly, causing uncertainty in the company's \
    leadership. This leads to a temporary drop in the stock price as investors \
    react to the news. The company may face challenges in finding a suitable \
    replacement and maintaining stability during the transition.";

/// The description of Covid.
pub const EVENT_COVID: &'static str = "The Covid pandemic causes a global economic downturn, affecting all financial \
    markets. It leads to reduced consumer spending, disrupted supply chains, and \
    increased unemployment. Governments implement lockdowns and stimulus packages to \
    mitigate the impact. The pandemic also accelerates digital transformation and \
    remote work trends, reshaping the global economy.";

/// The description of Crimea.
pub const EVENT_CRIMEA: &'static str = "Russia's invasion of Crimea leads to geopolitical tensions, sanctions from \
    Western countries, and a significant impact on global markets. The conflict \
    disrupts trade routes and energy supplies, causing volatility in oil and gas \
    prices. The situation may lead to increased military spending and shifts in \
    alliances among nations.";

/// The description of CryptoCrash, before the name of its subject.
pub const EVENT_CRYPTO_CRASH_PRE: &'static str = "A failure in the underlying technology of cryptocurrency ";

/// The description of CryptoCrash, after the name of its subject.
pub const EVENT_CRYPTO_CRASH_POST: &'static str = " causes investors \
    to panic, leading to a big sell-off in the market. This results in a sudden and \
    significant drop in the value of the coin.";

/// The description of CryptoFan, before the name of its subject.
pub const EVENT_CRYPTO_FAN_PRE: &'static str = "Influencers and celebrities endorse the cryptocurrency ";

/// The description of CryptoFan, after the name of its subject.
pub const EVENT_CRYPTO_FAN_POST: &'static str = " on social media, \
    leading to a surge in interest and investment. This causes the price of the coin \
    to rise sharply as new investors enter the market.";

/// The description of DDos, before the name of its subject.
pub const EVENT_DDOS_PRE: &'static str = "A DDoS attack on ";

/// The description of DDos, after the name of its subject.
pub const EVENT_DDOS_POST: &'static str = " disrupts its online services, leading to a temporary \
    decline in stock price. The company may face reputational damage and increased \
    security costs as it works to restore its systems and prevent future attacks.";

/// The description of Drought, before the name of its subject.
pub const EVENT_DROUGHT_PRE: &'static str = "A prolonged drought in ";

/// The description of Drought, after the name of its subject.
pub const EVENT_DROUGHT_POST: &'static str = " leads to reduced agricultural output, causing food \
    prices to rise and impacting the economy of the country. The government may \
    implement measures to conserve water and support farmers.";

/// The description of EsgScandal, before the name of its subject.
pub const EVENT_ESG_SCANDAL_PRE: &'static str = "A major ESG scandal involving ";

/// The description of EsgScandal, after the name of its subject.
pub const EVENT_ESG_SCANDAL_POST: &'static str = " leads to a loss of investor confidence and \
    a significant drop in the company's stock price. The scandal may involve issues \
    such as environmental violations, labor rights abuses, or governance failures.";

/// The description of GasDiscovery, before the name of its subject.
pub const EVENT_GAS_DISCOVERY_PRE: &'static str = "The discovery of a new gas field in ";

/// The description of GasDiscovery, after the name of its subject.
pub const EVENT_GAS_DISCOVERY_POST: &'static str = " boosts the country's energy sector, \
    leading to increased exports and potential economic growth. This may also lead \
    to geopolitical tensions over energy resources.";

/// The description of GoldRush.
pub const EVENT_GOLD_RUSH: &'static str = "Tensions un geopolitics causes gold and silver prices to skyrocket. Investors \
    flock to these safe-haven assets, leading to a surge in mining activities.";

/// The description of Grounded.
pub const EVENT_GROUNDED: &'static str = "Volcanic activity in Iceland has grounded all air traffic in the European Union. \
    This disrupts travel plans for millions of passengers and causes significant \
    economic losses for airlines and related industries.";

/// The description of Harvest, before the name of its subject.
pub const EVENT_HARVEST_PRE: &'static str = "A plentiful harvest in ";

/// The description of Harvest, after the name of its subject.
pub const EVENT_HARVEST_POST: &'static str = " boosts the agricultural sector, leading to lower food \
    prices and increased exports. This positively impacts the country's economy, \
    providing a temporary relief from inflation and improving trade balances.";

/// The description of InterestBump, before the name of its subject.
pub const EVENT_INTEREST_BUMP_PRE: &'static str = "The central bank of ";

/// The description of InterestBump, after the name of its subject.
pub const EVENT_INTEREST_BUMP_POST: &'static str = " raises interest rates to combat inflation, leading to \
    higher borrowing costs for consumers and businesses. This may slow down economic \
    growth in the short term but is aimed at stabilizing the economy in the long run.";

/// The description of NewProduct, before the name of its subject.
pub const EVENT_NEW_PRODUCT_PRE: &'static str = "The launch of a new product by ";

/// The description of NewProduct, after the name of its subject.
pub const EVENT_NEW_PRODUCT_POST: &'static str = " creates a buzz in the market, leading to \
    increased sales and stock price appreciation. The product's success may depend \
    on consumer demand, marketing strategies, and competition.";

/// The description of NewContract, before the name of its subject.
pub const EVENT_NEW_CONTRACT_PRE: &'static str = "A major contract signed by ";

/// The description of NewContract, after the name of its subject.
pub const EVENT_NEW_CONTRACT_POST: &'static str = " boosts the company's stock price and increases its \
    revenue. The contract involves the production of new equipment, leading to \
    increased spending in the sector.";

/// The description of OilDiscovery, before the name of its subject.
pub const EVENT_OIL_DISCOVERY_PRE: &'static str = "The discovery of a new oil field in ";

/// The description of OilDiscovery, after the name of its subject.
pub const EVENT_OIL_DISCOVERY_POST: &'static str = " significantly increases the country's \
    oil reserves, leading to potential economic growth. This may attract foreign \
    investment and boost the energy sector, but could also lead to environmental \
    concerns and geopolitical tensions.";

/// The description of OilDisruption.
pub const EVENT_OIL_DISRUPTION: &'static str = "A major disruption in oil supply from Saudi Arabia leads to a spike in global \
    oil prices. This causes inflation and economic instability in the area, affecting \
    industries reliant on oil and energy.";

/// The description of StorageCosts.
pub const EVENT_STORAGE_COSTS: &'static str = "Rising storage costs for commodities lead to increased prices and reduced \
    profitability for producers. This may result in a shift in supply chains, as \
    companies seek to minimize storage expenses. The situation could also lead to \
    increased investment in logistics and infrastructure.";

/// The description of Recession.
pub const EVENT_RECESSION: &'static str = "A global recession leads to a significant downturn in economic activity, \
    resulting in high unemployment rates, reduced consumer spending, and falling \
    stock prices. Governments implement stimulus measures to boost the economy, \
    but recovery may take time as businesses struggle to adapt to the new economic \
    environment.";

/// The description of RegulatoryCrackdown, before the name of its subject.
pub const EVENT_REGULATORY_CRACKDOWN_PRE: &'static str = "A regulatory crackdown on the ";

/// The description of RegulatoryCrackdown, after the name of its subject.
pub const EVENT_REGULATORY_CRACKDOWN_POST: &'static str = " sector leads to increased compliance costs \
    and reduced profitability for companies. This may result in a steep decline of \
    stock prices and a shift in investor sentiment towards more compliant sectors.";

/// The description of RussiaWar.
pub const EVENT_RUSSIA_WAR: &'static str = "Russia's invasion of Ukraine leads to a prolonged conflict, causing significant \
    economic disruption in the region. It results in sanctions, trade restrictions, \
    and increased military spending. The war also affects global energy prices and \
    supply chains, leading to inflationary pressures worldwide.";

/// The description of TradeWar.
pub const EVENT_TRADE_WAR: &'static str = "The escalating trade war between the USA and China leads to tariffs, trade \
    restrictions, and increased costs for consumers and businesses. It causes \
    uncertainty in global markets, affecting investments and economic growth. The \
    conflict may lead to shifts in supply chains and trade alliances.";

/// The description of Vaccine, before the name of its subject.
pub const EVENT_VACCINE_PRE: &'static str = "A breakthrough in vaccine development by ";

/// The description of Vaccine, after the name of its subject.
pub const EVENT_VACCINE_POST: &'static str = " leads to a significant reduction \
    in the spread of infectious diseases. This boosts public health, increases \
    consumer confidence, and positively impacts the company's stock price.";

/// An event that moves the markets. Some are about a company, a coin, a country
/// or a sector: their subject.
#[derive(Clone, Copy, Debug, PartialEq, Eq, Structural)]
pub enum EventName {
    BrazilPolitics,
    CeoResignation(Company),
    Covid,
    Crimea,
    CryptoCrash(CryptoName),
    CryptoFan(CryptoName),
    DDos(Company),
    Drought(CountryName),
    EsgScandal(Company),
    GasDiscovery(CountryName),
    GoldRush,
    Grounded,
    Harvest(CountryName),
    InterestBump(CountryName),
    NewProduct(Company),
    NewContract(Company),
    OilDiscovery(CountryName),
    OilDisruption,
    StorageCosts,
    Recession,
    RegulatoryCrackdown(SectorName),
    RussiaWar,
    TradeWar,
    Vaccine(Company),
}

impl NameFromEnum for EventName {
    open spec fn spec_ident(&self) -> Seq<char> {
        match self {
            EventName::BrazilPolitics => "BrazilPolitics"@,
            EventName::CeoResignation(_) => "CeoResignation"@,
            EventName::Covid => "Covid"@,
            EventName::Crimea => "Crimea"@,
            EventName::CryptoCrash(_) => "CryptoCrash"@,
            EventName::CryptoFan(_) => "CryptoFan"@,
            EventName::DDos(_) => "DDos"@,
            EventName::Drought(_) => "Drought"@,
            EventName::EsgScandal(_) => "EsgScandal"@,
            EventName::GasDiscovery(_) => "GasDiscovery"@,
            EventName::GoldRush => "GoldRush"@,
            EventName::Grounded => "Grounded"@,
            EventName::Harvest(_) => "Harvest"@,
            EventName::InterestBump(_) => "InterestBump"@,
            EventName::NewProduct(_) => "NewProduct"@,
            EventName::NewContract(_) => "NewContract"@,
            EventName::OilDiscovery(_) => "OilDiscovery"@,
            EventName::OilDisruption => "OilDisruption"@,
            EventName::StorageCosts => "StorageCosts"@,
            EventName::Recession => "Recession"@,
            EventName::RegulatoryCrackdown(_) => "RegulatoryCrackdown"@,
            EventName::RussiaWar => "RussiaWar"@,
            EventName::TradeWar => "TradeWar"@,
            EventName::Vaccine(_) => "Vaccine"@,
        }
    }

    fn ident(&self) -> (r: &'static str) {
        match self {
            EventName::BrazilPolitics => "BrazilPolitics",
            EventName::CeoResignation(_) => "CeoResignation",
            EventName::Covid => "Covid",
            EventName::Crimea => "Crimea",
            EventName::CryptoCrash(_) => "CryptoCrash",
            EventName::CryptoFan(_) => "CryptoFan",
            EventName::DDos(_) => "DDos",
            EventName::Drought(_) => "Drought",
            EventName::EsgScandal(_) => "EsgScandal",
            EventName::GasDiscovery(_) => "GasDiscovery",
            EventName::GoldRush => "GoldRush",
            EventName::Grounded => "Grounded",
            EventName::Harvest(_) => "Harvest",
            EventName::InterestBump(_) => "InterestBump",
            EventName::NewProduct(_) => "NewProduct",
            EventName::NewContract(_) => "NewContract",
            EventName::OilDiscovery(_) => "OilDiscovery",
            EventName::OilDisruption => "OilDisruption",
            EventName::StorageCosts => "StorageCosts",
            EventName::Recession => "Recession",
            EventName::RegulatoryCrackdown(_) => "RegulatoryCrackdown",
            EventName::RussiaWar => "RussiaWar",
            EventName::TradeWar => "TradeWar",
            EventName::Vaccine(_) => "Vaccine",
        }
    }
}

impl EventName {
    /// The position of the event's kind in the declaration of `EventName`.
    pub open spec fn kind(self) -> int {
        match self {
            EventName::BrazilPolitics => 0,
            EventName::CeoResignation(_) => 1,
            EventName::Covid => 2,
            EventName::Crimea => 3,
            EventName::CryptoCrash(_) => 4,
            EventName::CryptoFan(_) => 5,
            EventName::DDos(_) => 6,
            EventName::Drought(_) => 7,
            EventName::EsgScandal(_) => 8,
            EventName::GasDiscovery(_) => 9,
            EventName::GoldRush => 10,
            EventName::Grounded => 11,
            EventName::Harvest(_) => 12,
            EventName::InterestBump(_) => 13,
            EventName::NewProduct(_) => 14,
            EventName::NewContract(_) => 15,
            EventName::OilDiscovery(_) => 16,
            EventName::OilDisruption => 17,
            EventName::StorageCosts => 18,
            EventName::Recession => 19,
            EventName::RegulatoryCrackdown(_) => 20,
            EventName::RussiaWar => 21,
            EventName::TradeWar => 22,
            EventName::Vaccine(_) => 23,
        }
    }

    /// Every kind of event in declaration order, each with the default subject
    /// (the first company, coin, country or sector by default).
    pub open spec fn spec_all() -> Seq<EventName> {
        seq![EventName::BrazilPolitics, EventName::CeoResignation(Company::Apple), EventName::Covid, EventName::Crimea, EventName::CryptoCrash(CryptoName::Avalanche), EventName::CryptoFan(CryptoName::Avalanche), EventName::DDos(Company::Apple), EventName::Drought(CountryName::Australia), EventName::EsgScandal(Company::Apple), EventName::GasDiscovery(CountryName::Australia), EventName::GoldRush, EventName::Grounded, EventName::Harvest(CountryName::Australia), EventName::InterestBump(CountryName::Australia), EventName::NewProduct(Company::Apple), EventName::NewContract(Company::Apple), EventName::OilDiscovery(CountryName::Australia), EventName::OilDisruption, EventName::StorageCosts, EventName::Recession, EventName::RegulatoryCrackdown(SectorName::Energy), EventName::RussiaWar, EventName::TradeWar, EventName::Vaccine(Company::Apple)]
    }

    /// Every kind of event in declaration order, each with the default subject.
    pub fn all() -> (r: Vec<EventName>)
        ensures
            r@ == Self::spec_all(),
    {
        let mut r: Vec<EventName> = Vec::new();
        r.push(EventName::BrazilPolitics);
        r.push(EventName::CeoResignation(Company::Apple));
        r.push(EventName::Covid);
        r.push(EventName::Crimea);
        r.push(EventName::CryptoCrash(CryptoName::Avalanche));
        r.push(EventName::CryptoFan(CryptoName::Avalanche));
        r.push(EventName::DDos(Company::Apple));
        r.push(EventName::Drought(CountryName::Australia));
        r.push(EventName::EsgScandal(Company::Apple));
        r.push(EventName::GasDiscovery(CountryName::Australia));
        r.push(EventName::GoldRush);
        r.push(EventName::Grounded);
        r.push(EventName::Harvest(CountryName::Australia));
        r.push(EventName::InterestBump(CountryName::Australia));
        r.push(EventName::NewProduct(Company::Apple));
        r.push(EventName::NewContract(Company::Apple));
        r.push(EventName::OilDiscovery(CountryName::Australia));
        r.push(EventName::OilDisruption);
        r.push(EventName::StorageCosts);
        r.push(EventName::Recession);
        r.push(EventName::RegulatoryCrackdown(SectorName::Energy));
        r.push(EventName::RussiaWar);
        r.push(EventName::TradeWar);
        r.push(EventName::Vaccine(Company::Apple));
        proof {
            assert(r@ =~= Self::spec_all());
        }
        r
    }

    /// How many days an event lasts before the random factor is applied.
    pub open spec fn base_duration(self) -> u32 {
        match self {
            EventName::BrazilPolitics => 365,
            EventName::Covid => 120,
            EventName::CryptoFan(_) => 30,
            EventName::Drought(_) => 30,
            EventName::Harvest(_) => 30,
            EventName::GoldRush => 40,
            EventName::Grounded => 7,
            EventName::InterestBump(_) => 200,
            EventName::OilDisruption => 10,
            EventName::StorageCosts => 90,
            EventName::Recession => 60,
            EventName::RussiaWar => 365,
            EventName::TradeWar => 180,
            _ => 1,
        }
    }

    fn base_days(&self) -> (r: u32)
        ensures
            r == self.base_duration(),
    {
        match self {
            EventName::BrazilPolitics => 365,
            EventName::Covid => 120,
            EventName::CryptoFan(_) => 30,
            EventName::Drought(_) => 30,
            EventName::Harvest(_) => 30,
            EventName::GoldRush => 40,
            EventName::Grounded => 7,
            EventName::InterestBump(_) => 200,
            EventName::OilDisruption => 10,
            EventName::StorageCosts => 90,
            EventName::Recession => 60,
            EventName::RussiaWar => 365,
            EventName::TradeWar => 180,
            _ => 1,
        }
    }

    /// The weight of the event in the draw of a new event, in tenths.
    pub open spec fn spec_base_weight(self) -> u32 {
        match self {
            EventName::BrazilPolitics => 1,
            EventName::Covid => 1,
            EventName::Crimea => 1,
            EventName::Recession => 4,
            EventName::RussiaWar => 1,
            EventName::TradeWar => 1,
            EventName::Vaccine(_) => 1,
            _ => 10,
        }
    }

    /// The weight of the event in the draw of a new event, in tenths (a weight of
    /// 10 is a weight of one).
    pub fn base_weight(&self) -> (r: u32)
        ensures
            r == self.spec_base_weight(),
    {
        match self {
            EventName::BrazilPolitics => 1,
            EventName::Covid => 1,
            EventName::Crimea => 1,
            EventName::Recession => 4,
            EventName::RussiaWar => 1,
            EventName::TradeWar => 1,
            EventName::Vaccine(_) => 1,
            _ => 10,
        }
    }

    /// The headline of the event.
    pub open spec fn spec_title(self) -> Seq<char> {
        match self {
            EventName::BrazilPolitics => "Brazilian right-wing gains power"@,
            EventName::CeoResignation(s) => "The CEO of "@ + split_words(s.spec_ident()) + " resigns"@,
            EventName::Covid => "Covid pandemic"@,
            EventName::Crimea => "Russia invades Crimea"@,
            EventName::CryptoCrash(s) => ""@ + split_words(s.spec_ident()) + " crash"@,
            EventName::CryptoFan(s) => "Influencers support "@ + split_words(s.spec_ident()) + ""@,
            EventName::DDos(s) => "DDoS attack on "@ + split_words(s.spec_ident()) + ""@,
            EventName::Drought(s) => "Prolonged drought in "@ + split_words(s.spec_ident()) + ""@,
            EventName::EsgScandal(s) => ""@ + split_words(s.spec_ident()) + " ESG scandal"@,
            EventName::GasDiscovery(s) => "New gas field discovered in "@ + split_words(s.spec_ident()) + ""@,
            EventName::GoldRush => "Gold rush"@,
            EventName::Grounded => "Air travel in EU grounded"@,
            EventName::Harvest(s) => "Plentiful harvest in "@ + split_words(s.spec_ident()) + ""@,
            EventName::InterestBump(s) => "Interest rates raised in "@ + split_words(s.spec_ident()) + ""@,
            EventName::NewProduct(s) => ""@ + split_words(s.spec_ident()) + " launches a new product"@,
            EventName::NewContract(s) => ""@ + split_words(s.spec_ident()) + " signs a big new contract"@,
            EventName::OilDiscovery(s) => "New oil field discovered in "@ + split_words(s.spec_ident()) + ""@,
            EventName::OilDisruption => "Oil supply disruption in Saudi Arabia"@,
            EventName::StorageCosts => "Storage costs rise"@,
            EventName::Recession => "Global recession"@,
            EventName::RegulatoryCrackdown(s) => "Regulatory crackdown on sector "@ + split_words(s.spec_ident()) + ""@,
            EventName::RussiaWar => "Russia invades Ukraine"@,
            EventName::TradeWar => "USA - China trade war escalates"@,
            EventName::Vaccine(s) => ""@ + split_words(s.spec_ident()) + " vaccine breakthrough"@,
        }
    }

    /// The full story of the event.
    pub open spec fn spec_description(self) -> Seq<char> {
        match self {
            EventName::BrazilPolitics => EVENT_BRAZIL_POLITICS@,
            EventName::CeoResignation(s) => EVENT_CEO_RESIGNATION_PRE@ + split_words(s.spec_ident()) + EVENT_CEO_RESIGNATION_POST@,
            EventName::Covid => EVENT_COVID@,
            EventName::Crimea => EVENT_CRIMEA@,
            EventName::CryptoCrash(s) => EVENT_CRYPTO_CRASH_PRE@ + split_words(s.spec_ident()) + EVENT_CRYPTO_CRASH_POST@,
            EventName::CryptoFan(s) => EVENT_CRYPTO_FAN_PRE@ + split_words(s.spec_ident()) + EVENT_CRYPTO_FAN_POST@,
            EventName::DDos(s) => EVENT_DDOS_PRE@ + split_words(s.spec_ident()) + EVENT_DDOS_POST@,
            EventName::Drought(s) => EVENT_DROUGHT_PRE@ + split_words(s.spec_ident()) + EVENT_DROUGHT_POST@,
            EventName::EsgScandal(s) => EVENT_ESG_SCANDAL_PRE@ + split_words(s.spec_ident()) + EVENT_ESG_SCANDAL_POST@,
            EventName::GasDiscovery(s) => EVENT_GAS_DISCOVERY_PRE@ + split_words(s.spec_ident()) + EVENT_GAS_DISCOVERY_POST@,
            EventName::GoldRush => EVENT_GOLD_RUSH@,
            EventName::Grounded => EVENT_GROUNDED@,
            EventName::Harvest(s) => EVENT_HARVEST_PRE@ + split_words(s.spec_ident()) + EVENT_HARVEST_POST@,
            EventName::InterestBump(s) => EVENT_INTEREST_BUMP_PRE@ + split_words(s.spec_ident()) + EVENT_INTEREST_BUMP_POST@,
            EventName::NewProduct(s) => EVENT_NEW_PRODUCT_PRE@ + split_words(s.spec_ident()) + EVENT_NEW_PRODUCT_POST@,
            EventName::NewContract(s) => EVENT_NEW_CONTRACT_PRE@ + split_words(s.spec_ident()) + EVENT_NEW_CONTRACT_POST@,
            EventName::OilDiscovery(s) => EVENT_OIL_DISCOVERY_PRE@ + split_words(s.spec_ident()) + EVENT_OIL_DISCOVERY_POST@,
            EventName::OilDisruption => EVENT_OIL_DISRUPTION@,
            EventName::StorageCosts => EVENT_STORAGE_COSTS@,
            EventName::Recession => EVENT_RECESSION@,
            EventName::RegulatoryCrackdown(s) => EVENT_REGULATORY_CRACKDOWN_PRE@ + split_words(s.spec_ident()) + EVENT_REGULATORY_CRACKDOWN_POST@,
            EventName::RussiaWar => EVENT_RUSSIA_WAR@,
            EventName::TradeWar => EVENT_TRADE_WAR@,
            EventName::Vaccine(s) => EVENT_VACCINE_PRE@ + split_words(s.spec_ident()) + EVENT_VACCINE_POST@,
        }
    }
}

/// `pre`, then the subject's name, then `post`.
fn framed(pre: &str, name: String, post: &str) -> (r: String)
    ensures
        r@ == pre@ + name@ + post@,
{
    let mut r = String::from_str(pre);
    r.append(name.as_str());
    r.append(post);
    r
}

/// Whether an event of that name, subject included, is in the list.
pub open spec fn occurred(events: Seq<EconomicEvent>, name: EventName) -> bool {
    exists|i: int| 0 <= i < events.len() && events[i].name == name
}

/// Whether an event of that name, subject included, is active on `today`.
pub open spec fn occurring(events: Seq<EconomicEvent>, name: EventName, today: GameDate) -> bool {
    exists|i: int| 0 <= i < events.len() && events[i].name == name && events[i].spec_is_active(today)
}

/// The events of the list that are active on `today`, in their order.
pub open spec fn spec_active_events(events: Seq<EconomicEvent>, today: GameDate) -> Seq<EconomicEvent> {
    events.filter(|e: EconomicEvent| e.spec_is_active(today))
}

/// The events of the list that are over by `today`, in their order.
pub open spec fn spec_historical_events(events: Seq<EconomicEvent>, today: GameDate) -> Seq<EconomicEvent> {
    events.filter(|e: EconomicEvent| e.has_ended(today))
}

/// The weight (in tenths) of each kind of event in the draw of a new one, in the
/// order of `EventName::spec_all`.
pub open spec fn spec_weights(techs: Seq<TechName>, events: Seq<EconomicEvent>, today: GameDate) -> Seq<u32> {
    EventName::spec_all().map_values(|n: EventName| n.spec_weight(techs, events, today))
}

impl EventName {
    /// Whether an event of this kind may happen again once it has happened.
    pub open spec fn recurs(self) -> bool {
        match self {
            EventName::CryptoCrash(_) => true,
            EventName::CryptoFan(_) => true,
            EventName::Drought(_) => true,
            EventName::Harvest(_) => true,
            EventName::EsgScandal(_) => true,
            EventName::GasDiscovery(_) => true,
            EventName::OilDiscovery(_) => true,
            EventName::StorageCosts => true,
            EventName::Vaccine(_) => true,
            _ => false,
        }
    }

    /// The weight (in tenths) of the event in the draw of a new one, given the
    /// technologies the player has researched, the events so far and today's date.
    pub open spec fn spec_weight(self, techs: Seq<TechName>, events: Seq<EconomicEvent>, today: GameDate) -> u32 {
        let base = self.spec_base_weight();
        match self {
            EventName::Crimea => if techs.contains(TechName::ForeignExchange) && !occurred(events, self) {
                base
            } else {
                0
            },
            EventName::CryptoCrash(_) => if techs.contains(TechName::Cryptocurrencies) { 10 } else { 0 },
            EventName::CryptoFan(_) => if techs.contains(TechName::Cryptocurrencies) { 10 } else { 0 },
            EventName::Drought(_) => if techs.contains(TechName::Commodities) { 10 } else { 0 },
            EventName::Harvest(_) => if techs.contains(TechName::Commodities) { 10 } else { 0 },
            EventName::EsgScandal(_) => if techs.contains(TechName::ESG) { 10 } else { 0 },
            EventName::GasDiscovery(_) => if techs.contains(TechName::Commodities) { 10 } else { 0 },
            EventName::OilDiscovery(_) => if techs.contains(TechName::Commodities) { 10 } else { 0 },
            EventName::GoldRush => if techs.contains(TechName::Commodities) && !occurred(events, self) {
                base
            } else {
                0
            },
            EventName::RussiaWar => if !occurred(events, self) && occurring(events, EventName::Crimea, today) {
                base
            } else {
                0
            },
            EventName::StorageCosts => if techs.contains(TechName::Commodities) && !occurring(
                events,
                self,
                today,
            ) {
                base
            } else {
                0
            },
            EventName::Vaccine(_) => if occurring(events, EventName::Covid, today) {
                (3 * base) as u32
            } else {
                base
            },
            _ => if !occurred(events, self) { base } else { 0 },
        }
    }

    /// The weight (in tenths) of the event in the draw of a new one, given the
    /// technologies the player has researched, the events so far and today's date.
    pub fn weight(&self, techs: &Vec<TechName>, events: &Vec<EconomicEvent>, today: &GameDate) -> (r: u32)
        ensures
            r == self.spec_weight(techs@, events@, *today),
            self is EsgScandal ==> (r > 0) == techs@.contains(TechName::ESG),
            self is CryptoCrash || self is CryptoFan ==> (r > 0) == techs@.contains(
                TechName::Cryptocurrencies,
            ),
            self is Drought || self is Harvest || self is GasDiscovery || self is OilDiscovery ==> (r
                > 0) == techs@.contains(TechName::Commodities),
    {
        let base = self.base_weight();
        match self {
            EventName::Crimea => if contains_tech(techs, TechName::ForeignExchange) && !has_occurred(events, self) {
                base
            } else {
                0
            },
            EventName::CryptoCrash(_) => if contains_tech(techs, TechName::Cryptocurrencies) { 10 } else { 0 },
            EventName::CryptoFan(_) => if contains_tech(techs, TechName::Cryptocurrencies) { 10 } else { 0 },
            EventName::Drought(_) => if contains_tech(techs, TechName::Commodities) { 10 } else { 0 },
            EventName::Harvest(_) => if contains_tech(techs, TechName::Commodities) { 10 } else { 0 },
            EventName::EsgScandal(_) => if contains_tech(techs, TechName::ESG) { 10 } else { 0 },
            EventName::GasDiscovery(_) => if contains_tech(techs, TechName::Commodities) { 10 } else { 0 },
            EventName::OilDiscovery(_) => if contains_tech(techs, TechName::Commodities) { 10 } else { 0 },
            EventName::GoldRush => if contains_tech(techs, TechName::Commodities) && !has_occurred(events, self) {
                base
            } else {
                0
            },
            EventName::RussiaWar => if !has_occurred(events, self) && has_active_event(
                events,
                &EventName::Crimea,
                today,
            ) {
                base
            } else {
                0
            },
            EventName::StorageCosts => if contains_tech(techs, TechName::Commodities) && !has_active_event(
                events,
                self,
                today,
            ) {
                base
            } else {
                0
            },
            EventName::Vaccine(_) => if has_active_event(events, &EventName::Covid, today) {
                3 * base
            } else {
                base
            },
            _ => if !has_occurred(events, self) { base } else { 0 },
        }
    }

    /// The weight (in tenths) of every kind of event in the draw of a new one, in the
    /// order of `EventName::all`.
    pub fn weights(techs: &Vec<TechName>, events: &Vec<EconomicEvent>, today: &GameDate) -> (r: Vec<u32>)
        ensures
            r@ == spec_weights(techs@, events@, *today),
    {
        let names = Self::all();
        let mut r: Vec<u32> = Vec::new();
        let mut i: usize = 0;
        while i < names.len()
            invariant
                names@ == Self::spec_all(),
                i <= names.len(),
                r.len() == i,
                forall|j: int| 0 <= j < i ==> r@[j] == names@[j].spec_weight(techs@, events@, *today),
            decreases names.len() - i,
        {
            let w = names[i].weight(techs, events, today);
            r.push(w);
            i = i + 1;
        }
        assert(r@ =~= spec_weights(techs@, events@, *today));
        r
    }

    /// Whether `days` is a duration an event of this kind can get: its base duration
    /// or, for an event that lasts more than a day, twice that.
    pub open spec fn is_possible_duration(self, days: int) -> bool {
        if self.base_duration() > 1 {
            days == self.base_duration() || days == 2 * self.base_duration()
        } else {
            days == self.base_duration()
        }
    }

    /// The duration in days for a random factor of 1 or 2: the base duration times
    /// the factor for an event that lasts more than a day, a single day otherwise.
    pub fn scaled_duration(&self, factor: u32) -> (r: u32)
        requires
            1 <= factor <= 2,
        ensures
            r == if self.base_duration() > 1 {
                self.base_duration() * factor
            } else {
                self.base_duration() as int
            },
    {
        let base = self.base_days();
        if base > 1 {
            base * factor
        } else {
            base
        }
    }

    /// How many days a new event lasts: its base duration, doubled at random for an
    /// event that lasts more than a day.
    pub fn duration(&self) -> (r: u32)
        ensures
            self.is_possible_duration(r as int),
    {
        let factor: u32 = if self.base_days() > 1 {
            let draw = random_index(2);
            if draw == 0 {
                1
            } else {
                2
            }
        } else {
            1
        };
        self.scaled_duration(factor)
    }

    /// Draws a new event: its kind at random, each kind with a chance in proportion
    /// to its weight (see `EventName::weights`), then its subject at random among the
    /// candidates that fit the kind; it starts today and lasts a random duration.
    /// Some kind must have a positive weight, and every kind with a positive weight
    /// must have a subject among the candidates.
    pub fn create(
        techs: &Vec<TechName>,
        events: &Vec<EconomicEvent>,
        candidates: &EventCandidates,
        today: &GameDate,
    ) -> (r: EconomicEvent)
        requires
            exists|k: int|
                0 <= k < spec_weights(techs@, events@, *today).len() && #[trigger] spec_weights(
                    techs@,
                    events@,
                    *today,
                )[k] > 0,
            forall|k: int|
                0 <= k < spec_weights(techs@, events@, *today).len() && spec_weights(
                    techs@,
                    events@,
                    *today,
                )[k] > 0 ==> candidates.has_subject(#[trigger] EventName::spec_all()[k]),
        ensures
            exists|k: int, i: int|
                0 <= k < spec_weights(techs@, events@, *today).len() && spec_weights(
                    techs@,
                    events@,
                    *today,
                )[k] > 0 && 0 <= i < candidates.spec_subjects(EventName::spec_all()[k]).len()
                    && r.name == candidates.spec_subjects(EventName::spec_all()[k])[i],
            spec_weights(techs@, events@, *today)[r.name.kind()] > 0,
            candidates.admits(r.name),
            r.start_date == *today,
            r.name.is_possible_duration(r.duration as int),
    {
        let w = Self::weights(techs, events, today);
        proof {
            assert forall|i: int| 0 <= i < w.len() implies w@[i] <= 30 by {
                lemma_weight_at_most_thirty(Self::spec_all()[i], techs@, events@, *today);
            }
            lemma_weight_total_bound(w@, 30);
        }
        let k = weighted_pick(&w);
        let names = Self::all();
        proof {
            lemma_kinds_in_order(k as int);
        }
        let template = names[k];
        let n = candidates.subjects(&template).len();
        let i = random_index(n);
        let name = candidates.event_from_draws(k, i);
        proof {
            lemma_subject_fits(*candidates, Self::spec_all()[k as int], i as int);
        }
        let duration = name.duration();
        EconomicEvent::new(name, *today, duration)
    }
}

/// Every event among the subjects of a kind is of that kind and admitted by the
/// candidates.
proof fn lemma_subject_fits(c: EventCandidates, template: EventName, i: int)
    requires
        0 <= i < c.spec_subjects(template).len(),
    ensures
        c.spec_subjects(template)[i].kind() == template.kind(),
        c.admits(c.spec_subjects(template)[i]),
{
    let e = c.spec_subjects(template)[i];
    match template {
        EventName::CryptoCrash(_) | EventName::CryptoFan(_) => {
            assert(e == with_crypto(template, c.visible_cryptos@[i]));
        },
        EventName::Drought(_) | EventName::Harvest(_) => {
            let f = c.production@.filter(|p: (CountryName, Vec<CommodityName>)| produces_food(p.1@));
            c.production@.lemma_filter_pred(|p: (CountryName, Vec<CommodityName>)| produces_food(p.1@), i);
            assert(f.contains(f[i]));
            c.production@.lemma_filter_contains_rev(|p: (CountryName, Vec<CommodityName>)| produces_food(p.1@), f[i]);
            let j = choose|j: int| 0 <= j < c.production.len() && c.production@[j] == f[i];
            assert(e == with_country(template, f[i].0));
            assert(c.grows_food(f[i].0)) by {
                assert(c.production@[j].0 == f[i].0);
            }
        },
        EventName::GasDiscovery(_) | EventName::OilDiscovery(_) => {
            let commodity = if template is GasDiscovery { CommodityName::LNG } else { CommodityName::Oil };
            let f = c.production@.filter(|p: (CountryName, Vec<CommodityName>)| p.1@.contains(commodity));
            c.production@.lemma_filter_pred(|p: (CountryName, Vec<CommodityName>)| p.1@.contains(commodity), i);
            assert(f.contains(f[i]));
            c.production@.lemma_filter_contains_rev(|p: (CountryName, Vec<CommodityName>)| p.1@.contains(commodity), f[i]);
            let j = choose|j: int| 0 <= j < c.production.len() && c.production@[j] == f[i];
            assert(e == with_country(template, f[i].0));
            assert(c.extracts(f[i].0, commodity)) by {
                assert(c.production@[j].0 == f[i].0);
            }
        },
        EventName::EsgScandal(_) => {
            let f = c.esg_ratings@.filter(|p: (Company, ESGRating)| p.1.rank() >= ESGRating::BB.rank());
            c.esg_ratings@.lemma_filter_pred(|p: (Company, ESGRating)| p.1.rank() >= ESGRating::BB.rank(), i);
            assert(f.contains(f[i]));
            c.esg_ratings@.lemma_filter_contains_rev(|p: (Company, ESGRating)| p.1.rank() >= ESGRating::BB.rank(), f[i]);
            let j = choose|j: int| 0 <= j < c.esg_ratings.len() && c.esg_ratings@[j] == f[i];
            assert(e == with_company(template, f[i].0));
            assert(c.esg_laggard(f[i].0)) by {
                assert(c.esg_ratings@[j].0 == f[i].0);
            }
        },
        EventName::NewContract(_) => {
            let pred = |x: Company| x == Company::Boeing || x == Company::LockheedMartin || x == Company::Toyota;
            Company::spec_all().lemma_filter_pred(pred, i);
        },
        EventName::NewProduct(_) => {
            assert(e == with_company(template, c.retail_companies@[i]));
        },
        EventName::Vaccine(_) => {
            assert(e == with_company(template, c.healthcare_companies@[i]));
        },
        _ => {},
    }
}

/// No weight exceeds three times the largest base weight.
proof fn lemma_weight_at_most_thirty(
    name: EventName,
    techs: Seq<TechName>,
    events: Seq<EconomicEvent>,
    today: GameDate,
)
    ensures
        name.spec_weight(techs, events, today) <= 30,
{
}

/// The kinds of `EventName::spec_all` come in the order of their positions.
proof fn lemma_kinds_in_order(k: int)
    requires
        0 <= k < 24,
    ensures
        EventName::spec_all().len() == 24,
        EventName::spec_all()[k].kind() == k,
{
}

/// One more event of the list adds it to the active ones when it is active.
proof fn lemma_active_step(events: Seq<EconomicEvent>, i: int, today: GameDate)
    requires
        0 <= i < events.len(),
    ensures
        spec_active_events(events.take(i + 1), today) == if events[i].spec_is_active(today) {
            spec_active_events(events.take(i), today).push(events[i])
        } else {
            spec_active_events(events.take(i), today)
        },
        spec_historical_events(events.take(i + 1), today) == if events[i].has_ended(today) {
            spec_historical_events(events.take(i), today).push(events[i])
        } else {
            spec_historical_events(events.take(i), today)
        },
{
    let s = events.take(i + 1);
    assert(s.drop_last() =~= events.take(i));
    assert(s.last() == events[i]);
    reveal_with_fuel(Seq::filter, 1);
}

fn has_occurred(events: &Vec<EconomicEvent>, name: &EventName) -> (r: bool)
    ensures
        r == occurred(events@, *name),
{
    let mut i: usize = 0;
    while i < events.len()
        invariant
            i <= events.len(),
            forall|j: int| 0 <= j < i ==> events@[j].name != *name,
        decreases events.len() - i,
    {
        if events[i].name == *name {
            return true;
        }
        i = i + 1;
    }
    false
}

/// Whether an event of that name, subject included, is active on `today`.
pub fn has_active_event(events: &Vec<EconomicEvent>, name: &EventName, today: &GameDate) -> (r: bool)
    ensures
        r == occurring(events@, *name, *today),
{
    let mut i: usize = 0;
    while i < events.len()
        invariant
            i <= events.len(),
            forall|j: int| 0 <= j < i ==> !(events@[j].name == *name && events@[j].spec_is_active(*today)),
        decreases events.len() - i,
    {
        if events[i].name == *name && events[i].is_active(today) {
            return true;
        }
        i = i + 1;
    }
    false
}

/// The events that are active on `today`, in their order.
pub fn active_events(events: &Vec<EconomicEvent>, today: &GameDate) -> (r: Vec<EconomicEvent>)
    ensures
        r@ == spec_active_events(events@, *today),
{
    let mut r: Vec<EconomicEvent> = Vec::new();
    let mut i: usize = 0;
    while i < events.len()
        invariant
            i <= events.len(),
            r@ == spec_active_events(events@.take(i as int), *today),
        decreases events.len() - i,
    {
        let e = events[i];
        proof {
            lemma_active_step(events@, i as int, *today);
        }
        if e.is_active(today) {
            r.push(e);
        }
        i = i + 1;
    }
    assert(events@.take(events.len() as int) =~= events@);
    r
}

/// The events that are over by `today`, in their order.
pub fn historical_events(events: &Vec<EconomicEvent>, today: &GameDate) -> (r: Vec<EconomicEvent>)
    ensures
        r@ == spec_historical_events(events@, *today),
{
    let mut r: Vec<EconomicEvent> = Vec::new();
    let mut i: usize = 0;
    while i < events.len()
        invariant
            i <= events.len(),
            r@ == spec_historical_events(events@.take(i as int), *today),
        decreases events.len() - i,
    {
        let e = events[i];
        proof {
            lemma_active_step(events@, i as int, *today);
        }
        if !e.is_active(today) {
            r.push(e);
        }
        i = i + 1;
    }
    assert(events@.take(events.len() as int) =~= events@);
    r
}

/// An event that moved or moves the markets.
#[derive(Clone, Copy, Debug, PartialEq, Eq, Structural)]
pub struct EconomicEvent {
    /// Name of the event
    pub name: EventName,
    /// Start date
    pub start_date: GameDate,
    /// Number of days the event lasts
    pub duration: u32,
}

impl EconomicEvent {
    /// An event of that name starting on `start_date` and lasting `duration` days.
    pub fn new(name: EventName, start_date: GameDate, duration: u32) -> (r: Self)
        ensures
            r == (EconomicEvent { name, start_date, duration }),
    {
        EconomicEvent { name, start_date, duration }
    }

    /// Whether the event is still under way on `date`: `date` comes before the day
    /// `duration` days after the start.
    pub open spec fn spec_is_active(self, date: GameDate) -> bool {
        date.day_number < self.start_date.day_number + self.duration
    }

    /// Whether the event is over by `date`.
    pub open spec fn has_ended(self, date: GameDate) -> bool {
        date.day_number >= self.start_date.day_number + self.duration
    }

    /// Whether the event is still under way on `date`.
    pub fn is_active(&self, date: &GameDate) -> (r: bool)
        ensures
            r == self.spec_is_active(*date),
    {
        (date.day_number as i64) < (self.start_date.day_number as i64) + (self.duration as i64)
    }

    /// The headline of the event.
    pub fn title(&self) -> (r: String)
        ensures
            r@ == self.name.spec_title(),
    {
        match self.name {
            EventName::BrazilPolitics => String::from_str("Brazilian right-wing gains power"),
            EventName::CeoResignation(s) => framed("The CEO of ", s.to_name(), " resigns"),
            EventName::Covid => String::from_str("Covid pandemic"),
            EventName::Crimea => String::from_str("Russia invades Crimea"),
            EventName::CryptoCrash(s) => framed("", s.to_name(), " crash"),
            EventName::CryptoFan(s) => framed("Influencers support ", s.to_name(), ""),
            EventName::DDos(s) => framed("DDoS attack on ", s.to_name(), ""),
            EventName::Drought(s) => framed("Prolonged drought in ", s.to_name(), ""),
            EventName::EsgScandal(s) => framed("", s.to_name(), " ESG scandal"),
            EventName::GasDiscovery(s) => framed("New gas field discovered in ", s.to_name(), ""),
            EventName::GoldRush => String::from_str("Gold rush"),
            EventName::Grounded => String::from_str("Air travel in EU grounded"),
            EventName::Harvest(s) => framed("Plentiful harvest in ", s.to_name(), ""),
            EventName::InterestBump(s) => framed("Interest rates raised in ", s.to_name(), ""),
            EventName::NewProduct(s) => framed("", s.to_name(), " launches a new product"),
            EventName::NewContract(s) => framed("", s.to_name(), " signs a big new contract"),
            EventName::OilDiscovery(s) => framed("New oil field discovered in ", s.to_name(), ""),
            EventName::OilDisruption => String::from_str("Oil supply disruption in Saudi Arabia"),
            EventName::StorageCosts => String::from_str("Storage costs rise"),
            EventName::Recession => String::from_str("Global recession"),
            EventName::RegulatoryCrackdown(s) => framed("Regulatory crackdown on sector ", s.to_name(), ""),
            EventName::RussiaWar => String::from_str("Russia invades Ukraine"),
            EventName::TradeWar => String::from_str("USA - China trade war escalates"),
            EventName::Vaccine(s) => framed("", s.to_name(), " vaccine breakthrough"),
        }
    }

    /// The full story of the event.
    pub fn description(&self) -> (r: String)
        ensures
            r@ == self.name.spec_description(),
    {
        match self.name {
            EventName::BrazilPolitics => String::from_str(EVENT_BRAZIL_POLITICS),
            EventName::CeoResignation(s) => framed(EVENT_CEO_RESIGNATION_PRE, s.to_name(), EVENT_CEO_RESIGNATION_POST),
            EventName::Covid => String::from_str(EVENT_COVID),
            EventName::Crimea => String::from_str(EVENT_CRIMEA),
            EventName::CryptoCrash(s) => framed(EVENT_CRYPTO_CRASH_PRE, s.to_name(), EVENT_CRYPTO_CRASH_POST),
            EventName::CryptoFan(s) => framed(EVENT_CRYPTO_FAN_PRE, s.to_name(), EVENT_CRYPTO_FAN_POST),
            EventName::DDos(s) => framed(EVENT_DDOS_PRE, s.to_name(), EVENT_DDOS_POST),
            EventName::Drought(s) => framed(EVENT_DROUGHT_PRE, s.to_name(), EVENT_DROUGHT_POST),
            EventName::EsgScandal(s) => framed(EVENT_ESG_SCANDAL_PRE, s.to_name(), EVENT_ESG_SCANDAL_POST),
            EventName::GasDiscovery(s) => framed(EVENT_GAS_DISCOVERY_PRE, s.to_name(), EVENT_GAS_DISCOVERY_POST),
            EventName::GoldRush => String::from_str(EVENT_GOLD_RUSH),
            EventName::Grounded => String::from_str(EVENT_GROUNDED),
            EventName::Harvest(s) => framed(EVENT_HARVEST_PRE, s.to_name(), EVENT_HARVEST_POST),
            EventName::InterestBump(s) => framed(EVENT_INTEREST_BUMP_PRE, s.to_name(), EVENT_INTEREST_BUMP_POST),
            EventName::NewProduct(s) => framed(EVENT_NEW_PRODUCT_PRE, s.to_name(), EVENT_NEW_PRODUCT_POST),
            EventName::NewContract(s) => framed(EVENT_NEW_CONTRACT_PRE, s.to_name(), EVENT_NEW_CONTRACT_POST),
            EventName::OilDiscovery(s) => framed(EVENT_OIL_DISCOVERY_PRE, s.to_name(), EVENT_OIL_DISCOVERY_POST),
            EventName::OilDisruption => String::from_str(EVENT_OIL_DISRUPTION),
            EventName::StorageCosts => String::from_str(EVENT_STORAGE_COSTS),
            EventName::Recession => String::from_str(EVENT_RECESSION),
            EventName::RegulatoryCrackdown(s) => framed(EVENT_REGULATORY_CRACKDOWN_PRE, s.to_name(), EVENT_REGULATORY_CRACKDOWN_POST),
            EventName::RussiaWar => String::from_str(EVENT_RUSSIA_WAR),
            EventName::TradeWar => String::from_str(EVENT_TRADE_WAR),
            EventName::Vaccine(s) => framed(EVENT_VACCINE_PRE, s.to_name(), EVENT_VACCINE_POST),
        }
    }

    /// The key of the event's picture: its lower-case name with hyphens for spaces,
    /// e.g. "ceo-resignation".
    pub fn image(&self) -> (r: String)
        ensures
            r@ == dashed(lower_text(split_words(self.name.spec_ident()))),
    {
        let name = self.name.to_lowername();
        dash_spaces(name.as_str())
    }
}

/// Whether a list of commodities holds a food.
pub open spec fn produces_food(list: Seq<CommodityName>) -> bool {
    exists|j: int| 0 <= j < list.len() && list[j].spec_is_food()
}

/// What the choice of a new event's subject reads from the state of the game.
#[derive(Clone, Debug)]
pub struct EventCandidates {
    /// The coins the player can see.
    pub visible_cryptos: Vec<CryptoName>,
    /// Each country with the commodities it produces.
    pub production: Vec<(CountryName, Vec<CommodityName>)>,
    /// Each company with its current ESG rating.
    pub esg_ratings: Vec<(Company, ESGRating)>,
    /// The companies with more than a fifth of their business in retail.
    pub retail_companies: Vec<Company>,
    /// The companies with more than seven tenths of their business in healthcare.
    pub healthcare_companies: Vec<Company>,
}

impl EventCandidates {
    /// Whether the country produces a food.
    pub open spec fn grows_food(self, country: CountryName) -> bool {
        exists|i: int|
            0 <= i < self.production.len() && self.production@[i].0 == country && produces_food(
                self.production@[i].1@,
            )
    }

    /// Whether the country produces the commodity.
    pub open spec fn extracts(self, country: CountryName, commodity: CommodityName) -> bool {
        exists|i: int|
            0 <= i < self.production.len() && self.production@[i].0 == country
                && self.production@[i].1@.contains(commodity)
    }

    /// Whether the company is rated BB or worse.
    pub open spec fn esg_laggard(self, company: Company) -> bool {
        exists|i: int|
            0 <= i < self.esg_ratings.len() && self.esg_ratings@[i].0 == company
                && self.esg_ratings@[i].1.rank() >= ESGRating::BB.rank()
    }

    /// Whether `name` may be drawn with its subject.
    pub open spec fn admits(self, name: EventName) -> bool {
        match name {
            EventName::CryptoCrash(c) => self.visible_cryptos@.contains(c),
            EventName::CryptoFan(c) => self.visible_cryptos@.contains(c),
            EventName::Drought(k) => self.grows_food(k),
            EventName::Harvest(k) => self.grows_food(k),
            EventName::EsgScandal(c) => self.esg_laggard(c),
            EventName::GasDiscovery(k) => self.extracts(k, CommodityName::LNG),
            EventName::NewContract(c) => c == Company::Boeing || c == Company::LockheedMartin || c
                == Company::Toyota,
            EventName::NewProduct(c) => self.retail_companies@.contains(c),
            EventName::OilDiscovery(k) => self.extracts(k, CommodityName::Oil),
            EventName::Vaccine(c) => self.healthcare_companies@.contains(c),
            _ => true,
        }
    }

    /// Whether an event of the kind of `name` has a subject to be about.
    pub open spec fn has_subject(self, name: EventName) -> bool {
        self.spec_subjects(name).len() > 0
    }

    /// The countries that produce a food, in the order of `production`.
    pub open spec fn spec_food_growers(self) -> Seq<CountryName> {
        food_growers_of(self.production@)
    }

    /// The countries that produce the commodity, in the order of `production`.
    pub open spec fn spec_producers_of(self, commodity: CommodityName) -> Seq<CountryName> {
        producers_in(self.production@, commodity)
    }

    /// The companies rated BB or worse, in the order of `esg_ratings`.
    pub open spec fn spec_esg_laggards(self) -> Seq<Company> {
        laggards_in(self.esg_ratings@)
    }

    /// Every event of the kind of `template` with each subject that fits it, in the
    /// order of the lists it is drawn from; an event without a subject is alone.
    pub open spec fn spec_subjects(self, template: EventName) -> Seq<EventName> {
        match template {
            EventName::CeoResignation(_) => with_companies(template, Company::spec_all()),
            EventName::CryptoCrash(_) => with_cryptos(template, self.visible_cryptos@),
            EventName::CryptoFan(_) => with_cryptos(template, self.visible_cryptos@),
            EventName::DDos(_) => with_companies(template, Company::spec_all()),
            EventName::Drought(_) => with_countries(template, self.spec_food_growers()),
            EventName::Harvest(_) => with_countries(template, self.spec_food_growers()),
            EventName::EsgScandal(_) => with_companies(template, self.spec_esg_laggards()),
            EventName::NewContract(_) => with_companies(template, contract_companies_in(Company::spec_all())),
            EventName::NewProduct(_) => with_companies(template, self.retail_companies@),
            EventName::GasDiscovery(_) => with_countries(
                template,
                self.spec_producers_of(CommodityName::LNG),
            ),
            EventName::InterestBump(_) => with_countries(template, CountryName::spec_all()),
            EventName::OilDiscovery(_) => with_countries(
                template,
                self.spec_producers_of(CommodityName::Oil),
            ),
            EventName::RegulatoryCrackdown(_) => with_sectors(template, SectorName::spec_all()),
            EventName::Vaccine(_) => with_companies(template, self.healthcare_companies@),
            _ => seq![template],
        }
    }

    /// The countries that produce a food, in the order of `production`.
    fn food_growers(&self) -> (r: Vec<CountryName>)
        ensures
            r@ == self.spec_food_growers(),
    {
        let mut r: Vec<CountryName> = Vec::new();
        let mut i: usize = 0;
        while i < self.production.len()
            invariant
                i <= self.production.len(),
                r@ == food_growers_of(self.production@.take(i as int)),
            decreases self.production.len() - i,
        {
            proof {
                lemma_food_step(self.production@, i as int);
            }
            if yields_food(&self.production[i].1) {
                r.push(self.production[i].0);
            }
            i = i + 1;
        }
        assert(self.production@.take(self.production.len() as int) =~= self.production@);
        r
    }

    /// The countries that produce the commodity, in the order of `production`.
    fn producers_of(&self, commodity: CommodityName) -> (r: Vec<CountryName>)
        ensures
            r@ == self.spec_producers_of(commodity),
    {
        let mut r: Vec<CountryName> = Vec::new();
        let mut i: usize = 0;
        while i < self.production.len()
            invariant
                i <= self.production.len(),
                r@ == producers_in(self.production@.take(i as int), commodity),
            decreases self.production.len() - i,
        {
            proof {
                lemma_producers_step(self.production@, i as int, commodity);
            }
            if yields(&self.production[i].1, commodity) {
                r.push(self.production[i].0);
            }
            i = i + 1;
        }
        assert(self.production@.take(self.production.len() as int) =~= self.production@);
        r
    }

    /// The companies rated BB or worse, in the order of `esg_ratings`.
    fn esg_laggards(&self) -> (r: Vec<Company>)
        ensures
            r@ == self.spec_esg_laggards(),
    {
        let mut r: Vec<Company> = Vec::new();
        let mut i: usize = 0;
        while i < self.esg_ratings.len()
            invariant
                i <= self.esg_ratings.len(),
                r@ == laggards_in(self.esg_ratings@.take(i as int)),
            decreases self.esg_ratings.len() - i,
        {
            proof {
                lemma_laggards_step(self.esg_ratings@, i as int);
            }
            let (company, rating) = self.esg_ratings[i];
            if rating.at_least_as_bad_as(&ESGRating::BB) {
                r.push(company);
            }
            i = i + 1;
        }
        assert(self.esg_ratings@.take(self.esg_ratings.len() as int) =~= self.esg_ratings@);
        r
    }

    /// Every event of the kind of `template` with each subject that fits it (see
    /// `spec_subjects`).
    pub fn subjects(&self, template: &EventName) -> (r: Vec<EventName>)
        ensures
            r@ == self.spec_subjects(*template),
    {
        match template {
            EventName::CeoResignation(_) => map_companies(template, &Company::all()),
            EventName::CryptoCrash(_) => map_cryptos(template, &self.visible_cryptos),
            EventName::CryptoFan(_) => map_cryptos(template, &self.visible_cryptos),
            EventName::DDos(_) => map_companies(template, &Company::all()),
            EventName::Drought(_) => map_countries(template, &self.food_growers()),
            EventName::Harvest(_) => map_countries(template, &self.food_growers()),
            EventName::EsgScandal(_) => map_companies(template, &self.esg_laggards()),
            EventName::NewContract(_) => map_companies(template, &contract_companies()),
            EventName::NewProduct(_) => map_companies(template, &self.retail_companies),
            EventName::GasDiscovery(_) => map_countries(template, &self.producers_of(CommodityName::LNG)),
            EventName::InterestBump(_) => map_countries(template, &CountryName::all()),
            EventName::OilDiscovery(_) => map_countries(template, &self.producers_of(CommodityName::Oil)),
            EventName::RegulatoryCrackdown(_) => map_sectors(template, &SectorName::all()),
            EventName::Vaccine(_) => map_companies(template, &self.healthcare_companies),
            _ => {
                let mut r: Vec<EventName> = Vec::new();
                r.push(*template);
                assert(r@ =~= seq![*template]);
                r
            },
        }
    }

    /// The event that a draw gives: the kind at position `kind` of `EventName::all`,
    /// with the subject at position `subject` among those that fit it.
    pub fn event_from_draws(&self, kind: usize, subject: usize) -> (r: EventName)
        requires
            kind < EventName::spec_all().len(),
            subject < self.spec_subjects(EventName::spec_all()[kind as int]).len(),
        ensures
            r == self.spec_subjects(EventName::spec_all()[kind as int])[subject as int],
    {
        let names = EventName::all();
        let options = self.subjects(&names[kind]);
        options[subject]
    }
}

/// The countries of a production list that produce a food.
pub open spec fn food_growers_of(s: Seq<(CountryName, Vec<CommodityName>)>) -> Seq<CountryName> {
    s.filter(|p: (CountryName, Vec<CommodityName>)| produces_food(p.1@)).map_values(
        |p: (CountryName, Vec<CommodityName>)| p.0,
    )
}

/// The countries of a production list that produce the commodity.
pub open spec fn producers_in(s: Seq<(CountryName, Vec<CommodityName>)>, commodity: CommodityName) -> Seq<
    CountryName,
> {
    s.filter(|p: (CountryName, Vec<CommodityName>)| p.1@.contains(commodity)).map_values(
        |p: (CountryName, Vec<CommodityName>)| p.0,
    )
}

/// The companies of a list of ratings that are rated BB or worse.
pub open spec fn laggards_in(s: Seq<(Company, ESGRating)>) -> Seq<Company> {
    s.filter(|p: (Company, ESGRating)| p.1.rank() >= ESGRating::BB.rank()).map_values(
        |p: (Company, ESGRating)| p.0,
    )
}

/// The companies of a list that sign big contracts: Boeing, Lockheed Martin and Toyota.
pub open spec fn contract_companies_in(s: Seq<Company>) -> Seq<Company> {
    s.filter(|c: Company| c == Company::Boeing || c == Company::LockheedMartin || c == Company::Toyota)
}

/// The event of the kind of `template` about the company (the template itself when
/// its kind is not about a company).
pub open spec fn with_company(template: EventName, c: Company) -> EventName {
    match template {
        EventName::CeoResignation(_) => EventName::CeoResignation(c),
        EventName::DDos(_) => EventName::DDos(c),
        EventName::EsgScandal(_) => EventName::EsgScandal(c),
        EventName::NewContract(_) => EventName::NewContract(c),
        EventName::NewProduct(_) => EventName::NewProduct(c),
        EventName::Vaccine(_) => EventName::Vaccine(c),
        _ => template,
    }
}

/// The event of the kind of `template` about the country.
pub open spec fn with_country(template: EventName, k: CountryName) -> EventName {
    match template {
        EventName::Drought(_) => EventName::Drought(k),
        EventName::Harvest(_) => EventName::Harvest(k),
        EventName::GasDiscovery(_) => EventName::GasDiscovery(k),
        EventName::InterestBump(_) => EventName::InterestBump(k),
        EventName::OilDiscovery(_) => EventName::OilDiscovery(k),
        _ => template,
    }
}

/// The event of the kind of `template` about the coin.
pub open spec fn with_crypto(template: EventName, n: CryptoName) -> EventName {
    match template {
        EventName::CryptoCrash(_) => EventName::CryptoCrash(n),
        EventName::CryptoFan(_) => EventName::CryptoFan(n),
        _ => template,
    }
}

/// The event of the kind of `template` about the sector.
pub open spec fn with_sector(template: EventName, s: SectorName) -> EventName {
    match template {
        EventName::RegulatoryCrackdown(_) => EventName::RegulatoryCrackdown(s),
        _ => template,
    }
}

/// The events of the kind of `template` about each company of the list.
pub open spec fn with_companies(template: EventName, cs: Seq<Company>) -> Seq<EventName> {
    cs.map_values(|c: Company| with_company(template, c))
}

/// The events of the kind of `template` about each country of the list.
pub open spec fn with_countries(template: EventName, ks: Seq<CountryName>) -> Seq<EventName> {
    ks.map_values(|k: CountryName| with_country(template, k))
}

/// The events of the kind of `template` about each coin of the list.
pub open spec fn with_cryptos(template: EventName, ns: Seq<CryptoName>) -> Seq<EventName> {
    ns.map_values(|n: CryptoName| with_crypto(template, n))
}

/// The events of the kind of `template` about each sector of the list.
pub open spec fn with_sectors(template: EventName, ss: Seq<SectorName>) -> Seq<EventName> {
    ss.map_values(|s: SectorName| with_sector(template, s))
}

fn company_event(template: &EventName, c: Company) -> (r: EventName)
    ensures
        r == with_company(*template, c),
{
    match template {
        EventName::CeoResignation(_) => EventName::CeoResignation(c),
        EventName::DDos(_) => EventName::DDos(c),
        EventName::EsgScandal(_) => EventName::EsgScandal(c),
        EventName::NewContract(_) => EventName::NewContract(c),
        EventName::NewProduct(_) => EventName::NewProduct(c),
        EventName::Vaccine(_) => EventName::Vaccine(c),
        _ => *template,
    }
}

fn country_event(template: &EventName, k: CountryName) -> (r: EventName)
    ensures
        r == with_country(*template, k),
{
    match template {
        EventName::Drought(_) => EventName::Drought(k),
        EventName::Harvest(_) => EventName::Harvest(k),
        EventName::GasDiscovery(_) => EventName::GasDiscovery(k),
        EventName::InterestBump(_) => EventName::InterestBump(k),
        EventName::OilDiscovery(_) => EventName::OilDiscovery(k),
        _ => *template,
    }
}

fn map_companies(template: &EventName, cs: &Vec<Company>) -> (r: Vec<EventName>)
    ensures
        r@ == with_companies(*template, cs@),
{
    let mut r: Vec<EventName> = Vec::new();
    let mut i: usize = 0;
    while i < cs.len()
        invariant
            i <= cs.len(),
            r@ == with_companies(*template, cs@.take(i as int)),
        decreases cs.len() - i,
    {
        r.push(company_event(template, cs[i]));
        assert(with_companies(*template, cs@.take(i + 1)) =~= with_companies(*template, cs@.take(i as int)).push(
            with_company(*template, cs@[i as int]),
        ));
        i = i + 1;
    }
    assert(cs@.take(cs.len() as int) =~= cs@);
    r
}

fn map_countries(template: &EventName, ks: &Vec<CountryName>) -> (r: Vec<EventName>)
    ensures
        r@ == with_countries(*template, ks@),
{
    let mut r: Vec<EventName> = Vec::new();
    let mut i: usize = 0;
    while i < ks.len()
        invariant
            i <= ks.len(),
            r@ == with_countries(*template, ks@.take(i as int)),
        decreases ks.len() - i,
    {
        r.push(country_event(template, ks[i]));
        assert(with_countries(*template, ks@.take(i + 1)) =~= with_countries(*template, ks@.take(i as int)).push(
            with_country(*template, ks@[i as int]),
        ));
        i = i + 1;
    }
    assert(ks@.take(ks.len() as int) =~= ks@);
    r
}

fn map_cryptos(template: &EventName, ns: &Vec<CryptoName>) -> (r: Vec<EventName>)
    ensures
        r@ == with_cryptos(*template, ns@),
{
    let mut r: Vec<EventName> = Vec::new();
    let mut i: usize = 0;
    while i < ns.len()
        invariant
            i <= ns.len(),
            r@ == with_cryptos(*template, ns@.take(i as int)),
        decreases ns.len() - i,
    {
        let n = ns[i];
        let e = match template {
            EventName::CryptoCrash(_) => EventName::CryptoCrash(n),
            EventName::CryptoFan(_) => EventName::CryptoFan(n),
            _ => *template,
        };
        r.push(e);
        assert(with_cryptos(*template, ns@.take(i + 1)) =~= with_cryptos(*template, ns@.take(i as int)).push(
            with_crypto(*template, ns@[i as int]),
        ));
        i = i + 1;
    }
    assert(ns@.take(ns.len() as int) =~= ns@);
    r
}

fn map_sectors(template: &EventName, ss: &Vec<SectorName>) -> (r: Vec<EventName>)
    ensures
        r@ == with_sectors(*template, ss@),
{
    let mut r: Vec<EventName> = Vec::new();
    let mut i: usize = 0;
    while i < ss.len()
        invariant
            i <= ss.len(),
            r@ == with_sectors(*template, ss@.take(i as int)),
        decreases ss.len() - i,
    {
        let s = ss[i];
        let e = match template {
            EventName::RegulatoryCrackdown(_) => EventName::RegulatoryCrackdown(s),
            _ => *template,
        };
        r.push(e);
        assert(with_sectors(*template, ss@.take(i + 1)) =~= with_sectors(*template, ss@.take(i as int)).push(
            with_sector(*template, ss@[i as int]),
        ));
        i = i + 1;
    }
    assert(ss@.take(ss.len() as int) =~= ss@);
    r
}

proof fn lemma_food_step(s: Seq<(CountryName, Vec<CommodityName>)>, i: int)
    requires
        0 <= i < s.len(),
    ensures
        food_growers_of(s.take(i + 1)) == if produces_food(s[i].1@) {
            food_growers_of(s.take(i)).push(s[i].0)
        } else {
            food_growers_of(s.take(i))
        },
{
    let t = s.take(i + 1);
    assert(t.drop_last() =~= s.take(i));
    assert(t.last() == s[i]);
    reveal_with_fuel(Seq::filter, 1);
    assert(food_growers_of(s.take(i + 1)) =~= if produces_food(s[i].1@) {
        food_growers_of(s.take(i)).push(s[i].0)
    } else {
        food_growers_of(s.take(i))
    });
}

proof fn lemma_producers_step(s: Seq<(CountryName, Vec<CommodityName>)>, i: int, commodity: CommodityName)
    requires
        0 <= i < s.len(),
    ensures
        producers_in(s.take(i + 1), commodity) == if s[i].1@.contains(commodity) {
            producers_in(s.take(i), commodity).push(s[i].0)
        } else {
            producers_in(s.take(i), commodity)
        },
{
    let t = s.take(i + 1);
    assert(t.drop_last() =~= s.take(i));
    assert(t.last() == s[i]);
    reveal_with_fuel(Seq::filter, 1);
    assert(producers_in(s.take(i + 1), commodity) =~= if s[i].1@.contains(commodity) {
        producers_in(s.take(i), commodity).push(s[i].0)
    } else {
        producers_in(s.take(i), commodity)
    });
}

proof fn lemma_laggards_step(s: Seq<(Company, ESGRating)>, i: int)
    requires
        0 <= i < s.len(),
    ensures
        laggards_in(s.take(i + 1)) == if s[i].1.rank() >= ESGRating::BB.rank() {
            laggards_in(s.take(i)).push(s[i].0)
        } else {
            laggards_in(s.take(i))
        },
{
    let t = s.take(i + 1);
    assert(t.drop_last() =~= s.take(i));
    assert(t.last() == s[i]);
    reveal_with_fuel(Seq::filter, 1);
    assert(laggards_in(s.take(i + 1)) =~= if s[i].1.rank() >= ESGRating::BB.rank() {
        laggards_in(s.take(i)).push(s[i].0)
    } else {
        laggards_in(s.take(i))
    });
}

proof fn lemma_contract_step(s: Seq<Company>, i: int)
    requires
        0 <= i < s.len(),
    ensures
        contract_companies_in(s.take(i + 1)) == if s[i] == Company::Boeing || s[i]
            == Company::LockheedMartin || s[i] == Company::Toyota {
            contract_companies_in(s.take(i)).push(s[i])
        } else {
            contract_companies_in(s.take(i))
        },
{
    let t = s.take(i + 1);
    assert(t.drop_last() =~= s.take(i));
    assert(t.last() == s[i]);
    reveal_with_fuel(Seq::filter, 1);
}

/// Taking one more element of a list into account adds it to the elements kept by
/// `pred` when `pred` holds of it.
proof fn lemma_filter_step<A>(s: Seq<A>, i: int, pred: spec_fn(A) -> bool)
    requires
        0 <= i < s.len(),
    ensures
        s.take(i + 1).filter(pred) == if pred(s[i]) {
            s.take(i).filter(pred).push(s[i])
        } else {
            s.take(i).filter(pred)
        },
{
    let t = s.take(i + 1);
    assert(t.drop_last() =~= s.take(i));
    assert(t.last() == s[i]);
    reveal_with_fuel(Seq::filter, 1);
}

/// Whether a company has more than a fifth of its business in retail.
pub open spec fn in_retail(c: Company) -> bool {
    share_of(c.spec_sector_shares(), SectorName::Retail) > 20
}

/// Whether a company has more than seven tenths of its business in healthcare.
pub open spec fn in_healthcare(c: Company) -> bool {
    share_of(c.spec_sector_shares(), SectorName::Healthcare) > 70
}

/// The companies whose share of the sector exceeds `above` percent, in the order of
/// `Company::all`.
fn companies_above(sector: SectorName, above: u32) -> (r: Vec<Company>)
    ensures
        r@ == Company::spec_all().filter(|c: Company| share_of(c.spec_sector_shares(), sector) > above),
{
    let all = Company::all();
    let ghost pred = |c: Company| share_of(c.spec_sector_shares(), sector) > above;
    let mut r: Vec<Company> = Vec::new();
    let mut i: usize = 0;
    while i < all.len()
        invariant
            all@ == Company::spec_all(),
            i <= all.len(),
            pred == (|c: Company| share_of(c.spec_sector_shares(), sector) > above),
            r@ == all@.take(i as int).filter(pred),
        decreases all.len() - i,
    {
        proof {
            lemma_filter_step(all@, i as int, pred);
        }
        let c = all[i];
        if c.sector_share(sector) > above {
            r.push(c);
        }
        i = i + 1;
    }
    assert(all@.take(all.len() as int) =~= all@);
    r
}

impl EventCandidates {
    /// Whether the production and the retail and healthcare companies are those of the
    /// game's data: each country of `CountryName::all` with what it produces, and the
    /// companies with more than a fifth of their business in retail and more than seven
    /// tenths in healthcare.
    pub open spec fn from_data(self) -> bool {
        &&& self.production.len() == CountryName::spec_all().len()
        &&& forall|i: int|
            0 <= i < self.production.len() ==> #[trigger] self.production@[i].0
                == CountryName::spec_all()[i] && self.production@[i].1@
                == CountryName::spec_all()[i].spec_production()
        &&& self.retail_companies@ == Company::spec_all().filter(|c: Company| in_retail(c))
        &&& self.healthcare_companies@ == Company::spec_all().filter(|c: Company| in_healthcare(c))
    }

    /// The candidates of a game: the coins the player can see and the companies'
    /// current ESG ratings, with the rest taken from the game's data.
    pub fn from_game_data(visible_cryptos: Vec<CryptoName>, esg_ratings: Vec<(Company, ESGRating)>) -> (r:
        EventCandidates)
        ensures
            r.visible_cryptos@ == visible_cryptos@,
            r.esg_ratings@ == esg_ratings@,
            r.from_data(),
    {
        let countries = CountryName::all();
        let mut production: Vec<(CountryName, Vec<CommodityName>)> = Vec::new();
        let mut i: usize = 0;
        while i < countries.len()
            invariant
                countries@ == CountryName::spec_all(),
                i <= countries.len(),
                production.len() == i,
                forall|j: int|
                    0 <= j < i ==> #[trigger] production@[j].0 == countries@[j] && production@[j].1@
                        == countries@[j].spec_production(),
            decreases countries.len() - i,
        {
            let country = countries[i];
            let made = country.production();
            production.push((country, made));
            assert(production@[i as int].0 == countries@[i as int]);
            assert(production@[i as int].1@ == countries@[i as int].spec_production());
            i = i + 1;
        }
        let retail = companies_above(SectorName::Retail, 20);
        let healthcare = companies_above(SectorName::Healthcare, 70);
        proof {
            let retail_share = |c: Company| share_of(c.spec_sector_shares(), SectorName::Retail) > 20u32;
            let health_share = |c: Company| share_of(c.spec_sector_shares(), SectorName::Healthcare) > 70u32;
            assert(retail_share =~= (|c: Company| in_retail(c)));
            assert(health_share =~= (|c: Company| in_healthcare(c)));
        }
        EventCandidates {
            visible_cryptos,
            production,
            esg_ratings,
            retail_companies: retail,
            healthcare_companies: healthcare,
        }
    }
}

/// With the game's data, events about the weather, gas, oil, new products and vaccines
/// always find a subject: some country grows food (Ukraine grows wheat), Canada
/// extracts both gas and oil, Inditex is in retail and Pfizer in healthcare.
pub proof fn game_data_has_subjects(candidates: EventCandidates, name: EventName)
    requires
        candidates.from_data(),
        name is Drought || name is Harvest || name is GasDiscovery || name is OilDiscovery
            || name is NewProduct || name is Vaccine,
    ensures
        candidates.has_subject(name),
{
    let canada = 2int;
    let ukraine = 9int;
    assert(CountryName::spec_all()[canada] == CountryName::Canada);
    assert(CountryName::spec_all()[ukraine] == CountryName::Ukraine);
    assert(candidates.production@[canada].0 == CountryName::spec_all()[canada]);
    assert(candidates.production@[ukraine].0 == CountryName::spec_all()[ukraine]);
    assert(candidates.production@[canada].1@ == CountryName::Canada.spec_production());
    assert(candidates.production@[ukraine].1@ == CountryName::Ukraine.spec_production());
    assert(CountryName::Canada.spec_production()[1] == CommodityName::LNG);
    assert(CountryName::Canada.spec_production()[0] == CommodityName::Oil);
    assert(candidates.production@[canada].1@.contains(CommodityName::LNG));
    assert(candidates.production@[canada].1@.contains(CommodityName::Oil));
    assert(CountryName::Ukraine.spec_production()[0].spec_is_food());
    assert(produces_food(candidates.production@[ukraine].1@));
    let all = Company::spec_all();
    assert(all[3] == Company::Inditex);
    assert(all[10] == Company::Pfizer);
    reveal_with_fuel(share_of, 3);
    assert(in_retail(all[3]));
    assert(in_healthcare(all[10]));
    all.lemma_filter_contains(|c: Company| in_retail(c), 3);
    all.lemma_filter_contains(|c: Company| in_healthcare(c), 10);
    assert(candidates.retail_companies.len() > 0);
    assert(candidates.healthcare_companies.len() > 0);
    let prod = candidates.production@;
    prod.lemma_filter_contains(|p: (CountryName, Vec<CommodityName>)| produces_food(p.1@), ukraine);
    prod.lemma_filter_contains(
        |p: (CountryName, Vec<CommodityName>)| p.1@.contains(CommodityName::LNG),
        canada,
    );
    prod.lemma_filter_contains(
        |p: (CountryName, Vec<CommodityName>)| p.1@.contains(CommodityName::Oil),
        canada,
    );
    assert(candidates.spec_food_growers().len() > 0);
    assert(candidates.spec_producers_of(CommodityName::LNG).len() > 0);
    assert(candidates.spec_producers_of(CommodityName::Oil).len() > 0);
}

/// Whether a list of commodities holds a food.
fn yields_food(list: &Vec<CommodityName>) -> (r: bool)
    ensures
        r == produces_food(list@),
{
    let mut i: usize = 0;
    while i < list.len()
        invariant
            i <= list.len(),
            forall|j: int| 0 <= j < i ==> !list@[j].spec_is_food(),
        decreases list.len() - i,
    {
        if list[i].is_food() {
            return true;
        }
        i = i + 1;
    }
    false
}

/// Whether a list of commodities holds the commodity.
fn yields(list: &Vec<CommodityName>, commodity: CommodityName) -> (r: bool)
    ensures
        r == list@.contains(commodity),
{
    let mut i: usize = 0;
    while i < list.len()
        invariant
            i <= list.len(),
            forall|j: int| 0 <= j < i ==> list@[j] != commodity,
        decreases list.len() - i,
    {
        if list[i] == commodity {
            assert(list@[i as int] == commodity);
            return true;
        }
        i = i + 1;
    }
    false
}

/// The companies that sign big contracts: Boeing, Lockheed Martin and Toyota, in the
/// order of `Company::all`.
fn contract_companies() -> (r: Vec<Company>)
    ensures
        r@ == contract_companies_in(Company::spec_all()),
{
    let all = Company::all();
    let mut r: Vec<Company> = Vec::new();
    let mut i: usize = 0;
    while i < all.len()
        invariant
            all@ == Company::spec_all(),
            i <= all.len(),
            r@ == contract_companies_in(all@.take(i as int)),
        decreases all.len() - i,
    {
        proof {
            lemma_contract_step(all@, i as int);
        }
        let c = all[i];
        if matches!(c, Company::Boeing | Company::LockheedMartin | Company::Toyota) {
            r.push(c);
        }
        i = i + 1;
    }
    assert(all@.take(all.len() as int) =~= all@);
    r
}

/// An event is either under way or over, never both: the active and the past events
/// together are all the events.
pub proof fn active_and_past_events_split(events: Seq<EconomicEvent>, today: GameDate)
    ensures
        spec_active_events(events, today).len() + spec_historical_events(events, today).len()
            == events.len(),
    decreases events.len(),
{
    if events.len() > 0 {
        let n = events.len() - 1;
        active_and_past_events_split(events.drop_last(), today);
        lemma_active_step(events, n, today);
        assert(events.take(n) =~= events.drop_last());
        assert(events.take(n + 1) =~= events);
    }
}

/// An event that cannot recur is not drawn again once it has happened.
pub proof fn one_off_events_never_recur(
    name: EventName,
    techs: Seq<TechName>,
    events: Seq<EconomicEvent>,
    today: GameDate,
)
    requires
        !name.recurs(),
        occurred(events, name),
    ensures
        name.spec_weight(techs, events, today) == 0,
{
}

/// An event that needs research can be drawn only once its technology is researched:
/// an ESG scandal exactly when ESG is, crypto events exactly when cryptocurrencies
/// are, droughts, harvests and gas and oil finds exactly when commodities are; the
/// gold rush and the storage-cost rise need commodities and the annexation of Crimea
/// needs foreign exchange.
pub proof fn research_gates_events(
    name: EventName,
    techs: Seq<TechName>,
    events: Seq<EconomicEvent>,
    today: GameDate,
)
    ensures
        name is EsgScandal ==> (name.spec_weight(techs, events, today) > 0) == techs.contains(
            TechName::ESG,
        ),
        name is CryptoCrash || name is CryptoFan ==> (name.spec_weight(techs, events, today) > 0)
            == techs.contains(TechName::Cryptocurrencies),
        name is Drought || name is Harvest || name is GasDiscovery || name is OilDiscovery ==> (
        name.spec_weight(techs, events, today) > 0) == techs.contains(TechName::Commodities),
        name == EventName::GoldRush || name == EventName::StorageCosts ==> (name.spec_weight(
            techs,
            events,
            today,
        ) > 0 ==> techs.contains(TechName::Commodities)),
        name == EventName::Crimea ==> (name.spec_weight(techs, events, today) > 0 ==> techs.contains(
            TechName::ForeignExchange,
        )),
{
}

/// Russia invades Ukraine only while it occupies Crimea, and only once.
pub proof fn russia_war_needs_crimea(techs: Seq<TechName>, events: Seq<EconomicEvent>, today: GameDate)
    requires
        EventName::RussiaWar.spec_weight(techs, events, today) > 0,
    ensures
        occurring(events, EventName::Crimea, today),
        !occurred(events, EventName::RussiaWar),
{
}

} // verus!
