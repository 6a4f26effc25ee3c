use vstd::prelude::*;

use crate::names::NameFromEnum;
use crate::forex::CurrencyName;
use crate::commodities::CommodityName;

verus! {

/// The description of DevelopedMarket.
pub const MARKET_DEVELOPED_MARKET: &'static str = "Developed markets are advanced economies with stable political systems, \
    mature financial markets, high income levels, and well-established infrastructure. \
    They offer lower growth potential but are generally considered safer and more \
    stable for investment compared to emerging markets.";

/// The description of EmergingMarket.
pub const MARKET_EMERGING_MARKET: &'static str = "Emerging markets are economies in the process of rapid growth and \
    industrialization, typically characterized by improving infrastructure, \
    increasing foreign investment, and expanding middle-class populations. \
    They offer high growth potential but also come with greater economic and \
    political risks compared to developed markets.";

/// The description of RestrictedMarket.
pub const MARKET_RESTRICTED_MARKET: &'static str = "Restricted markets are economies with limited access to foreign investment due \
    to government controls, sanctions, or political instability. They often lack \
    transparency, have underdeveloped financial systems, and pose high risks, making \
    them less accessible or off-limits to many global investors.";

/// The description of Australia.
pub const COUNTRY_AUSTRALIA: &'static str = "\
    Australia is a developed, resource-rich economy with strong institutions, a \
    stable political environment, and a high standard of living. It is one of the \
    world's largest exporters of commodities like iron ore and gold, making its \
    economy closely tied to global demand—particularly from Asia. The country has \
    a well-regulated financial system, a flexible labor market, and consistent \
    economic growth, supported by services, mining, and agriculture.";

/// The description of Brazil.
pub const COUNTRY_BRAZIL: &'static str = "\
    Brazil is the largest economy in Latin America and an influential emerging market, \
    rich in natural resources and agricultural products such as coffee and cacao. Its \
    economy is diverse, with major sectors including agriculture, mining, energy, \
    manufacturing, and services. Brazil benefits from strong export ties, especially \
    to China, but faces challenges such as political instability, inflation, and \
    structural inefficiencies.";

/// The description of Canada.
pub const COUNTRY_CANADA: &'static str = "\
    Canada is a developed, high-income economy with strong institutions, abundant \
    natural resources, and a well-regulated financial system. It is one of the world's \
    leading exporters of oil, natural gas, and minerals, making its economy closely \
    tied to global commodity prices. Key sectors include energy, manufacturing, \
    services, and technology, with significant trade integration with the United States.";

/// The description of China.
pub const COUNTRY_CHINA: &'static str = "\
    China is the world's second-largest economy and a global manufacturing and export \
    powerhouse. It has undergone rapid industrialization and urbanization over the past \
    few decades, shifting from an investment-driven model toward greater domestic \
    consumption and innovation. China is also the largest trading partner for many \
    countries, particularly in Asia and Africa.";

/// The description of EU.
pub const COUNTRY_EU: &'static str = "\
    The European Union (EU) is a major economic bloc comprising 27 member states, with \
    a highly developed, integrated economy and a shared single market. It is one of \
    the world's largest trading entities, driven by diverse industries including \
    manufacturing, services, agriculture, and technology. The EU benefits from strong \
    regulatory frameworks, advanced infrastructure, and a skilled labor force.";

/// The description of Japan.
pub const COUNTRY_JAPAN: &'static str = "\
    Japan is a highly developed and technologically advanced economy, ranking among \
    the largest in the world. It has a strong industrial base, particularly in \
    automobiles, electronics, robotics, and precision manufacturing. The country has \
    a high standard of living, strong infrastructure, and a well-educated workforce. \
    Japan relies heavily on exports and imports most of its energy and raw materials.";

/// The description of Russia.
pub const COUNTRY_RUSSIA: &'static str = "\
    Russia is a major emerging market and one of the world's largest producers of oil, \
    natural gas, and minerals, making its economy heavily reliant on energy exports. \
    It has a strong industrial base, particularly in defense, heavy machinery, and \
    metallurgy. While resource wealth supports its trade balance, the economy faces \
    challenges from international sanctions, limited diversification, and political \
    risk.";

/// The description of SaudiArabia.
pub const COUNTRY_SAUDI_ARABIA: &'static str = "\
    Saudi Arabia is a resource-rich economy and the world's largest exporter of crude \
    oil, with petroleum accounting for the majority of government revenue and exports. \
    It has a centrally managed economy with significant state involvement, though \
    recent reforms under the Vision 2030 initiative aim to diversify sectors like \
    tourism, finance, and technology. The kingdom uses its sovereign wealth fund to \
    invest domestically and abroad.";

/// The description of SouthAfrica.
pub const COUNTRY_SOUTH_AFRICA: &'static str = "\
    South Africa is the most industrialized economy in Africa, with key sectors \
    including mining, manufacturing, agriculture, and financial services. It is a \
    major global producer of gold, platinum, and other minerals, making the economy \
    sensitive to commodity prices. The country has a well-developed financial system \
    and infrastructure but faces structural challenges such as high unemployment, \
    inequality, and energy supply issues.";

/// The description of Ukraine.
pub const COUNTRY_UKRAINE: &'static str = "\
    Ukraine is an emerging market economy with strengths in agriculture, heavy \
    industry, and IT services. It is one of the world’s leading exporters of grain, \
    particularly wheat and corn, and has significant reserves of minerals and energy \
    resources. The economy has faced major disruptions due to ongoing conflict, \
    infrastructure damage, and reliance on foreign aid and international financial \
    support.";

/// The description of USA.
pub const COUNTRY_USA: &'static str = "\
    The United States has the world’s largest economy, characterized by a highly \
    diversified and innovation-driven structure. Key sectors include technology, \
    finance, healthcare, energy, and manufacturing. It has a strong consumer base, \
    deep capital markets, and global leadership in research and development. The \
    U.S. dollar serves as the dominant global reserve currency, and the Federal \
    Reserve influences global monetary conditions through its policy decisions.";

/// The description of Venezuela.
pub const COUNTRY_VENEZUELA: &'static str = "\
    Venezuela is a resource-rich country with one of the largest proven oil reserves \
    in the world, making its economy heavily dependent on petroleum exports. Years \
    of hyperinflation, economic mismanagement, and political instability have severely \
    weakened its economy, leading to widespread poverty, emigration, and a shift toward \
    dollarization in everyday transactions.";

/// Development class of a country's market.
#[derive(Clone, Copy, Debug, PartialEq, Eq, Structural)]
pub enum MarketKind {
    DevelopedMarket,
    EmergingMarket,
    RestrictedMarket,
}

impl NameFromEnum for MarketKind {
    open spec fn spec_ident(&self) -> Seq<char> {
        match self {
            MarketKind::DevelopedMarket => "DevelopedMarket"@,
            MarketKind::EmergingMarket => "EmergingMarket"@,
            MarketKind::RestrictedMarket => "RestrictedMarket"@,
        }
    }

    fn ident(&self) -> (r: &'static str) {
        match self {
            MarketKind::DevelopedMarket => "DevelopedMarket",
            MarketKind::EmergingMarket => "EmergingMarket",
            MarketKind::RestrictedMarket => "RestrictedMarket",
        }
    }
}

impl MarketKind {
    pub open spec fn spec_description(self) -> &'static str {
        match self {
            MarketKind::DevelopedMarket => MARKET_DEVELOPED_MARKET,
            MarketKind::EmergingMarket => MARKET_EMERGING_MARKET,
            MarketKind::RestrictedMarket => MARKET_RESTRICTED_MARKET,
        }
    }

    /// What the market class means for investors.
    pub fn description(&self) -> (r: &'static str)
        ensures
            r == self.spec_description(),
    {
        match self {
            MarketKind::DevelopedMarket => MARKET_DEVELOPED_MARKET,
            MarketKind::EmergingMarket => MARKET_EMERGING_MARKET,
            MarketKind::RestrictedMarket => MARKET_RESTRICTED_MARKET,
        }
    }
}

/// The countries of the game world.
#[derive(Clone, Copy, Debug, PartialEq, Eq, Structural)]
pub enum CountryName {
    Australia,
    Brazil,
    Canada,
    China,
    EU,
    Japan,
    Russia,
    SaudiArabia,
    SouthAfrica,
    Ukraine,
    USA,
    Venezuela,
}

impl NameFromEnum for CountryName {
    open spec fn spec_ident(&self) -> Seq<char> {
        match self {
            CountryName::Australia => "Australia"@,
            CountryName::Brazil => "Brazil"@,
            CountryName::Canada => "Canada"@,
            CountryName::China => "China"@,
            CountryName::EU => "EU"@,
            CountryName::Japan => "Japan"@,
            CountryName::Russia => "Russia"@,
            CountryName::SaudiArabia => "SaudiArabia"@,
            CountryName::SouthAfrica => "SouthAfrica"@,
            CountryName::Ukraine => "Ukraine"@,
            CountryName::USA => "USA"@,
            CountryName::Venezuela => "Venezuela"@,
        }
    }

    fn ident(&self) -> (r: &'static str) {
        match self {
            CountryName::Australia => "Australia",
            CountryName::Brazil => "Brazil",
            CountryName::Canada => "Canada",
            CountryName::China => "China",
            CountryName::EU => "EU",
            CountryName::Japan => "Japan",
            CountryName::Russia => "Russia",
            CountryName::SaudiArabia => "SaudiArabia",
            CountryName::SouthAfrica => "SouthAfrica",
            CountryName::Ukraine => "Ukraine",
            CountryName::USA => "USA",
            CountryName::Venezuela => "Venezuela",
        }
    }
}

impl CountryName {
    pub open spec fn spec_description(self) -> &'static str {
        match self {
            CountryName::Australia => COUNTRY_AUSTRALIA,
            CountryName::Brazil => COUNTRY_BRAZIL,
            CountryName::Canada => COUNTRY_CANADA,
            CountryName::China => COUNTRY_CHINA,
            CountryName::EU => COUNTRY_EU,
            CountryName::Japan => COUNTRY_JAPAN,
            CountryName::Russia => COUNTRY_RUSSIA,
            CountryName::SaudiArabia => COUNTRY_SAUDI_ARABIA,
            CountryName::SouthAfrica => COUNTRY_SOUTH_AFRICA,
            CountryName::Ukraine => COUNTRY_UKRAINE,
            CountryName::USA => COUNTRY_USA,
            CountryName::Venezuela => COUNTRY_VENEZUELA,
        }
    }

    /// A short profile of the country's economy.
    pub fn description(&self) -> (r: &'static str)
        ensures
            r == self.spec_description(),
    {
        match self {
            CountryName::Australia => COUNTRY_AUSTRALIA,
            CountryName::Brazil => COUNTRY_BRAZIL,
            CountryName::Canada => COUNTRY_CANADA,
            CountryName::China => COUNTRY_CHINA,
            CountryName::EU => COUNTRY_EU,
            CountryName::Japan => COUNTRY_JAPAN,
            CountryName::Russia => COUNTRY_RUSSIA,
            CountryName::SaudiArabia => COUNTRY_SAUDI_ARABIA,
            CountryName::SouthAfrica => COUNTRY_SOUTH_AFRICA,
            CountryName::Ukraine => COUNTRY_UKRAINE,
            CountryName::USA => COUNTRY_USA,
            CountryName::Venezuela => COUNTRY_VENEZUELA,
        }
    }

    pub open spec fn spec_all() -> Seq<CountryName> {
        seq![CountryName::Australia, CountryName::Brazil, CountryName::Canada, CountryName::China, CountryName::EU, CountryName::Japan, CountryName::Russia, CountryName::SaudiArabia, CountryName::SouthAfrica, CountryName::Ukraine, CountryName::USA, CountryName::Venezuela]
    }

    /// Every variant, in declaration order.
    pub fn all() -> (r: Vec<CountryName>)
        ensures
            r@ == Self::spec_all(),
    {
        let mut r: Vec<CountryName> = Vec::new();
        r.push(CountryName::Australia);
        r.push(CountryName::Brazil);
        r.push(CountryName::Canada);
        r.push(CountryName::China);
        r.push(CountryName::EU);
        r.push(CountryName::Japan);
        r.push(CountryName::Russia);
        r.push(CountryName::SaudiArabia);
        r.push(CountryName::SouthAfrica);
        r.push(CountryName::Ukraine);
        r.push(CountryName::USA);
        r.push(CountryName::Venezuela);
        proof {
            assert(r@ =~= Self::spec_all());
        }
        r
    }
}

impl Default for CountryName {
    /// Australia.
    fn default() -> (r: Self)
        ensures
            r == CountryName::Australia,
    {
        CountryName::Australia
    }
}

impl CountryName {
    /// The local currency.
    pub open spec fn spec_currency(self) -> CurrencyName {
        match self {
            CountryName::Australia => CurrencyName::AUD,
            CountryName::Brazil => CurrencyName::BRL,
            CountryName::Canada => CurrencyName::CAD,
            CountryName::China => CurrencyName::CNY,
            CountryName::EU => CurrencyName::EUR,
            CountryName::Japan => CurrencyName::JPY,
            CountryName::Russia => CurrencyName::RUB,
            CountryName::SaudiArabia => CurrencyName::SAR,
            CountryName::SouthAfrica => CurrencyName::ZAR,
            CountryName::Ukraine => CurrencyName::UAH,
            CountryName::USA => CurrencyName::USD,
            CountryName::Venezuela => CurrencyName::VES,
        }
    }

    /// The local currency.
    pub fn currency(&self) -> (r: CurrencyName)
        ensures
            r == self.spec_currency(),
    {
        match self {
            CountryName::Australia => CurrencyName::AUD,
            CountryName::Brazil => CurrencyName::BRL,
            CountryName::Canada => CurrencyName::CAD,
            CountryName::China => CurrencyName::CNY,
            CountryName::EU => CurrencyName::EUR,
            CountryName::Japan => CurrencyName::JPY,
            CountryName::Russia => CurrencyName::RUB,
            CountryName::SaudiArabia => CurrencyName::SAR,
            CountryName::SouthAfrica => CurrencyName::ZAR,
            CountryName::Ukraine => CurrencyName::UAH,
            CountryName::USA => CurrencyName::USD,
            CountryName::Venezuela => CurrencyName::VES,
        }
    }

    /// How developed the country's market is.
    pub open spec fn spec_market(self) -> MarketKind {
        match self {
            CountryName::Australia => MarketKind::DevelopedMarket,
            CountryName::Brazil => MarketKind::EmergingMarket,
            CountryName::Canada => MarketKind::DevelopedMarket,
            CountryName::China => MarketKind::EmergingMarket,
            CountryName::EU => MarketKind::DevelopedMarket,
            CountryName::Japan => MarketKind::DevelopedMarket,
            CountryName::Russia => MarketKind::RestrictedMarket,
            CountryName::SaudiArabia => MarketKind::EmergingMarket,
            CountryName::SouthAfrica => MarketKind::EmergingMarket,
            CountryName::Ukraine => MarketKind::EmergingMarket,
            CountryName::USA => MarketKind::DevelopedMarket,
            CountryName::Venezuela => MarketKind::RestrictedMarket,
        }
    }

    /// How developed the country's market is.
    pub fn market(&self) -> (r: MarketKind)
        ensures
            r == self.spec_market(),
    {
        match self {
            CountryName::Australia => MarketKind::DevelopedMarket,
            CountryName::Brazil => MarketKind::EmergingMarket,
            CountryName::Canada => MarketKind::DevelopedMarket,
            CountryName::China => MarketKind::EmergingMarket,
            CountryName::EU => MarketKind::DevelopedMarket,
            CountryName::Japan => MarketKind::DevelopedMarket,
            CountryName::Russia => MarketKind::RestrictedMarket,
            CountryName::SaudiArabia => MarketKind::EmergingMarket,
            CountryName::SouthAfrica => MarketKind::EmergingMarket,
            CountryName::Ukraine => MarketKind::EmergingMarket,
            CountryName::USA => MarketKind::DevelopedMarket,
            CountryName::Venezuela => MarketKind::RestrictedMarket,
        }
    }

    /// The commodities the country produces.
    pub open spec fn spec_production(self) -> Seq<CommodityName> {
        match self {
            CountryName::Australia => seq![CommodityName::Cotton, CommodityName::Gold, CommodityName::Oil, CommodityName::Silver, CommodityName::Copper, CommodityName::Iron],
            CountryName::Brazil => seq![CommodityName::Coffee, CommodityName::Cocoa, CommodityName::Corn, CommodityName::Silicon, CommodityName::Iron, CommodityName::Ethanol],
            CountryName::Canada => seq![CommodityName::Oil, CommodityName::LNG, CommodityName::Gold, CommodityName::Aluminium, CommodityName::Ethanol, CommodityName::Wheat],
            CountryName::China => seq![CommodityName::Iron, CommodityName::Gold, CommodityName::Cotton, CommodityName::Aluminium, CommodityName::Silver, CommodityName::Copper],
            CountryName::EU => seq![CommodityName::Ethanol, CommodityName::Silicon, CommodityName::LNG, CommodityName::Aluminium, CommodityName::Wheat],
            CountryName::Japan => seq![CommodityName::Wheat],
            CountryName::Russia => seq![CommodityName::Oil, CommodityName::LNG, CommodityName::Gold, CommodityName::Aluminium, CommodityName::Silver, CommodityName::Copper],
            CountryName::SaudiArabia => seq![CommodityName::Oil, CommodityName::LNG],
            CountryName::SouthAfrica => seq![CommodityName::Gold, CommodityName::Iron, CommodityName::Ethanol, CommodityName::Silicon, CommodityName::Corn],
            CountryName::Ukraine => seq![CommodityName::Wheat, CommodityName::Corn],
            CountryName::USA => seq![CommodityName::Oil, CommodityName::Corn, CommodityName::Ethanol, CommodityName::LNG, CommodityName::Wheat, CommodityName::Silver],
            CountryName::Venezuela => seq![CommodityName::Oil, CommodityName::Coffee, CommodityName::Cocoa, CommodityName::Gold],
        }
    }

    /// The commodities the country produces (their order carries no meaning).
    pub fn production(&self) -> (r: Vec<CommodityName>)
        ensures
            r@ == self.spec_production(),
    {
        let mut r: Vec<CommodityName> = Vec::new();
        match self {
            CountryName::Australia => {
                r.push(CommodityName::Cotton);
                r.push(CommodityName::Gold);
                r.push(CommodityName::Oil);
                r.push(CommodityName::Silver);
                r.push(CommodityName::Copper);
                r.push(CommodityName::Iron);
            },
            CountryName::Brazil => {
                r.push(CommodityName::Coffee);
                r.push(CommodityName::Cocoa);
                r.push(CommodityName::Corn);
                r.push(CommodityName::Silicon);
                r.push(CommodityName::Iron);
                r.push(CommodityName::Ethanol);
            },
            CountryName::Canada => {
                r.push(CommodityName::Oil);
                r.push(CommodityName::LNG);
                r.push(CommodityName::Gold);
                r.push(CommodityName::Aluminium);
                r.push(CommodityName::Ethanol);
                r.push(CommodityName::Wheat);
            },
            CountryName::China => {
                r.push(CommodityName::Iron);
                r.push(CommodityName::Gold);
                r.push(CommodityName::Cotton);
                r.push(CommodityName::Aluminium);
                r.push(CommodityName::Silver);
                r.push(CommodityName::Copper);
            },
            CountryName::EU => {
                r.push(CommodityName::Ethanol);
                r.push(CommodityName::Silicon);
                r.push(CommodityName::LNG);
                r.push(CommodityName::Aluminium);
                r.push(CommodityName::Wheat);
            },
            CountryName::Japan => {
                r.push(CommodityName::Wheat);
            },
            CountryName::Russia => {
                r.push(CommodityName::Oil);
                r.push(CommodityName::LNG);
                r.push(CommodityName::Gold);
                r.push(CommodityName::Aluminium);
                r.push(CommodityName::Silver);
                r.push(CommodityName::Copper);
            },
            CountryName::SaudiArabia => {
                r.push(CommodityName::Oil);
                r.push(CommodityName::LNG);
            },
            CountryName::SouthAfrica => {
                r.push(CommodityName::Gold);
                r.push(CommodityName::Iron);
                r.push(CommodityName::Ethanol);
                r.push(CommodityName::Silicon);
                r.push(CommodityName::Corn);
            },
            CountryName::Ukraine => {
                r.push(CommodityName::Wheat);
                r.push(CommodityName::Corn);
            },
            CountryName::USA => {
                r.push(CommodityName::Oil);
                r.push(CommodityName::Corn);
                r.push(CommodityName::Ethanol);
                r.push(CommodityName::LNG);
                r.push(CommodityName::Wheat);
                r.push(CommodityName::Silver);
            },
            CountryName::Venezuela => {
                r.push(CommodityName::Oil);
                r.push(CommodityName::Coffee);
                r.push(CommodityName::Cocoa);
                r.push(CommodityName::Gold);
            },
        }
        proof {
            assert(r@ =~= self.spec_production());
        }
        r
    }
}

} // verus!
