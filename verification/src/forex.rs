use vstd::prelude::*;

use crate::names::NameFromEnum;
use crate::countries::CountryName;

verus! {

/// The description of AUD.
pub const CURRENCY_AUD: &'static str = "\
    The Australian dollar (AUD) is a commodity-linked currency heavily influenced \
    by global demand for resources like iron ore, and gold. It's considered a \
    risk-sensitive currency, often gaining value in times of global economic \
    optimism and declining during risk-off sentiment. The Reserve Bank of Australia \
    (RBA) plays a major role in guiding its value through interest rate policy. \
    AUD is actively traded in the Asia-Pacific region and is popular in carry trades \
    due to historically higher interest rates compared to other developed economies.";

/// The description of BRL.
pub const CURRENCY_BRL: &'static str = "\
    The Brazilian real (BRL) is the official currency of Brazil and is considered an \
    emerging market currency. It's influenced by commodity prices, especially Brazil's \
    key exports: coffee and cocoa. The real is sensitive to political risk, inflation, \
    and fiscal policy, with the Central Bank of Brazil playing a key role through \
    interest rate adjustments. BRL tends to be volatile and is often used by traders \
    to gain exposure to emerging markets or to capitalize on carry trade opportunities \
    during periods of high domestic interest rates.";

/// The description of CAD.
pub const CURRENCY_CAD: &'static str = "\
    The Canadian dollar (CAD) is a commodity-linked currency closely tied to the \
    price of oil, as Canada is one of the world's largest oil exporters. It's \
    considered a stable and highly liquid currency, actively traded during North \
    American market hours. While relatively less volatile than some emerging market \
    currencies, CAD still responds to shifts in global risk sentiment and U.S. \
    economic data due to the countries' close trade relationship.";

/// The description of CNY.
pub const CURRENCY_CNY: &'static str = "\
    The Chinese yuan (CNY), also known as the renminbi (RMB), is the official currency \
    of the People's Republic of China. It is partially managed by the People's Bank \
    of China, with a tightly controlled exchange rate regime that allows limited \
    daily movement against a basket of currencies. While not fully convertible, the \
    yuan's global influence has grown due to China's economic size and trade \
    relationships. The currency is sensitive to government policy, trade balances, \
    and geopolitical tensions.";

/// The description of EUR.
pub const CURRENCY_EUR: &'static str = "\
    The euro (EUR) is the official currency of the Eurozone, used by 20 of the 27 EU \
    member states, making it the second most traded and held currency globally after \
    the U.S. dollar. Issued by the European Central Bank (ECB), the euro is seen as \
    a stable, low-volatility currency backed by a large, diversified economy. Its \
    value is influenced by ECB monetary policy, inflation data, and political \
    developments within the EU.";

/// The description of JPY.
pub const CURRENCY_JPY: &'static str = "\
    The Japanese yen (JPY) is one of the most traded currencies globally, known for \
    its high liquidity and role as a safe-haven asset. It is heavily influenced by \
    monetary policy from the Bank of Japan, which has maintained ultra-low interest \
    rates for decades. The yen tends to strengthen during periods of global uncertainty \
    as investors seek safety. It's also widely used in carry trades due to its \
    historically low yields. JPY trading is most active during Asian market hours \
    and is a key currency in global forex pairs, especially against USD and EUR.";

/// The description of RUB.
pub const CURRENCY_RUB: &'static str = "\
    The Russian ruble (RUB) is the official currency of the Russian Federation and \
    is considered a high-volatility emerging market currency. It is heavily influenced \
    by global energy prices—especially oil and gas exports — as well as geopolitical \
    developments and domestic fiscal policy. The Central Bank of Russia manages the \
    ruble through interest rates and, at times, capital controls. Sanctions, political \
    risk, and trade restrictions can cause sharp movements in RUB.";

/// The description of SAR.
pub const CURRENCY_SAR: &'static str = "\
    The Saudi riyal (SAR) value is indirectly influenced by global oil prices, as \
    Saudi Arabia's economy is heavily reliant on petroleum exports. While not widely \
    traded internationally, the SAR is important in regional finance and reflects \
    the kingdom's fiscal health and oil market dynamics.";

/// The description of UAH.
pub const CURRENCY_UAH: &'static str = "\
    The Ukrainian hryvnia (UAH) is considered an emerging market currency with high \
    volatility due to ongoing political and economic instability. While less liquid \
    than major currencies, UAH plays a crucial role in Ukraine's economy and regional \
    trade.";

/// The description of USD.
pub const CURRENCY_USD: &'static str = "\
    The U.S. dollar (USD) is the world's primary reserve and most traded currency, \
    widely used in global trade, finance, and as a benchmark currency. Issued by the \
    Federal Reserve, its value is influenced by U.S. economic data, interest rates, \
    and geopolitical events. The dollar acts as a safe haven during market uncertainty \
    and is central to many commodities priced globally. USD liquidity is highest \
    during overlapping North American and European trading sessions, making it the \
    dominant currency in forex markets.";

/// The description of VES.
pub const CURRENCY_VES: &'static str = "\
    The Venezuelan bolívar (VES) is the official currency of Venezuela and is highly \
    volatile due to severe hyperinflation, political instability, and economic crisis. \
    Its value has drastically depreciated over recent years, leading to widespread \
    dollarization in the economy. The Central Bank of Venezuela has limited ability to \
    stabilize the currency, and exchange rates vary significantly between official and \
    black markets. Despite reforms, the bolívar remains weak and illiquid, reflecting \
    the country's ongoing economic challenges.";

/// The description of ZAR.
pub const CURRENCY_ZAR: &'static str = "\
    The South African rand (ZAR) is the official currency of South Africa and a key \
    emerging market currency. It is commodity-sensitive, influenced heavily by prices \
    of gold and other minerals, which are major exports. The rand is known for its \
    volatility due to political risk, domestic economic challenges, and shifts in \
    global risk sentiment. It is actively traded during African and European market \
    hours and often used by traders seeking exposure to African markets.";

/// The traded currencies, by ISO code.
#[derive(Clone, Copy, Debug, PartialEq, Eq, Structural)]
pub enum CurrencyName {
    AUD,
    BRL,
    CAD,
    CNY,
    EUR,
    JPY,
    RUB,
    SAR,
    UAH,
    USD,
    VES,
    ZAR,
}

impl NameFromEnum for CurrencyName {
    open spec fn spec_ident(&self) -> Seq<char> {
        match self {
            CurrencyName::AUD => "AUD"@,
            CurrencyName::BRL => "BRL"@,
            CurrencyName::CAD => "CAD"@,
            CurrencyName::CNY => "CNY"@,
            CurrencyName::EUR => "EUR"@,
            CurrencyName::JPY => "JPY"@,
            CurrencyName::RUB => "RUB"@,
            CurrencyName::SAR => "SAR"@,
            CurrencyName::UAH => "UAH"@,
            CurrencyName::USD => "USD"@,
            CurrencyName::VES => "VES"@,
            CurrencyName::ZAR => "ZAR"@,
        }
    }

    fn ident(&self) -> (r: &'static str) {
        match self {
            CurrencyName::AUD => "AUD",
            CurrencyName::BRL => "BRL",
            CurrencyName::CAD => "CAD",
            CurrencyName::CNY => "CNY",
            CurrencyName::EUR => "EUR",
            CurrencyName::JPY => "JPY",
            CurrencyName::RUB => "RUB",
            CurrencyName::SAR => "SAR",
            CurrencyName::UAH => "UAH",
            CurrencyName::USD => "USD",
            CurrencyName::VES => "VES",
            CurrencyName::ZAR => "ZAR",
        }
    }
}

impl CurrencyName {
    pub open spec fn spec_symbol(self) -> &'static str {
        match self {
            CurrencyName::AUD => "A$",
            CurrencyName::BRL => "R$",
            CurrencyName::CAD => "C$",
            CurrencyName::CNY => "¥",
            CurrencyName::EUR => "€",
            CurrencyName::JPY => "¥",
            CurrencyName::RUB => "₽",
            CurrencyName::SAR => "﷼",
            CurrencyName::UAH => "₴",
            CurrencyName::USD => "$",
            CurrencyName::VES => "Bs",
            CurrencyName::ZAR => "R",
        }
    }

    /// The currency's symbol, e.g. "$".
    pub fn symbol(&self) -> (r: &'static str)
        ensures
            r == self.spec_symbol(),
    {
        match self {
            CurrencyName::AUD => "A$",
            CurrencyName::BRL => "R$",
            CurrencyName::CAD => "C$",
            CurrencyName::CNY => "¥",
            CurrencyName::EUR => "€",
            CurrencyName::JPY => "¥",
            CurrencyName::RUB => "₽",
            CurrencyName::SAR => "﷼",
            CurrencyName::UAH => "₴",
            CurrencyName::USD => "$",
            CurrencyName::VES => "Bs",
            CurrencyName::ZAR => "R",
        }
    }

    pub open spec fn spec_fullname(self) -> &'static str {
        match self {
            CurrencyName::AUD => "Australian Dollar",
            CurrencyName::BRL => "Brazilian Real",
            CurrencyName::CAD => "Canadian Dollar",
            CurrencyName::CNY => "Chinese Yuan",
            CurrencyName::EUR => "European Euro",
            CurrencyName::JPY => "Japanese Yen",
            CurrencyName::RUB => "Russian Ruble",
            CurrencyName::SAR => "Saudi Arabian Riyal",
            CurrencyName::UAH => "Ukrainian Hryvnia",
            CurrencyName::USD => "United States Dollar",
            CurrencyName::VES => "Venezuelan Bolivar",
            CurrencyName::ZAR => "South African Rand",
        }
    }

    /// The currency's full name, e.g. "Japanese Yen".
    pub fn fullname(&self) -> (r: &'static str)
        ensures
            r == self.spec_fullname(),
    {
        match self {
            CurrencyName::AUD => "Australian Dollar",
            CurrencyName::BRL => "Brazilian Real",
            CurrencyName::CAD => "Canadian Dollar",
            CurrencyName::CNY => "Chinese Yuan",
            CurrencyName::EUR => "European Euro",
            CurrencyName::JPY => "Japanese Yen",
            CurrencyName::RUB => "Russian Ruble",
            CurrencyName::SAR => "Saudi Arabian Riyal",
            CurrencyName::UAH => "Ukrainian Hryvnia",
            CurrencyName::USD => "United States Dollar",
            CurrencyName::VES => "Venezuelan Bolivar",
            CurrencyName::ZAR => "South African Rand",
        }
    }

    pub open spec fn spec_description(self) -> &'static str {
        match self {
            CurrencyName::AUD => CURRENCY_AUD,
            CurrencyName::BRL => CURRENCY_BRL,
            CurrencyName::CAD => CURRENCY_CAD,
            CurrencyName::CNY => CURRENCY_CNY,
            CurrencyName::EUR => CURRENCY_EUR,
            CurrencyName::JPY => CURRENCY_JPY,
            CurrencyName::RUB => CURRENCY_RUB,
            CurrencyName::SAR => CURRENCY_SAR,
            CurrencyName::UAH => CURRENCY_UAH,
            CurrencyName::USD => CURRENCY_USD,
            CurrencyName::VES => CURRENCY_VES,
            CurrencyName::ZAR => CURRENCY_ZAR,
        }
    }

    /// How the currency behaves on the market.
    pub fn description(&self) -> (r: &'static str)
        ensures
            r == self.spec_description(),
    {
        match self {
            CurrencyName::AUD => CURRENCY_AUD,
            CurrencyName::BRL => CURRENCY_BRL,
            CurrencyName::CAD => CURRENCY_CAD,
            CurrencyName::CNY => CURRENCY_CNY,
            CurrencyName::EUR => CURRENCY_EUR,
            CurrencyName::JPY => CURRENCY_JPY,
            CurrencyName::RUB => CURRENCY_RUB,
            CurrencyName::SAR => CURRENCY_SAR,
            CurrencyName::UAH => CURRENCY_UAH,
            CurrencyName::USD => CURRENCY_USD,
            CurrencyName::VES => CURRENCY_VES,
            CurrencyName::ZAR => CURRENCY_ZAR,
        }
    }

    pub open spec fn spec_all() -> Seq<CurrencyName> {
        seq![CurrencyName::AUD, CurrencyName::BRL, CurrencyName::CAD, CurrencyName::CNY, CurrencyName::EUR, CurrencyName::JPY, CurrencyName::RUB, CurrencyName::SAR, CurrencyName::UAH, CurrencyName::USD, CurrencyName::VES, CurrencyName::ZAR]
    }

    /// Every variant, in declaration order.
    pub fn all() -> (r: Vec<CurrencyName>)
        ensures
            r@ == Self::spec_all(),
    {
        let mut r: Vec<CurrencyName> = Vec::new();
        r.push(CurrencyName::AUD);
        r.push(CurrencyName::BRL);
        r.push(CurrencyName::CAD);
        r.push(CurrencyName::CNY);
        r.push(CurrencyName::EUR);
        r.push(CurrencyName::JPY);
        r.push(CurrencyName::RUB);
        r.push(CurrencyName::SAR);
        r.push(CurrencyName::UAH);
        r.push(CurrencyName::USD);
        r.push(CurrencyName::VES);
        r.push(CurrencyName::ZAR);
        proof {
            assert(r@ =~= Self::spec_all());
        }
        r
    }
}

impl CurrencyName {
    /// The country that issues the currency.
    pub open spec fn spec_country(self) -> CountryName {
        match self {
            CurrencyName::AUD => CountryName::Australia,
            CurrencyName::BRL => CountryName::Brazil,
            CurrencyName::CAD => CountryName::Canada,
            CurrencyName::CNY => CountryName::China,
            CurrencyName::EUR => CountryName::EU,
            CurrencyName::JPY => CountryName::Japan,
            CurrencyName::RUB => CountryName::Russia,
            CurrencyName::SAR => CountryName::SaudiArabia,
            CurrencyName::UAH => CountryName::Ukraine,
            CurrencyName::USD => CountryName::USA,
            CurrencyName::VES => CountryName::Venezuela,
            CurrencyName::ZAR => CountryName::SouthAfrica,
        }
    }

    /// The country that issues the currency.
    pub fn country(&self) -> (r: CountryName)
        ensures
            r == self.spec_country(),
    {
        match self {
            CurrencyName::AUD => CountryName::Australia,
            CurrencyName::BRL => CountryName::Brazil,
            CurrencyName::CAD => CountryName::Canada,
            CurrencyName::CNY => CountryName::China,
            CurrencyName::EUR => CountryName::EU,
            CurrencyName::JPY => CountryName::Japan,
            CurrencyName::RUB => CountryName::Russia,
            CurrencyName::SAR => CountryName::SaudiArabia,
            CurrencyName::UAH => CountryName::Ukraine,
            CurrencyName::USD => CountryName::USA,
            CurrencyName::VES => CountryName::Venezuela,
            CurrencyName::ZAR => CountryName::SouthAfrica,
        }
    }
}

/// Every country pays in its own currency and every currency belongs to one country:
/// going from a country to its currency and back gives the same country, and the
/// other way round.
pub proof fn currencies_and_countries_correspond(country: CountryName, currency: CurrencyName)
    ensures
        country.spec_currency().spec_country() == country,
        currency.spec_country().spec_currency() == currency,
{
}

} // verus!
