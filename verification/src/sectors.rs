use vstd::prelude::*;

use crate::names::NameFromEnum;
use crate::politics::{Culture, Government, Ideology, Orientation, Politics};

verus! {

/// The description of Energy.
pub const SECTOR_ENERGY: &'static str = "The energy sector encompasses companies that are involved in the exploration, \
    extraction, production, refinement, and distribution of energy resources essential \
    to modern life. This includes traditional fossil fuels such as oil, natural gas, \
    and coal, as well as renewable and alternative energy sources like wind, solar, \
    hydroelectric, geothermal, and bioenergy. The sector includes upstream companies \
    (exploration and drilling), midstream (transportation and storage), and downstream \
    (refining and marketing), along with utility providers and infrastructure developers \
    focused on global energy supply and sustainability.";

/// The description of Fashion.
pub const SECTOR_FASHION: &'static str = "The fashion sector includes a diverse range of businesses involved in the \
    conceptualization, design, production, marketing, and retail of apparel, footwear, \
    and accessories. This spans luxury and haute couture houses, fast-fashion brands, \
    and independent designers. It also includes the full supply chain—from textile \
    manufacturing and ethical sourcing of materials to global distribution networks. \
    The sector is increasingly influenced by social trends, cultural movements, \
    sustainability concerns, and the integration of technology through digital \
    fashion, e-commerce platforms, and AI-driven design.";

/// The description of Finance.
pub const SECTOR_FINANCE: &'static str = "The finance sector includes institutions and companies that manage capital flows, \
    risk, and financial services on both individual and institutional levels. This \
    includes commercial banks, investment banks, insurance firms, private equity, \
    hedge funds, credit rating agencies, and financial technology (fintech) startups. \
    These entities offer services such as lending, investing, underwriting, wealth \
    management, currency exchange, and financial advisory. The sector is heavily \
    influenced by the global economy. It's value is not only dependent on primary \
    commodities, but also on the current inflation.";

/// The description of Food.
pub const SECTOR_FOOD: &'static str = "The food sector encompasses all businesses involved in the production, processing, \
    packaging, transportation, marketing, and sale of food products. This includes \
    agricultural enterprises, aquaculture, food manufacturers, wholesalers, retailers, \
    restaurants, and delivery services. The sector also integrates global supply chain \
    logistics, sustainability practices, food safety standards, and evolving consumer \
    trends such as plant-based diets, organic labeling, and personalized nutrition. \
    Innovation in food technology, biotechnology, and climate-resilient agriculture \
    also plays a growing role.";

/// The description of Healthcare.
pub const SECTOR_HEALTHCARE: &'static str = "The healthcare sector is composed of a wide array of organizations and companies \
    focused on the prevention, diagnosis, treatment, and management of illness and \
    injury. This includes hospitals, clinics, pharmaceutical companies, biotechnology \
    firms, medical device manufacturers, diagnostics providers, and telemedicine \
    platforms. The sector also encompasses public health systems, health insurance \
    providers, and regulatory bodies. It is characterized by rapid innovation, long \
    product development cycles, complex regulation, and an ever-growing demand due to \
    aging populations and global health challenges.";

/// The description of Materials.
pub const SECTOR_MATERIALS: &'static str = "The materials sector includes companies that discover, extract, process, and \
    distribute essential raw materials used across industrial and consumer applications. \
    This spans metals and mining (e.g., iron, copper, aluminum, gold), chemicals, \
    forestry products, plastics, cement, and construction materials. These businesses \
    are crucial to infrastructure, manufacturing, energy, and technology sectors. The \
    industry is influenced by global commodity markets, environmental regulations, \
    sustainability initiatives, and geopolitical resource competition.";

/// The description of Military.
pub const SECTOR_MILITARY: &'static str = "The military sector involves corporations that research, develop, manufacture, \
    and maintain defense systems and technologies. This includes arms manufacturers, \
    aerospace contractors, cybersecurity firms, and logistics providers that supply \
    national militaries, intelligence agencies, and defense alliances. The sector \
    plays a pivotal role in national security, geopolitical strategy, and technological \
    innovation. It includes traditional weapons systems, satellite and drone \
    technologies, defense AI, and next-generation surveillance, often under strict \
    government oversight and long-term procurement contracts.";

/// The description of Retail.
pub const SECTOR_RETAIL: &'static str = "The retail sector consists of companies that sell finished goods and services \
    directly to consumers. This includes physical brick-and-mortar stores, online \
    retailers (e-commerce), and hybrid omnichannel operations. It spans categories \
    like apparel, electronics, groceries, furniture, and luxury items. The sector is \
    highly consumer-driven and influenced by trends in disposable income, seasonal \
    demand, marketing strategies, and technological adoption (e.g., mobile commerce, \
    AR shopping, loyalty systems). Retail is a dynamic sector shaped by supply chain \
    efficiency, globalization, and evolving customer experiences.";

/// The description of Technology.
pub const SECTOR_TECHNOLOGY: &'static str = "The technology sector comprises companies focused on innovation and the application \
    of science and engineering in software, hardware, and digital infrastructure. It \
    includes developers of operating systems, mobile apps, cloud computing services, \
    AI platforms, semiconductor fabrication, networking equipment, and consumer \
    electronics. The sector also overlaps with fintech, edtech, medtech, and other \
    specialized domains. It is characterized by rapid cycles of innovation, high R&D \
    expenditure, global competition, and significant influence over how businesses and \
    individuals interact with information and the world.";

/// The description of Transport.
pub const SECTOR_TRANSPORT: &'static str = "The transport sector includes all businesses involved in the movement of people \
    and goods. This spans aviation, maritime shipping, railways, trucking, public \
    transit, freight logistics, and emerging areas such as electric mobility and \
    drone delivery. It also encompasses infrastructure development such as roads, \
    ports, and airports, as well as digital logistics platforms. The sector is \
    sensitive to fuel costs, geopolitical disruptions, environmental regulations, \
    and technological innovations such as autonomous vehicles and smart traffic systems.";

/// The sectors of the economy.
#[derive(Clone, Copy, Debug, PartialEq, Eq, Structural)]
pub enum SectorName {
    Energy,
    Fashion,
    Finance,
    Food,
    Healthcare,
    Materials,
    Military,
    Retail,
    Technology,
    Transport,
}

impl NameFromEnum for SectorName {
    open spec fn spec_ident(&self) -> Seq<char> {
        match self {
            SectorName::Energy => "Energy"@,
            SectorName::Fashion => "Fashion"@,
            SectorName::Finance => "Finance"@,
            SectorName::Food => "Food"@,
            SectorName::Healthcare => "Healthcare"@,
            SectorName::Materials => "Materials"@,
            SectorName::Military => "Military"@,
            SectorName::Retail => "Retail"@,
            SectorName::Technology => "Technology"@,
            SectorName::Transport => "Transport"@,
        }
    }

    fn ident(&self) -> (r: &'static str) {
        match self {
            SectorName::Energy => "Energy",
            SectorName::Fashion => "Fashion",
            SectorName::Finance => "Finance",
            SectorName::Food => "Food",
            SectorName::Healthcare => "Healthcare",
            SectorName::Materials => "Materials",
            SectorName::Military => "Military",
            SectorName::Retail => "Retail",
            SectorName::Technology => "Technology",
            SectorName::Transport => "Transport",
        }
    }
}

impl SectorName {
    pub open spec fn spec_emoji(self) -> &'static str {
        match self {
            SectorName::Energy => "⚡",
            SectorName::Fashion => "👗",
            SectorName::Finance => "💰",
            SectorName::Food => "🍔",
            SectorName::Healthcare => "💊",
            SectorName::Materials => "🔨",
            SectorName::Military => "🔫",
            SectorName::Retail => "👤",
            SectorName::Technology => "💻",
            SectorName::Transport => "🚚",
        }
    }

    /// The icon of the sector.
    pub fn emoji(&self) -> (r: &'static str)
        ensures
            r == self.spec_emoji(),
    {
        match self {
            SectorName::Energy => "⚡",
            SectorName::Fashion => "👗",
            SectorName::Finance => "💰",
            SectorName::Food => "🍔",
            SectorName::Healthcare => "💊",
            SectorName::Materials => "🔨",
            SectorName::Military => "🔫",
            SectorName::Retail => "👤",
            SectorName::Technology => "💻",
            SectorName::Transport => "🚚",
        }
    }

    pub open spec fn spec_description(self) -> &'static str {
        match self {
            SectorName::Energy => SECTOR_ENERGY,
            SectorName::Fashion => SECTOR_FASHION,
            SectorName::Finance => SECTOR_FINANCE,
            SectorName::Food => SECTOR_FOOD,
            SectorName::Healthcare => SECTOR_HEALTHCARE,
            SectorName::Materials => SECTOR_MATERIALS,
            SectorName::Military => SECTOR_MILITARY,
            SectorName::Retail => SECTOR_RETAIL,
            SectorName::Technology => SECTOR_TECHNOLOGY,
            SectorName::Transport => SECTOR_TRANSPORT,
        }
    }

    /// What the sector comprises.
    pub fn description(&self) -> (r: &'static str)
        ensures
            r == self.spec_description(),
    {
        match self {
            SectorName::Energy => SECTOR_ENERGY,
            SectorName::Fashion => SECTOR_FASHION,
            SectorName::Finance => SECTOR_FINANCE,
            SectorName::Food => SECTOR_FOOD,
            SectorName::Healthcare => SECTOR_HEALTHCARE,
            SectorName::Materials => SECTOR_MATERIALS,
            SectorName::Military => SECTOR_MILITARY,
            SectorName::Retail => SECTOR_RETAIL,
            SectorName::Technology => SECTOR_TECHNOLOGY,
            SectorName::Transport => SECTOR_TRANSPORT,
        }
    }

    pub open spec fn spec_all() -> Seq<SectorName> {
        seq![SectorName::Energy, SectorName::Fashion, SectorName::Finance, SectorName::Food, SectorName::Healthcare, SectorName::Materials, SectorName::Military, SectorName::Retail, SectorName::Technology, SectorName::Transport]
    }

    /// Every variant, in declaration order.
    pub fn all() -> (r: Vec<SectorName>)
        ensures
            r@ == Self::spec_all(),
    {
        let mut r: Vec<SectorName> = Vec::new();
        r.push(SectorName::Energy);
        r.push(SectorName::Fashion);
        r.push(SectorName::Finance);
        r.push(SectorName::Food);
        r.push(SectorName::Healthcare);
        r.push(SectorName::Materials);
        r.push(SectorName::Military);
        r.push(SectorName::Retail);
        r.push(SectorName::Technology);
        r.push(SectorName::Transport);
        proof {
            assert(r@ =~= Self::spec_all());
        }
        r
    }
}

impl Default for SectorName {
    /// Energy.
    fn default() -> (r: Self)
        ensures
            r == SectorName::Energy,
    {
        SectorName::Energy
    }
}

/// A sector's score lies between `-SECTOR_RANGE` and `SECTOR_RANGE`.
pub const SECTOR_RANGE: i8 = 50;

/// `value` clamped to the sector range.
pub open spec fn clamp_sector(value: int) -> int {
    if value < -SECTOR_RANGE {
        -SECTOR_RANGE as int
    } else if value > SECTOR_RANGE {
        SECTOR_RANGE as int
    } else {
        value
    }
}

/// A sector's score after it is moved by `amount`, kept within the sector range.
pub fn update_sector_value(value: i8, amount: i8) -> (r: i8)
    requires
        i8::MIN <= value + amount <= i8::MAX,
    ensures
        r == clamp_sector(value + amount),
{
    let v = value + amount;
    if v < -SECTOR_RANGE {
        -SECTOR_RANGE
    } else if v > SECTOR_RANGE {
        SECTOR_RANGE
    } else {
        v
    }
}

/// However it is moved, a sector's score stays within the sector range.
pub proof fn sector_value_stays_in_range(value: i8, amount: i8)
    requires
        i8::MIN <= value + amount <= i8::MAX,
    ensures
        -SECTOR_RANGE <= clamp_sector(value + amount) <= SECTOR_RANGE,
        -SECTOR_RANGE <= value <= SECTOR_RANGE && amount == 0 ==> clamp_sector(value + amount)
            == value,
{
}

impl SectorName {
    /// The political stance that favours the sector.
    pub open spec fn spec_politics(self) -> Politics {
        match self {
            SectorName::Energy => Politics { government: Government::Neutral, ideology: Ideology::Right, culture: Culture::Conservative, orientation: Orientation::Neutral },
            SectorName::Fashion => Politics { government: Government::Democracy, ideology: Ideology::Neutral, culture: Culture::Progressive, orientation: Orientation::Capitalism },
            SectorName::Finance => Politics { government: Government::Democracy, ideology: Ideology::Right, culture: Culture::Neutral, orientation: Orientation::Capitalism },
            SectorName::Food => Politics { government: Government::Neutral, ideology: Ideology::Left, culture: Culture::Neutral, orientation: Orientation::Neutral },
            SectorName::Healthcare => Politics { government: Government::Democracy, ideology: Ideology::Left, culture: Culture::Neutral, orientation: Orientation::Socialism },
            SectorName::Materials => Politics { government: Government::Neutral, ideology: Ideology::Neutral, culture: Culture::Conservative, orientation: Orientation::Neutral },
            SectorName::Military => Politics { government: Government::Autocracy, ideology: Ideology::Right, culture: Culture::Conservative, orientation: Orientation::Capitalism },
            SectorName::Retail => Politics { government: Government::Democracy, ideology: Ideology::Neutral, culture: Culture::Progressive, orientation: Orientation::Capitalism },
            SectorName::Technology => Politics { government: Government::Neutral, ideology: Ideology::Neutral, culture: Culture::Progressive, orientation: Orientation::Capitalism },
            SectorName::Transport => Politics { government: Government::Democracy, ideology: Ideology::Neutral, culture: Culture::Neutral, orientation: Orientation::Neutral },
        }
    }

    /// The political stance that favours the sector (neutral in the fields it does
    /// not care about).
    pub fn politics(&self) -> (r: Politics)
        ensures
            r == self.spec_politics(),
    {
        match self {
            SectorName::Energy => Politics { government: Government::Neutral, ideology: Ideology::Right, culture: Culture::Conservative, orientation: Orientation::Neutral },
            SectorName::Fashion => Politics { government: Government::Democracy, ideology: Ideology::Neutral, culture: Culture::Progressive, orientation: Orientation::Capitalism },
            SectorName::Finance => Politics { government: Government::Democracy, ideology: Ideology::Right, culture: Culture::Neutral, orientation: Orientation::Capitalism },
            SectorName::Food => Politics { government: Government::Neutral, ideology: Ideology::Left, culture: Culture::Neutral, orientation: Orientation::Neutral },
            SectorName::Healthcare => Politics { government: Government::Democracy, ideology: Ideology::Left, culture: Culture::Neutral, orientation: Orientation::Socialism },
            SectorName::Materials => Politics { government: Government::Neutral, ideology: Ideology::Neutral, culture: Culture::Conservative, orientation: Orientation::Neutral },
            SectorName::Military => Politics { government: Government::Autocracy, ideology: Ideology::Right, culture: Culture::Conservative, orientation: Orientation::Capitalism },
            SectorName::Retail => Politics { government: Government::Democracy, ideology: Ideology::Neutral, culture: Culture::Progressive, orientation: Orientation::Capitalism },
            SectorName::Technology => Politics { government: Government::Neutral, ideology: Ideology::Neutral, culture: Culture::Progressive, orientation: Orientation::Capitalism },
            SectorName::Transport => Politics { government: Government::Democracy, ideology: Ideology::Neutral, culture: Culture::Neutral, orientation: Orientation::Neutral },
        }
    }
}

} // verus!
