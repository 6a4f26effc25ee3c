use vstd::prelude::*;

use crate::names::NameFromEnum;

verus! {

/// The description of Aluminium.
pub const COMMODITY_ALUMINIUM: &'static str = "A lightweight, durable metal used in construction, transportation, and \
    packaging. Aluminium is a stable commodity with very low volatility, \
    influenced by global demand, mining output, and energy costs. It is a \
    solid investment for those looking for exposure to industrial materials.";

/// The description of Cocoa.
pub const COMMODITY_COCOA: &'static str = "A key ingredient in chocolate and beauty products, cocoa is a seasonal \
    agricultural commodity with high volatility. Its price is influenced by \
    weather conditions and crop yields.";

/// The description of Coffee.
pub const COMMODITY_COFFEE: &'static str = "A globally traded beverage commodity, coffee is subject to high volatility \
    due to weather conditions, crop yields, and global demand.";

/// The description of Copper.
pub const COMMODITY_COPPER: &'static str = "A versatile metal known for its high conductivity, durability and corrosion \
    resistance. Copper is widely used in electrical wiring and construction. Its \
    a volatile commodity that greatly influences multiple sectors like technology, \
    military and transportation.";

/// The description of Corn.
pub const COMMODITY_CORN: &'static str = "A staple agricultural commodity used for food, animal feed, and biofuels. \
    Corn is a relatively stable asset.";

/// The description of Cotton.
pub const COMMODITY_COTTON: &'static str = "A natural fiber used in textiles, cotton is a seasonal agricultural commodity \
    with moderate volatility. It's a primary raw material for the clothing industry.";

/// The description of Ethanol.
pub const COMMODITY_ETHANOL: &'static str = "A biofuel derived from corn and sugarcane, ethanol is a renewable energy source \
    frequently used in healthcare.";

/// The description of Gold.
pub const COMMODITY_GOLD: &'static str = "A precious metal valued for its rarity, durability, and historical role as \
    a store of value. Gold serves as a stable but slow-growing investment, and \
    a hedge against inflation. While not highly volatile, gold retains value \
    even during market crashes, making it a strategic asset in times of crisis.";

/// The description of Iron.
pub const COMMODITY_IRON: &'static str = "Iron is a strong and abundant metal. As the backbone of steel production, \
    its frequently used in construction and manufacturing. Iron is a stable \
    commodity with low volatility.";

/// The description of LNG.
pub const COMMODITY_LNG: &'static str = "Liquid Natural Gas (LNG) is primarily methane that has been cooled for \
    easier storage and transport. Its a widely used commodity for power generation, \
    heating and transportation. LNG is highly volatile and the prices are greatly \
    influenced by geopolitical factors and supply chain disruptions. Its expensive \
    storage costs make it a high-risk investment.";

/// The description of Oil.
pub const COMMODITY_OIL: &'static str = "A high-demand fossil fuel crucial to the energy sector. Oil is a volatile \
    commodity influenced by geopolitical tensions, supply disruptions, OPEC \
    decisions, and economic cycles. Its price can spike during conflicts or \
    shortages but also drop sharply during recessions or oversupply. Oil is a \
    high-risk, high-reward investment that can generate large profits or losses \
    quickly, making it ideal for aggressive traders or those hedging industrial \
    operations.";

/// The description of Silicon.
pub const COMMODITY_SILICON: &'static str = "A key component in electronics and solar panels, silicon is a highly volatile \
    commodity. Its price is influenced by technological advancements and global \
    demand for electronics.";

/// The description of Silver.
pub const COMMODITY_SILVER: &'static str = "A precious metal with industrial applications, silver is less stable than \
    gold but still a solid investment. Its price is influenced by industrial \
    demand, mining output, and economic conditions.";

/// The description of Wheat.
pub const COMMODITY_WHEAT: &'static str = "A staple agricultural commodity essential for global food supply. Wheat \
    represents a relatively stable but seasonally influenced asset. Its price \
    is affected by weather patterns, crop yields and trade policies. Wheat is a \
    solid option for diversifying portfolios.";

/// The unit a commodity is traded in.
#[derive(Clone, Copy, Debug, PartialEq, Eq, Structural)]
pub enum Unit {
    Kilogram,
    Gram,
    Barrel,
    CubicMeter,
    MetricTon,
    MillionBritishThermalUnits,
}

impl NameFromEnum for Unit {
    open spec fn spec_ident(&self) -> Seq<char> {
        match self {
            Unit::Kilogram => "Kilogram"@,
            Unit::Gram => "Gram"@,
            Unit::Barrel => "Barrel"@,
            Unit::CubicMeter => "CubicMeter"@,
            Unit::MetricTon => "MetricTon"@,
            Unit::MillionBritishThermalUnits => "MillionBritishThermalUnits"@,
        }
    }

    fn ident(&self) -> (r: &'static str) {
        match self {
            Unit::Kilogram => "Kilogram",
            Unit::Gram => "Gram",
            Unit::Barrel => "Barrel",
            Unit::CubicMeter => "CubicMeter",
            Unit::MetricTon => "MetricTon",
            Unit::MillionBritishThermalUnits => "MillionBritishThermalUnits",
        }
    }
}

impl Unit {
    pub open spec fn spec_abbr(self) -> &'static str {
        match self {
            Unit::Kilogram => "kg",
            Unit::Gram => "g",
            Unit::Barrel => "bbl",
            Unit::CubicMeter => "m³",
            Unit::MetricTon => "t",
            Unit::MillionBritishThermalUnits => "MMBtu",
        }
    }

    /// The unit's abbreviation, e.g. "kg".
    pub fn abbr(&self) -> (r: &'static str)
        ensures
            r == self.spec_abbr(),
    {
        match self {
            Unit::Kilogram => "kg",
            Unit::Gram => "g",
            Unit::Barrel => "bbl",
            Unit::CubicMeter => "m³",
            Unit::MetricTon => "t",
            Unit::MillionBritishThermalUnits => "MMBtu",
        }
    }
}

/// The tradable commodities.
#[derive(Clone, Copy, Debug, PartialEq, Eq, Structural)]
pub enum CommodityName {
    Aluminium,
    Cocoa,
    Coffee,
    Copper,
    Corn,
    Cotton,
    Ethanol,
    Gold,
    Iron,
    LNG,
    Oil,
    Silicon,
    Silver,
    Wheat,
}

impl NameFromEnum for CommodityName {
    open spec fn spec_ident(&self) -> Seq<char> {
        match self {
            CommodityName::Aluminium => "Aluminium"@,
            CommodityName::Cocoa => "Cocoa"@,
            CommodityName::Coffee => "Coffee"@,
            CommodityName::Copper => "Copper"@,
            CommodityName::Corn => "Corn"@,
            CommodityName::Cotton => "Cotton"@,
            CommodityName::Ethanol => "Ethanol"@,
            CommodityName::Gold => "Gold"@,
            CommodityName::Iron => "Iron"@,
            CommodityName::LNG => "LNG"@,
            CommodityName::Oil => "Oil"@,
            CommodityName::Silicon => "Silicon"@,
            CommodityName::Silver => "Silver"@,
            CommodityName::Wheat => "Wheat"@,
        }
    }

    fn ident(&self) -> (r: &'static str) {
        match self {
            CommodityName::Aluminium => "Aluminium",
            CommodityName::Cocoa => "Cocoa",
            CommodityName::Coffee => "Coffee",
            CommodityName::Copper => "Copper",
            CommodityName::Corn => "Corn",
            CommodityName::Cotton => "Cotton",
            CommodityName::Ethanol => "Ethanol",
            CommodityName::Gold => "Gold",
            CommodityName::Iron => "Iron",
            CommodityName::LNG => "LNG",
            CommodityName::Oil => "Oil",
            CommodityName::Silicon => "Silicon",
            CommodityName::Silver => "Silver",
            CommodityName::Wheat => "Wheat",
        }
    }
}

impl CommodityName {
    /// Whether the commodity is a food crop: cocoa, coffee, corn or wheat.
    pub open spec fn spec_is_food(self) -> bool {
        self == CommodityName::Cocoa || self == CommodityName::Coffee || self == CommodityName::Corn
            || self == CommodityName::Wheat
    }

    /// Whether the commodity is a food crop: cocoa, coffee, corn or wheat.
    pub fn is_food(&self) -> (r: bool)
        ensures
            r == self.spec_is_food(),
    {
        matches!(
            self,
            CommodityName::Cocoa | CommodityName::Coffee | CommodityName::Corn | CommodityName::Wheat
        )
    }

    pub open spec fn spec_description(self) -> &'static str {
        match self {
            CommodityName::Aluminium => COMMODITY_ALUMINIUM,
            CommodityName::Cocoa => COMMODITY_COCOA,
            CommodityName::Coffee => COMMODITY_COFFEE,
            CommodityName::Copper => COMMODITY_COPPER,
            CommodityName::Corn => COMMODITY_CORN,
            CommodityName::Cotton => COMMODITY_COTTON,
            CommodityName::Ethanol => COMMODITY_ETHANOL,
            CommodityName::Gold => COMMODITY_GOLD,
            CommodityName::Iron => COMMODITY_IRON,
            CommodityName::LNG => COMMODITY_LNG,
            CommodityName::Oil => COMMODITY_OIL,
            CommodityName::Silicon => COMMODITY_SILICON,
            CommodityName::Silver => COMMODITY_SILVER,
            CommodityName::Wheat => COMMODITY_WHEAT,
        }
    }

    /// What the commodity is and how its market behaves.
    pub fn description(&self) -> (r: &'static str)
        ensures
            r == self.spec_description(),
    {
        match self {
            CommodityName::Aluminium => COMMODITY_ALUMINIUM,
            CommodityName::Cocoa => COMMODITY_COCOA,
            CommodityName::Coffee => COMMODITY_COFFEE,
            CommodityName::Copper => COMMODITY_COPPER,
            CommodityName::Corn => COMMODITY_CORN,
            CommodityName::Cotton => COMMODITY_COTTON,
            CommodityName::Ethanol => COMMODITY_ETHANOL,
            CommodityName::Gold => COMMODITY_GOLD,
            CommodityName::Iron => COMMODITY_IRON,
            CommodityName::LNG => COMMODITY_LNG,
            CommodityName::Oil => COMMODITY_OIL,
            CommodityName::Silicon => COMMODITY_SILICON,
            CommodityName::Silver => COMMODITY_SILVER,
            CommodityName::Wheat => COMMODITY_WHEAT,
        }
    }

    pub open spec fn spec_all() -> Seq<CommodityName> {
        seq![CommodityName::Aluminium, CommodityName::Cocoa, CommodityName::Coffee, CommodityName::Copper, CommodityName::Corn, CommodityName::Cotton, CommodityName::Ethanol, CommodityName::Gold, CommodityName::Iron, CommodityName::LNG, CommodityName::Oil, CommodityName::Silicon, CommodityName::Silver, CommodityName::Wheat]
    }

    /// Every variant, in declaration order.
    pub fn all() -> (r: Vec<CommodityName>)
        ensures
            r@ == Self::spec_all(),
    {
        let mut r: Vec<CommodityName> = Vec::new();
        r.push(CommodityName::Aluminium);
        r.push(CommodityName::Cocoa);
        r.push(CommodityName::Coffee);
        r.push(CommodityName::Copper);
        r.push(CommodityName::Corn);
        r.push(CommodityName::Cotton);
        r.push(CommodityName::Ethanol);
        r.push(CommodityName::Gold);
        r.push(CommodityName::Iron);
        r.push(CommodityName::LNG);
        r.push(CommodityName::Oil);
        r.push(CommodityName::Silicon);
        r.push(CommodityName::Silver);
        r.push(CommodityName::Wheat);
        proof {
            assert(r@ =~= Self::spec_all());
        }
        r
    }
}

impl Default for CommodityName {
    /// Aluminium.
    fn default() -> (r: Self)
        ensures
            r == CommodityName::Aluminium,
    {
        CommodityName::Aluminium
    }
}

impl CommodityName {
    /// The unit in which the commodity is traded.
    pub open spec fn spec_unit(self) -> Unit {
        match self {
            CommodityName::Aluminium => Unit::MetricTon,
            CommodityName::Cocoa => Unit::MetricTon,
            CommodityName::Coffee => Unit::MetricTon,
            CommodityName::Copper => Unit::MetricTon,
            CommodityName::Corn => Unit::MetricTon,
            CommodityName::Cotton => Unit::MetricTon,
            CommodityName::Ethanol => Unit::CubicMeter,
            CommodityName::Gold => Unit::Gram,
            CommodityName::Iron => Unit::MetricTon,
            CommodityName::LNG => Unit::MillionBritishThermalUnits,
            CommodityName::Oil => Unit::Barrel,
            CommodityName::Silicon => Unit::MetricTon,
            CommodityName::Silver => Unit::Kilogram,
            CommodityName::Wheat => Unit::MetricTon,
        }
    }

    /// The unit in which the commodity is traded.
    pub fn unit(&self) -> (r: Unit)
        ensures
            r == self.spec_unit(),
    {
        match self {
            CommodityName::Aluminium => Unit::MetricTon,
            CommodityName::Cocoa => Unit::MetricTon,
            CommodityName::Coffee => Unit::MetricTon,
            CommodityName::Copper => Unit::MetricTon,
            CommodityName::Corn => Unit::MetricTon,
            CommodityName::Cotton => Unit::MetricTon,
            CommodityName::Ethanol => Unit::CubicMeter,
            CommodityName::Gold => Unit::Gram,
            CommodityName::Iron => Unit::MetricTon,
            CommodityName::LNG => Unit::MillionBritishThermalUnits,
            CommodityName::Oil => Unit::Barrel,
            CommodityName::Silicon => Unit::MetricTon,
            CommodityName::Silver => Unit::Kilogram,
            CommodityName::Wheat => Unit::MetricTon,
        }
    }
}

} // verus!
