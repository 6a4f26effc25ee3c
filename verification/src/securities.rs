use vstd::prelude::*;

use crate::names::NameFromEnum;

verus! {

/// The description of Gold.
pub const SECURITY_GOLD: &'static str = "A precious metal valued for its rarity, durability, and historical role as \
    a store of value. Gold serves as a stable but slow-growing investment, and \
    a hedge against inflation. While not highly volatile, gold retains value \
    even during market crashes, making it a strategic asset in times of crisis. \
    Gold doesn't degrade over time, allowing it to be held indefinitely.";

/// The description of Oil.
pub const SECURITY_OIL: &'static str = "A high-demand fossil fuel crucial to the energy sector. Oil is a volatile \
    commodity influenced by geopolitical tensions, supply disruptions, OPEC \
    decisions, and economic cycles. Its price can spike during conflicts or \
    shortages but also drop sharply during recessions or oversupply. Oil is a \
    high-risk, high-reward investment that can generate large profits or losses \
    quickly, making it ideal for aggressive traders or those hedging industrial \
    operations.";

/// The description of Wheat.
pub const SECURITY_WHEAT: &'static str = "A staple agricultural commodity essential for global food supply. Wheat \
    represents a relatively stable but seasonally influenced asset. Its price \
    is affected by weather patterns, crop yields and trade policies. Wheat is a \
    solid option for diversifying portfolios.";

/// The commodities of the first, smaller commodity market.
#[derive(Clone, Copy, Debug, PartialEq, Eq, Structural)]
pub enum CommodityKind {
    Gold,
    Oil,
    Wheat,
}

impl NameFromEnum for CommodityKind {
    open spec fn spec_ident(&self) -> Seq<char> {
        match self {
            CommodityKind::Gold => "Gold"@,
            CommodityKind::Oil => "Oil"@,
            CommodityKind::Wheat => "Wheat"@,
        }
    }

    fn ident(&self) -> (r: &'static str) {
        match self {
            CommodityKind::Gold => "Gold",
            CommodityKind::Oil => "Oil",
            CommodityKind::Wheat => "Wheat",
        }
    }
}

impl CommodityKind {
    pub open spec fn spec_description(self) -> &'static str {
        match self {
            CommodityKind::Gold => SECURITY_GOLD,
            CommodityKind::Oil => SECURITY_OIL,
            CommodityKind::Wheat => SECURITY_WHEAT,
        }
    }

    /// What the commodity is and how its market behaves.
    pub fn description(&self) -> (r: &'static str)
        ensures
            r == self.spec_description(),
    {
        match self {
            CommodityKind::Gold => SECURITY_GOLD,
            CommodityKind::Oil => SECURITY_OIL,
            CommodityKind::Wheat => SECURITY_WHEAT,
        }
    }
}

} // verus!
