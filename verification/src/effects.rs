use vstd::prelude::*;

use crate::bonds::{BondIssuer, BondQuality};
use crate::commodities::CommodityName;
use crate::countries::CountryName;
use crate::crypto::CryptoName;
use crate::events::{EconomicEvent, EventName};
use crate::sectors::SectorName;
use crate::stocks::Company;

verus! {

/// A factor by which a value is multiplied, in percent.
#[derive(Clone, Copy, Debug, PartialEq, Eq, Structural)]
pub enum Scale {
    /// Always the same factor.
    Fixed(u32),
    /// A factor drawn at random, at least the first bound and below the second.
    Between(u32, u32),
}

/// An amount by which a sector's score moves.
#[derive(Clone, Copy, Debug, PartialEq, Eq, Structural)]
pub enum Shift {
    /// Always the same amount.
    Fixed(i8),
    /// An amount drawn at random, at least the first bound and below the second.
    Between(i8, i8),
    /// Minus an amount drawn at random, at least the first bound and below the second.
    Negated(i8, i8),
}

/// The currency an effect applies to.
#[derive(Clone, Copy, Debug, PartialEq, Eq, Structural)]
pub enum CurrencyMatch {
    /// The currency of the country.
    Of(CountryName),
    /// The first currency, in the order of the economy, of either country.
    EitherOf(CountryName, CountryName),
}

/// The commodity an effect applies to.
#[derive(Clone, Copy, Debug, PartialEq, Eq, Structural)]
pub enum CommodityMatch {
    /// The commodity of that name.
    Named(CommodityName),
    /// The first commodity, in the order of the economy, with one of the names.
    FirstOf(CommodityName, CommodityName, CommodityName),
}

/// A change that an event makes to the economy; the floating-point values it applies
/// to live outside this library.
#[derive(Clone, Copy, Debug, PartialEq, Eq, Structural)]
pub enum Effect {
    /// The latest price of the company's stock is scaled.
    ScaleStockPrice(Company, Scale),
    /// The latest price of the coin is scaled.
    ScaleCryptoPrice(CryptoName, Scale),
    /// The latest price of the commodity is scaled.
    ScaleCommodityPrice(CommodityMatch, Scale),
    /// The base price of the commodity is scaled.
    ScaleCommodityBasePrice(CommodityName, Scale),
    /// The latest prices of the foods that the country produces are scaled.
    ScaleFoodPricesOf(CountryName, Scale),
    /// The latest value of the currency is scaled.
    ScaleCurrencyValue(CurrencyMatch, Scale),
    /// The base value of the currency is scaled.
    ScaleCurrencyBaseValue(CurrencyMatch, Scale),
    /// The interest of every government bond of the country is scaled.
    ScaleBondInterest(CountryName, Scale),
    /// The bond gets a new rating.
    SetBondQuality(BondIssuer, BondQuality),
    /// The sector's score moves.
    ShiftSector(SectorName, Shift),
    /// The latest value of the global economy is scaled.
    ScaleEconomy(Scale),
    /// The latest value of the global economy drops by the amount.
    LowerEconomy(u32),
}

/// The company whose stock an effect changes, if any.
pub open spec fn effect_company(e: Effect) -> Option<Company> {
    match e {
        Effect::ScaleStockPrice(c, _) => Some(c),
        _ => None,
    }
}

/// The company an event is about, if any.
pub open spec fn subject_company(n: EventName) -> Option<Company> {
    match n {
        EventName::CeoResignation(c) => Some(c),
        EventName::DDos(c) => Some(c),
        EventName::EsgScandal(c) => Some(c),
        EventName::NewProduct(c) => Some(c),
        EventName::NewContract(c) => Some(c),
        EventName::Vaccine(c) => Some(c),
        _ => None,
    }
}

/// Every effect of an event, at its start, on each day and at its end.
pub open spec fn all_effects(n: EventName) -> Seq<Effect> {
    n.spec_start_effects() + n.spec_advance_effects() + n.spec_end_effects()
}

impl EventName {
    /// What happens to the economy when the event starts.
    pub open spec fn spec_start_effects(self) -> Seq<Effect> {
        match self {
            EventName::BrazilPolitics => seq![Effect::SetBondQuality(BondIssuer::Government(CountryName::Brazil), BondQuality::B)],
            EventName::CeoResignation(c) => seq![Effect::ScaleStockPrice(c, Scale::Between(80, 90))],
            EventName::Covid => seq![Effect::ShiftSector(SectorName::Transport, Shift::Between(-30i8, -10i8))],
            EventName::Crimea => seq![Effect::ScaleCurrencyValue(CurrencyMatch::EitherOf(CountryName::Russia, CountryName::Ukraine), Scale::Between(50, 80)), Effect::ScaleCommodityPrice(CommodityMatch::FirstOf(CommodityName::LNG, CommodityName::Oil, CommodityName::Wheat), Scale::Between(120, 130)), Effect::ShiftSector(SectorName::Military, Shift::Between(15i8, 25i8))],
            EventName::CryptoCrash(n) => seq![Effect::ScaleCryptoPrice(n, Scale::Between(50, 75))],
            EventName::DDos(c) => seq![Effect::ScaleStockPrice(c, Scale::Between(85, 95))],
            EventName::GasDiscovery(k) => seq![Effect::ScaleCurrencyBaseValue(CurrencyMatch::Of(k), Scale::Between(110, 120)), Effect::ScaleCommodityBasePrice(CommodityName::LNG, Scale::Between(85, 95))],
            EventName::Grounded => seq![Effect::ShiftSector(SectorName::Transport, Shift::Fixed(-10i8))],
            EventName::InterestBump(k) => seq![Effect::ScaleBondInterest(k, Scale::Between(115, 125))],
            EventName::NewProduct(c) => seq![Effect::ScaleStockPrice(c, Scale::Between(120, 140))],
            EventName::NewContract(c) => seq![Effect::ScaleStockPrice(c, Scale::Between(120, 140))],
            EventName::OilDiscovery(k) => seq![Effect::ScaleCurrencyBaseValue(CurrencyMatch::Of(k), Scale::Between(110, 120)), Effect::ScaleCommodityBasePrice(CommodityName::Oil, Scale::Between(85, 95))],
            EventName::RegulatoryCrackdown(s) => seq![Effect::ShiftSector(s, Shift::Negated(20i8, 40i8))],
            EventName::RussiaWar => seq![Effect::ScaleCurrencyBaseValue(CurrencyMatch::EitherOf(CountryName::Russia, CountryName::Ukraine), Scale::Between(50, 80)), Effect::ScaleCurrencyValue(CurrencyMatch::EitherOf(CountryName::Russia, CountryName::Ukraine), Scale::Between(50, 80)), Effect::SetBondQuality(BondIssuer::Government(CountryName::Russia), BondQuality::C), Effect::ShiftSector(SectorName::Military, Shift::Between(15i8, 25i8))],
            EventName::TradeWar => seq![Effect::ScaleCurrencyBaseValue(CurrencyMatch::EitherOf(CountryName::China, CountryName::USA), Scale::Between(80, 90)), Effect::ScaleCurrencyValue(CurrencyMatch::EitherOf(CountryName::China, CountryName::USA), Scale::Between(80, 90)), Effect::ShiftSector(SectorName::Finance, Shift::Fixed(-10i8))],
            EventName::Vaccine(c) => seq![Effect::ScaleStockPrice(c, Scale::Between(120, 140)), Effect::ShiftSector(SectorName::Healthcare, Shift::Between(10i8, 25i8))],
            _ => Seq::empty(),
        }
    }

    /// What happens to the economy on each day of the event.
    pub open spec fn spec_advance_effects(self) -> Seq<Effect> {
        match self {
            EventName::BrazilPolitics => seq![Effect::ScaleCurrencyValue(CurrencyMatch::Of(CountryName::Brazil), Scale::Fixed(101))],
            EventName::Covid => seq![Effect::ScaleEconomy(Scale::Fixed(95))],
            EventName::CryptoFan(n) => seq![Effect::ScaleCryptoPrice(n, Scale::Fixed(110))],
            EventName::Drought(k) => seq![Effect::ScaleCurrencyValue(CurrencyMatch::Of(k), Scale::Fixed(97)), Effect::ScaleFoodPricesOf(k, Scale::Fixed(104))],
            EventName::GoldRush => seq![Effect::ScaleCommodityPrice(CommodityMatch::Named(CommodityName::Gold), Scale::Fixed(101)), Effect::ScaleCommodityPrice(CommodityMatch::Named(CommodityName::Silver), Scale::Fixed(101))],
            EventName::Grounded => seq![Effect::ScaleStockPrice(Company::Boeing, Scale::Fixed(97))],
            EventName::Harvest(k) => seq![Effect::ScaleCurrencyValue(CurrencyMatch::Of(k), Scale::Fixed(103)), Effect::ScaleFoodPricesOf(k, Scale::Fixed(96))],
            EventName::OilDisruption => seq![Effect::ScaleCommodityPrice(CommodityMatch::Named(CommodityName::Oil), Scale::Fixed(120)), Effect::ScaleCurrencyValue(CurrencyMatch::Of(CountryName::SaudiArabia), Scale::Fixed(95)), Effect::ShiftSector(SectorName::Energy, Shift::Fixed(-5i8))],
            EventName::Recession => seq![Effect::LowerEconomy(2)],
            _ => Seq::empty(),
        }
    }

    /// What happens to the economy when the event ends.
    pub open spec fn spec_end_effects(self) -> Seq<Effect> {
        match self {
            EventName::BrazilPolitics => seq![Effect::SetBondQuality(BondIssuer::Government(CountryName::Brazil), BondQuality::BBB)],
            EventName::Covid => seq![Effect::ShiftSector(SectorName::Transport, Shift::Fixed(20i8))],
            EventName::Grounded => seq![Effect::ShiftSector(SectorName::Transport, Shift::Fixed(10i8))],
            EventName::InterestBump(k) => seq![Effect::ScaleBondInterest(k, Scale::Between(75, 85))],
            EventName::RussiaWar => seq![Effect::ScaleCurrencyBaseValue(CurrencyMatch::EitherOf(CountryName::Russia, CountryName::Ukraine), Scale::Between(120, 150)), Effect::ScaleCurrencyValue(CurrencyMatch::EitherOf(CountryName::Russia, CountryName::Ukraine), Scale::Between(120, 150)), Effect::SetBondQuality(BondIssuer::Government(CountryName::Russia), BondQuality::CCC), Effect::ShiftSector(SectorName::Military, Shift::Negated(15i8, 25i8))],
            EventName::TradeWar => seq![Effect::ScaleCurrencyBaseValue(CurrencyMatch::EitherOf(CountryName::China, CountryName::USA), Scale::Between(110, 120)), Effect::ScaleCurrencyValue(CurrencyMatch::EitherOf(CountryName::China, CountryName::USA), Scale::Between(110, 120)), Effect::ShiftSector(SectorName::Finance, Shift::Fixed(10i8))],
            _ => Seq::empty(),
        }
    }

}

impl EconomicEvent {
    /// What happens to the economy when the event starts.
    pub fn start(&self) -> (r: Vec<Effect>)
        ensures
            r@ == self.name.spec_start_effects(),
    {
        let mut r: Vec<Effect> = Vec::new();
        match self.name {
            EventName::BrazilPolitics => {
                r.push(Effect::SetBondQuality(BondIssuer::Government(CountryName::Brazil), BondQuality::B));
            },
            EventName::CeoResignation(c) => {
                r.push(Effect::ScaleStockPrice(c, Scale::Between(80, 90)));
            },
            EventName::Covid => {
                r.push(Effect::ShiftSector(SectorName::Transport, Shift::Between(-30i8, -10i8)));
            },
            EventName::Crimea => {
                r.push(Effect::ScaleCurrencyValue(CurrencyMatch::EitherOf(CountryName::Russia, CountryName::Ukraine), Scale::Between(50, 80)));
                r.push(Effect::ScaleCommodityPrice(CommodityMatch::FirstOf(CommodityName::LNG, CommodityName::Oil, CommodityName::Wheat), Scale::Between(120, 130)));
                r.push(Effect::ShiftSector(SectorName::Military, Shift::Between(15i8, 25i8)));
            },
            EventName::CryptoCrash(n) => {
                r.push(Effect::ScaleCryptoPrice(n, Scale::Between(50, 75)));
            },
            EventName::DDos(c) => {
                r.push(Effect::ScaleStockPrice(c, Scale::Between(85, 95)));
            },
            EventName::GasDiscovery(k) => {
                r.push(Effect::ScaleCurrencyBaseValue(CurrencyMatch::Of(k), Scale::Between(110, 120)));
                r.push(Effect::ScaleCommodityBasePrice(CommodityName::LNG, Scale::Between(85, 95)));
            },
            EventName::Grounded => {
                r.push(Effect::ShiftSector(SectorName::Transport, Shift::Fixed(-10i8)));
            },
            EventName::InterestBump(k) => {
                r.push(Effect::ScaleBondInterest(k, Scale::Between(115, 125)));
            },
            EventName::NewProduct(c) => {
                r.push(Effect::ScaleStockPrice(c, Scale::Between(120, 140)));
            },
            EventName::NewContract(c) => {
                r.push(Effect::ScaleStockPrice(c, Scale::Between(120, 140)));
            },
            EventName::OilDiscovery(k) => {
                r.push(Effect::ScaleCurrencyBaseValue(CurrencyMatch::Of(k), Scale::Between(110, 120)));
                r.push(Effect::ScaleCommodityBasePrice(CommodityName::Oil, Scale::Between(85, 95)));
            },
            EventName::RegulatoryCrackdown(s) => {
                r.push(Effect::ShiftSector(s, Shift::Negated(20i8, 40i8)));
            },
            EventName::RussiaWar => {
                r.push(Effect::ScaleCurrencyBaseValue(CurrencyMatch::EitherOf(CountryName::Russia, CountryName::Ukraine), Scale::Between(50, 80)));
                r.push(Effect::ScaleCurrencyValue(CurrencyMatch::EitherOf(CountryName::Russia, CountryName::Ukraine), Scale::Between(50, 80)));
                r.push(Effect::SetBondQuality(BondIssuer::Government(CountryName::Russia), BondQuality::C));
                r.push(Effect::ShiftSector(SectorName::Military, Shift::Between(15i8, 25i8)));
            },
            EventName::TradeWar => {
                r.push(Effect::ScaleCurrencyBaseValue(CurrencyMatch::EitherOf(CountryName::China, CountryName::USA), Scale::Between(80, 90)));
                r.push(Effect::ScaleCurrencyValue(CurrencyMatch::EitherOf(CountryName::China, CountryName::USA), Scale::Between(80, 90)));
                r.push(Effect::ShiftSector(SectorName::Finance, Shift::Fixed(-10i8)));
            },
            EventName::Vaccine(c) => {
                r.push(Effect::ScaleStockPrice(c, Scale::Between(120, 140)));
                r.push(Effect::ShiftSector(SectorName::Healthcare, Shift::Between(10i8, 25i8)));
            },
            _ => {},
        }
        proof {
            assert(r@ =~= self.name.spec_start_effects());
        }
        r
    }

    /// What happens to the economy on each day of the event.
    pub fn advance(&self) -> (r: Vec<Effect>)
        ensures
            r@ == self.name.spec_advance_effects(),
    {
        let mut r: Vec<Effect> = Vec::new();
        match self.name {
            EventName::BrazilPolitics => {
                r.push(Effect::ScaleCurrencyValue(CurrencyMatch::Of(CountryName::Brazil), Scale::Fixed(101)));
            },
            EventName::Covid => {
                r.push(Effect::ScaleEconomy(Scale::Fixed(95)));
            },
            EventName::CryptoFan(n) => {
                r.push(Effect::ScaleCryptoPrice(n, Scale::Fixed(110)));
            },
            EventName::Drought(k) => {
                r.push(Effect::ScaleCurrencyValue(CurrencyMatch::Of(k), Scale::Fixed(97)));
                r.push(Effect::ScaleFoodPricesOf(k, Scale::Fixed(104)));
            },
            EventName::GoldRush => {
                r.push(Effect::ScaleCommodityPrice(CommodityMatch::Named(CommodityName::Gold), Scale::Fixed(101)));
                r.push(Effect::ScaleCommodityPrice(CommodityMatch::Named(CommodityName::Silver), Scale::Fixed(101)));
            },
            EventName::Grounded => {
                r.push(Effect::ScaleStockPrice(Company::Boeing, Scale::Fixed(97)));
            },
            EventName::Harvest(k) => {
                r.push(Effect::ScaleCurrencyValue(CurrencyMatch::Of(k), Scale::Fixed(103)));
                r.push(Effect::ScaleFoodPricesOf(k, Scale::Fixed(96)));
            },
            EventName::OilDisruption => {
                r.push(Effect::ScaleCommodityPrice(CommodityMatch::Named(CommodityName::Oil), Scale::Fixed(120)));
                r.push(Effect::ScaleCurrencyValue(CurrencyMatch::Of(CountryName::SaudiArabia), Scale::Fixed(95)));
                r.push(Effect::ShiftSector(SectorName::Energy, Shift::Fixed(-5i8)));
            },
            EventName::Recession => {
                r.push(Effect::LowerEconomy(2));
            },
            _ => {},
        }
        proof {
            assert(r@ =~= self.name.spec_advance_effects());
        }
        r
    }

    /// What happens to the economy when the event ends.
    pub fn end(&self) -> (r: Vec<Effect>)
        ensures
            r@ == self.name.spec_end_effects(),
    {
        let mut r: Vec<Effect> = Vec::new();
        match self.name {
            EventName::BrazilPolitics => {
                r.push(Effect::SetBondQuality(BondIssuer::Government(CountryName::Brazil), BondQuality::BBB));
            },
            EventName::Covid => {
                r.push(Effect::ShiftSector(SectorName::Transport, Shift::Fixed(20i8)));
            },
            EventName::Grounded => {
                r.push(Effect::ShiftSector(SectorName::Transport, Shift::Fixed(10i8)));
            },
            EventName::InterestBump(k) => {
                r.push(Effect::ScaleBondInterest(k, Scale::Between(75, 85)));
            },
            EventName::RussiaWar => {
                r.push(Effect::ScaleCurrencyBaseValue(CurrencyMatch::EitherOf(CountryName::Russia, CountryName::Ukraine), Scale::Between(120, 150)));
                r.push(Effect::ScaleCurrencyValue(CurrencyMatch::EitherOf(CountryName::Russia, CountryName::Ukraine), Scale::Between(120, 150)));
                r.push(Effect::SetBondQuality(BondIssuer::Government(CountryName::Russia), BondQuality::CCC));
                r.push(Effect::ShiftSector(SectorName::Military, Shift::Negated(15i8, 25i8)));
            },
            EventName::TradeWar => {
                r.push(Effect::ScaleCurrencyBaseValue(CurrencyMatch::EitherOf(CountryName::China, CountryName::USA), Scale::Between(110, 120)));
                r.push(Effect::ScaleCurrencyValue(CurrencyMatch::EitherOf(CountryName::China, CountryName::USA), Scale::Between(110, 120)));
                r.push(Effect::ShiftSector(SectorName::Finance, Shift::Fixed(10i8)));
            },
            _ => {},
        }
        proof {
            assert(r@ =~= self.name.spec_end_effects());
        }
        r
    }

}

/// An event touches no company but its own subject: the only exception is the
/// grounding of air travel, which weighs on Boeing.
pub proof fn events_touch_only_their_company(n: EventName, i: int)
    requires
        0 <= i < all_effects(n).len(),
        effect_company(all_effects(n)[i]) is Some,
        n != EventName::Grounded,
    ensures
        effect_company(all_effects(n)[i]) == subject_company(n),
{
}

/// A bond that an event downgrades when it starts is upgraded again when it ends,
/// though not back to its grade from before the event.
pub proof fn downgrades_are_partly_undone(n: EventName, i: int, j: int)
    requires
        0 <= i < n.spec_start_effects().len(),
        0 <= j < n.spec_end_effects().len(),
        n.spec_start_effects()[i] matches Effect::SetBondQuality(a, _),
        n.spec_end_effects()[j] matches Effect::SetBondQuality(b, _),
    ensures
        ({
            &&& n.spec_start_effects()[i] matches Effect::SetBondQuality(a, qa)
            &&& n.spec_end_effects()[j] matches Effect::SetBondQuality(b, qb)
            &&& a == b
            &&& qb.rank() < qa.rank()
            &&& qb.rank() > BondQuality::A.rank()
        }),
{
}

/// What the start of an event moves in a sector by a fixed amount, its end moves
/// back by the same amount: the grounding of air travel and the trade war leave the
/// sectors as they found them.
pub proof fn fixed_sector_shifts_cancel(n: EventName, i: int, j: int)
    requires
        n == EventName::Grounded || n == EventName::TradeWar,
        0 <= i < n.spec_start_effects().len(),
        0 <= j < n.spec_end_effects().len(),
        n.spec_start_effects()[i] matches Effect::ShiftSector(_, Shift::Fixed(_)),
        n.spec_end_effects()[j] matches Effect::ShiftSector(_, Shift::Fixed(_)),
    ensures
        ({
            &&& n.spec_start_effects()[i] matches Effect::ShiftSector(s, Shift::Fixed(a))
            &&& n.spec_end_effects()[j] matches Effect::ShiftSector(t, Shift::Fixed(b))
            &&& s == t
            &&& a + b == 0
        }),
{
}

/// Every random range of an effect is well formed: its lower bound lies below its
/// upper bound, so a value can be drawn from it.
pub open spec fn ranges_well_formed(e: Effect) -> bool {
    let scale_ok = |s: Scale| match s {
        Scale::Between(lo, hi) => lo < hi,
        Scale::Fixed(_) => true,
    };
    match e {
        Effect::ScaleStockPrice(_, s) => scale_ok(s),
        Effect::ScaleCryptoPrice(_, s) => scale_ok(s),
        Effect::ScaleCommodityPrice(_, s) => scale_ok(s),
        Effect::ScaleCommodityBasePrice(_, s) => scale_ok(s),
        Effect::ScaleFoodPricesOf(_, s) => scale_ok(s),
        Effect::ScaleCurrencyValue(_, s) => scale_ok(s),
        Effect::ScaleCurrencyBaseValue(_, s) => scale_ok(s),
        Effect::ScaleBondInterest(_, s) => scale_ok(s),
        Effect::ScaleEconomy(s) => scale_ok(s),
        Effect::ShiftSector(_, Shift::Between(lo, hi)) => lo < hi,
        Effect::ShiftSector(_, Shift::Negated(lo, hi)) => lo < hi,
        _ => true,
    }
}

/// The random ranges of every event's effects can be drawn from.
pub proof fn effect_ranges_are_well_formed(n: EventName, i: int)
    requires
        0 <= i < all_effects(n).len(),
    ensures
        ranges_well_formed(all_effects(n)[i]),
{
}

/// When an event ends, the bonds it downgraded get back the rating they have at the
/// start of a game.
pub proof fn ended_events_restore_starting_ratings(n: EventName, j: int)
    requires
        0 <= j < n.spec_end_effects().len(),
        n.spec_end_effects()[j] matches Effect::SetBondQuality(_, _),
    ensures
        n.spec_end_effects()[j] matches Effect::SetBondQuality(issuer, quality)
            && quality == issuer.spec_starting_quality(),
{
}

} // verus!
