use vstd::prelude::*;

use crate::bonds::{BondIssuer, BondQuality};
use crate::countries::CountryName;
use crate::effects::{all_effects, Effect, Shift};
use crate::random::random_index;
use crate::sectors::{clamp_sector, update_sector_value, SectorName, SECTOR_RANGE};
use crate::stocks::Company;
use crate::events::EventName;

verus! {

impl SectorName {
    /// The position of the sector in `SectorName::all`.
    pub open spec fn index(self) -> int {
        match self {
            SectorName::Energy => 0,
            SectorName::Fashion => 1,
            SectorName::Finance => 2,
            SectorName::Food => 3,
            SectorName::Healthcare => 4,
            SectorName::Materials => 5,
            SectorName::Military => 6,
            SectorName::Retail => 7,
            SectorName::Technology => 8,
            SectorName::Transport => 9,
        }
    }

    /// The position of the sector in `SectorName::all`.
    pub fn position(&self) -> (r: usize)
        ensures
            r == self.index(),
    {
        match self {
            SectorName::Energy => 0,
            SectorName::Fashion => 1,
            SectorName::Finance => 2,
            SectorName::Food => 3,
            SectorName::Healthcare => 4,
            SectorName::Materials => 5,
            SectorName::Military => 6,
            SectorName::Retail => 7,
            SectorName::Technology => 8,
            SectorName::Transport => 9,
        }
    }
}

impl CountryName {
    /// The position of the country in `CountryName::all`.
    pub open spec fn index(self) -> int {
        match self {
            CountryName::Australia => 0,
            CountryName::Brazil => 1,
            CountryName::Canada => 2,
            CountryName::China => 3,
            CountryName::EU => 4,
            CountryName::Japan => 5,
            CountryName::Russia => 6,
            CountryName::SaudiArabia => 7,
            CountryName::SouthAfrica => 8,
            CountryName::Ukraine => 9,
            CountryName::USA => 10,
            CountryName::Venezuela => 11,
        }
    }

    /// The position of the country in `CountryName::all`.
    pub fn position(&self) -> (r: usize)
        ensures
            r == self.index(),
    {
        match self {
            CountryName::Australia => 0,
            CountryName::Brazil => 1,
            CountryName::Canada => 2,
            CountryName::China => 3,
            CountryName::EU => 4,
            CountryName::Japan => 5,
            CountryName::Russia => 6,
            CountryName::SaudiArabia => 7,
            CountryName::SouthAfrica => 8,
            CountryName::Ukraine => 9,
            CountryName::USA => 10,
            CountryName::Venezuela => 11,
        }
    }
}

impl Company {
    /// The position of the company in `Company::all`.
    pub open spec fn index(self) -> int {
        match self {
            Company::Apple => 0,
            Company::Boeing => 1,
            Company::GoldmanSachs => 2,
            Company::Inditex => 3,
            Company::LockheedMartin => 4,
            Company::LVMH => 5,
            Company::Maersk => 6,
            Company::Moderna => 7,
            Company::Nestle => 8,
            Company::Nvidia => 9,
            Company::Pfizer => 10,
            Company::RioTinto => 11,
            Company::Shell => 12,
            Company::Toyota => 13,
            Company::Unilever => 14,
        }
    }

    /// The position of the company in `Company::all`.
    pub fn position(&self) -> (r: usize)
        ensures
            r == self.index(),
    {
        match self {
            Company::Apple => 0,
            Company::Boeing => 1,
            Company::GoldmanSachs => 2,
            Company::Inditex => 3,
            Company::LockheedMartin => 4,
            Company::LVMH => 5,
            Company::Maersk => 6,
            Company::Moderna => 7,
            Company::Nestle => 8,
            Company::Nvidia => 9,
            Company::Pfizer => 10,
            Company::RioTinto => 11,
            Company::Shell => 12,
            Company::Toyota => 13,
            Company::Unilever => 14,
        }
    }
}

impl BondIssuer {
    /// The position of the issuer: governments first, in the order of
    /// `CountryName::all`, then companies, in the order of `Company::all`.
    pub open spec fn index(self) -> int {
        match self {
            BondIssuer::Government(c) => c.index(),
            BondIssuer::Corporate(c) => 12 + c.index(),
        }
    }

    /// The position of the issuer (see `index`).
    pub fn position(&self) -> (r: usize)
        ensures
            r == self.index(),
    {
        match self {
            BondIssuer::Government(c) => c.position(),
            BondIssuer::Corporate(c) => 12 + c.position(),
        }
    }
}

/// The non-monetary state of the markets that events change: the score of each
/// sector and the rating of each issuer's bonds.
pub ghost struct Market {
    pub sectors: Seq<i8>,
    pub bonds: Seq<BondQuality>,
}

/// The non-monetary state of the markets, each list in the order of the positions
/// of its sectors and issuers.
#[derive(Clone, Debug)]
pub struct MarketState {
    /// The score of each sector, in the order of `SectorName::all`.
    pub sector_scores: Vec<i8>,
    /// The rating of each issuer's bonds, in the order of `BondIssuer::index`.
    pub bond_ratings: Vec<BondQuality>,
}

impl View for MarketState {
    type V = Market;

    open spec fn view(&self) -> Market {
        Market { sectors: self.sector_scores@, bonds: self.bond_ratings@ }
    }
}

/// Whether the state has an entry for every sector and issuer, and every
/// sector score lies in the sector range.
pub open spec fn market_wf(m: Market) -> bool {
    &&& m.sectors.len() == 10
    &&& m.bonds.len() == 27
    &&& forall|i: int| 0 <= i < 10 ==> -SECTOR_RANGE <= #[trigger] m.sectors[i] <= SECTOR_RANGE
}

/// The amount a sector moves by under `shift` when the random draw gave `draw`.
pub open spec fn shift_amount(shift: Shift, draw: i8) -> int {
    match shift {
        Shift::Fixed(a) => a as int,
        Shift::Between(_, _) => draw as int,
        Shift::Negated(_, _) => -draw,
    }
}

/// Whether `draw` lies in the range that the effect draws from (any value does for an
/// effect without a drawn shift), and the shift is small enough that a sector score
/// moved by it still fits its type before it is brought back into the sector range.
pub open spec fn draw_fits(e: Effect, draw: i8) -> bool {
    match e {
        Effect::ShiftSector(_, Shift::Between(lo, hi)) => lo <= draw < hi && -77 <= lo && hi <= 78,
        Effect::ShiftSector(_, Shift::Negated(lo, hi)) => lo <= draw < hi && 0 <= lo && hi <= 78,
        Effect::ShiftSector(_, Shift::Fixed(a)) => -77 <= a <= 77,
        _ => true,
    }
}

/// Whether an effect can be drawn and applied: a range it draws a shift from is not
/// empty, and every shift keeps a moved score within its type (see `draw_fits`).
pub open spec fn drawable(e: Effect) -> bool {
    match e {
        Effect::ShiftSector(_, Shift::Between(lo, hi)) => lo < hi && -77 <= lo && hi <= 78,
        Effect::ShiftSector(_, Shift::Negated(lo, hi)) => lo < hi && 0 <= lo && hi <= 78,
        Effect::ShiftSector(_, Shift::Fixed(a)) => -77 <= a <= 77,
        _ => true,
    }
}

/// Whether the effect can be drawn and applied (see `drawable`).
pub fn is_drawable(e: &Effect) -> (r: bool)
    ensures
        r == drawable(*e),
{
    match e {
        Effect::ShiftSector(_, Shift::Between(lo, hi)) => *lo < *hi && -77 <= *lo && *hi <= 78,
        Effect::ShiftSector(_, Shift::Negated(lo, hi)) => *lo < *hi && 0 <= *lo && *hi <= 78,
        Effect::ShiftSector(_, Shift::Fixed(a)) => -77 <= *a && *a <= 77,
        _ => true,
    }
}

/// Whether the effect draws its shift at random.
pub open spec fn draws_shift(e: Effect) -> bool {
    e matches Effect::ShiftSector(_, Shift::Between(_, _))
        || e matches Effect::ShiftSector(_, Shift::Negated(_, _))
}

/// The random draw behind an effect: for a shift between two bounds, a value drawn
/// uniformly from `lo..hi` (a negated shift moves the sector by minus that value);
/// 0 for any other effect, which draws nothing here. Which value comes out is left
/// open.
pub fn draw_shift(e: &Effect) -> (r: i8)
    requires
        drawable(*e),
    ensures
        draw_fits(*e, r),
        !draws_shift(*e) ==> r == 0,
{
    match e {
        Effect::ShiftSector(_, Shift::Between(lo, hi)) => {
            let span = (*hi as i16 - *lo as i16) as usize;
            let k = random_index(span);
            (*lo as i16 + k as i16) as i8
        },
        Effect::ShiftSector(_, Shift::Negated(lo, hi)) => {
            let span = (*hi as i16 - *lo as i16) as usize;
            let k = random_index(span);
            (*lo as i16 + k as i16) as i8
        },
        _ => 0,
    }
}

/// The effects of every event can be drawn and applied.
pub proof fn event_effects_are_drawable(n: EventName, i: int)
    requires
        0 <= i < all_effects(n).len(),
    ensures
        drawable(all_effects(n)[i]),
{
}

/// The state after an effect, given the value of its random draw: a sector's score
/// moves, kept in the sector range; a bond gets its new rating. Effects on prices
/// and values act on floating-point values outside this state and leave it as it is.
pub open spec fn applied(m: Market, e: Effect, draw: i8) -> Market {
    match e {
        Effect::ShiftSector(s, shift) => Market {
            sectors: m.sectors.update(
                s.index(),
                clamp_sector(m.sectors[s.index()] + shift_amount(shift, draw)) as i8,
            ),
            ..m
        },
        Effect::SetBondQuality(i, q) => Market { bonds: m.bonds.update(i.index(), q), ..m },
        _ => m,
    }
}

/// The state after the effects in turn, each with its draw.
pub open spec fn applied_all(m: Market, effects: Seq<Effect>, draws: Seq<i8>) -> Market
    decreases effects.len(),
{
    if effects.len() == 0 {
        m
    } else {
        applied(
            applied_all(m, effects.drop_last(), draws.drop_last()),
            effects.last(),
            draws[effects.len() - 1],
        )
    }
}

/// Whether every draw lies in the range of its effect.
pub open spec fn draws_fit(effects: Seq<Effect>, draws: Seq<i8>) -> bool {
    &&& draws.len() == effects.len()
    &&& forall|i: int| 0 <= i < effects.len() ==> draw_fits(#[trigger] effects[i], draws[i])
}

impl MarketState {
    /// The state when a game starts: every sector at 0, every bond with its starting
    /// rating.
    pub fn start_of_game() -> (r: MarketState)
        ensures
            market_wf(r@),
            forall|i: int| 0 <= i < 10 ==> #[trigger] r@.sectors[i] == 0,
            forall|i: BondIssuer| #[trigger] r@.bonds[i.index()] == i.spec_starting_quality(),
    {
        let mut sector_scores: Vec<i8> = Vec::new();
        let mut i: usize = 0;
        while i < 10
            invariant
                i <= 10,
                sector_scores.len() == i,
                forall|j: int| 0 <= j < i ==> #[trigger] sector_scores@[j] == 0,
            decreases 10 - i,
        {
            sector_scores.push(0);
            i = i + 1;
        }
        let countries = CountryName::all();
        let companies = Company::all();
        let mut bond_ratings: Vec<BondQuality> = Vec::new();
        let mut j: usize = 0;
        while j < countries.len()
            invariant
                countries@ == CountryName::spec_all(),
                j <= countries.len(),
                bond_ratings.len() == j,
                forall|k: int|
                    0 <= k < j ==> #[trigger] bond_ratings@[k] == BondIssuer::Government(
                        countries@[k],
                    ).spec_starting_quality(),
            decreases countries.len() - j,
        {
            bond_ratings.push(BondIssuer::Government(countries[j]).starting_quality());
            j = j + 1;
        }
        let mut k: usize = 0;
        while k < companies.len()
            invariant
                companies@ == Company::spec_all(),
                k <= companies.len(),
                bond_ratings.len() == 12 + k,
                forall|n: int|
                    0 <= n < 12 ==> #[trigger] bond_ratings@[n] == BondIssuer::Government(
                        CountryName::spec_all()[n],
                    ).spec_starting_quality(),
                forall|n: int|
                    0 <= n < k ==> #[trigger] bond_ratings@[12 + n] == BondIssuer::Corporate(
                        companies@[n],
                    ).spec_starting_quality(),
            decreases companies.len() - k,
        {
            let c = companies[k];
            bond_ratings.push(BondIssuer::Corporate(c).starting_quality());
            k = k + 1;
        }
        let r = MarketState { sector_scores, bond_ratings };
        proof {
            assert forall|b: BondIssuer| #[trigger] r@.bonds[b.index()] == b.spec_starting_quality() by {
                match b {
                    BondIssuer::Government(c) => {
                        assert(CountryName::spec_all()[c.index()] == c);
                    },
                    BondIssuer::Corporate(c) => {
                        assert(Company::spec_all()[c.index()] == c);
                        assert(r@.bonds[12 + c.index()] == BondIssuer::Corporate(
                            Company::spec_all()[c.index()],
                        ).spec_starting_quality());
                    },
                }
            }
        }
        r
    }

    /// Applies an effect, given the value of its random draw (see `applied`).
    pub fn apply(&mut self, effect: &Effect, draw: i8)
        requires
            market_wf(old(self)@),
            draw_fits(*effect, draw),
        ensures
            market_wf(final(self)@),
            final(self)@ == applied(old(self)@, *effect, draw),
    {
        match effect {
            Effect::ShiftSector(s, shift) => {
                let i = s.position();
                let amount: i8 = match shift {
                    Shift::Fixed(a) => *a,
                    Shift::Between(_, _) => draw,
                    Shift::Negated(_, _) => -draw,
                };
                let value = self.sector_scores[i];
                let moved = update_sector_value(value, amount);
                self.sector_scores.set(i, moved);
            },
            Effect::SetBondQuality(issuer, q) => {
                let i = issuer.position();
                self.bond_ratings.set(i, *q);
            },
            _ => {},
        }
        assert(final(self)@ =~= applied(old(self)@, *effect, draw));
    }

    /// Draws the random shift of each effect and applies the effects in turn with
    /// their draws; returns the draws.
    pub fn apply_drawn(&mut self, effects: &Vec<Effect>) -> (draws: Vec<i8>)
        requires
            market_wf(old(self)@),
            forall|i: int| 0 <= i < effects@.len() ==> drawable(#[trigger] effects@[i]),
        ensures
            market_wf(final(self)@),
            draws_fit(effects@, draws@),
            forall|i: int| 0 <= i < effects@.len() && !draws_shift(#[trigger] effects@[i]) ==> draws@[i] == 0,
            final(self)@ == applied_all(old(self)@, effects@, draws@),
    {
        let mut draws: Vec<i8> = Vec::new();
        let mut i: usize = 0;
        while i < effects.len()
            invariant
                i <= effects@.len(),
                draws@.len() == i,
                forall|j: int| 0 <= j < effects@.len() ==> drawable(#[trigger] effects@[j]),
                forall|j: int| 0 <= j < i ==> draw_fits(#[trigger] effects@[j], draws@[j]),
                forall|j: int| 0 <= j < i && !draws_shift(#[trigger] effects@[j]) ==> draws@[j] == 0,
            decreases effects@.len() - i,
        {
            let d = draw_shift(&effects[i]);
            draws.push(d);
            i = i + 1;
        }
        self.apply_all(effects, &draws);
        draws
    }

    /// Applies the effects in turn, each with its draw.
    pub fn apply_all(&mut self, effects: &Vec<Effect>, draws: &Vec<i8>)
        requires
            market_wf(old(self)@),
            draws_fit(effects@, draws@),
        ensures
            market_wf(final(self)@),
            final(self)@ == applied_all(old(self)@, effects@, draws@),
    {
        let ghost start = self@;
        let mut i: usize = 0;
        while i < effects.len()
            invariant
                i <= effects.len(),
                draws_fit(effects@, draws@),
                market_wf(self@),
                self@ == applied_all(start, effects@.take(i as int), draws@.take(i as int)),
            decreases effects.len() - i,
        {
            proof {
                assert(effects@.take(i + 1).drop_last() =~= effects@.take(i as int));
                assert(draws@.take(i + 1).drop_last() =~= draws@.take(i as int));
                assert(draw_fits(effects@[i as int], draws@[i as int]));
            }
            self.apply(&effects[i], draws[i]);
            i = i + 1;
        }
        assert(effects@.take(effects.len() as int) =~= effects@);
        assert(draws@.take(draws.len() as int) =~= draws@);
    }
}

/// When the grounding of air travel or the trade war ends, the markets' state is back
/// where it was before it started, as long as the sector hit did not touch the bottom
/// of its range.
pub proof fn fixed_shifts_round_trip(
    m: Market,
    n: EventName,
    d1: Seq<i8>,
    d2: Seq<i8>,
)
    requires
        market_wf(m),
        n == EventName::Grounded || n == EventName::TradeWar,
        n == EventName::Grounded ==> m.sectors[SectorName::Transport.index()] >= -SECTOR_RANGE + 10,
        n == EventName::TradeWar ==> m.sectors[SectorName::Finance.index()] >= -SECTOR_RANGE + 10,
        d1.len() == n.spec_start_effects().len(),
        d2.len() == n.spec_end_effects().len(),
    ensures
        applied_all(applied_all(m, n.spec_start_effects(), d1), n.spec_end_effects(), d2) == m,
{
    reveal_with_fuel(applied_all, 4);
    let after = applied_all(m, n.spec_start_effects(), d1);
    assert(applied_all(after, n.spec_end_effects(), d2) =~= m) by {
        assert(applied_all(after, n.spec_end_effects(), d2).sectors =~= m.sectors);
    }
}

/// When an event that rated a bond down ends, the bond is back at the rating it has
/// when a game starts, whatever it was before.
pub proof fn ended_event_restores_rating(m: Market, n: EventName, issuer: BondIssuer, d: Seq<i8>)
    requires
        market_wf(m),
        d.len() == n.spec_end_effects().len(),
        exists|j: int|
            0 <= j < n.spec_end_effects().len() && n.spec_end_effects()[j] == Effect::SetBondQuality(
                issuer,
                issuer.spec_starting_quality(),
            ),
    ensures
        applied_all(m, n.spec_end_effects(), d).bonds[issuer.index()] == issuer.spec_starting_quality(),
{
    reveal_with_fuel(applied_all, 5);
}

} // verus!
