//! The passes that the end of each game day makes over the player's book: the
//! margin check of every position bought or sold on margin, the resolution of the
//! waiting limit and trailing orders, and the settlement of the derivatives that
//! mature. Prices are compared by the caller; these passes decide what happens to
//! each entry.
use vstd::prelude::*;

use crate::instrument::InstrumentKind;
use crate::orders::{Command, OrderKind, OrderStatus};
use crate::player::{
    margin_check, order_outcome, order_triggered, spec_amount, spec_bought, spec_margin_check,
    Holdings, MarginAction,
};

verus! {

/// A position on margin as the daily check sees it: its number of units, whether
/// the player was already warned of a margin call for it, and where its price stands
/// against its margin and its warning level.
#[derive(Clone, Copy, Debug, PartialEq, Eq, Structural)]
pub struct MarginView {
    pub amount: i32,
    pub warned: bool,
    pub below_margin: bool,
    pub above_margin: bool,
    pub below_warning: bool,
    pub above_warning: bool,
}

/// What the daily margin check does to the position `p`.
pub open spec fn check_of(p: MarginView) -> MarginAction {
    spec_margin_check(p.amount, p.warned, p.below_margin, p.above_margin, p.below_warning, p.above_warning)
}

/// Whether the action sells off or buys back the position.
pub open spec fn liquidates(a: MarginAction) -> bool {
    a == MarginAction::LiquidateLong || a == MarginAction::LiquidateShort
}

/// The positions that remain after the margin check of `s`, in their order: the
/// liquidated ones are gone, and a position warned now is remembered as warned.
pub open spec fn survivors(s: Seq<MarginView>) -> Seq<MarginView>
    decreases s.len(),
{
    if s.len() == 0 {
        Seq::empty()
    } else {
        let p = s.last();
        let rest = survivors(s.drop_last());
        if liquidates(check_of(p)) {
            rest
        } else {
            rest.push(MarginView { warned: p.warned || check_of(p) == MarginAction::Warn, ..p })
        }
    }
}

/// A position that comes through the margin check is not liquidated by a second
/// check at the same prices, and a long one is not warned again (a short position
/// above its warning level is warned on every check).
pub proof fn second_check_liquidates_none(s: Seq<MarginView>)
    ensures
        forall|i: int|
            0 <= i < survivors(s).len() ==> !liquidates(check_of(#[trigger] survivors(s)[i])),
        forall|i: int|
            0 <= i < survivors(s).len() && survivors(s)[i].amount >= 0 ==> check_of(
                #[trigger] survivors(s)[i],
            ) == MarginAction::Keep,
    decreases s.len(),
{
    if s.len() > 0 {
        second_check_liquidates_none(s.drop_last());
    }
}

/// The daily margin check of every position on margin: returns the action taken on
/// each position, in the order of `positions`, and leaves in `positions` those that
/// were not liquidated, each marked as warned once it was warned.
pub fn margin_pass(positions: &mut Vec<MarginView>) -> (r: Vec<MarginAction>)
    ensures
        r@ == old(positions)@.map_values(|p: MarginView| check_of(p)),
        final(positions)@ == survivors(old(positions)@),
{
    let ghost start = positions@;
    let mut actions: Vec<MarginAction> = Vec::new();
    let mut kept: Vec<MarginView> = Vec::new();
    let mut i: usize = 0;
    while i < positions.len()
        invariant
            positions@ == start,
            i <= start.len(),
            actions@ == start.take(i as int).map_values(|p: MarginView| check_of(p)),
            kept@ == survivors(start.take(i as int)),
        decreases start.len() - i,
    {
        let p = positions[i];
        let a = margin_check(
            p.amount,
            p.warned,
            p.below_margin,
            p.above_margin,
            p.below_warning,
            p.above_warning,
        );
        proof {
            assert(start.take(i + 1).drop_last() =~= start.take(i as int));
            assert(start.take(i + 1).last() == p);
        }
        match a {
            MarginAction::LiquidateLong => {},
            MarginAction::LiquidateShort => {},
            MarginAction::Warn => {
                kept.push(MarginView { warned: true, ..p });
            },
            MarginAction::Keep => {
                kept.push(p);
            },
        }
        actions.push(a);
        assert(actions@ =~= start.take(i + 1).map_values(|p: MarginView| check_of(p)));
        i = i + 1;
    }
    assert(start.take(start.len() as int) =~= start);
    *positions = kept;
    actions
}

/// A waiting limit or trailing order as the daily resolution sees it: what it does,
/// with which instrument and how many units, and where the current price stands
/// against its limit and whether the cash covers its price (both compared by the
/// caller).
#[derive(Clone, Copy, Debug, PartialEq, Eq, Structural)]
pub struct PendingView {
    pub kind: OrderKind,
    pub command: Command,
    pub instrument: InstrumentKind,
    pub amount: i32,
    pub lower_bound: bool,
    pub at_or_below: bool,
    pub at_or_above: bool,
    pub enough_cash: bool,
}

/// Whether the price condition of the order is met (see `order_triggered`).
pub open spec fn triggered(o: PendingView) -> bool {
    if o.kind == OrderKind::LimitOrder {
        if o.lower_bound {
            o.at_or_below
        } else {
            o.at_or_above
        }
    } else {
        if o.lower_bound {
            o.at_or_above
        } else {
            o.at_or_below
        }
    }
}

/// The status that an order whose condition is met gets, with `owned` units held
/// (see `order_outcome`).
pub open spec fn outcome_is(o: PendingView, owned: i32, s: OrderStatus) -> bool {
    match o.command {
        Command::Buy => if o.enough_cash {
            s is Executed
        } else {
            s matches OrderStatus::Failed(msg) && msg@ == "not enough cash"@
        },
        Command::Sell => if owned >= o.amount {
            s is Executed
        } else {
            s matches OrderStatus::Failed(msg) && msg@ == "insufficient owned"@
        },
        Command::Close => if owned > 0 {
            s is Executed
        } else {
            s matches OrderStatus::Failed(msg) && msg@ == "none owned"@
        },
    }
}

/// The daily resolution of the waiting orders against the holdings as they stand
/// before any of them is carried out: for each order, in order, `None` where its
/// price condition is not met, and otherwise the status it is given.
pub fn resolve_pending(holdings: &Holdings, orders: &Vec<PendingView>) -> (r: Vec<Option<OrderStatus>>)
    requires
        holdings.wf(),
        forall|i: int|
            0 <= i < orders@.len() ==> (#[trigger] orders@[i]).kind == OrderKind::LimitOrder
                || orders@[i].kind == OrderKind::TrailingOrder,
    ensures
        r@.len() == orders@.len(),
        forall|i: int|
            0 <= i < orders@.len() ==> match #[trigger] r@[i] {
                None => !triggered(orders@[i]),
                Some(s) => triggered(orders@[i]) && outcome_is(
                    orders@[i],
                    spec_amount(holdings@, orders@[i].instrument),
                    s,
                ),
            },
{
    let mut r: Vec<Option<OrderStatus>> = Vec::new();
    let mut i: usize = 0;
    while i < orders.len()
        invariant
            holdings.wf(),
            i <= orders@.len(),
            r@.len() == i,
            forall|j: int|
                0 <= j < orders@.len() ==> (#[trigger] orders@[j]).kind == OrderKind::LimitOrder
                    || orders@[j].kind == OrderKind::TrailingOrder,
            forall|j: int|
                0 <= j < i ==> match #[trigger] r@[j] {
                    None => !triggered(orders@[j]),
                    Some(s) => triggered(orders@[j]) && outcome_is(
                        orders@[j],
                        spec_amount(holdings@, orders@[j].instrument),
                        s,
                    ),
                },
        decreases orders@.len() - i,
    {
        let o = orders[i];
        if order_triggered(o.kind, o.lower_bound, o.at_or_below, o.at_or_above) {
            let owned = holdings.get_owned(&o.instrument);
            r.push(Some(order_outcome(o.command, o.enough_cash, owned, o.amount)));
        } else {
            r.push(None);
        }
        i = i + 1;
    }
    r
}

/// A derivative that matures today as its settlement sees it: the instrument and
/// number of units, whether it is carried out, and whether it buys (else it sells).
#[derive(Clone, Copy, Debug, PartialEq, Eq, Structural)]
pub struct MaturingView {
    pub instrument: InstrumentKind,
    pub amount: u32,
    pub execute: bool,
    pub is_buy: bool,
}

/// What the settlement of a maturing derivative did with the holdings.
#[derive(Clone, Copy, Debug, PartialEq, Eq, Structural)]
pub enum Settlement {
    /// Not carried out: the holdings are left as they are.
    Lapsed,
    /// The units were added to the position.
    Bought,
    /// The units were delivered out of the position; `missing` of them were not
    /// held and are bought at the market price by the caller.
    Delivered { missing: u32 },
}

/// The holdings after `amount` units of `k` are delivered, and how many units were
/// missing (see `Holdings::deliver`).
pub open spec fn spec_delivered(m: Map<InstrumentKind, i32>, k: InstrumentKind, amount: u32) -> (
    Map<InstrumentKind, i32>,
    u32,
) {
    if !m.contains_key(k) {
        (m, amount)
    } else if m[k] >= amount {
        (m.insert(k, (m[k] - amount) as i32), 0u32)
    } else if m[k] > 0 {
        (m.insert(k, 0i32), (amount - m[k]) as u32)
    } else {
        (m.insert(k, m[k]), amount)
    }
}

/// The settlement of one maturing derivative: the holdings after it and what it did.
pub open spec fn settle_one(m: Map<InstrumentKind, i32>, d: MaturingView) -> (
    Map<InstrumentKind, i32>,
    Settlement,
) {
    if !d.execute {
        (m, Settlement::Lapsed)
    } else if d.is_buy {
        (spec_bought(m, d.instrument, d.amount as i32), Settlement::Bought)
    } else {
        let (after, missing) = spec_delivered(m, d.instrument, d.amount);
        (after, Settlement::Delivered { missing })
    }
}

/// The holdings after the derivatives of `s` are settled one after the other.
pub open spec fn settled(m: Map<InstrumentKind, i32>, s: Seq<MaturingView>) -> Map<InstrumentKind, i32>
    decreases s.len(),
{
    if s.len() == 0 {
        m
    } else {
        settle_one(settled(m, s.drop_last()), s.last()).0
    }
}

/// What the settlement of each derivative of `s` did, in order.
pub open spec fn settlements(m: Map<InstrumentKind, i32>, s: Seq<MaturingView>) -> Seq<Settlement>
    decreases s.len(),
{
    if s.len() == 0 {
        Seq::empty()
    } else {
        settlements(m, s.drop_last()).push(settle_one(settled(m, s.drop_last()), s.last()).1)
    }
}

/// Whether one settlement fits the machine: the number of units fits an `i32`, and a
/// purchase leaves the position within `i32`.
pub open spec fn fits_one(m: Map<InstrumentKind, i32>, d: MaturingView) -> bool {
    &&& d.amount <= i32::MAX
    &&& (d.execute && d.is_buy) ==> spec_amount(m, d.instrument) + d.amount <= i32::MAX
}

/// Whether every settlement of `s`, made one after the other, fits the machine.
pub open spec fn settle_fits(m: Map<InstrumentKind, i32>, s: Seq<MaturingView>) -> bool
    decreases s.len(),
{
    if s.len() == 0 {
        true
    } else {
        settle_fits(m, s.drop_last()) && fits_one(settled(m, s.drop_last()), s.last())
    }
}

/// Settling derivatives changes only the positions in their instruments: a
/// position in any other instrument is held as before, or still not held.
pub proof fn settling_touches_only_their_instruments(
    m: Map<InstrumentKind, i32>,
    s: Seq<MaturingView>,
    k: InstrumentKind,
)
    requires
        forall|i: int| 0 <= i < s.len() ==> (#[trigger] s[i]).instrument != k,
    ensures
        settled(m, s).contains_key(k) == m.contains_key(k),
        m.contains_key(k) ==> settled(m, s)[k] == m[k],
    decreases s.len(),
{
    if s.len() > 0 {
        assert forall|i: int| 0 <= i < s.drop_last().len() implies (#[trigger] s.drop_last()[i]).instrument != k by {
            assert(s.drop_last()[i] == s[i]);
        }
        settling_touches_only_their_instruments(m, s.drop_last(), k);
        assert(s.last() == s[s.len() - 1]);
    }
}

proof fn lemma_fits_prefix(m: Map<InstrumentKind, i32>, s: Seq<MaturingView>, i: int)
    requires
        settle_fits(m, s),
        0 <= i < s.len(),
    ensures
        fits_one(settled(m, s.take(i)), s[i]),
    decreases s.len(),
{
    if i == s.len() - 1 {
        assert(s.take(i) =~= s.drop_last());
    } else {
        lemma_fits_prefix(m, s.drop_last(), i);
        assert(s.drop_last().take(i) =~= s.take(i));
    }
}

/// The settlement of the derivatives that mature today, one after the other: a
/// purchase adds its units to the position, a sale delivers them out of it (any
/// units not held are reported missing), and one not carried out leaves the
/// holdings alone. Returns what each settlement did, in order.
pub fn settle_maturing(holdings: &mut Holdings, maturing: &Vec<MaturingView>) -> (r: Vec<Settlement>)
    requires
        old(holdings).wf(),
        settle_fits(old(holdings)@, maturing@),
    ensures
        final(holdings).wf(),
        final(holdings)@ == settled(old(holdings)@, maturing@),
        r@ == settlements(old(holdings)@, maturing@),
{
    let ghost m0 = holdings@;
    let mut r: Vec<Settlement> = Vec::new();
    let mut i: usize = 0;
    while i < maturing.len()
        invariant
            holdings.wf(),
            i <= maturing@.len(),
            settle_fits(m0, maturing@),
            holdings@ == settled(m0, maturing@.take(i as int)),
            r@ == settlements(m0, maturing@.take(i as int)),
        decreases maturing@.len() - i,
    {
        let d = maturing[i];
        proof {
            lemma_fits_prefix(m0, maturing@, i as int);
            assert(maturing@.take(i + 1).drop_last() =~= maturing@.take(i as int));
            assert(maturing@.take(i + 1).last() == d);
        }
        if !d.execute {
            r.push(Settlement::Lapsed);
        } else if d.is_buy {
            holdings.buy(d.instrument, d.amount as i32);
            r.push(Settlement::Bought);
        } else {
            let missing = holdings.deliver(d.instrument, d.amount);
            r.push(Settlement::Delivered { missing });
        }
        i = i + 1;
    }
    assert(maturing@.take(maturing@.len() as int) =~= maturing@);
    r
}

} // verus!
