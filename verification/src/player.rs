use vstd::prelude::*;

use std::collections::HashMap;

use crate::instrument::InstrumentKind;
use crate::orders::{Command, OrderKind, OrderStatus};

verus! {

broadcast use vstd::std_specs::hash::group_hash_axioms;

/// The instruments kept under the digit keys 0 to 9 for quick access.
#[derive(Debug)]
pub struct Favourites(pub HashMap<u8, InstrumentKind>);

/// Whether some key of the map holds the instrument.
pub open spec fn holds_favourite(m: Map<u8, InstrumentKind>, instrument: InstrumentKind) -> bool {
    exists|k: u8| m.contains_key(k) && m[k] == instrument
}

/// What a digit key does to the favourites and to the instrument shown: with Ctrl
/// held, the instrument shown (if any) is stored under the digit; without it, the
/// instrument stored under the digit (if any) is shown.
pub open spec fn spec_digit_key(
    m: Map<u8, InstrumentKind>,
    digit: u8,
    ctrl: bool,
    shown: Option<InstrumentKind>,
) -> (Map<u8, InstrumentKind>, Option<InstrumentKind>) {
    if ctrl {
        match shown {
            Some(instrument) => (m.insert(digit, instrument), shown),
            None => (m, shown),
        }
    } else if m.contains_key(digit) {
        (m, Some(m[digit]))
    } else {
        (m, shown)
    }
}

impl Favourites {
    /// Whether the instrument is stored under some key.
    pub fn contains(&self, instrument: &InstrumentKind) -> (r: bool)
        ensures
            r == holds_favourite(self.0@, *instrument),
    {
        let mut k: u16 = 0;
        while k < 256
            invariant
                k <= 256,
                forall|j: u8| j < k ==> !(self.0@.contains_key(j) && self.0@[j] == *instrument),
            decreases 256 - k,
        {
            let key = k as u8;
            match self.0.get(&key) {
                Some(v) => {
                    if *v == *instrument {
                        return true;
                    }
                },
                None => {},
            }
            k = k + 1;
        }
        false
    }

    /// Handles a digit key: with Ctrl held, stores the instrument shown (if any)
    /// under the digit; without it, gives the instrument stored under the digit to
    /// be shown, or keeps the one shown when the digit holds none.
    pub fn digit_key(&mut self, digit: u8, ctrl: bool, shown: Option<InstrumentKind>) -> (r: Option<
        InstrumentKind,
    >)
        ensures
            (final(self).0@, r) == spec_digit_key(old(self).0@, digit, ctrl, shown),
    {
        if ctrl {
            if let Some(instrument) = shown {
                self.0.insert(digit, instrument);
            }
            shown
        } else {
            match self.0.get(&digit) {
                Some(instrument) => Some(*instrument),
                None => shown,
            }
        }
    }
}

impl Default for Favourites {
    /// No favourites.
    fn default() -> (r: Self)
        ensures
            r.0@ == Map::<u8, InstrumentKind>::empty(),
    {
        Favourites(HashMap::new())
    }
}

/// An instrument stored under a digit is shown again by that digit alone, and
/// counts among the favourites.
pub proof fn stored_favourite_is_recalled(
    m: Map<u8, InstrumentKind>,
    digit: u8,
    instrument: InstrumentKind,
    shown: Option<InstrumentKind>,
)
    ensures
        ({
            let stored = spec_digit_key(m, digit, true, Some(instrument)).0;
            &&& spec_digit_key(stored, digit, false, shown).1 == Some(instrument)
            &&& holds_favourite(stored, instrument)
        }),
{
    let stored = spec_digit_key(m, digit, true, Some(instrument)).0;
    assert(stored.contains_key(digit) && stored[digit] == instrument);
}

/// Delivers `amount` units sold through a derivative out of a holding of `owned`
/// units (`None` when the player holds none of the instrument). It gives the holding
/// afterwards and how many units are still missing, to be bought at market price: a
/// holding that covers the sale is reduced by it; a smaller positive one is used up;
/// a short or missing one is left as it is.
pub fn cover_sale(owned: Option<i32>, amount: u32) -> (r: (Option<i32>, u32))
    requires
        amount <= i32::MAX,
    ensures
        r == match owned {
            Some(o) => if o >= amount {
                (Some((o - amount) as i32), 0u32)
            } else if o > 0 {
                (Some(0i32), (amount - o) as u32)
            } else {
                (Some(o), amount)
            },
            None => (None, amount),
        },
{
    match owned {
        Some(o) => {
            if o >= amount as i32 {
                (Some(o - amount as i32), 0)
            } else if o > 0 {
                (Some(0), amount - o as u32)
            } else {
                (Some(o), amount)
            }
        },
        None => (None, amount),
    }
}

/// Whatever a sale takes from the holding and whatever must still be bought add up
/// to the amount sold.
pub proof fn sale_is_covered(owned: Option<i32>, amount: u32)
    requires
        amount <= i32::MAX,
    ensures
        ({
            let (after, missing) = match owned {
                Some(o) => if o >= amount {
                    (Some((o - amount) as i32), 0u32)
                } else if o > 0 {
                    (Some(0i32), (amount - o) as u32)
                } else {
                    (Some(o), amount)
                },
                None => (None, amount),
            };
            let taken: int = match (owned, after) {
                (Some(o), Some(a)) => o - a,
                _ => 0,
            };
            &&& taken + missing == amount
            &&& taken >= 0
            &&& (after matches Some(a) ==> a >= 0 || a == owned->0)
        }),
{
}

/// Whether no instrument appears twice in a list of positions.
pub open spec fn kinds_distinct(s: Seq<(InstrumentKind, i32)>) -> bool {
    forall|i: int, j: int| 0 <= i < s.len() && 0 <= j < s.len() && i != j ==> s[i].0 != s[j].0
}

/// The amount held of each instrument in a list of positions.
pub open spec fn positions_map(s: Seq<(InstrumentKind, i32)>) -> Map<InstrumentKind, i32> {
    Map::new(
        |k: InstrumentKind| exists|i: int| 0 <= i < s.len() && s[i].0 == k,
        |k: InstrumentKind| s[choose|i: int| 0 <= i < s.len() && s[i].0 == k].1,
    )
}

/// The amount held of an instrument: 0 when there is no position in it.
pub open spec fn spec_amount(m: Map<InstrumentKind, i32>, k: InstrumentKind) -> i32 {
    if m.contains_key(k) {
        m[k]
    } else {
        0
    }
}

/// The positions without those of amount zero.
pub open spec fn nonzero_part(m: Map<InstrumentKind, i32>) -> Map<InstrumentKind, i32> {
    Map::new(|k: InstrumentKind| m.contains_key(k) && m[k] != 0, |k: InstrumentKind| m[k])
}

/// The positions after `amount` units of `k` come in.
pub open spec fn spec_bought(m: Map<InstrumentKind, i32>, k: InstrumentKind, amount: i32) -> Map<
    InstrumentKind,
    i32,
> {
    m.insert(k, (spec_amount(m, k) + amount) as i32)
}

/// The positions after `amount` units of `k` go out; nothing happens without a
/// position in `k`.
pub open spec fn spec_sold(m: Map<InstrumentKind, i32>, k: InstrumentKind, amount: i32) -> Map<
    InstrumentKind,
    i32,
> {
    if m.contains_key(k) {
        m.insert(k, (m[k] - amount) as i32)
    } else {
        m
    }
}

/// The positions after a trade and the removal of empty positions.
pub open spec fn spec_executed(
    m: Map<InstrumentKind, i32>,
    command: Command,
    k: InstrumentKind,
    amount: i32,
) -> Map<InstrumentKind, i32> {
    nonzero_part(
        match command {
            Command::Buy => spec_bought(m, k, amount),
            Command::Sell => spec_sold(m, k, amount),
            Command::Close => m.remove(k),
        },
    )
}

/// Whether the amount that a trade leaves fits the amount type.
pub open spec fn trade_fits(m: Map<InstrumentKind, i32>, command: Command, k: InstrumentKind, amount: i32) -> bool {
    match command {
        Command::Buy => i32::MIN <= spec_amount(m, k) + amount <= i32::MAX,
        Command::Sell => i32::MIN <= spec_amount(m, k) - amount <= i32::MAX,
        Command::Close => true,
    }
}

proof fn lemma_lookup(s: Seq<(InstrumentKind, i32)>, i: int)
    requires
        kinds_distinct(s),
        0 <= i < s.len(),
    ensures
        positions_map(s).contains_key(s[i].0),
        positions_map(s)[s[i].0] == s[i].1,
{
    let k = s[i].0;
    assert(0 <= i < s.len() && s[i].0 == k);
    let j = choose|j: int| 0 <= j < s.len() && s[j].0 == k;
    assert(s[j].0 == k);
    assert(j == i);
}

proof fn lemma_update(s: Seq<(InstrumentKind, i32)>, i: int, v: i32)
    requires
        kinds_distinct(s),
        0 <= i < s.len(),
    ensures
        kinds_distinct(s.update(i, (s[i].0, v))),
        positions_map(s.update(i, (s[i].0, v))) =~= positions_map(s).insert(s[i].0, v),
{
    let k = s[i].0;
    let t = s.update(i, (k, v));
    assert(forall|j: int| 0 <= j < t.len() ==> t[j].0 == s[j].0);
    assert(kinds_distinct(t));
    let mt = positions_map(t);
    let ms = positions_map(s).insert(k, v);
    assert forall|x: InstrumentKind| mt.contains_key(x) <==> ms.contains_key(x) by {
        if mt.contains_key(x) {
            let j = choose|j: int| 0 <= j < t.len() && t[j].0 == x;
            assert(s[j].0 == x);
        }
        if ms.contains_key(x) && x != k {
            let j = choose|j: int| 0 <= j < s.len() && s[j].0 == x;
            assert(t[j].0 == x);
        }
        if x == k {
            assert(t[i].0 == x);
        }
    }
    assert forall|x: InstrumentKind| #[trigger] mt.contains_key(x) implies mt[x] == ms[x] by {
        let j = choose|j: int| 0 <= j < t.len() && t[j].0 == x;
        assert(t[j].0 == x);
        lemma_lookup(t, j);
        if x != k {
            assert(j != i);
            lemma_lookup(s, j);
        }
    }
}

proof fn lemma_push(s: Seq<(InstrumentKind, i32)>, k: InstrumentKind, v: i32)
    requires
        kinds_distinct(s),
        !positions_map(s).contains_key(k),
    ensures
        kinds_distinct(s.push((k, v))),
        positions_map(s.push((k, v))) =~= positions_map(s).insert(k, v),
{
    let t = s.push((k, v));
    assert forall|j: int| 0 <= j < s.len() implies s[j].0 != k by {
        if s[j].0 == k {
            assert(positions_map(s).contains_key(k));
        }
    }
    assert(kinds_distinct(t));
    let mt = positions_map(t);
    let ms = positions_map(s).insert(k, v);
    assert forall|x: InstrumentKind| mt.contains_key(x) <==> ms.contains_key(x) by {
        if mt.contains_key(x) && x != k {
            let j = choose|j: int| 0 <= j < t.len() && t[j].0 == x;
            assert(j < s.len());
            assert(s[j].0 == x);
        }
        if ms.contains_key(x) && x != k {
            let j = choose|j: int| 0 <= j < s.len() && s[j].0 == x;
            assert(t[j].0 == x);
        }
        if x == k {
            assert(t[s.len() as int].0 == x);
        }
    }
    assert forall|x: InstrumentKind| #[trigger] mt.contains_key(x) implies mt[x] == ms[x] by {
        let j = choose|j: int| 0 <= j < t.len() && t[j].0 == x;
        assert(t[j].0 == x);
        lemma_lookup(t, j);
        if x != k {
            assert(j < s.len());
            lemma_lookup(s, j);
        } else {
            assert(j == s.len());
        }
    }
}

proof fn lemma_remove(s: Seq<(InstrumentKind, i32)>, i: int)
    requires
        kinds_distinct(s),
        0 <= i < s.len(),
    ensures
        kinds_distinct(s.remove(i)),
        positions_map(s.remove(i)) =~= positions_map(s).remove(s[i].0),
{
    let k = s[i].0;
    let t = s.remove(i);
    s.remove_ensures(i);
    assert forall|j: int| 0 <= j < t.len() implies t[j] == s[if j < i { j } else { j + 1 }] by {}
    assert(kinds_distinct(t)) by {
        assert forall|a: int, b: int| 0 <= a < t.len() && 0 <= b < t.len() && a != b implies t[a].0 != t[b].0 by {
            let a2 = if a < i { a } else { a + 1 };
            let b2 = if b < i { b } else { b + 1 };
            assert(t[a] == s[a2]);
            assert(t[b] == s[b2]);
        }
    }
    let mt = positions_map(t);
    let ms = positions_map(s).remove(k);
    assert forall|x: InstrumentKind| mt.contains_key(x) <==> ms.contains_key(x) by {
        if mt.contains_key(x) {
            let j = choose|j: int| 0 <= j < t.len() && t[j].0 == x;
            let j2 = if j < i { j } else { j + 1 };
            assert(t[j] == s[j2]);
            assert(s[j2].0 == x);
            assert(j2 != i);
            assert(x != k);
        }
        if ms.contains_key(x) {
            let j = choose|j: int| 0 <= j < s.len() && s[j].0 == x;
            assert(j != i);
            let j2 = if j < i { j } else { j - 1 };
            assert(t[j2] == s[j]);
            assert(t[j2].0 == x);
        }
    }
    assert forall|x: InstrumentKind| #[trigger] mt.contains_key(x) implies mt[x] == ms[x] by {
        let j = choose|j: int| 0 <= j < t.len() && t[j].0 == x;
        assert(t[j].0 == x);
        let j2 = if j < i { j } else { j + 1 };
        assert(t[j] == s[j2]);
        lemma_lookup(t, j);
        lemma_lookup(s, j2);
    }
}

/// The instruments of a list of positions, in its order.
pub open spec fn kinds_of(s: Seq<(InstrumentKind, i32)>) -> Seq<InstrumentKind> {
    s.map_values(|p: (InstrumentKind, i32)| p.0)
}

/// The instruments of a list whose amount in `m` is not zero, in the list's order.
pub open spec fn nonzero_kinds(order: Seq<InstrumentKind>, m: Map<InstrumentKind, i32>) -> Seq<
    InstrumentKind,
> {
    order.filter(|x: InstrumentKind| m[x] != 0)
}

proof fn lemma_nonzero_step(order: Seq<InstrumentKind>, m: Map<InstrumentKind, i32>, j: int)
    requires
        0 <= j < order.len(),
    ensures
        nonzero_kinds(order.take(j + 1), m) == if m[order[j]] != 0 {
            nonzero_kinds(order.take(j), m).push(order[j])
        } else {
            nonzero_kinds(order.take(j), m)
        },
{
    let t = order.take(j + 1);
    assert(t.drop_last() =~= order.take(j));
    assert(t.last() == order[j]);
    reveal_with_fuel(Seq::filter, 1);
}

/// The positions of the player in each instrument: the number of units held,
/// negative for a short position. No instrument has two positions.
#[derive(Clone, Debug)]
pub struct Holdings {
    positions: Vec<(InstrumentKind, i32)>,
}

impl View for Holdings {
    type V = Map<InstrumentKind, i32>;

    closed spec fn view(&self) -> Map<InstrumentKind, i32> {
        positions_map(self.positions@)
    }
}

impl Holdings {
    /// No instrument has two positions.
    pub closed spec fn wf(self) -> bool {
        kinds_distinct(self.positions@)
    }

    /// The instruments with a position, in the order in which the positions were
    /// opened.
    pub closed spec fn opening_order(self) -> Seq<InstrumentKind> {
        kinds_of(self.positions@)
    }

    /// No position at all.
    pub fn new() -> (r: Holdings)
        ensures
            r.wf(),
            r@ == Map::<InstrumentKind, i32>::empty(),
            r.opening_order() == Seq::<InstrumentKind>::empty(),
    {
        let r = Holdings { positions: Vec::new() };
        assert(r.opening_order() =~= Seq::<InstrumentKind>::empty());
        assert(r@ =~= Map::<InstrumentKind, i32>::empty());
        r
    }

    /// The index of the position in `instrument`, if any.
    fn find(&self, instrument: &InstrumentKind) -> (r: Option<usize>)
        requires
            self.wf(),
        ensures
            match r {
                Some(i) => i < self.positions.len() && self.positions@[i as int].0 == *instrument,
                None => !self@.contains_key(*instrument),
            },
    {
        let mut i: usize = 0;
        while i < self.positions.len()
            invariant
                i <= self.positions.len(),
                forall|j: int| 0 <= j < i ==> self.positions@[j].0 != *instrument,
            decreases self.positions.len() - i,
        {
            if self.positions[i].0 == *instrument {
                return Some(i);
            }
            i = i + 1;
        }
        None
    }

    /// The amount owned of the instrument (negative for a short position), 0 when
    /// the player has no position in it.
    pub fn get_owned(&self, instrument: &InstrumentKind) -> (r: i32)
        requires
            self.wf(),
        ensures
            r == spec_amount(self@, *instrument),
    {
        match self.find(instrument) {
            Some(i) => {
                proof {
                    lemma_lookup(self.positions@, i as int);
                }
                self.positions[i].1
            },
            None => 0,
        }
    }

    /// Whether the player has a position in the instrument.
    pub fn get(&self, instrument: &InstrumentKind) -> (r: bool)
        requires
            self.wf(),
        ensures
            r == self@.contains_key(*instrument),
    {
        match self.find(instrument) {
            Some(i) => {
                proof {
                    lemma_lookup(self.positions@, i as int);
                }
                true
            },
            None => false,
        }
    }

    /// The positions, in the order in which they were opened (see `opening_order`).
    pub fn positions(&self) -> (r: Vec<(InstrumentKind, i32)>)
        requires
            self.wf(),
        ensures
            kinds_distinct(r@),
            positions_map(r@) == self@,
            kinds_of(r@) == self.opening_order(),
    {
        let mut r: Vec<(InstrumentKind, i32)> = Vec::new();
        let mut i: usize = 0;
        while i < self.positions.len()
            invariant
                i <= self.positions.len(),
                r@ == self.positions@.take(i as int),
            decreases self.positions.len() - i,
        {
            r.push(self.positions[i]);
            assert(r@ =~= self.positions@.take(i + 1));
            i = i + 1;
        }
        assert(r@ =~= self.positions@);
        r
    }

    /// Sets the amount of the position at index `i`.
    fn set_amount(&mut self, i: usize, amount: i32)
        requires
            old(self).wf(),
            i < old(self).positions.len(),
        ensures
            final(self).wf(),
            final(self)@ == old(self)@.insert(old(self).positions@[i as int].0, amount),
            final(self).opening_order() == old(self).opening_order(),
    {
        let kind = self.positions[i].0;
        proof {
            lemma_update(self.positions@, i as int, amount);
        }
        self.positions.set(i, (kind, amount));
        assert(self.opening_order() =~= old(self).opening_order());
    }

    /// Adds `amount` units of the instrument (a negative amount opens or extends a
    /// short position), opening a position when there is none.
    pub fn buy(&mut self, instrument: InstrumentKind, amount: i32)
        requires
            old(self).wf(),
            i32::MIN <= spec_amount(old(self)@, instrument) + amount <= i32::MAX,
        ensures
            final(self).wf(),
            final(self)@ == spec_bought(old(self)@, instrument, amount),
            final(self).opening_order() == if old(self)@.contains_key(instrument) {
                old(self).opening_order()
            } else {
                old(self).opening_order().push(instrument)
            },
    {
        match self.find(&instrument) {
            Some(i) => {
                proof {
                    lemma_lookup(self.positions@, i as int);
                }
                let owned = self.positions[i].1;
                self.set_amount(i, owned + amount);
            },
            None => {
                proof {
                    lemma_push(self.positions@, instrument, amount);
                }
                self.positions.push((instrument, amount));
                assert(self.opening_order() =~= old(self).opening_order().push(instrument));
            },
        }
    }

    /// Takes `amount` units out of the position in the instrument; without a
    /// position nothing happens.
    pub fn sell(&mut self, instrument: InstrumentKind, amount: i32)
        requires
            old(self).wf(),
            i32::MIN <= spec_amount(old(self)@, instrument) - amount <= i32::MAX,
        ensures
            final(self).wf(),
            final(self)@ == spec_sold(old(self)@, instrument, amount),
            final(self).opening_order() == old(self).opening_order(),
    {
        match self.find(&instrument) {
            Some(i) => {
                proof {
                    lemma_lookup(self.positions@, i as int);
                }
                let owned = self.positions[i].1;
                self.set_amount(i, owned - amount);
            },
            None => {},
        }
    }

    /// Closes the position in the instrument.
    pub fn close(&mut self, instrument: InstrumentKind)
        requires
            old(self).wf(),
        ensures
            final(self).wf(),
            final(self)@ == old(self)@.remove(instrument),
            final(self).opening_order() == if old(self)@.contains_key(instrument) {
                old(self).opening_order().remove(old(self).opening_order().index_of(instrument))
            } else {
                old(self).opening_order()
            },
    {
        match self.find(&instrument) {
            Some(i) => {
                proof {
                    lemma_remove(self.positions@, i as int);
                    lemma_lookup(self.positions@, i as int);
                    let order = old(self).opening_order();
                    assert(order[i as int] == instrument);
                    let j = order.index_of(instrument);
                    assert(0 <= j < order.len() && order[j] == instrument);
                    assert(self.positions@[j].0 == instrument);
                    assert(j == i);
                }
                self.positions.remove(i);
                proof {
                    assert(self.opening_order() =~= old(self).opening_order().remove(i as int));
                }
            },
            None => {
                assert(old(self)@.remove(instrument) =~= old(self)@);
            },
        }
    }

    /// Removes the positions of amount zero.
    pub fn drop_empty(&mut self)
        requires
            old(self).wf(),
        ensures
            final(self).wf(),
            final(self)@ == nonzero_part(old(self)@),
            final(self).opening_order() == nonzero_kinds(old(self).opening_order(), old(self)@),
    {
        let ghost s = self.positions@;
        let ghost m = positions_map(s);
        let mut kept: Vec<(InstrumentKind, i32)> = Vec::new();
        let mut j: usize = 0;
        assert(positions_map(kept@) =~= nonzero_part(positions_map(s.take(0))));
        while j < self.positions.len()
            invariant
                s == self.positions@,
                kinds_distinct(s),
                j <= s.len(),
                kinds_distinct(kept@),
                positions_map(kept@) =~= nonzero_part(positions_map(s.take(j as int))),
                m == positions_map(s),
                kinds_of(kept@) == nonzero_kinds(kinds_of(s).take(j as int), m),
            decreases self.positions.len() - j,
        {
            let (kind, amount) = self.positions[j];
            proof {
                lemma_nonzero_step(kinds_of(s), m, j as int);
                lemma_lookup(s, j as int);
                assert(kinds_of(s).take(j + 1) =~= kinds_of(s.take(j + 1)));
                assert(kinds_of(s).take(j as int) =~= kinds_of(s.take(j as int)));
                if amount != 0 {
                    assert(kinds_of(kept@.push((kind, amount))) =~= kinds_of(kept@).push(kind));
                }
                let prefix = s.take(j as int);
                assert(s.take(j + 1) =~= prefix.push((kind, amount)));
                assert(kinds_distinct(prefix));
                assert forall|a: int| 0 <= a < prefix.len() implies prefix[a].0 != kind by {
                    assert(prefix[a] == s[a]);
                    assert(s[j as int].0 == kind);
                }
                lemma_push(prefix, kind, amount);
                assert(!positions_map(kept@).contains_key(kind));
                if amount != 0 {
                    lemma_push(kept@, kind, amount);
                    assert(positions_map(kept@.push((kind, amount))) =~= nonzero_part(
                        positions_map(s.take(j + 1)),
                    ));
                } else {
                    assert(positions_map(kept@) =~= nonzero_part(positions_map(s.take(j + 1))));
                }
            }
            if amount != 0 {
                kept.push((kind, amount));
            }
            j = j + 1;
        }
        assert(s.take(s.len() as int) =~= s);
        assert(kinds_of(s).take(s.len() as int) =~= kinds_of(s));
        self.positions = kept;
    }

    /// Books a trade: a purchase adds to the position (opening one when needed), a
    /// sale takes from it, a close removes it; positions left at zero are then
    /// removed.
    pub fn execute(&mut self, command: Command, instrument: InstrumentKind, amount: i32)
        requires
            old(self).wf(),
            trade_fits(old(self)@, command, instrument, amount),
        ensures
            final(self).wf(),
            final(self)@ == spec_executed(old(self)@, command, instrument, amount),
            final(self).opening_order() == nonzero_kinds(
                match command {
                    Command::Buy => if old(self)@.contains_key(instrument) {
                        old(self).opening_order()
                    } else {
                        old(self).opening_order().push(instrument)
                    },
                    Command::Sell => old(self).opening_order(),
                    Command::Close => if old(self)@.contains_key(instrument) {
                        old(self).opening_order().remove(
                            old(self).opening_order().index_of(instrument),
                        )
                    } else {
                        old(self).opening_order()
                    },
                },
                match command {
                    Command::Buy => spec_bought(old(self)@, instrument, amount),
                    Command::Sell => spec_sold(old(self)@, instrument, amount),
                    Command::Close => old(self)@.remove(instrument),
                },
            ),
    {
        match command {
            Command::Buy => self.buy(instrument, amount),
            Command::Sell => self.sell(instrument, amount),
            Command::Close => self.close(instrument),
        }
        self.drop_empty();
    }

    /// Delivers `amount` units sold through a derivative out of the position in the
    /// instrument, and gives how many units are still missing (see `cover_sale`).
    pub fn deliver(&mut self, instrument: InstrumentKind, amount: u32) -> (missing: u32)
        requires
            old(self).wf(),
            amount <= i32::MAX,
        ensures
            final(self).wf(),
            ({
                let owned = if old(self)@.contains_key(instrument) {
                    Some(old(self)@[instrument])
                } else {
                    None
                };
                let (after, rest) = match owned {
                    Some(o) => if o >= amount {
                        (Some((o - amount) as i32), 0u32)
                    } else if o > 0 {
                        (Some(0i32), (amount - o) as u32)
                    } else {
                        (Some(o), amount)
                    },
                    None => (None, amount),
                };
                &&& missing == rest
                &&& final(self)@ == match after {
                    Some(a) => old(self)@.insert(instrument, a),
                    None => old(self)@,
                }
            }),
            final(self).opening_order() == old(self).opening_order(),
    {
        match self.find(&instrument) {
            Some(i) => {
                proof {
                    lemma_lookup(self.positions@, i as int);
                }
                let owned = self.positions[i].1;
                let (after, missing) = cover_sale(Some(owned), amount);
                match after {
                    Some(a) => self.set_amount(i, a),
                    None => {},
                }
                missing
            },
            None => amount,
        }
    }
}

impl Default for Holdings {
    /// No position at all.
    fn default() -> (r: Self)
        ensures
            r.wf(),
            r@ == Map::<InstrumentKind, i32>::empty(),
    {
        Holdings::new()
    }
}

/// A trade changes the position in its own instrument only.
pub proof fn trades_touch_only_their_instrument(
    m: Map<InstrumentKind, i32>,
    command: Command,
    k: InstrumentKind,
    amount: i32,
    other: InstrumentKind,
)
    requires
        other != k,
    ensures
        spec_amount(spec_executed(m, command, k, amount), other) == spec_amount(m, other),
{
}

/// Buying units and then selling as many gives back the amounts held before, in
/// every instrument, unless the purchase closed the position (a purchase that brings
/// it to zero removes it, and the sale then finds nothing to sell).
pub proof fn buying_then_selling_restores(
    m: Map<InstrumentKind, i32>,
    k: InstrumentKind,
    amount: i32,
    x: InstrumentKind,
)
    requires
        trade_fits(m, Command::Buy, k, amount),
        amount == 0 || spec_amount(m, k) + amount != 0,
    ensures
        spec_amount(
            spec_executed(spec_executed(m, Command::Buy, k, amount), Command::Sell, k, amount),
            x,
        ) == spec_amount(m, x),
{
}

/// After a close, nothing is held of the instrument, and no booked trade leaves a
/// position of amount zero.
pub proof fn closing_empties_the_position(
    m: Map<InstrumentKind, i32>,
    command: Command,
    k: InstrumentKind,
    amount: i32,
    x: InstrumentKind,
)
    ensures
        !spec_executed(m, Command::Close, k, amount).contains_key(k),
        spec_executed(m, command, k, amount).contains_key(x) ==> spec_executed(m, command, k, amount)[x]
            != 0,
{
}

/// The status of an order whose price condition is met: a buy needs enough cash, a
/// sale needs at least the amount owned, and a close needs a long position.
pub fn order_outcome(command: Command, enough_cash: bool, owned: i32, amount: i32) -> (r: OrderStatus)
    ensures
        match command {
            Command::Buy => if enough_cash {
                r is Executed
            } else {
                r matches OrderStatus::Failed(msg) && msg@ == "not enough cash"@
            },
            Command::Sell => if owned >= amount {
                r is Executed
            } else {
                r matches OrderStatus::Failed(msg) && msg@ == "insufficient owned"@
            },
            Command::Close => if owned > 0 {
                r is Executed
            } else {
                r matches OrderStatus::Failed(msg) && msg@ == "none owned"@
            },
        },
{
    match command {
        Command::Buy => {
            if enough_cash {
                OrderStatus::Executed
            } else {
                OrderStatus::Failed(String::from_str("not enough cash"))
            }
        },
        Command::Sell => {
            if owned >= amount {
                OrderStatus::Executed
            } else {
                OrderStatus::Failed(String::from_str("insufficient owned"))
            }
        },
        Command::Close => {
            if owned > 0 {
                OrderStatus::Executed
            } else {
                OrderStatus::Failed(String::from_str("none owned"))
            }
        },
    }
}

/// Whether a waiting order's price condition is met. `at_or_below` and `at_or_above`
/// compare the current price with the order's limit: a limit order with a lower
/// bound fires at or below its limit and one with an upper bound at or above it; a
/// trailing order the other way round.
pub fn order_triggered(kind: OrderKind, lower_bound: bool, at_or_below: bool, at_or_above: bool) -> (r: bool)
    requires
        kind == OrderKind::LimitOrder || kind == OrderKind::TrailingOrder,
    ensures
        r == if kind == OrderKind::LimitOrder {
            if lower_bound {
                at_or_below
            } else {
                at_or_above
            }
        } else {
            if lower_bound {
                at_or_above
            } else {
                at_or_below
            }
        },
{
    match kind {
        OrderKind::LimitOrder => {
            if lower_bound {
                at_or_below
            } else {
                at_or_above
            }
        },
        _ => {
            if lower_bound {
                at_or_above
            } else {
                at_or_below
            }
        },
    }
}

/// What the daily margin check does to a position bought or sold on margin.
#[derive(Clone, Copy, Debug, PartialEq, Eq, Structural)]
pub enum MarginAction {
    /// The long position is sold off.
    LiquidateLong,
    /// The short position is bought back.
    LiquidateShort,
    /// The player is warned of a margin call.
    Warn,
    /// Nothing happens.
    Keep,
}

/// The daily margin check of a position of `amount` units: a long position whose
/// price fell below its margin is liquidated, and so is a short one whose price rose
/// above it. Otherwise the player is warned of a margin call: a long position not yet
/// warned whose price fell below its warning level is warned once, and a short
/// position whose price rose above its warning level is warned on every check, warned
/// before or not. The comparisons of the price with the margin
/// (`below_margin`, `above_margin`) and with the warning level (`below_warning`,
/// `above_warning`) are made by the caller.
pub open spec fn spec_margin_check(
    amount: i32,
    warned: bool,
    below_margin: bool,
    above_margin: bool,
    below_warning: bool,
    above_warning: bool,
) -> MarginAction {
    if amount > 0 && below_margin {
        MarginAction::LiquidateLong
    } else if amount < 0 && above_margin {
        MarginAction::LiquidateShort
    } else if (!warned && amount > 0 && below_warning) || (amount < 0 && above_warning) {
        MarginAction::Warn
    } else {
        MarginAction::Keep
    }
}

/// The daily margin check of a position (see `spec_margin_check`).
pub fn margin_check(
    amount: i32,
    warned: bool,
    below_margin: bool,
    above_margin: bool,
    below_warning: bool,
    above_warning: bool,
) -> (r: MarginAction)
    ensures
        r == spec_margin_check(amount, warned, below_margin, above_margin, below_warning, above_warning),
        amount > 0 && below_margin ==> r == MarginAction::LiquidateLong,
        amount < 0 && above_margin ==> r == MarginAction::LiquidateShort,
        !(amount > 0 && below_margin) && !(amount < 0 && above_margin) ==> r != MarginAction::LiquidateLong
            && r != MarginAction::LiquidateShort,
{
    if amount > 0 && below_margin {
        MarginAction::LiquidateLong
    } else if amount < 0 && above_margin {
        MarginAction::LiquidateShort
    } else if (!warned && amount > 0 && below_warning) || (amount < 0 && above_warning) {
        MarginAction::Warn
    } else {
        MarginAction::Keep
    }
}

/// Only a long position is sold off and only a short one bought back; an empty
/// position is left alone; a long position already warned is not warned again.
pub proof fn liquidation_follows_the_position(
    amount: i32,
    warned: bool,
    below_margin: bool,
    above_margin: bool,
    below_warning: bool,
    above_warning: bool,
)
    ensures
        spec_margin_check(amount, warned, below_margin, above_margin, below_warning, above_warning)
            == MarginAction::LiquidateLong ==> amount > 0,
        spec_margin_check(amount, warned, below_margin, above_margin, below_warning, above_warning)
            == MarginAction::LiquidateShort ==> amount < 0,
        amount == 0 ==> spec_margin_check(
            amount,
            warned,
            below_margin,
            above_margin,
            below_warning,
            above_warning,
        ) == MarginAction::Keep,
        warned && amount >= 0 ==> spec_margin_check(
            amount,
            warned,
            below_margin,
            above_margin,
            below_warning,
            above_warning,
        ) != MarginAction::Warn,
{
}

/// A position past its margin is liquidated whatever came before: a long position
/// whose price fell below its margin is sold off, and a short one whose price rose
/// above it is bought back, warned or not; a position within its margin is never
/// liquidated.
pub proof fn margin_breach_liquidates(
    amount: i32,
    warned: bool,
    below_margin: bool,
    above_margin: bool,
    below_warning: bool,
    above_warning: bool,
)
    ensures
        amount > 0 && below_margin ==> spec_margin_check(
            amount,
            warned,
            below_margin,
            above_margin,
            below_warning,
            above_warning,
        ) == MarginAction::LiquidateLong,
        amount < 0 && above_margin ==> spec_margin_check(
            amount,
            warned,
            below_margin,
            above_margin,
            below_warning,
            above_warning,
        ) == MarginAction::LiquidateShort,
        !(amount > 0 && below_margin) && !(amount < 0 && above_margin) ==> {
            let a = spec_margin_check(amount, warned, below_margin, above_margin, below_warning, above_warning);
            a != MarginAction::LiquidateLong && a != MarginAction::LiquidateShort
        },
        amount > 0 && !below_margin && !warned && below_warning ==> spec_margin_check(
            amount,
            warned,
            below_margin,
            above_margin,
            below_warning,
            above_warning,
        ) == MarginAction::Warn,
        amount < 0 && !above_margin && above_warning ==> spec_margin_check(
            amount,
            warned,
            below_margin,
            above_margin,
            below_warning,
            above_warning,
        ) == MarginAction::Warn,
{
}

} // verus!
