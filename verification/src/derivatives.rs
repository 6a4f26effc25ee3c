use vstd::prelude::*;

use crate::calendar::GameDate;
use crate::names::NameFromEnum;

verus! {

/// Time until a future or option matures.
#[derive(Clone, Copy, Debug, PartialEq, Eq, Structural)]
pub enum DerivativeTerm {
    OneMonth,
    ThreeMonths,
    SixMonths,
    OneYear,
}

impl NameFromEnum for DerivativeTerm {
    open spec fn spec_ident(&self) -> Seq<char> {
        match self {
            DerivativeTerm::OneMonth => "OneMonth"@,
            DerivativeTerm::ThreeMonths => "ThreeMonths"@,
            DerivativeTerm::SixMonths => "SixMonths"@,
            DerivativeTerm::OneYear => "OneYear"@,
        }
    }

    fn ident(&self) -> (r: &'static str) {
        match self {
            DerivativeTerm::OneMonth => "OneMonth",
            DerivativeTerm::ThreeMonths => "ThreeMonths",
            DerivativeTerm::SixMonths => "SixMonths",
            DerivativeTerm::OneYear => "OneYear",
        }
    }
}

impl DerivativeTerm {
    pub open spec fn spec_days(self) -> u32 {
        match self {
            DerivativeTerm::OneMonth => 30,
            DerivativeTerm::ThreeMonths => 90,
            DerivativeTerm::SixMonths => 180,
            DerivativeTerm::OneYear => 365,
        }
    }

    /// The number of days until maturity.
    pub fn days(&self) -> (r: u32)
        ensures
            r == self.spec_days(),
    {
        match self {
            DerivativeTerm::OneMonth => 30,
            DerivativeTerm::ThreeMonths => 90,
            DerivativeTerm::SixMonths => 180,
            DerivativeTerm::OneYear => 365,
        }
    }
}

impl Default for DerivativeTerm {
    /// One month.
    fn default() -> (r: Self)
        ensures
            r == DerivativeTerm::OneMonth,
    {
        DerivativeTerm::OneMonth
    }
}

/// The date on which a derivative entered into on `start` matures, or `None` when
/// that day lies outside the calendar.
pub fn derivative_maturity(start: &GameDate, term: &DerivativeTerm) -> (r: Option<GameDate>)
    ensures
        r == start.spec_plus_days(term.spec_days() as int),
{
    start.plus_days(term.days())
}

/// A derivative never matures before it starts, and a longer term matures later.
pub proof fn maturity_follows_term(start: GameDate, a: DerivativeTerm, b: DerivativeTerm)
    requires
        start.spec_plus_days(a.spec_days() as int) is Some,
        start.spec_plus_days(b.spec_days() as int) is Some,
        a.spec_days() <= b.spec_days(),
    ensures
        start.day_number < start.spec_plus_days(a.spec_days() as int)->0.day_number,
        start.spec_plus_days(a.spec_days() as int)->0.day_number <= start.spec_plus_days(
            b.spec_days() as int,
        )->0.day_number,
{
}

/// A future or an option.
#[derive(Clone, Copy, Debug, PartialEq, Eq, Structural)]
pub enum DerivativeKind {
    Future,
    Option,
}

impl NameFromEnum for DerivativeKind {
    open spec fn spec_ident(&self) -> Seq<char> {
        match self {
            DerivativeKind::Future => "Future"@,
            DerivativeKind::Option => "Option"@,
        }
    }

    fn ident(&self) -> (r: &'static str) {
        match self {
            DerivativeKind::Future => "Future",
            DerivativeKind::Option => "Option",
        }
    }
}

/// The right to buy (call) or to sell (put).
#[derive(Clone, Copy, Debug, PartialEq, Eq, Structural)]
pub enum OptionKind {
    Call,
    Put,
}

impl NameFromEnum for OptionKind {
    open spec fn spec_ident(&self) -> Seq<char> {
        match self {
            OptionKind::Call => "Call"@,
            OptionKind::Put => "Put"@,
        }
    }

    fn ident(&self) -> (r: &'static str) {
        match self {
            OptionKind::Call => "Call",
            OptionKind::Put => "Put",
        }
    }
}

/// Whether the player bought or sold the derivative.
#[derive(Clone, Copy, Debug, PartialEq, Eq, Structural)]
pub enum DerivativeAction {
    Bought,
    Sold,
}

impl NameFromEnum for DerivativeAction {
    open spec fn spec_ident(&self) -> Seq<char> {
        match self {
            DerivativeAction::Bought => "Bought"@,
            DerivativeAction::Sold => "Sold"@,
        }
    }

    fn ident(&self) -> (r: &'static str) {
        match self {
            DerivativeAction::Bought => "Bought",
            DerivativeAction::Sold => "Sold",
        }
    }
}


/// Whether an option is to be executed at maturity after the daily update: unless the
/// player fixed the choice, a bought option is executed when the market price lies
/// above the strike for a purchase (below it for a sale); a bought option is never
/// executed when the cash (for a call) or the units held (for a put) cannot cover it.
/// A future keeps its setting.
pub open spec fn spec_updated_execution(
    kind: DerivativeKind,
    action: DerivativeAction,
    option_kind: OptionKind,
    execute: bool,
    force_execute: bool,
    is_buy: bool,
    market_above_strike: bool,
    market_below_strike: bool,
    cash_covers: bool,
    owned: i32,
    amount: u32,
) -> bool {
    if kind == DerivativeKind::Option {
        let chosen = if force_execute {
            execute
        } else if is_buy {
            market_above_strike
        } else {
            market_below_strike
        };
        let uncovered = action == DerivativeAction::Bought && ((option_kind == OptionKind::Call
            && !cash_covers) || (option_kind == OptionKind::Put && owned < amount as i32));
        chosen && !uncovered
    } else {
        execute
    }
}

/// Whether a derivative is to be executed at maturity after the daily update (see
/// `spec_updated_execution`). `market_above_strike` and `market_below_strike` compare
/// the market price with the strike, `cash_covers` compares the cash with the strike
/// times the amount.
pub fn updated_execution(
    kind: DerivativeKind,
    action: DerivativeAction,
    option_kind: OptionKind,
    execute: bool,
    force_execute: bool,
    is_buy: bool,
    market_above_strike: bool,
    market_below_strike: bool,
    cash_covers: bool,
    owned: i32,
    amount: u32,
) -> (r: bool)
    ensures
        r == spec_updated_execution(
            kind,
            action,
            option_kind,
            execute,
            force_execute,
            is_buy,
            market_above_strike,
            market_below_strike,
            cash_covers,
            owned,
            amount,
        ),
        kind == DerivativeKind::Option && action == DerivativeAction::Bought && option_kind
            == OptionKind::Call && !cash_covers ==> !r,
        kind == DerivativeKind::Option && action == DerivativeAction::Bought && option_kind
            == OptionKind::Put && owned < amount as i32 ==> !r,
        kind == DerivativeKind::Future ==> r == execute,
{
    let mut execute = execute;
    if kind == DerivativeKind::Option {
        if !force_execute {
            execute = if is_buy {
                market_above_strike
            } else {
                market_below_strike
            };
        }
        if action == DerivativeAction::Bought && ((option_kind == OptionKind::Call && !cash_covers)
            || (option_kind == OptionKind::Put && owned < amount as i32)) {
            execute = false;
        }
    }
    execute
}

/// What the player lacks, twenty days before a derivative matures: the cash to buy
/// (for a bought option to buy) and the units to deliver (for a sale), as the warning
/// checks them. `held_units` is the amount of the instrument the player holds.
pub fn maturity_shortfall(
    kind: DerivativeKind,
    is_buy: bool,
    is_sell: bool,
    cash_covers: bool,
    held_units: i32,
    amount: u32,
) -> (r: (bool, bool))
    ensures
        r.0 == (kind == DerivativeKind::Option && is_buy && !cash_covers),
        r.1 == (is_sell && held_units < amount),
{
    let no_buy = kind == DerivativeKind::Option && is_buy && !cash_covers;
    let no_sell = is_sell && (held_units as i64) < (amount as i64);
    (no_buy, no_sell)
}

/// An option that the player cannot cover is never executed, whatever the market
/// does or the player chose; a future is executed as it was set.
pub proof fn uncovered_options_are_not_executed(
    action: DerivativeAction,
    option_kind: OptionKind,
    execute: bool,
    force_execute: bool,
    is_buy: bool,
    above: bool,
    below: bool,
    owned: i32,
    amount: u32,
)
    requires
        action == DerivativeAction::Bought,
        option_kind == OptionKind::Put,
        amount <= i32::MAX,
        owned < amount,
    ensures
        !spec_updated_execution(
            DerivativeKind::Option,
            action,
            option_kind,
            execute,
            force_execute,
            is_buy,
            above,
            below,
            true,
            owned,
            amount,
        ),
        spec_updated_execution(
            DerivativeKind::Future,
            action,
            option_kind,
            execute,
            force_execute,
            is_buy,
            above,
            below,
            false,
            owned,
            amount,
        ) == execute,
{
}

/// What decides whether a derivative is executed at maturity: a bought option that
/// the cash (for a call) or the units held (for a put) cannot cover is never
/// executed, whether or not the player fixed the choice; any other option follows the
/// player's choice when it was fixed, and otherwise is executed exactly when the
/// market price lies on the profitable side of the strike (above it for a purchase,
/// below it for a sale); a future keeps its setting.
pub proof fn execution_follows_cover_and_market(
    kind: DerivativeKind,
    action: DerivativeAction,
    option_kind: OptionKind,
    execute: bool,
    force_execute: bool,
    is_buy: bool,
    above: bool,
    below: bool,
    cash_covers: bool,
    owned: i32,
    amount: u32,
)
    ensures
        ({
            let r = spec_updated_execution(
                kind,
                action,
                option_kind,
                execute,
                force_execute,
                is_buy,
                above,
                below,
                cash_covers,
                owned,
                amount,
            );
            let uncovered = action == DerivativeAction::Bought && ((option_kind == OptionKind::Call
                && !cash_covers) || (option_kind == OptionKind::Put && owned < amount as i32));
            &&& kind == DerivativeKind::Future ==> r == execute
            &&& kind == DerivativeKind::Option && uncovered ==> !r
            &&& kind == DerivativeKind::Option && !uncovered && force_execute ==> r == execute
            &&& kind == DerivativeKind::Option && !uncovered && !force_execute ==> r == if is_buy {
                above
            } else {
                below
            }
        }),
{
}

} // verus!
