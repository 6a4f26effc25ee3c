use vstd::prelude::*;

use crate::calendar::{civil_from_day_number, is_months_later, months_after, GameDate};
use crate::names::NameFromEnum;

verus! {

/// The description of Bank.
pub const PROVIDER_BANK: &'static str = "\
    Banks are the standard credit providers for companies. They use a company's \
    credit score to calculate the maximum principal and the loan's interest rate. \
    For decent credit scores, they offer better terms than alternative lenders.";

/// The description of AlternativeLender.
pub const PROVIDER_ALTERNATIVE_LENDER: &'static str = "\
    Alternative credit providers offer loans were traditional institutions like \
    banks may hesitate, usually against a higher interest rate. Contrary to banks,\
    the credit score is not used in the calculations for the maximum principal nor \
    the interest rate.";

/// The description of Annuity.
pub const LOAN_ANNUITY: &'static str = "\
    Monthly payment is the same every month. Early payments are mostly interest, \
    later payments are mostly principal.";

/// The description of StraightLine.
pub const LOAN_STRAIGHT_LINE: &'static str = "Principal repayment portion is the same each month. The interest \
    shrinks over time, thus the payments decrease each month.";

/// Principals are multiples of this amount.
pub const LOAN_STEP: u32 = 1_000;

/// Who grants a term loan.
#[derive(Clone, Copy, Debug, PartialEq, Eq, Structural)]
pub enum LoanProvider {
    Bank,
    AlternativeLender,
}

impl NameFromEnum for LoanProvider {
    open spec fn spec_ident(&self) -> Seq<char> {
        match self {
            LoanProvider::Bank => "Bank"@,
            LoanProvider::AlternativeLender => "AlternativeLender"@,
        }
    }

    fn ident(&self) -> (r: &'static str) {
        match self {
            LoanProvider::Bank => "Bank",
            LoanProvider::AlternativeLender => "AlternativeLender",
        }
    }
}

impl LoanProvider {
    pub open spec fn spec_description(self) -> &'static str {
        match self {
            LoanProvider::Bank => PROVIDER_BANK,
            LoanProvider::AlternativeLender => PROVIDER_ALTERNATIVE_LENDER,
        }
    }

    /// How the provider sets its terms.
    pub fn description(&self) -> (r: &'static str)
        ensures
            r == self.spec_description(),
    {
        match self {
            LoanProvider::Bank => PROVIDER_BANK,
            LoanProvider::AlternativeLender => PROVIDER_ALTERNATIVE_LENDER,
        }
    }
}

impl Default for LoanProvider {
    /// The bank.
    fn default() -> (r: Self)
        ensures
            r == LoanProvider::Bank,
    {
        LoanProvider::Bank
    }
}

/// The largest multiple of `LOAN_STEP` that does not exceed `amount`: the last step
/// of computing the largest principal a provider grants.
pub fn round_to_loan_step(amount: u32) -> (r: u32)
    ensures
        r == amount - amount % LOAN_STEP,
        r % LOAN_STEP == 0,
        r <= amount < r + LOAN_STEP,
{
    (amount / LOAN_STEP) * LOAN_STEP
}

/// How a term loan is paid back.
#[derive(Clone, Copy, Debug, PartialEq, Eq, Structural)]
pub enum LoanKind {
    Annuity,
    StraightLine,
}

impl NameFromEnum for LoanKind {
    open spec fn spec_ident(&self) -> Seq<char> {
        match self {
            LoanKind::Annuity => "Annuity"@,
            LoanKind::StraightLine => "StraightLine"@,
        }
    }

    fn ident(&self) -> (r: &'static str) {
        match self {
            LoanKind::Annuity => "Annuity",
            LoanKind::StraightLine => "StraightLine",
        }
    }
}

impl LoanKind {
    pub open spec fn spec_description(self) -> &'static str {
        match self {
            LoanKind::Annuity => LOAN_ANNUITY,
            LoanKind::StraightLine => LOAN_STRAIGHT_LINE,
        }
    }

    /// How the installments evolve.
    pub fn description(&self) -> (r: &'static str)
        ensures
            r == self.spec_description(),
    {
        match self {
            LoanKind::Annuity => LOAN_ANNUITY,
            LoanKind::StraightLine => LOAN_STRAIGHT_LINE,
        }
    }
}

impl Default for LoanKind {
    /// An annuity.
    fn default() -> (r: Self)
        ensures
            r == LoanKind::Annuity,
    {
        LoanKind::Annuity
    }
}

/// The duration of a term loan.
#[derive(Clone, Copy, Debug, PartialEq, Eq, Structural)]
pub enum Term {
    OneYear,
    ThreeYears,
    FiveYears,
}

impl NameFromEnum for Term {
    open spec fn spec_ident(&self) -> Seq<char> {
        match self {
            Term::OneYear => "OneYear"@,
            Term::ThreeYears => "ThreeYears"@,
            Term::FiveYears => "FiveYears"@,
        }
    }

    fn ident(&self) -> (r: &'static str) {
        match self {
            Term::OneYear => "OneYear",
            Term::ThreeYears => "ThreeYears",
            Term::FiveYears => "FiveYears",
        }
    }
}

impl Term {
    pub open spec fn spec_years(self) -> nat {
        match self {
            Term::OneYear => 1,
            Term::ThreeYears => 3,
            Term::FiveYears => 5,
        }
    }

    /// The number of years over which the loan is paid back.
    pub fn years(&self) -> (r: u32)
        ensures
            r == self.spec_years(),
    {
        match self {
            Term::OneYear => 1,
            Term::ThreeYears => 3,
            Term::FiveYears => 5,
        }
    }

    /// The number of monthly installments: twelve a year.
    pub fn n_installments(&self) -> (r: u32)
        ensures
            r == 12 * self.spec_years(),
    {
        12 * self.years()
    }

    /// The installments still to pay once `paid` of them have been paid.
    pub fn installments_left(&self, paid: u32) -> (r: u32)
        requires
            paid <= 12 * self.spec_years(),
        ensures
            r == 12 * self.spec_years() - paid,
    {
        self.n_installments() - paid
    }
}

impl Default for Term {
    /// Five years.
    fn default() -> (r: Self)
        ensures
            r == Term::FiveYears,
    {
        Term::FiveYears
    }
}

/// The date on which a loan that starts on `start` is fully repaid: the start date
/// moved by the term's number of monthly installments; `None` when it falls outside
/// the calendar. Paying installments does not move it.
pub fn loan_maturity(start: &GameDate, term: &Term) -> (r: Option<GameDate>)
    ensures
        r == match months_after(start.day_number, (12 * term.spec_years()) as u32) {
            Some(n) => Some(GameDate { day_number: n }),
            None => None,
        },
        r matches Some(end) ==> civil_from_day_number(start.day_number) matches Some(s)
            && civil_from_day_number(end.day_number) matches Some(e) && is_months_later(
            s,
            e,
            (12 * term.spec_years()) as u32,
        ),
{
    start.plus_months(term.n_installments())
}

/// Whether a loan that started on `start` may be repaid early on `today`: only once
/// `today` comes after the date six months past the start. `None` when that date
/// falls outside the calendar.
pub fn can_repay_early(start: &GameDate, today: &GameDate) -> (r: Option<bool>)
    ensures
        r == match months_after(start.day_number, 6) {
            Some(n) => Some(n < today.day_number),
            None => None,
        },
{
    match start.plus_months(6) {
        Some(limit) => Some(limit.is_before(today)),
        None => None,
    }
}

/// Every installment paid is one fewer left: paid and left installments always add
/// up to the number of installments of the term.
pub proof fn installments_add_up(term: Term, paid: nat)
    requires
        paid <= 12 * term.spec_years(),
    ensures
        paid + (12 * term.spec_years() - paid) == 12 * term.spec_years(),
        paid < 12 * term.spec_years() ==> 12 * term.spec_years() - (paid + 1) == (12
            * term.spec_years() - paid) - 1,
{
}

} // verus!
