use vstd::prelude::*;

verus! {

/// The score after a month in which the loans were paid: one point more (two with
/// the technology that makes the borrower trustworthy), capped at the maximum.
pub open spec fn spec_increased(score: u8, has_tech: bool) -> u8 {
    let raised: int = score + if has_tech { 2int } else { 1int };
    if raised <= CreditScore::MAX {
        raised as u8
    } else if score <= CreditScore::MAX {
        CreditScore::MAX
    } else {
        score
    }
}

/// The score after a missed payment: twelve points less (six with the technology),
/// not below zero.
pub open spec fn spec_decreased(score: u8, has_tech: bool) -> u8 {
    let cut: int = if has_tech { 6 } else { 12 };
    if score >= cut {
        (score - cut) as u8
    } else {
        0
    }
}

/// The company's creditworthiness, from 0 to 100, which banks and brokers use to
/// set the principal and interest rate of loans.
#[derive(Clone, Copy, Debug)]
pub struct CreditScore {
    score: u8,
}

impl CreditScore {
    /// The score stays on the scale from 0 to 100.
    #[verifier::type_invariant]
    spec fn on_scale(self) -> bool {
        self.score <= CreditScore::MAX
    }
}

impl View for CreditScore {
    type V = u8;

    closed spec fn view(&self) -> u8 {
        self.score
    }
}

impl CreditScore {
    /// The lowest score.
    pub const MIN: u8 = 0;

    /// The top of the scale: a score below it can still be raised.
    pub const MAX: u8 = 100;

    /// The current score.
    pub fn score(&self) -> (r: u8)
        ensures
            r == self@,
            r <= CreditScore::MAX,
    {
        proof {
            use_type_invariant(self);
        }
        self.score
    }

    /// Raises the score after a month of paid installments.
    pub fn increase(&mut self, has_tech: bool)
        ensures
            final(self)@ == spec_increased(old(self)@, has_tech),
            final(self)@ <= CreditScore::MAX,
    {
        proof {
            use_type_invariant(&*self);
        }
        let step: u8 = if has_tech {
            2
        } else {
            1
        };
        if self.score <= Self::MAX - step {
            self.score = self.score + step;
        } else {
            self.score = Self::MAX;
        }
    }

    /// Lowers the score after a missed payment.
    pub fn decrease(&mut self, has_tech: bool)
        ensures
            final(self)@ == spec_decreased(old(self)@, has_tech),
            final(self)@ <= CreditScore::MAX,
    {
        proof {
            use_type_invariant(&*self);
        }
        let cut: u8 = if has_tech {
            6
        } else {
            12
        };
        let lowered = self.score.saturating_sub(cut);
        self.score = if lowered > Self::MIN {
            lowered
        } else {
            Self::MIN
        };
    }

    /// The monthly update after the debts were paid: with debts, the score rises when
    /// the cash covered them and falls when it did not; without debts it stays.
    pub fn settle_month(&mut self, has_debt: bool, cash_covered: bool, has_tech: bool)
        ensures
            final(self)@ == if !has_debt {
                old(self)@
            } else if cash_covered {
                spec_increased(old(self)@, has_tech)
            } else {
                spec_decreased(old(self)@, has_tech)
            },
    {
        if has_debt {
            if cash_covered {
                self.increase(has_tech);
            } else {
                self.decrease(has_tech);
            }
        }
    }
}

impl Default for CreditScore {
    /// The middle of the scale, 50.
    fn default() -> (r: Self)
        ensures
            r@ == 50,
    {
        CreditScore { score: (Self::MIN + Self::MAX) / 2 }
    }
}

/// Paying raises the score and a missed payment lowers it; the score stays on the
/// scale from 0 to 100 however the months go, and once it has reached 100, paying no
/// longer raises it.
pub proof fn credit_score_moves(score: u8, has_tech: bool)
    requires
        score <= CreditScore::MAX,
    ensures
        spec_increased(score, has_tech) >= score,
        spec_decreased(score, has_tech) <= score,
        spec_increased(score, has_tech) <= CreditScore::MAX,
        spec_decreased(score, has_tech) <= CreditScore::MAX,
        score == CreditScore::MAX ==> spec_increased(score, has_tech) == score,
        score < CreditScore::MAX ==> spec_increased(score, has_tech) > score,
        score > 0 ==> spec_decreased(score, has_tech) < score,
{
}

} // verus!
