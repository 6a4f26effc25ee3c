use vstd::prelude::*;

use crate::names::NameFromEnum;

verus! {

/// The description of LimitOrder.
pub const TECH_LIMIT_ORDER: &'static str = "Enables the use of limit orders, which allow you to set a maximum price at which \
    you are willing to buy or a minimum price at which you are willing to sell a \
    financial instrument.";

/// The description of TrailingOrder.
pub const TECH_TRAILING_ORDER: &'static str = "Enables the use of trailing orders, which allow you to set a stop-loss order that \
    follows the market price by a certain percentage.";

/// The description of ShortSelling.
pub const TECH_SHORT_SELLING: &'static str = "Enables the use of short selling, which allows you to borrow and sell a financial \
    instrument with the expectation that its price will fall, allowing you to buy it \
    back at a lower price.";

/// The description of Futures.
pub const TECH_FUTURES: &'static str = "Enables the use of futures contracts, which are agreements to buy or sell a \
    financial instrument at a predetermined price at a specified time in the future. \
    This can be used for hedging or speculation.";

/// The description of Options.
pub const TECH_OPTIONS: &'static str = "Enables the use of options contracts, which give you the right, but not the \
    obligation, to buy or sell a financial instrument at a predetermined price before \
    a specified date. This can be used for hedging or speculation.";

/// The description of ESG.
pub const TECH_ESG: &'static str = "Enables the ESG (Environmental, Social, and Governance) information on stocks \
    ESG scores have a direct impact on stock prices.";

/// The description of CorporateBonds.
pub const TECH_CORPORATE_BONDS: &'static str = "Enables the trading of corporate bonds, which are debt securities issued by \
    corporations to raise capital. They typically offer higher yields than government \
    bonds.";

/// The description of HighYield.
pub const TECH_HIGH_YIELD: &'static str = "Enables the trading of high-yield bonds, which are bonds with lower credit \
    ratings (thus higher chance of default), but also higher interest rates.";

/// The description of CreditDefaultSwap.
pub const TECH_CREDIT_DEFAULT_SWAP: &'static str = "Enables the use of credit default swaps, which are financial derivatives that \
    allow an investor to hedge against a bond issuer defaulting.";

/// The description of ForeignExchange.
pub const TECH_FOREIGN_EXCHANGE: &'static str = "Enables the trading of foreign exchange (forex), which is the market for buying \
    and selling currencies. This allows you to profit from changes in exchange rates.";

/// The description of Commodities.
pub const TECH_COMMODITIES: &'static str = "Enables the trading of commodities, which are basic goods used in commerce that \
    are interchangeable with other goods of the same type. Examples include gold, \
    silver, oil, and agricultural products.";

/// The description of ReducedStorage.
pub const TECH_REDUCED_STORAGE: &'static str = "Reduces the cost of storing commodities by 20%, increasing profitability.";

/// The description of Cryptocurrencies.
pub const TECH_CRYPTOCURRENCIES: &'static str = "Enables the trading of cryptocurrencies, which are digital currencies based on \
    blockchain technology. Cryptos are very risky investments but can offer huge returns.";

/// The description of ObscureCoins.
pub const TECH_OBSCURE_COINS: &'static str = "Enables the trading of obscure coins, which are lesser-known cryptocurrencies \
    that can be highly volatile and speculative. They can offer high returns on short \
    term but also come with incredible risks.";

/// The description of MarginLoan.
pub const TECH_MARGIN_LOAN: &'static str = "Enables the use of margin loans, which allow you to borrow money to invest in \
    financial instruments, using the instruments self as collateral. This can greatly \
    leverage your positions.";

/// The description of TrustworthyBorrower.
pub const TECH_TRUSTWORTHY_BORROWER: &'static str = "the credit score increases twice as fast when debt obligations are met in time.";

/// The description of AlternativeLender.
pub const TECH_ALTERNATIVE_LENDER: &'static str = "Enables the use of alternative lenders for term loans. Alternative lenders offer \
    loans without taken into account the credit score, for usually higher interest \
    rates than banks.";

/// The description of SecureBased.
pub const TECH_SECURE_BASED: &'static str = "The credit score decreases half as fast when debt obligations are not met in time.";

/// The description of ImprovedResearch.
pub const TECH_IMPROVED_RESEARCH: &'static str = "Increases the maximum research capacity by 100.";

/// The description of BackdoorPolitics.
pub const TECH_BACKDOOR_POLITICS: &'static str = "Increases the amount of influence gained.";

/// The fields of research.
#[derive(Clone, Copy, Debug, PartialEq, Eq, Structural)]
pub enum ResearchField {
    Trading,
    Equity,
    AlternativeInvestments,
    Credit,
    Strategy,
}

impl NameFromEnum for ResearchField {
    open spec fn spec_ident(&self) -> Seq<char> {
        match self {
            ResearchField::Trading => "Trading"@,
            ResearchField::Equity => "Equity"@,
            ResearchField::AlternativeInvestments => "AlternativeInvestments"@,
            ResearchField::Credit => "Credit"@,
            ResearchField::Strategy => "Strategy"@,
        }
    }

    fn ident(&self) -> (r: &'static str) {
        match self {
            ResearchField::Trading => "Trading",
            ResearchField::Equity => "Equity",
            ResearchField::AlternativeInvestments => "AlternativeInvestments",
            ResearchField::Credit => "Credit",
            ResearchField::Strategy => "Strategy",
        }
    }
}

impl ResearchField {
    pub open spec fn spec_all() -> Seq<ResearchField> {
        seq![ResearchField::Trading, ResearchField::Equity, ResearchField::AlternativeInvestments, ResearchField::Credit, ResearchField::Strategy]
    }

    /// Every variant, in declaration order.
    pub fn all() -> (r: Vec<ResearchField>)
        ensures
            r@ == Self::spec_all(),
    {
        let mut r: Vec<ResearchField> = Vec::new();
        r.push(ResearchField::Trading);
        r.push(ResearchField::Equity);
        r.push(ResearchField::AlternativeInvestments);
        r.push(ResearchField::Credit);
        r.push(ResearchField::Strategy);
        proof {
            assert(r@ =~= Self::spec_all());
        }
        r
    }
}

/// The technologies that can be researched.
#[derive(Clone, Copy, Debug, PartialEq, Eq, Structural)]
pub enum TechName {
    LimitOrder,
    TrailingOrder,
    ShortSelling,
    Futures,
    Options,
    ESG,
    CorporateBonds,
    HighYield,
    CreditDefaultSwap,
    ForeignExchange,
    Commodities,
    ReducedStorage,
    Cryptocurrencies,
    ObscureCoins,
    MarginLoan,
    TrustworthyBorrower,
    AlternativeLender,
    SecureBased,
    ImprovedResearch,
    BackdoorPolitics,
}

impl NameFromEnum for TechName {
    open spec fn spec_ident(&self) -> Seq<char> {
        match self {
            TechName::LimitOrder => "LimitOrder"@,
            TechName::TrailingOrder => "TrailingOrder"@,
            TechName::ShortSelling => "ShortSelling"@,
            TechName::Futures => "Futures"@,
            TechName::Options => "Options"@,
            TechName::ESG => "ESG"@,
            TechName::CorporateBonds => "CorporateBonds"@,
            TechName::HighYield => "HighYield"@,
            TechName::CreditDefaultSwap => "CreditDefaultSwap"@,
            TechName::ForeignExchange => "ForeignExchange"@,
            TechName::Commodities => "Commodities"@,
            TechName::ReducedStorage => "ReducedStorage"@,
            TechName::Cryptocurrencies => "Cryptocurrencies"@,
            TechName::ObscureCoins => "ObscureCoins"@,
            TechName::MarginLoan => "MarginLoan"@,
            TechName::TrustworthyBorrower => "TrustworthyBorrower"@,
            TechName::AlternativeLender => "AlternativeLender"@,
            TechName::SecureBased => "SecureBased"@,
            TechName::ImprovedResearch => "ImprovedResearch"@,
            TechName::BackdoorPolitics => "BackdoorPolitics"@,
        }
    }

    fn ident(&self) -> (r: &'static str) {
        match self {
            TechName::LimitOrder => "LimitOrder",
            TechName::TrailingOrder => "TrailingOrder",
            TechName::ShortSelling => "ShortSelling",
            TechName::Futures => "Futures",
            TechName::Options => "Options",
            TechName::ESG => "ESG",
            TechName::CorporateBonds => "CorporateBonds",
            TechName::HighYield => "HighYield",
            TechName::CreditDefaultSwap => "CreditDefaultSwap",
            TechName::ForeignExchange => "ForeignExchange",
            TechName::Commodities => "Commodities",
            TechName::ReducedStorage => "ReducedStorage",
            TechName::Cryptocurrencies => "Cryptocurrencies",
            TechName::ObscureCoins => "ObscureCoins",
            TechName::MarginLoan => "MarginLoan",
            TechName::TrustworthyBorrower => "TrustworthyBorrower",
            TechName::AlternativeLender => "AlternativeLender",
            TechName::SecureBased => "SecureBased",
            TechName::ImprovedResearch => "ImprovedResearch",
            TechName::BackdoorPolitics => "BackdoorPolitics",
        }
    }
}

impl TechName {
    pub open spec fn spec_description(self) -> &'static str {
        match self {
            TechName::LimitOrder => TECH_LIMIT_ORDER,
            TechName::TrailingOrder => TECH_TRAILING_ORDER,
            TechName::ShortSelling => TECH_SHORT_SELLING,
            TechName::Futures => TECH_FUTURES,
            TechName::Options => TECH_OPTIONS,
            TechName::ESG => TECH_ESG,
            TechName::CorporateBonds => TECH_CORPORATE_BONDS,
            TechName::HighYield => TECH_HIGH_YIELD,
            TechName::CreditDefaultSwap => TECH_CREDIT_DEFAULT_SWAP,
            TechName::ForeignExchange => TECH_FOREIGN_EXCHANGE,
            TechName::Commodities => TECH_COMMODITIES,
            TechName::ReducedStorage => TECH_REDUCED_STORAGE,
            TechName::Cryptocurrencies => TECH_CRYPTOCURRENCIES,
            TechName::ObscureCoins => TECH_OBSCURE_COINS,
            TechName::MarginLoan => TECH_MARGIN_LOAN,
            TechName::TrustworthyBorrower => TECH_TRUSTWORTHY_BORROWER,
            TechName::AlternativeLender => TECH_ALTERNATIVE_LENDER,
            TechName::SecureBased => TECH_SECURE_BASED,
            TechName::ImprovedResearch => TECH_IMPROVED_RESEARCH,
            TechName::BackdoorPolitics => TECH_BACKDOOR_POLITICS,
        }
    }

    /// What the technology unlocks.
    pub fn description(&self) -> (r: &'static str)
        ensures
            r == self.spec_description(),
    {
        match self {
            TechName::LimitOrder => TECH_LIMIT_ORDER,
            TechName::TrailingOrder => TECH_TRAILING_ORDER,
            TechName::ShortSelling => TECH_SHORT_SELLING,
            TechName::Futures => TECH_FUTURES,
            TechName::Options => TECH_OPTIONS,
            TechName::ESG => TECH_ESG,
            TechName::CorporateBonds => TECH_CORPORATE_BONDS,
            TechName::HighYield => TECH_HIGH_YIELD,
            TechName::CreditDefaultSwap => TECH_CREDIT_DEFAULT_SWAP,
            TechName::ForeignExchange => TECH_FOREIGN_EXCHANGE,
            TechName::Commodities => TECH_COMMODITIES,
            TechName::ReducedStorage => TECH_REDUCED_STORAGE,
            TechName::Cryptocurrencies => TECH_CRYPTOCURRENCIES,
            TechName::ObscureCoins => TECH_OBSCURE_COINS,
            TechName::MarginLoan => TECH_MARGIN_LOAN,
            TechName::TrustworthyBorrower => TECH_TRUSTWORTHY_BORROWER,
            TechName::AlternativeLender => TECH_ALTERNATIVE_LENDER,
            TechName::SecureBased => TECH_SECURE_BASED,
            TechName::ImprovedResearch => TECH_IMPROVED_RESEARCH,
            TechName::BackdoorPolitics => TECH_BACKDOOR_POLITICS,
        }
    }

    pub open spec fn spec_field(self) -> ResearchField {
        match self {
            TechName::LimitOrder => ResearchField::Trading,
            TechName::TrailingOrder => ResearchField::Trading,
            TechName::ShortSelling => ResearchField::Trading,
            TechName::Futures => ResearchField::Trading,
            TechName::Options => ResearchField::Trading,
            TechName::ESG => ResearchField::Equity,
            TechName::CorporateBonds => ResearchField::Equity,
            TechName::HighYield => ResearchField::Equity,
            TechName::CreditDefaultSwap => ResearchField::Equity,
            TechName::ForeignExchange => ResearchField::AlternativeInvestments,
            TechName::Commodities => ResearchField::AlternativeInvestments,
            TechName::ReducedStorage => ResearchField::AlternativeInvestments,
            TechName::Cryptocurrencies => ResearchField::AlternativeInvestments,
            TechName::ObscureCoins => ResearchField::AlternativeInvestments,
            TechName::MarginLoan => ResearchField::Credit,
            TechName::TrustworthyBorrower => ResearchField::Credit,
            TechName::AlternativeLender => ResearchField::Credit,
            TechName::SecureBased => ResearchField::Credit,
            TechName::ImprovedResearch => ResearchField::Strategy,
            TechName::BackdoorPolitics => ResearchField::Strategy,
        }
    }

    /// The field the technology belongs to.
    pub fn field(&self) -> (r: ResearchField)
        ensures
            r == self.spec_field(),
    {
        match self {
            TechName::LimitOrder => ResearchField::Trading,
            TechName::TrailingOrder => ResearchField::Trading,
            TechName::ShortSelling => ResearchField::Trading,
            TechName::Futures => ResearchField::Trading,
            TechName::Options => ResearchField::Trading,
            TechName::ESG => ResearchField::Equity,
            TechName::CorporateBonds => ResearchField::Equity,
            TechName::HighYield => ResearchField::Equity,
            TechName::CreditDefaultSwap => ResearchField::Equity,
            TechName::ForeignExchange => ResearchField::AlternativeInvestments,
            TechName::Commodities => ResearchField::AlternativeInvestments,
            TechName::ReducedStorage => ResearchField::AlternativeInvestments,
            TechName::Cryptocurrencies => ResearchField::AlternativeInvestments,
            TechName::ObscureCoins => ResearchField::AlternativeInvestments,
            TechName::MarginLoan => ResearchField::Credit,
            TechName::TrustworthyBorrower => ResearchField::Credit,
            TechName::AlternativeLender => ResearchField::Credit,
            TechName::SecureBased => ResearchField::Credit,
            TechName::ImprovedResearch => ResearchField::Strategy,
            TechName::BackdoorPolitics => ResearchField::Strategy,
        }
    }

    pub open spec fn spec_dependencies(self) -> Option<Seq<TechName>> {
        match self {
            TechName::LimitOrder => None,
            TechName::TrailingOrder => Some(seq![TechName::LimitOrder]),
            TechName::ShortSelling => Some(seq![TechName::TrailingOrder, TechName::MarginLoan]),
            TechName::Futures => Some(seq![TechName::ShortSelling]),
            TechName::Options => Some(seq![TechName::Futures]),
            TechName::ESG => None,
            TechName::CorporateBonds => Some(seq![TechName::ESG]),
            TechName::HighYield => Some(seq![TechName::CorporateBonds]),
            TechName::CreditDefaultSwap => Some(seq![TechName::HighYield]),
            TechName::ForeignExchange => None,
            TechName::Commodities => Some(seq![TechName::ForeignExchange]),
            TechName::ReducedStorage => Some(seq![TechName::Commodities]),
            TechName::Cryptocurrencies => Some(seq![TechName::ReducedStorage]),
            TechName::ObscureCoins => Some(seq![TechName::Cryptocurrencies]),
            TechName::MarginLoan => None,
            TechName::TrustworthyBorrower => Some(seq![TechName::MarginLoan]),
            TechName::AlternativeLender => Some(seq![TechName::TrustworthyBorrower]),
            TechName::SecureBased => Some(seq![TechName::AlternativeLender]),
            TechName::ImprovedResearch => None,
            TechName::BackdoorPolitics => Some(seq![TechName::ImprovedResearch]),
        }
    }

    /// The technologies that must be complete before this one can be researched,
    /// or `None` when it has no prerequisite.
    pub fn dependencies(&self) -> (r: Option<Vec<TechName>>)
        ensures
            match r {
                Some(v) => self.spec_dependencies() == Some(v@),
                None => self.spec_dependencies() is None,
            },
    {
        match self {
            TechName::LimitOrder => None,
            TechName::TrailingOrder => {
                let mut v: Vec<TechName> = Vec::new();
                v.push(TechName::LimitOrder);
                proof {
                    assert(v@ =~= self.spec_dependencies()->0);
                }
                Some(v)
            },
            TechName::ShortSelling => {
                let mut v: Vec<TechName> = Vec::new();
                v.push(TechName::TrailingOrder);
                v.push(TechName::MarginLoan);
                proof {
                    assert(v@ =~= self.spec_dependencies()->0);
                }
                Some(v)
            },
            TechName::Futures => {
                let mut v: Vec<TechName> = Vec::new();
                v.push(TechName::ShortSelling);
                proof {
                    assert(v@ =~= self.spec_dependencies()->0);
                }
                Some(v)
            },
            TechName::Options => {
                let mut v: Vec<TechName> = Vec::new();
                v.push(TechName::Futures);
                proof {
                    assert(v@ =~= self.spec_dependencies()->0);
                }
                Some(v)
            },
            TechName::ESG => None,
            TechName::CorporateBonds => {
                let mut v: Vec<TechName> = Vec::new();
                v.push(TechName::ESG);
                proof {
                    assert(v@ =~= self.spec_dependencies()->0);
                }
                Some(v)
            },
            TechName::HighYield => {
                let mut v: Vec<TechName> = Vec::new();
                v.push(TechName::CorporateBonds);
                proof {
                    assert(v@ =~= self.spec_dependencies()->0);
                }
                Some(v)
            },
            TechName::CreditDefaultSwap => {
                let mut v: Vec<TechName> = Vec::new();
                v.push(TechName::HighYield);
                proof {
                    assert(v@ =~= self.spec_dependencies()->0);
                }
                Some(v)
            },
            TechName::ForeignExchange => None,
            TechName::Commodities => {
                let mut v: Vec<TechName> = Vec::new();
                v.push(TechName::ForeignExchange);
                proof {
                    assert(v@ =~= self.spec_dependencies()->0);
                }
                Some(v)
            },
            TechName::ReducedStorage => {
                let mut v: Vec<TechName> = Vec::new();
                v.push(TechName::Commodities);
                proof {
                    assert(v@ =~= self.spec_dependencies()->0);
                }
                Some(v)
            },
            TechName::Cryptocurrencies => {
                let mut v: Vec<TechName> = Vec::new();
                v.push(TechName::ReducedStorage);
                proof {
                    assert(v@ =~= self.spec_dependencies()->0);
                }
                Some(v)
            },
            TechName::ObscureCoins => {
                let mut v: Vec<TechName> = Vec::new();
                v.push(TechName::Cryptocurrencies);
                proof {
                    assert(v@ =~= self.spec_dependencies()->0);
                }
                Some(v)
            },
            TechName::MarginLoan => None,
            TechName::TrustworthyBorrower => {
                let mut v: Vec<TechName> = Vec::new();
                v.push(TechName::MarginLoan);
                proof {
                    assert(v@ =~= self.spec_dependencies()->0);
                }
                Some(v)
            },
            TechName::AlternativeLender => {
                let mut v: Vec<TechName> = Vec::new();
                v.push(TechName::TrustworthyBorrower);
                proof {
                    assert(v@ =~= self.spec_dependencies()->0);
                }
                Some(v)
            },
            TechName::SecureBased => {
                let mut v: Vec<TechName> = Vec::new();
                v.push(TechName::AlternativeLender);
                proof {
                    assert(v@ =~= self.spec_dependencies()->0);
                }
                Some(v)
            },
            TechName::ImprovedResearch => None,
            TechName::BackdoorPolitics => {
                let mut v: Vec<TechName> = Vec::new();
                v.push(TechName::ImprovedResearch);
                proof {
                    assert(v@ =~= self.spec_dependencies()->0);
                }
                Some(v)
            },
        }
    }

    /// How many prerequisites stand between the technology and the roots of the
    /// research tree (0 for a technology without prerequisites).
    pub open spec fn tier(self) -> int {
        match self {
            TechName::LimitOrder => 0,
            TechName::TrailingOrder => 1,
            TechName::ShortSelling => 2,
            TechName::Futures => 3,
            TechName::Options => 4,
            TechName::ESG => 0,
            TechName::CorporateBonds => 1,
            TechName::HighYield => 2,
            TechName::CreditDefaultSwap => 3,
            TechName::ForeignExchange => 0,
            TechName::Commodities => 1,
            TechName::ReducedStorage => 2,
            TechName::Cryptocurrencies => 3,
            TechName::ObscureCoins => 4,
            TechName::MarginLoan => 0,
            TechName::TrustworthyBorrower => 1,
            TechName::AlternativeLender => 2,
            TechName::SecureBased => 3,
            TechName::ImprovedResearch => 0,
            TechName::BackdoorPolitics => 1,
        }
    }

    pub open spec fn spec_all() -> Seq<TechName> {
        seq![TechName::LimitOrder, TechName::TrailingOrder, TechName::ShortSelling, TechName::Futures, TechName::Options, TechName::ESG, TechName::CorporateBonds, TechName::HighYield, TechName::CreditDefaultSwap, TechName::ForeignExchange, TechName::Commodities, TechName::ReducedStorage, TechName::Cryptocurrencies, TechName::ObscureCoins, TechName::MarginLoan, TechName::TrustworthyBorrower, TechName::AlternativeLender, TechName::SecureBased, TechName::ImprovedResearch, TechName::BackdoorPolitics]
    }

    /// Every technology, in the order in which the research tree lists them.
    pub fn all() -> (r: Vec<TechName>)
        ensures
            r@ == Self::spec_all(),
    {
        let mut r: Vec<TechName> = Vec::new();
        r.push(TechName::LimitOrder);
        r.push(TechName::TrailingOrder);
        r.push(TechName::ShortSelling);
        r.push(TechName::Futures);
        r.push(TechName::Options);
        r.push(TechName::ESG);
        r.push(TechName::CorporateBonds);
        r.push(TechName::HighYield);
        r.push(TechName::CreditDefaultSwap);
        r.push(TechName::ForeignExchange);
        r.push(TechName::Commodities);
        r.push(TechName::ReducedStorage);
        r.push(TechName::Cryptocurrencies);
        r.push(TechName::ObscureCoins);
        r.push(TechName::MarginLoan);
        r.push(TechName::TrustworthyBorrower);
        r.push(TechName::AlternativeLender);
        r.push(TechName::SecureBased);
        r.push(TechName::ImprovedResearch);
        r.push(TechName::BackdoorPolitics);
        proof {
            assert(r@ =~= Self::spec_all());
        }
        r
    }
}

/// Whether every prerequisite of `tech` is among the `completed` technologies; a
/// technology without prerequisites can always be researched.
/// Whether `d` is one of the prerequisites of the technology.
impl TechName {
    pub open spec fn spec_prerequisite(self, d: TechName) -> bool {
        self.spec_dependencies() matches Some(deps) && deps.contains(d)
    }
}

pub open spec fn spec_dependencies_met(tech: TechName, completed: Seq<TechName>) -> bool {
    match tech.spec_dependencies() {
        None => true,
        Some(deps) => forall|i: int| 0 <= i < deps.len() ==> completed.contains(#[trigger] deps[i]),
    }
}

pub(crate) fn contains_tech(list: &Vec<TechName>, tech: TechName) -> (r: bool)
    ensures
        r == list@.contains(tech),
{
    let mut i: usize = 0;
    while i < list.len()
        invariant
            i <= list.len(),
            forall|j: int| 0 <= j < i ==> list@[j] != tech,
        decreases list.len() - i,
    {
        if list[i] == tech {
            return true;
        }
        i = i + 1;
    }
    false
}

/// Whether `tech` may be researched, given the technologies already `completed`.
pub fn dependencies_met(tech: &TechName, completed: &Vec<TechName>) -> (r: bool)
    ensures
        r == spec_dependencies_met(*tech, completed@),
        r == (forall|d: TechName| #[trigger] tech.spec_prerequisite(d) ==> completed@.contains(d)),
{
    proof {
        research_needs_every_prerequisite(*tech, completed@, completed@);
    }
    match tech.dependencies() {
        None => true,
        Some(deps) => {
            let mut i: usize = 0;
            while i < deps.len()
                invariant
                    i <= deps.len(),
                    tech.spec_dependencies() == Some(deps@),
                    forall|j: int| 0 <= j < i ==> completed@.contains(#[trigger] deps@[j]),
                decreases deps.len() - i,
            {
                if !contains_tech(completed, deps[i]) {
                    assert(!completed@.contains(deps@[i as int]));
                    proof {
                        research_needs_every_prerequisite(*tech, completed@, completed@);
                    }
                    assert(!spec_dependencies_met(*tech, completed@)) by {
                        let d = tech.spec_dependencies()->0;
                        assert(d == deps@);
                        assert(!completed@.contains(d[i as int]));
                    }
                    return false;
                }
                i = i + 1;
            }
            true
        },
    }
}

/// The research tree has no cycle: every prerequisite of a technology sits on a
/// lower tier than the technology itself, so every technology can be reached by
/// researching its prerequisites first.
pub proof fn research_tree_is_acyclic(tech: TechName, i: int)
    requires
        tech.spec_dependencies() is Some,
        0 <= i < tech.spec_dependencies()->0.len(),
    ensures
        tech.spec_dependencies()->0[i].tier() < tech.tier(),
{
}

/// A technology on the lowest tier has no prerequisite and can be researched from
/// the start of the game.
pub proof fn roots_need_nothing(tech: TechName)
    requires
        tech.tier() == 0,
    ensures
        spec_dependencies_met(tech, Seq::empty()),
{
}

/// A technology can be researched exactly when every one of its prerequisites is
/// among the completed technologies: one missing prerequisite, first or last, is
/// enough to hold it back, and completing more technologies never holds one back.
pub proof fn research_needs_every_prerequisite(
    tech: TechName,
    completed: Seq<TechName>,
    more: Seq<TechName>,
)
    ensures
        spec_dependencies_met(tech, completed) == (forall|d: TechName|
            #[trigger] tech.spec_prerequisite(d) ==> completed.contains(d)),
        forall|d: TechName|
            #[trigger] tech.spec_prerequisite(d) && !completed.contains(d) ==> !spec_dependencies_met(
                tech,
                completed,
            ),
        spec_dependencies_met(tech, completed) && (forall|d: TechName|
            completed.contains(d) ==> #[trigger] more.contains(d)) ==> spec_dependencies_met(tech, more),
{
    match tech.spec_dependencies() {
        None => {},
        Some(deps) => {
            assert forall|d: TechName| #[trigger] tech.spec_prerequisite(d) implies deps.contains(d) by {}
            if spec_dependencies_met(tech, completed) {
                assert forall|d: TechName| #[trigger] tech.spec_prerequisite(d) implies completed.contains(d) by {
                    let i = choose|i: int| 0 <= i < deps.len() && deps[i] == d;
                    assert(completed.contains(deps[i]));
                }
            }
            if forall|d: TechName| #[trigger] tech.spec_prerequisite(d) ==> completed.contains(d) {
                assert forall|i: int| 0 <= i < deps.len() implies completed.contains(#[trigger] deps[i]) by {
                    assert(tech.spec_prerequisite(deps[i]));
                }
            }
        },
    }
}

} // verus!
