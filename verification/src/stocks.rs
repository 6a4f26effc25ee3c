use vstd::prelude::*;

use crate::names::NameFromEnum;
use crate::sectors::SectorName;

verus! {

/// The description of Apple.
pub const COMPANY_APPLE: &'static str = "Apple Inc. is an American multinational technology company that designs, \
    manufactures, and markets consumer electronics, software, and services.";

/// The description of Boeing.
pub const COMPANY_BOEING: &'static str = "Boeing is an American multinational corporation that designs, manufactures, \
    and sells airplanes, rotorcraft, rockets, satellites, telecommunications \
    equipment, and missiles worldwide.";

/// The description of GoldmanSachs.
pub const COMPANY_GOLDMAN_SACHS: &'static str = "Goldman Sachs is a leading global investment banking, securities and investment \
    management firm that provides a wide range of financial services to a substantial \
    and diversified client base.";

/// The description of Inditex.
pub const COMPANY_INDITEX: &'static str = "Industria de Diseño Textil S.A. (Inditex) is a Spanish multinational clothing \
    company known for its fashion retail chain Zara.";

/// The description of LockheedMartin.
pub const COMPANY_LOCKHEED_MARTIN: &'static str = "Lockheed Martin is an American aerospace, defense, arms, security, and advanced \
    technologies company with worldwide interests.";

/// The description of LVMH.
pub const COMPANY_LVMH: &'static str = "LVMH Moët Hennessy Louis Vuitton is a French multinational luxury goods conglomerate.";

/// The description of Maersk.
pub const COMPANY_MAERSK: &'static str = "A.P. Moller - Maersk is a Danish integrated shipping company and the largest \
    container ship operator in the world.";

/// The description of Moderna.
pub const COMPANY_MODERNA: &'static str = "Moderna Inc. is an American biotechnology company pioneering messenger RNA \
    (mRNA) therapeutics and vaccines.";

/// The description of Nestle.
pub const COMPANY_NESTLE: &'static str = "Nestlé S.A. is a Swiss multinational food and drink processing conglomerate \
    corporation headquartered in Vevey, Switzerland.";

/// The description of Nvidia.
pub const COMPANY_NVIDIA: &'static str = "Nvidia Corporation is an American multinational technology company incorporated \
    in Delaware and based in Santa Clara, California.";

/// The description of Pfizer.
pub const COMPANY_PFIZER: &'static str = "Pfizer Inc. is an American multinational pharmaceutical corporation headquartered \
    in Manhattan, New York City.";

/// The description of RioTinto.
pub const COMPANY_RIO_TINTO: &'static str = "Rio Tinto Group is an Anglo-Australian multinational and one of the world's \
    largest metals and mining corporations.";

/// The description of Shell.
pub const COMPANY_SHELL: &'static str = "Royal Dutch Shell plc is a British-Dutch multinational oil and gas company \
    headquartered in The Hague, Netherlands.";

/// The description of Toyota.
pub const COMPANY_TOYOTA: &'static str = "Toyota Motor Corporation is a Japanese multinational automotive manufacturer \
    headquartered in Toyota City, Aichi, Japan.";

/// The description of Unilever.
pub const COMPANY_UNILEVER: &'static str = "Unilever PLC is a British-Dutch multinational consumer goods company \
    co-headquartered in London, England, and Rotterdam, Netherlands.";

/// The listed companies of the game.
#[derive(Clone, Copy, Debug, PartialEq, Eq, Structural)]
pub enum Company {
    Apple,
    Boeing,
    GoldmanSachs,
    Inditex,
    LockheedMartin,
    LVMH,
    Maersk,
    Moderna,
    Nestle,
    Nvidia,
    Pfizer,
    RioTinto,
    Shell,
    Toyota,
    Unilever,
}

impl NameFromEnum for Company {
    open spec fn spec_ident(&self) -> Seq<char> {
        match self {
            Company::Apple => "Apple"@,
            Company::Boeing => "Boeing"@,
            Company::GoldmanSachs => "GoldmanSachs"@,
            Company::Inditex => "Inditex"@,
            Company::LockheedMartin => "LockheedMartin"@,
            Company::LVMH => "LVMH"@,
            Company::Maersk => "Maersk"@,
            Company::Moderna => "Moderna"@,
            Company::Nestle => "Nestle"@,
            Company::Nvidia => "Nvidia"@,
            Company::Pfizer => "Pfizer"@,
            Company::RioTinto => "RioTinto"@,
            Company::Shell => "Shell"@,
            Company::Toyota => "Toyota"@,
            Company::Unilever => "Unilever"@,
        }
    }

    fn ident(&self) -> (r: &'static str) {
        match self {
            Company::Apple => "Apple",
            Company::Boeing => "Boeing",
            Company::GoldmanSachs => "GoldmanSachs",
            Company::Inditex => "Inditex",
            Company::LockheedMartin => "LockheedMartin",
            Company::LVMH => "LVMH",
            Company::Maersk => "Maersk",
            Company::Moderna => "Moderna",
            Company::Nestle => "Nestle",
            Company::Nvidia => "Nvidia",
            Company::Pfizer => "Pfizer",
            Company::RioTinto => "RioTinto",
            Company::Shell => "Shell",
            Company::Toyota => "Toyota",
            Company::Unilever => "Unilever",
        }
    }
}

impl Company {
    pub open spec fn spec_description(self) -> &'static str {
        match self {
            Company::Apple => COMPANY_APPLE,
            Company::Boeing => COMPANY_BOEING,
            Company::GoldmanSachs => COMPANY_GOLDMAN_SACHS,
            Company::Inditex => COMPANY_INDITEX,
            Company::LockheedMartin => COMPANY_LOCKHEED_MARTIN,
            Company::LVMH => COMPANY_LVMH,
            Company::Maersk => COMPANY_MAERSK,
            Company::Moderna => COMPANY_MODERNA,
            Company::Nestle => COMPANY_NESTLE,
            Company::Nvidia => COMPANY_NVIDIA,
            Company::Pfizer => COMPANY_PFIZER,
            Company::RioTinto => COMPANY_RIO_TINTO,
            Company::Shell => COMPANY_SHELL,
            Company::Toyota => COMPANY_TOYOTA,
            Company::Unilever => COMPANY_UNILEVER,
        }
    }

    /// A short profile of the company.
    pub fn description(&self) -> (r: &'static str)
        ensures
            r == self.spec_description(),
    {
        match self {
            Company::Apple => COMPANY_APPLE,
            Company::Boeing => COMPANY_BOEING,
            Company::GoldmanSachs => COMPANY_GOLDMAN_SACHS,
            Company::Inditex => COMPANY_INDITEX,
            Company::LockheedMartin => COMPANY_LOCKHEED_MARTIN,
            Company::LVMH => COMPANY_LVMH,
            Company::Maersk => COMPANY_MAERSK,
            Company::Moderna => COMPANY_MODERNA,
            Company::Nestle => COMPANY_NESTLE,
            Company::Nvidia => COMPANY_NVIDIA,
            Company::Pfizer => COMPANY_PFIZER,
            Company::RioTinto => COMPANY_RIO_TINTO,
            Company::Shell => COMPANY_SHELL,
            Company::Toyota => COMPANY_TOYOTA,
            Company::Unilever => COMPANY_UNILEVER,
        }
    }

    pub open spec fn spec_all() -> Seq<Company> {
        seq![Company::Apple, Company::Boeing, Company::GoldmanSachs, Company::Inditex, Company::LockheedMartin, Company::LVMH, Company::Maersk, Company::Moderna, Company::Nestle, Company::Nvidia, Company::Pfizer, Company::RioTinto, Company::Shell, Company::Toyota, Company::Unilever]
    }

    /// Every variant, in declaration order.
    pub fn all() -> (r: Vec<Company>)
        ensures
            r@ == Self::spec_all(),
    {
        let mut r: Vec<Company> = Vec::new();
        r.push(Company::Apple);
        r.push(Company::Boeing);
        r.push(Company::GoldmanSachs);
        r.push(Company::Inditex);
        r.push(Company::LockheedMartin);
        r.push(Company::LVMH);
        r.push(Company::Maersk);
        r.push(Company::Moderna);
        r.push(Company::Nestle);
        r.push(Company::Nvidia);
        r.push(Company::Pfizer);
        r.push(Company::RioTinto);
        r.push(Company::Shell);
        r.push(Company::Toyota);
        r.push(Company::Unilever);
        proof {
            assert(r@ =~= Self::spec_all());
        }
        r
    }
}

impl Default for Company {
    /// Apple.
    fn default() -> (r: Self)
        ensures
            r == Company::Apple,
    {
        Company::Apple
    }
}

/// Environmental, social and governance rating, from best (AAA) to worst (CCC).
#[derive(Clone, Copy, Debug, PartialEq, Eq, PartialOrd, Ord, Structural)]
pub enum ESGRating {
    AAA,
    AA,
    A,
    BBB,
    BB,
    B,
    CCC,
}

impl NameFromEnum for ESGRating {
    open spec fn spec_ident(&self) -> Seq<char> {
        match self {
            ESGRating::AAA => "AAA"@,
            ESGRating::AA => "AA"@,
            ESGRating::A => "A"@,
            ESGRating::BBB => "BBB"@,
            ESGRating::BB => "BB"@,
            ESGRating::B => "B"@,
            ESGRating::CCC => "CCC"@,
        }
    }

    fn ident(&self) -> (r: &'static str) {
        match self {
            ESGRating::AAA => "AAA",
            ESGRating::AA => "AA",
            ESGRating::A => "A",
            ESGRating::BBB => "BBB",
            ESGRating::BB => "BB",
            ESGRating::B => "B",
            ESGRating::CCC => "CCC",
        }
    }
}

impl ESGRating {
    /// Position on the scale: 0 for AAA (best) up to 6 for CCC (worst).
    pub open spec fn rank(self) -> int {
        match self {
            ESGRating::AAA => 0,
            ESGRating::AA => 1,
            ESGRating::A => 2,
            ESGRating::BBB => 3,
            ESGRating::BB => 4,
            ESGRating::B => 5,
            ESGRating::CCC => 6,
        }
    }

    pub open spec fn spec_description(self) -> &'static str {
        match self {
            ESGRating::AAA => "Industry leader in managing ESG risks and opportunities.",
            ESGRating::AA => "Strong ESG practices and risk management above peers.",
            ESGRating::A => "Adequate ESG performance. Manages key risks reasonably well.",
            ESGRating::BBB => "	Moderate ESG risk exposure and average risk management practices.",
            ESGRating::BB => "Below-average ESG performance. Some unmanaged or unaddressed risks.",
            ESGRating::B => "Poor ESG practices, with significant risk exposure.",
            ESGRating::CCC => "Worst performers. Very high ESG risks with little or no mitigation strategies.",
        }
    }

    /// What the rating says of the company.
    pub fn description(&self) -> (r: &'static str)
        ensures
            r == self.spec_description(),
    {
        match self {
            ESGRating::AAA => "Industry leader in managing ESG risks and opportunities.",
            ESGRating::AA => "Strong ESG practices and risk management above peers.",
            ESGRating::A => "Adequate ESG performance. Manages key risks reasonably well.",
            ESGRating::BBB => "	Moderate ESG risk exposure and average risk management practices.",
            ESGRating::BB => "Below-average ESG performance. Some unmanaged or unaddressed risks.",
            ESGRating::B => "Poor ESG practices, with significant risk exposure.",
            ESGRating::CCC => "Worst performers. Very high ESG risks with little or no mitigation strategies.",
        }
    }

    pub open spec fn spec_increase(self) -> ESGRating {
        match self {
            ESGRating::AAA => ESGRating::AAA,
            ESGRating::AA => ESGRating::AAA,
            ESGRating::A => ESGRating::AA,
            ESGRating::BBB => ESGRating::A,
            ESGRating::BB => ESGRating::BBB,
            ESGRating::B => ESGRating::BB,
            ESGRating::CCC => ESGRating::B,
        }
    }

    /// One grade better, AAA staying AAA.
    pub fn increase(&self) -> (r: ESGRating)
        ensures
            r == self.spec_increase(),
    {
        match self {
            ESGRating::AAA => ESGRating::AAA,
            ESGRating::AA => ESGRating::AAA,
            ESGRating::A => ESGRating::AA,
            ESGRating::BBB => ESGRating::A,
            ESGRating::BB => ESGRating::BBB,
            ESGRating::B => ESGRating::BB,
            ESGRating::CCC => ESGRating::B,
        }
    }

    pub open spec fn spec_decrease(self) -> ESGRating {
        match self {
            ESGRating::AAA => ESGRating::A,
            ESGRating::AA => ESGRating::BBB,
            ESGRating::A => ESGRating::BB,
            ESGRating::BBB => ESGRating::B,
            ESGRating::BB => ESGRating::CCC,
            ESGRating::B => ESGRating::CCC,
            ESGRating::CCC => ESGRating::CCC,
        }
    }

    /// Two grades worse, bottoming out at CCC.
    pub fn decrease(&self) -> (r: ESGRating)
        ensures
            r == self.spec_decrease(),
    {
        match self {
            ESGRating::AAA => ESGRating::A,
            ESGRating::AA => ESGRating::BBB,
            ESGRating::A => ESGRating::BB,
            ESGRating::BBB => ESGRating::B,
            ESGRating::BB => ESGRating::CCC,
            ESGRating::B => ESGRating::CCC,
            ESGRating::CCC => ESGRating::CCC,
        }
    }

    /// Whether the rating is at least as bad as `other` (AAA is the smallest rating
    /// and CCC the largest in the rating's order).
    pub fn at_least_as_bad_as(&self, other: &ESGRating) -> (r: bool)
        ensures
            r == (self.rank() >= other.rank()),
    {
        self.index() >= other.index()
    }

    fn index(&self) -> (r: u8)
        ensures
            r == self.rank(),
    {
        match self {
            ESGRating::AAA => 0,
            ESGRating::AA => 1,
            ESGRating::A => 2,
            ESGRating::BBB => 3,
            ESGRating::BB => 4,
            ESGRating::B => 5,
            ESGRating::CCC => 6,
        }
    }
}

/// Raising a rating moves it one grade up the scale (AAA stays AAA), and lowering
/// it moves it two grades down (bottoming out at CCC).
pub proof fn esg_steps(r: ESGRating)
    ensures
        r.spec_increase().rank() == if r.rank() == 0 { 0 } else { r.rank() - 1 },
        r.spec_decrease().rank() == if r.rank() + 2 > 6 { 6 } else { r.rank() + 2 },
{
}

/// Lowering a rating and then raising it never leaves it better than before, and
/// leaves it one grade worse (a B rating ends where it began); a CCC rating is left out.
pub proof fn lowering_then_raising(r: ESGRating)
    requires
        r != ESGRating::CCC,
    ensures
        r.spec_decrease().spec_increase().rank() >= r.rank(),
        r.spec_decrease().spec_increase().rank() == if r.rank() + 1 > 5 { 5 } else { r.rank() + 1 },
{
}

impl Company {
    /// The sectors the company works in, with their shares in percent.
    pub open spec fn spec_sector_shares(self) -> Seq<(SectorName, u32)> {
        match self {
            Company::Apple => seq![(SectorName::Technology, 80u32), (SectorName::Retail, 20u32)],
            Company::Boeing => seq![(SectorName::Transport, 70u32), (SectorName::Military, 30u32)],
            Company::GoldmanSachs => seq![(SectorName::Finance, 90u32), (SectorName::Technology, 10u32)],
            Company::Inditex => seq![(SectorName::Fashion, 60u32), (SectorName::Retail, 40u32)],
            Company::LockheedMartin => seq![(SectorName::Military, 80u32), (SectorName::Transport, 20u32)],
            Company::LVMH => seq![(SectorName::Fashion, 80u32), (SectorName::Retail, 20u32)],
            Company::Maersk => seq![(SectorName::Transport, 80u32), (SectorName::Energy, 20u32)],
            Company::Moderna => seq![(SectorName::Healthcare, 90u32), (SectorName::Technology, 10u32)],
            Company::Nestle => seq![(SectorName::Food, 70u32), (SectorName::Healthcare, 20u32), (SectorName::Retail, 10u32)],
            Company::Nvidia => seq![(SectorName::Technology, 85u32), (SectorName::Military, 15u32)],
            Company::Pfizer => seq![(SectorName::Healthcare, 90u32), (SectorName::Retail, 10u32)],
            Company::RioTinto => seq![(SectorName::Materials, 90u32), (SectorName::Energy, 10u32)],
            Company::Shell => seq![(SectorName::Energy, 80u32), (SectorName::Materials, 20u32)],
            Company::Toyota => seq![(SectorName::Transport, 60u32), (SectorName::Energy, 10u32), (SectorName::Technology, 10u32), (SectorName::Retail, 10u32)],
            Company::Unilever => seq![(SectorName::Retail, 50u32), (SectorName::Food, 50u32)],
        }
    }

    /// The sectors the company works in, each with its share of the business in percent (their order carries no meaning).
    pub fn sector_shares(&self) -> (r: Vec<(SectorName, u32)>)
        ensures
            r@ == self.spec_sector_shares(),
    {
        let mut r: Vec<(SectorName, u32)> = Vec::new();
        match self {
            Company::Apple => {
                r.push((SectorName::Technology, 80u32));
                r.push((SectorName::Retail, 20u32));
            },
            Company::Boeing => {
                r.push((SectorName::Transport, 70u32));
                r.push((SectorName::Military, 30u32));
            },
            Company::GoldmanSachs => {
                r.push((SectorName::Finance, 90u32));
                r.push((SectorName::Technology, 10u32));
            },
            Company::Inditex => {
                r.push((SectorName::Fashion, 60u32));
                r.push((SectorName::Retail, 40u32));
            },
            Company::LockheedMartin => {
                r.push((SectorName::Military, 80u32));
                r.push((SectorName::Transport, 20u32));
            },
            Company::LVMH => {
                r.push((SectorName::Fashion, 80u32));
                r.push((SectorName::Retail, 20u32));
            },
            Company::Maersk => {
                r.push((SectorName::Transport, 80u32));
                r.push((SectorName::Energy, 20u32));
            },
            Company::Moderna => {
                r.push((SectorName::Healthcare, 90u32));
                r.push((SectorName::Technology, 10u32));
            },
            Company::Nestle => {
                r.push((SectorName::Food, 70u32));
                r.push((SectorName::Healthcare, 20u32));
                r.push((SectorName::Retail, 10u32));
            },
            Company::Nvidia => {
                r.push((SectorName::Technology, 85u32));
                r.push((SectorName::Military, 15u32));
            },
            Company::Pfizer => {
                r.push((SectorName::Healthcare, 90u32));
                r.push((SectorName::Retail, 10u32));
            },
            Company::RioTinto => {
                r.push((SectorName::Materials, 90u32));
                r.push((SectorName::Energy, 10u32));
            },
            Company::Shell => {
                r.push((SectorName::Energy, 80u32));
                r.push((SectorName::Materials, 20u32));
            },
            Company::Toyota => {
                r.push((SectorName::Transport, 60u32));
                r.push((SectorName::Energy, 10u32));
                r.push((SectorName::Technology, 10u32));
                r.push((SectorName::Retail, 10u32));
            },
            Company::Unilever => {
                r.push((SectorName::Retail, 50u32));
                r.push((SectorName::Food, 50u32));
            },
        }
        proof {
            assert(r@ =~= self.spec_sector_shares());
        }
        r
    }

    /// The ESG rating the company has when a game starts.
    pub open spec fn spec_starting_esg(self) -> ESGRating {
        match self {
            Company::Apple => ESGRating::AA,
            Company::Boeing => ESGRating::CCC,
            Company::GoldmanSachs => ESGRating::BB,
            Company::Inditex => ESGRating::A,
            Company::LockheedMartin => ESGRating::CCC,
            Company::LVMH => ESGRating::AA,
            Company::Maersk => ESGRating::A,
            Company::Moderna => ESGRating::AA,
            Company::Nestle => ESGRating::AAA,
            Company::Nvidia => ESGRating::A,
            Company::Pfizer => ESGRating::AA,
            Company::RioTinto => ESGRating::BBB,
            Company::Shell => ESGRating::BB,
            Company::Toyota => ESGRating::A,
            Company::Unilever => ESGRating::AAA,
        }
    }

    /// The ESG rating the company has when a game starts.
    pub fn starting_esg(&self) -> (r: ESGRating)
        ensures
            r == self.spec_starting_esg(),
    {
        match self {
            Company::Apple => ESGRating::AA,
            Company::Boeing => ESGRating::CCC,
            Company::GoldmanSachs => ESGRating::BB,
            Company::Inditex => ESGRating::A,
            Company::LockheedMartin => ESGRating::CCC,
            Company::LVMH => ESGRating::AA,
            Company::Maersk => ESGRating::A,
            Company::Moderna => ESGRating::AA,
            Company::Nestle => ESGRating::AAA,
            Company::Nvidia => ESGRating::A,
            Company::Pfizer => ESGRating::AA,
            Company::RioTinto => ESGRating::BBB,
            Company::Shell => ESGRating::BB,
            Company::Toyota => ESGRating::A,
            Company::Unilever => ESGRating::AAA,
        }
    }
}

/// The share in percent of a sector in a company's business: 0 when the company does
/// not work in it.
pub open spec fn share_of(shares: Seq<(SectorName, u32)>, sector: SectorName) -> int
    decreases shares.len(),
{
    if shares.len() == 0 {
        0
    } else if shares[0].0 == sector {
        shares[0].1 as int
    } else {
        share_of(shares.drop_first(), sector)
    }
}

impl Company {
    /// The share in percent of the sector in the company's business, 0 when it does
    /// not work in it.
    pub fn sector_share(&self, sector: SectorName) -> (r: u32)
        ensures
            r == share_of(self.spec_sector_shares(), sector),
    {
        let shares = self.sector_shares();
        let mut i: usize = 0;
        assert(shares@.skip(0) =~= shares@);
        while i < shares.len()
            invariant
                i <= shares.len(),
                share_of(shares@, sector) == share_of(shares@.skip(i as int), sector),
                shares@ == self.spec_sector_shares(),
            decreases shares.len() - i,
        {
            assert(shares@.skip(i as int).drop_first() =~= shares@.skip(i + 1));
            if shares[i].0 == sector {
                return shares[i].1;
            }
            i = i + 1;
        }
        assert(shares@.skip(i as int).len() == 0);
        0
    }
}

} // verus!
