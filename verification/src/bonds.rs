use vstd::prelude::*;

use crate::countries::CountryName;
use crate::names::{lower_text, split_words, NameFromEnum};
use crate::stocks::Company;

verus! {

/// Who issues a bond.
#[derive(Clone, Copy, Debug, PartialEq, Eq, Structural)]
pub enum BondKind {
    Government,
    Corporate,
}

impl NameFromEnum for BondKind {
    open spec fn spec_ident(&self) -> Seq<char> {
        match self {
            BondKind::Government => "Government"@,
            BondKind::Corporate => "Corporate"@,
        }
    }

    fn ident(&self) -> (r: &'static str) {
        match self {
            BondKind::Government => "Government",
            BondKind::Corporate => "Corporate",
        }
    }
}

impl BondKind {
    pub open spec fn spec_emoji(self) -> &'static str {
        match self {
            BondKind::Government => "💼",
            BondKind::Corporate => "🏢",
        }
    }

    /// The icon of the kind of bond.
    pub fn emoji(&self) -> (r: &'static str)
        ensures
            r == self.spec_emoji(),
    {
        match self {
            BondKind::Government => "💼",
            BondKind::Corporate => "🏢",
        }
    }
}

impl Default for BondKind {
    /// Government bonds.
    fn default() -> (r: Self)
        ensures
            r == BondKind::Government,
    {
        BondKind::Government
    }
}

/// Credit rating of a bond, from best (AAA) to worst (C).
#[derive(Clone, Copy, Debug, PartialEq, Eq, PartialOrd, Ord, Structural)]
pub enum BondQuality {
    AAA,
    AA,
    A,
    BBB,
    BB,
    B,
    CCC,
    CC,
    C,
}

impl NameFromEnum for BondQuality {
    open spec fn spec_ident(&self) -> Seq<char> {
        match self {
            BondQuality::AAA => "AAA"@,
            BondQuality::AA => "AA"@,
            BondQuality::A => "A"@,
            BondQuality::BBB => "BBB"@,
            BondQuality::BB => "BB"@,
            BondQuality::B => "B"@,
            BondQuality::CCC => "CCC"@,
            BondQuality::CC => "CC"@,
            BondQuality::C => "C"@,
        }
    }

    fn ident(&self) -> (r: &'static str) {
        match self {
            BondQuality::AAA => "AAA",
            BondQuality::AA => "AA",
            BondQuality::A => "A",
            BondQuality::BBB => "BBB",
            BondQuality::BB => "BB",
            BondQuality::B => "B",
            BondQuality::CCC => "CCC",
            BondQuality::CC => "CC",
            BondQuality::C => "C",
        }
    }
}

/// Description of a high-yield bond.
pub const HIGH_YIELD_TEXT: &'static str =
    "High yield (junk) bond. Offers higher interest due to the increased risk of default.";

/// Description of an investment-grade bond.
pub const INVESTMENT_GRADE_TEXT: &'static str = "Investment grade bond. Low risk of default.";

impl BondQuality {
    /// Position on the scale: 0 for AAA (best) up to 8 for C (worst).
    pub open spec fn rank(self) -> int {
        match self {
            BondQuality::AAA => 0,
            BondQuality::AA => 1,
            BondQuality::A => 2,
            BondQuality::BBB => 3,
            BondQuality::BB => 4,
            BondQuality::B => 5,
            BondQuality::CCC => 6,
            BondQuality::CC => 7,
            BondQuality::C => 8,
        }
    }

    /// Whether the bond is rated B or worse.
    pub fn is_high_yield(&self) -> (r: bool)
        ensures
            r == (self.rank() >= 5),
    {
        matches!(self, BondQuality::B | BondQuality::CCC | BondQuality::CC | BondQuality::C)
    }

    /// What the rating means for the holder.
    pub fn description(&self) -> (r: &'static str)
        ensures
            r == if self.rank() >= 5 { HIGH_YIELD_TEXT } else { INVESTMENT_GRADE_TEXT },
    {
        if self.is_high_yield() {
            HIGH_YIELD_TEXT
        } else {
            INVESTMENT_GRADE_TEXT
        }
    }

    /// Whether the rating is at least as bad as `other` (AAA is the smallest rating
    /// and C the largest in the rating's order).
    pub fn at_least_as_bad_as(&self, other: &BondQuality) -> (r: bool)
        ensures
            r == (self.rank() >= other.rank()),
    {
        self.index() >= other.index()
    }

    fn index(&self) -> (r: u8)
        ensures
            r == self.rank(),
    {
        match self {
            BondQuality::AAA => 0,
            BondQuality::AA => 1,
            BondQuality::A => 2,
            BondQuality::BBB => 3,
            BondQuality::BB => 4,
            BondQuality::B => 5,
            BondQuality::CCC => 6,
            BondQuality::CC => 7,
            BondQuality::C => 8,
        }
    }
}

/// The issuer of a bond: a country's government or a company.
#[derive(Clone, Copy, Debug, PartialEq, Eq, Structural)]
pub enum BondIssuer {
    Government(CountryName),
    Corporate(Company),
}

impl BondIssuer {
    /// The identifier of the country or company that issues the bond.
    pub open spec fn issuer_ident(self) -> Seq<char> {
        match self {
            BondIssuer::Government(country) => country.spec_ident(),
            BondIssuer::Corporate(company) => company.spec_ident(),
        }
    }

    /// The name of the issuer, e.g. "Goldman Sachs".
    pub fn to_name(&self) -> (r: String)
        ensures
            r@ == split_words(self.issuer_ident()),
    {
        match self {
            BondIssuer::Government(country) => country.to_name(),
            BondIssuer::Corporate(company) => company.to_name(),
        }
    }

    /// The lower-case name of the bond, e.g. "goldman sachs bond".
    pub fn to_lowername(&self) -> (r: String)
        ensures
            r@ == lower_text(split_words(self.issuer_ident())) + " bond"@,
    {
        let mut name = match self {
            BondIssuer::Government(country) => country.to_lowername(),
            BondIssuer::Corporate(company) => company.to_lowername(),
        };
        name.append(" bond");
        name
    }

    /// The description of the issuing country or company.
    pub fn description(&self) -> (r: &'static str)
        ensures
            r == match self {
                BondIssuer::Government(country) => country.spec_description(),
                BondIssuer::Corporate(company) => company.spec_description(),
            },
    {
        match self {
            BondIssuer::Government(country) => country.description(),
            BondIssuer::Corporate(company) => company.description(),
        }
    }

    /// Government or corporate.
    pub fn kind(&self) -> (r: BondKind)
        ensures
            r == match self {
                BondIssuer::Government(_) => BondKind::Government,
                BondIssuer::Corporate(_) => BondKind::Corporate,
            },
    {
        match self {
            BondIssuer::Government(_) => BondKind::Government,
            BondIssuer::Corporate(_) => BondKind::Corporate,
        }
    }

    /// The key of the bond's picture: the country's lower-case name for a government
    /// bond, the company's lower-case name followed by "-bond" for a corporate one.
    pub fn image(&self) -> (r: String)
        ensures
            r@ == match self {
                BondIssuer::Government(country) => lower_text(split_words(country.spec_ident())),
                BondIssuer::Corporate(company) => lower_text(split_words(company.spec_ident()))
                    + "-bond"@,
            },
    {
        match self {
            BondIssuer::Government(country) => country.to_lowername(),
            BondIssuer::Corporate(company) => {
                let mut name = company.to_lowername();
                name.append("-bond");
                name
            },
        }
    }
}

impl BondIssuer {
    /// The rating the issuer's bonds have when a game starts.
    pub open spec fn spec_starting_quality(self) -> BondQuality {
        match self {
            BondIssuer::Government(CountryName::Australia) => BondQuality::AA,
            BondIssuer::Government(CountryName::Brazil) => BondQuality::BBB,
            BondIssuer::Government(CountryName::Canada) => BondQuality::AAA,
            BondIssuer::Government(CountryName::China) => BondQuality::A,
            BondIssuer::Government(CountryName::EU) => BondQuality::AAA,
            BondIssuer::Government(CountryName::Japan) => BondQuality::AAA,
            BondIssuer::Government(CountryName::Russia) => BondQuality::CCC,
            BondIssuer::Government(CountryName::SaudiArabia) => BondQuality::BBB,
            BondIssuer::Government(CountryName::SouthAfrica) => BondQuality::CC,
            BondIssuer::Government(CountryName::Ukraine) => BondQuality::CC,
            BondIssuer::Government(CountryName::USA) => BondQuality::AAA,
            BondIssuer::Government(CountryName::Venezuela) => BondQuality::C,
            BondIssuer::Corporate(Company::Apple) => BondQuality::AAA,
            BondIssuer::Corporate(Company::Boeing) => BondQuality::A,
            BondIssuer::Corporate(Company::GoldmanSachs) => BondQuality::AA,
            BondIssuer::Corporate(Company::Inditex) => BondQuality::A,
            BondIssuer::Corporate(Company::LockheedMartin) => BondQuality::B,
            BondIssuer::Corporate(Company::LVMH) => BondQuality::A,
            BondIssuer::Corporate(Company::Maersk) => BondQuality::BBB,
            BondIssuer::Corporate(Company::Moderna) => BondQuality::BB,
            BondIssuer::Corporate(Company::Nestle) => BondQuality::AAA,
            BondIssuer::Corporate(Company::Nvidia) => BondQuality::B,
            BondIssuer::Corporate(Company::Pfizer) => BondQuality::A,
            BondIssuer::Corporate(Company::RioTinto) => BondQuality::BB,
            BondIssuer::Corporate(Company::Shell) => BondQuality::AAA,
            BondIssuer::Corporate(Company::Toyota) => BondQuality::AAA,
            BondIssuer::Corporate(Company::Unilever) => BondQuality::A,
        }
    }

    /// The rating the issuer's bonds have when a game starts.
    pub fn starting_quality(&self) -> (r: BondQuality)
        ensures
            r == self.spec_starting_quality(),
    {
        match self {
            BondIssuer::Government(CountryName::Australia) => BondQuality::AA,
            BondIssuer::Government(CountryName::Brazil) => BondQuality::BBB,
            BondIssuer::Government(CountryName::Canada) => BondQuality::AAA,
            BondIssuer::Government(CountryName::China) => BondQuality::A,
            BondIssuer::Government(CountryName::EU) => BondQuality::AAA,
            BondIssuer::Government(CountryName::Japan) => BondQuality::AAA,
            BondIssuer::Government(CountryName::Russia) => BondQuality::CCC,
            BondIssuer::Government(CountryName::SaudiArabia) => BondQuality::BBB,
            BondIssuer::Government(CountryName::SouthAfrica) => BondQuality::CC,
            BondIssuer::Government(CountryName::Ukraine) => BondQuality::CC,
            BondIssuer::Government(CountryName::USA) => BondQuality::AAA,
            BondIssuer::Government(CountryName::Venezuela) => BondQuality::C,
            BondIssuer::Corporate(Company::Apple) => BondQuality::AAA,
            BondIssuer::Corporate(Company::Boeing) => BondQuality::A,
            BondIssuer::Corporate(Company::GoldmanSachs) => BondQuality::AA,
            BondIssuer::Corporate(Company::Inditex) => BondQuality::A,
            BondIssuer::Corporate(Company::LockheedMartin) => BondQuality::B,
            BondIssuer::Corporate(Company::LVMH) => BondQuality::A,
            BondIssuer::Corporate(Company::Maersk) => BondQuality::BBB,
            BondIssuer::Corporate(Company::Moderna) => BondQuality::BB,
            BondIssuer::Corporate(Company::Nestle) => BondQuality::AAA,
            BondIssuer::Corporate(Company::Nvidia) => BondQuality::B,
            BondIssuer::Corporate(Company::Pfizer) => BondQuality::A,
            BondIssuer::Corporate(Company::RioTinto) => BondQuality::BB,
            BondIssuer::Corporate(Company::Shell) => BondQuality::AAA,
            BondIssuer::Corporate(Company::Toyota) => BondQuality::AAA,
            BondIssuer::Corporate(Company::Unilever) => BondQuality::A,
        }
    }
}

} // verus!
