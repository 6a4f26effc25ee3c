use vstd::prelude::*;

use crate::names::NameFromEnum;

verus! {

/// The coins of the first, smaller crypto market.
#[derive(Clone, Copy, Debug, PartialEq, Eq, Structural)]
pub enum CryptoName {
    Bitcoin,
    Cardano,
    Dogecoin,
    Ethereum,
    Pepe,
    Solana,
    Toncoin,
    Tron,
    Uniswap,
    USDC,
}

impl NameFromEnum for CryptoName {
    open spec fn spec_ident(&self) -> Seq<char> {
        match self {
            CryptoName::Bitcoin => "Bitcoin"@,
            CryptoName::Cardano => "Cardano"@,
            CryptoName::Dogecoin => "Dogecoin"@,
            CryptoName::Ethereum => "Ethereum"@,
            CryptoName::Pepe => "Pepe"@,
            CryptoName::Solana => "Solana"@,
            CryptoName::Toncoin => "Toncoin"@,
            CryptoName::Tron => "Tron"@,
            CryptoName::Uniswap => "Uniswap"@,
            CryptoName::USDC => "USDC"@,
        }
    }

    fn ident(&self) -> (r: &'static str) {
        match self {
            CryptoName::Bitcoin => "Bitcoin",
            CryptoName::Cardano => "Cardano",
            CryptoName::Dogecoin => "Dogecoin",
            CryptoName::Ethereum => "Ethereum",
            CryptoName::Pepe => "Pepe",
            CryptoName::Solana => "Solana",
            CryptoName::Toncoin => "Toncoin",
            CryptoName::Tron => "Tron",
            CryptoName::Uniswap => "Uniswap",
            CryptoName::USDC => "USDC",
        }
    }
}

impl Default for CryptoName {
    /// Bitcoin.
    fn default() -> (r: Self)
        ensures
            r == CryptoName::Bitcoin,
    {
        CryptoName::Bitcoin
    }
}

} // verus!
