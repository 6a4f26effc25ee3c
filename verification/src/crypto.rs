use vstd::prelude::*;

use crate::names::NameFromEnum;

verus! {

/// The description of Avalanche.
pub const CRYPTO_AVALANCHE: &'static str = "Avalanche is a decentralized platform launched in 2020, designed for building \
    scalable and secure blockchain applications. It features a unique consensus \
    mechanism called Avalanche consensus, which allows for high throughput and low \
    latency.";

/// The description of Bitcoin.
pub const CRYPTO_BITCOIN: &'static str = "Bitcoin is a digital currency launched in 2009 by an unknown person using the \
    name Satoshi Nakamoto. Bitcoin has a fixed supply of 21 million coins, with new \
    coins created through a process called mining, where participants solve \
    computational puzzles to validate transactions and secure the network.";

/// The description of BNB.
pub const CRYPTO_BNB: &'static str = "BNB (Binance Coin) is the native cryptocurrency of the Binance exchange, \
    launched in 2017. Initially created as a utility token for discounted trading \
    fees, BNB has expanded its use cases to include transaction fees on the Binance \
    Smart Chain, token sales on Binance Launchpad, and more.";

/// The description of Cardano.
pub const CRYPTO_CARDANO: &'static str = "Cardano is a proof-of-stake blockchain platform launched in 2017 by Charles \
    Hoskinson, a co-founder of Ethereum. It emphasizes academic research, formal \
    methods, and peer-reviewed development.";

/// The description of Celestia.
pub const CRYPTO_CELESTIA: &'static str = "Celestia is a modular blockchain network designed to provide scalability and \
    flexibility for decentralized applications. It separates consensus and data \
    availability from execution, allowing developers to build custom blockchains \
    without the overhead of a full stack.";

/// The description of Chainlink.
pub const CRYPTO_CHAINLINK: &'static str = "Chainlink is a decentralized oracle network launched in 2017, designed to \
    connect smart contracts with real-world data. It enables blockchains to securely \
    interact with external data sources, APIs, and payment systems.";

/// The description of Dogecoin.
pub const CRYPTO_DOGECOIN: &'static str = "Dogecoin is a cryptocurrency launched in 2013 as a lighthearted meme-based \
    alternative to Bitcoin, featuring the Shiba Inu dog from the 'Doge' meme. \
    It started as a joke but gained popularity for its active community and use \
    in online tipping and donations. Dogecoin uses proof-of-work mining, has no \
    supply cap, and relies on inflationary issuance.";

/// The description of Ethereum.
pub const CRYPTO_ETHEREUM: &'static str = "Ethereum was launched in 2015 by Vitalik Buterin, designed for building and \
    running smart contracts and decentralized applications (dApps). Unlike Bitcoin, \
    Ethereum is programmable, enabling complex logic directly on the blockchain.";

/// The description of Litecoin.
pub const CRYPTO_LITECOIN: &'static str = "Litecoin is a peer-to-peer cryptocurrency created in 2011 by Charlie Lee as a \
    'lite' version of Bitcoin. It features faster transaction times and a different \
    hashing algorithm (Scrypt) to allow for more efficient mining.";

/// The description of Pepe.
pub const CRYPTO_PEPE: &'static str = "Pepe is a meme-based cryptocurrency that gained popularity in 2023, inspired by \
    the Pepe the Frog meme. It is often used for community-driven projects and \
    speculative trading.";

/// The description of Polkadot.
pub const CRYPTO_POLKADOT: &'static str = "Polkadot is a multi-chain blockchain platform launched in 2020 by Dr. Gavin Wood, \
    co-founder of Ethereum. It enables different blockchains to interoperate and share \
    information, allowing for a more connected and scalable ecosystem.";

/// The description of Solana.
pub const CRYPTO_SOLANA: &'static str = "Solana is a high-performance blockchain platform launched in 2020, known for \
    its fast transaction speeds and low fees. It uses a unique consensus mechanism \
    called Proof of History (PoH) to achieve high throughput.";

/// The description of Stacks.
pub const CRYPTO_STACKS: &'static str = "Stacks is a layer-1 blockchain solution that brings smart contracts and \
    decentralized applications to Bitcoin. It enables developers to build on Bitcoin's \
    security while leveraging its existing infrastructure.";

/// The description of Toncoin.
pub const CRYPTO_TONCOIN: &'static str = "Toncoin is the native cryptocurrency of the TON blockchain, originally \
    developed by Telegram. It aims to provide fast and scalable transactions \
    with a focus on user-friendly applications.";

/// The description of Tron.
pub const CRYPTO_TRON: &'static str = "Tron is a blockchain platform launched in 2017, designed for building \
    decentralized applications (dApps) and content sharing. It aims to create a \
    decentralized internet and has its own native cryptocurrency, TRX.";

/// The description of Uniswap.
pub const CRYPTO_UNISWAP: &'static str = "Uniswap is a decentralized exchange (DEX) protocol built on the Ethereum \
    blockchain, allowing users to trade cryptocurrencies directly from their \
    wallets without intermediaries. It uses an automated market maker (AMM) model.";

/// The tradable cryptocurrencies.
#[derive(Clone, Copy, Debug, PartialEq, Eq, Structural)]
pub enum CryptoName {
    Avalanche,
    Bitcoin,
    BNB,
    Cardano,
    Celestia,
    Chainlink,
    Dogecoin,
    Ethereum,
    Litecoin,
    Pepe,
    Polkadot,
    Solana,
    Stacks,
    Toncoin,
    Tron,
    Uniswap,
}

impl NameFromEnum for CryptoName {
    open spec fn spec_ident(&self) -> Seq<char> {
        match self {
            CryptoName::Avalanche => "Avalanche"@,
            CryptoName::Bitcoin => "Bitcoin"@,
            CryptoName::BNB => "BNB"@,
            CryptoName::Cardano => "Cardano"@,
            CryptoName::Celestia => "Celestia"@,
            CryptoName::Chainlink => "Chainlink"@,
            CryptoName::Dogecoin => "Dogecoin"@,
            CryptoName::Ethereum => "Ethereum"@,
            CryptoName::Litecoin => "Litecoin"@,
            CryptoName::Pepe => "Pepe"@,
            CryptoName::Polkadot => "Polkadot"@,
            CryptoName::Solana => "Solana"@,
            CryptoName::Stacks => "Stacks"@,
            CryptoName::Toncoin => "Toncoin"@,
            CryptoName::Tron => "Tron"@,
            CryptoName::Uniswap => "Uniswap"@,
        }
    }

    fn ident(&self) -> (r: &'static str) {
        match self {
            CryptoName::Avalanche => "Avalanche",
            CryptoName::Bitcoin => "Bitcoin",
            CryptoName::BNB => "BNB",
            CryptoName::Cardano => "Cardano",
            CryptoName::Celestia => "Celestia",
            CryptoName::Chainlink => "Chainlink",
            CryptoName::Dogecoin => "Dogecoin",
            CryptoName::Ethereum => "Ethereum",
            CryptoName::Litecoin => "Litecoin",
            CryptoName::Pepe => "Pepe",
            CryptoName::Polkadot => "Polkadot",
            CryptoName::Solana => "Solana",
            CryptoName::Stacks => "Stacks",
            CryptoName::Toncoin => "Toncoin",
            CryptoName::Tron => "Tron",
            CryptoName::Uniswap => "Uniswap",
        }
    }
}

impl CryptoName {
    pub open spec fn spec_description(self) -> &'static str {
        match self {
            CryptoName::Avalanche => CRYPTO_AVALANCHE,
            CryptoName::Bitcoin => CRYPTO_BITCOIN,
            CryptoName::BNB => CRYPTO_BNB,
            CryptoName::Cardano => CRYPTO_CARDANO,
            CryptoName::Celestia => CRYPTO_CELESTIA,
            CryptoName::Chainlink => CRYPTO_CHAINLINK,
            CryptoName::Dogecoin => CRYPTO_DOGECOIN,
            CryptoName::Ethereum => CRYPTO_ETHEREUM,
            CryptoName::Litecoin => CRYPTO_LITECOIN,
            CryptoName::Pepe => CRYPTO_PEPE,
            CryptoName::Polkadot => CRYPTO_POLKADOT,
            CryptoName::Solana => CRYPTO_SOLANA,
            CryptoName::Stacks => CRYPTO_STACKS,
            CryptoName::Toncoin => CRYPTO_TONCOIN,
            CryptoName::Tron => CRYPTO_TRON,
            CryptoName::Uniswap => CRYPTO_UNISWAP,
        }
    }

    /// What the coin is.
    pub fn description(&self) -> (r: &'static str)
        ensures
            r == self.spec_description(),
    {
        match self {
            CryptoName::Avalanche => CRYPTO_AVALANCHE,
            CryptoName::Bitcoin => CRYPTO_BITCOIN,
            CryptoName::BNB => CRYPTO_BNB,
            CryptoName::Cardano => CRYPTO_CARDANO,
            CryptoName::Celestia => CRYPTO_CELESTIA,
            CryptoName::Chainlink => CRYPTO_CHAINLINK,
            CryptoName::Dogecoin => CRYPTO_DOGECOIN,
            CryptoName::Ethereum => CRYPTO_ETHEREUM,
            CryptoName::Litecoin => CRYPTO_LITECOIN,
            CryptoName::Pepe => CRYPTO_PEPE,
            CryptoName::Polkadot => CRYPTO_POLKADOT,
            CryptoName::Solana => CRYPTO_SOLANA,
            CryptoName::Stacks => CRYPTO_STACKS,
            CryptoName::Toncoin => CRYPTO_TONCOIN,
            CryptoName::Tron => CRYPTO_TRON,
            CryptoName::Uniswap => CRYPTO_UNISWAP,
        }
    }

    pub open spec fn spec_all() -> Seq<CryptoName> {
        seq![CryptoName::Avalanche, CryptoName::Bitcoin, CryptoName::BNB, CryptoName::Cardano, CryptoName::Celestia, CryptoName::Chainlink, CryptoName::Dogecoin, CryptoName::Ethereum, CryptoName::Litecoin, CryptoName::Pepe, CryptoName::Polkadot, CryptoName::Solana, CryptoName::Stacks, CryptoName::Toncoin, CryptoName::Tron, CryptoName::Uniswap]
    }

    /// Every variant, in declaration order.
    pub fn all() -> (r: Vec<CryptoName>)
        ensures
            r@ == Self::spec_all(),
    {
        let mut r: Vec<CryptoName> = Vec::new();
        r.push(CryptoName::Avalanche);
        r.push(CryptoName::Bitcoin);
        r.push(CryptoName::BNB);
        r.push(CryptoName::Cardano);
        r.push(CryptoName::Celestia);
        r.push(CryptoName::Chainlink);
        r.push(CryptoName::Dogecoin);
        r.push(CryptoName::Ethereum);
        r.push(CryptoName::Litecoin);
        r.push(CryptoName::Pepe);
        r.push(CryptoName::Polkadot);
        r.push(CryptoName::Solana);
        r.push(CryptoName::Stacks);
        r.push(CryptoName::Toncoin);
        r.push(CryptoName::Tron);
        r.push(CryptoName::Uniswap);
        proof {
            assert(r@ =~= Self::spec_all());
        }
        r
    }
}

impl Default for CryptoName {
    /// Avalanche.
    fn default() -> (r: Self)
        ensures
            r == CryptoName::Avalanche,
    {
        CryptoName::Avalanche
    }
}

} // verus!
