use vstd::prelude::*;

use crate::bonds::BondKind;
use crate::names::NameFromEnum;

verus! {

/// The tabs of the main window.
#[derive(Clone, Copy, Debug, PartialEq, Eq, Structural)]
pub enum Tab {
    Overview,
    Stocks,
    Bonds,
    Forex,
    Commodities,
    Crypto,
    Credit,
    Policies,
}

impl NameFromEnum for Tab {
    open spec fn spec_ident(&self) -> Seq<char> {
        match self {
            Tab::Overview => "Overview"@,
            Tab::Stocks => "Stocks"@,
            Tab::Bonds => "Bonds"@,
            Tab::Forex => "Forex"@,
            Tab::Commodities => "Commodities"@,
            Tab::Crypto => "Crypto"@,
            Tab::Credit => "Credit"@,
            Tab::Policies => "Policies"@,
        }
    }

    fn ident(&self) -> (r: &'static str) {
        match self {
            Tab::Overview => "Overview",
            Tab::Stocks => "Stocks",
            Tab::Bonds => "Bonds",
            Tab::Forex => "Forex",
            Tab::Commodities => "Commodities",
            Tab::Crypto => "Crypto",
            Tab::Credit => "Credit",
            Tab::Policies => "Policies",
        }
    }
}

impl Tab {
    pub open spec fn spec_emoji(self) -> &'static str {
        match self {
            Tab::Overview => "🗺",
            Tab::Stocks => "📈",
            Tab::Bonds => "💵",
            Tab::Forex => "💱",
            Tab::Commodities => "🌾",
            Tab::Crypto => "💸",
            Tab::Credit => "💳",
            Tab::Policies => "📜",
        }
    }

    /// The icon of the tab.
    pub fn emoji(&self) -> (r: &'static str)
        ensures
            r == self.spec_emoji(),
    {
        match self {
            Tab::Overview => "🗺",
            Tab::Stocks => "📈",
            Tab::Bonds => "💵",
            Tab::Forex => "💱",
            Tab::Commodities => "🌾",
            Tab::Crypto => "💸",
            Tab::Credit => "💳",
            Tab::Policies => "📜",
        }
    }
}

impl Default for Tab {
    /// The overview.
    fn default() -> (r: Self)
        ensures
            r == Tab::Overview,
    {
        Tab::Overview
    }
}

/// The tabs of the overview.
#[derive(Clone, Copy, Debug, PartialEq, Eq, Structural)]
pub enum OverviewTab {
    Portfolio,
    OrderBook,
    Derivatives,
    Debts,
}

impl NameFromEnum for OverviewTab {
    open spec fn spec_ident(&self) -> Seq<char> {
        match self {
            OverviewTab::Portfolio => "Portfolio"@,
            OverviewTab::OrderBook => "OrderBook"@,
            OverviewTab::Derivatives => "Derivatives"@,
            OverviewTab::Debts => "Debts"@,
        }
    }

    fn ident(&self) -> (r: &'static str) {
        match self {
            OverviewTab::Portfolio => "Portfolio",
            OverviewTab::OrderBook => "OrderBook",
            OverviewTab::Derivatives => "Derivatives",
            OverviewTab::Debts => "Debts",
        }
    }
}

impl OverviewTab {
    pub open spec fn spec_emoji(self) -> &'static str {
        match self {
            OverviewTab::Portfolio => "📊",
            OverviewTab::OrderBook => "📋",
            OverviewTab::Derivatives => "🔮",
            OverviewTab::Debts => "💳",
        }
    }

    /// The icon of the tab.
    pub fn emoji(&self) -> (r: &'static str)
        ensures
            r == self.spec_emoji(),
    {
        match self {
            OverviewTab::Portfolio => "📊",
            OverviewTab::OrderBook => "📋",
            OverviewTab::Derivatives => "🔮",
            OverviewTab::Debts => "💳",
        }
    }
}

impl Default for OverviewTab {
    /// The portfolio.
    fn default() -> (r: Self)
        ensures
            r == OverviewTab::Portfolio,
    {
        OverviewTab::Portfolio
    }
}

/// The tabs of the credit window.
#[derive(Clone, Copy, Debug, PartialEq, Eq, Structural)]
pub enum CreditTab {
    NewLoan,
    RepayLoan,
    IncreaseCollateral,
    P2P,
}

impl NameFromEnum for CreditTab {
    open spec fn spec_ident(&self) -> Seq<char> {
        match self {
            CreditTab::NewLoan => "NewLoan"@,
            CreditTab::RepayLoan => "RepayLoan"@,
            CreditTab::IncreaseCollateral => "IncreaseCollateral"@,
            CreditTab::P2P => "P2P"@,
        }
    }

    fn ident(&self) -> (r: &'static str) {
        match self {
            CreditTab::NewLoan => "NewLoan",
            CreditTab::RepayLoan => "RepayLoan",
            CreditTab::IncreaseCollateral => "IncreaseCollateral",
            CreditTab::P2P => "P2P",
        }
    }
}

impl CreditTab {
    pub open spec fn spec_emoji(self) -> &'static str {
        match self {
            CreditTab::NewLoan => "✏",
            CreditTab::RepayLoan => "💰",
            CreditTab::IncreaseCollateral => "💲",
            CreditTab::P2P => "👤",
        }
    }

    /// The icon of the tab.
    pub fn emoji(&self) -> (r: &'static str)
        ensures
            r == self.spec_emoji(),
    {
        match self {
            CreditTab::NewLoan => "✏",
            CreditTab::RepayLoan => "💰",
            CreditTab::IncreaseCollateral => "💲",
            CreditTab::P2P => "👤",
        }
    }
}

impl Default for CreditTab {
    /// A new loan.
    fn default() -> (r: Self)
        ensures
            r == CreditTab::NewLoan,
    {
        CreditTab::NewLoan
    }
}

/// The columns a table can be ordered by.
#[derive(Clone, Copy, Debug, PartialEq, Eq, Structural)]
pub enum OrderOptions {
    Name,
    Kind,
    Created,
    StartDate,
    Maturity,
    Provider,
    Principal,
    Outstanding,
    Installment,
    Processed,
    OwnedAmount,
    OwnedValue,
    Price,
    Status,
    Action,
    Volatility,
    Quality,
    Debt,
    Collateral,
    Interest,
    Margin,
    Execute,
}

impl NameFromEnum for OrderOptions {
    open spec fn spec_ident(&self) -> Seq<char> {
        match self {
            OrderOptions::Name => "Name"@,
            OrderOptions::Kind => "Kind"@,
            OrderOptions::Created => "Created"@,
            OrderOptions::StartDate => "StartDate"@,
            OrderOptions::Maturity => "Maturity"@,
            OrderOptions::Provider => "Provider"@,
            OrderOptions::Principal => "Principal"@,
            OrderOptions::Outstanding => "Outstanding"@,
            OrderOptions::Installment => "Installment"@,
            OrderOptions::Processed => "Processed"@,
            OrderOptions::OwnedAmount => "OwnedAmount"@,
            OrderOptions::OwnedValue => "OwnedValue"@,
            OrderOptions::Price => "Price"@,
            OrderOptions::Status => "Status"@,
            OrderOptions::Action => "Action"@,
            OrderOptions::Volatility => "Volatility"@,
            OrderOptions::Quality => "Quality"@,
            OrderOptions::Debt => "Debt"@,
            OrderOptions::Collateral => "Collateral"@,
            OrderOptions::Interest => "Interest"@,
            OrderOptions::Margin => "Margin"@,
            OrderOptions::Execute => "Execute"@,
        }
    }

    fn ident(&self) -> (r: &'static str) {
        match self {
            OrderOptions::Name => "Name",
            OrderOptions::Kind => "Kind",
            OrderOptions::Created => "Created",
            OrderOptions::StartDate => "StartDate",
            OrderOptions::Maturity => "Maturity",
            OrderOptions::Provider => "Provider",
            OrderOptions::Principal => "Principal",
            OrderOptions::Outstanding => "Outstanding",
            OrderOptions::Installment => "Installment",
            OrderOptions::Processed => "Processed",
            OrderOptions::OwnedAmount => "OwnedAmount",
            OrderOptions::OwnedValue => "OwnedValue",
            OrderOptions::Price => "Price",
            OrderOptions::Status => "Status",
            OrderOptions::Action => "Action",
            OrderOptions::Volatility => "Volatility",
            OrderOptions::Quality => "Quality",
            OrderOptions::Debt => "Debt",
            OrderOptions::Collateral => "Collateral",
            OrderOptions::Interest => "Interest",
            OrderOptions::Margin => "Margin",
            OrderOptions::Execute => "Execute",
        }
    }
}

impl Default for OrderOptions {
    /// The name.
    fn default() -> (r: Self)
        ensures
            r == OrderOptions::Name,
    {
        OrderOptions::Name
    }
}

/// How a table is ordered: by which column, and whether downwards.
#[derive(Clone, Copy, Debug, PartialEq, Eq, Structural)]
pub struct OrderByState {
    pub order: OrderOptions,
    pub descending: bool,
}

impl Default for OrderByState {
    /// By name, upwards.
    fn default() -> (r: Self)
        ensures
            r == (OrderByState { order: OrderOptions::Name, descending: false }),
    {
        OrderByState { order: OrderOptions::Name, descending: false }
    }
}

impl OrderByState {
    /// The label of the ordering's direction.
    pub fn direction_label(&self) -> (r: &'static str)
        ensures
            r@ == if self.descending { "▼ Descending"@ } else { "▲ Ascending"@ },
    {
        if self.descending {
            "▼ Descending"
        } else {
            "▲ Ascending"
        }
    }

    /// The same column in the other direction.
    pub open spec fn spec_toggled(self) -> OrderByState {
        OrderByState { order: self.order, descending: !self.descending }
    }

    /// Flips the direction of the ordering, keeping the column.
    pub fn toggle_direction(&mut self)
        ensures
            *final(self) == old(self).spec_toggled(),
    {
        self.descending = !self.descending;
    }
}

/// Flipping the direction twice restores the ordering.
pub proof fn toggling_twice_restores(state: OrderByState)
    ensures
        state.spec_toggled().spec_toggled() == state,
        state.spec_toggled() != state,
{
}

/// The state of the overview: its tab and how each of its tables is ordered.
#[derive(Clone, Copy, Debug, PartialEq, Eq, Structural)]
pub struct OverviewState {
    pub tab: OverviewTab,
    pub stocks: OrderByState,
    pub commodities: OrderByState,
    pub crypto: OrderByState,
    pub pending_order: OrderByState,
    pub processed_order: OrderByState,
    pub pending_derivative: OrderByState,
    pub processed_derivative: OrderByState,
    pub term_loan: OrderByState,
    pub margin_loan: OrderByState,
}

impl Default for OverviewState {
    /// The portfolio, with holdings by value and orders by date, newest first;
    /// pending derivatives by maturity, soonest first; loans by size, largest first.
    fn default() -> (r: Self)
        ensures
            r == (OverviewState {
                tab: OverviewTab::Portfolio,
                stocks: OrderByState { order: OrderOptions::OwnedValue, descending: true },
                commodities: OrderByState { order: OrderOptions::OwnedValue, descending: true },
                crypto: OrderByState { order: OrderOptions::OwnedValue, descending: true },
                pending_order: OrderByState { order: OrderOptions::Created, descending: true },
                processed_order: OrderByState { order: OrderOptions::Processed, descending: true },
                pending_derivative: OrderByState { order: OrderOptions::Maturity, descending: false },
                processed_derivative: OrderByState { order: OrderOptions::Maturity, descending: true },
                term_loan: OrderByState { order: OrderOptions::Principal, descending: true },
                margin_loan: OrderByState { order: OrderOptions::Debt, descending: true },
            }),
    {
        OverviewState {
            tab: OverviewTab::Portfolio,
            stocks: OrderByState { order: OrderOptions::OwnedValue, descending: true },
            commodities: OrderByState { order: OrderOptions::OwnedValue, descending: true },
            crypto: OrderByState { order: OrderOptions::OwnedValue, descending: true },
            pending_order: OrderByState { order: OrderOptions::Created, descending: true },
            processed_order: OrderByState { order: OrderOptions::Processed, descending: true },
            pending_derivative: OrderByState { order: OrderOptions::Maturity, descending: false },
            processed_derivative: OrderByState { order: OrderOptions::Maturity, descending: true },
            term_loan: OrderByState { order: OrderOptions::Principal, descending: true },
            margin_loan: OrderByState { order: OrderOptions::Debt, descending: true },
        }
    }
}

/// The state of the bonds tab: the kind of bond shown and how each table is ordered.
#[derive(Clone, Copy, Debug, PartialEq, Eq, Structural)]
pub struct BondState {
    pub tab: BondKind,
    pub order_government: OrderByState,
    pub order_corporate: OrderByState,
}

impl Default for BondState {
    /// Government bonds, by name.
    fn default() -> (r: Self)
        ensures
            r.tab == BondKind::Government,
            r.order_government == (OrderByState { order: OrderOptions::Name, descending: false }),
            r.order_corporate == (OrderByState { order: OrderOptions::Name, descending: false }),
    {
        BondState {
            tab: BondKind::default(),
            order_government: OrderByState::default(),
            order_corporate: OrderByState::default(),
        }
    }
}

} // verus!
