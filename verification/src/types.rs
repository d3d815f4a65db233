//! The protocol's records: invoices (the tokenized real-world assets),
//! underwriting verdicts, statistics, events and errors.

use vstd::prelude::*;
use crate::address::Address;
use crate::motes::Motes;

verus! {

/// Lifecycle status of an invoice: registered by the farmer.
pub const STATUS_REGISTERED: u8 = 0;
/// Lifecycle status of an invoice: a verdict was posted, it may be funded.
pub const STATUS_EVALUATED: u8 = 1;
/// Lifecycle status of an invoice: a liquidity provider advanced capital.
pub const STATUS_FUNDED: u8 = 2;
/// Lifecycle status of an invoice: repaid and settled.
pub const STATUS_SETTLED: u8 = 3;
/// Lifecycle status of an invoice: written off after the grace period.
pub const STATUS_DEFAULTED: u8 = 4;

/// Why a call is refused; the call then changes nothing.
#[derive(Clone, Copy, Debug, PartialEq, Eq)]
pub enum Error {
    NotOwner,
    NotAuthorized,
    InvoiceNotFound,
    NotEvaluated,
    InsufficientPayment,
    CannotRepayEarly,
    NotFunded,
    WrongStatus,
    AdvanceTooHigh,
    InvalidAmount,
    UnauthorizedFunder,
    NotPastGrace,
    VerdictNotFound,
}

/// The user error code that the contract reverts with.
pub open spec fn error_code(e: Error) -> u16 {
    match e {
        Error::NotOwner => 1,
        Error::NotAuthorized => 2,
        Error::InvoiceNotFound => 3,
        Error::NotEvaluated => 5,
        Error::InsufficientPayment => 6,
        Error::CannotRepayEarly => 14,
        Error::NotFunded => 12,
        Error::WrongStatus => 13,
        Error::AdvanceTooHigh => 9,
        Error::InvalidAmount => 10,
        Error::UnauthorizedFunder => 11,
        Error::NotPastGrace => 15,
        Error::VerdictNotFound => 16,
    }
}

impl Error {
    /// The user error code that the contract reverts with.
    pub fn code(&self) -> (r: u16)
        ensures
            r == error_code(*self),
    {
        match self {
            Error::NotOwner => 1,
            Error::NotAuthorized => 2,
            Error::InvoiceNotFound => 3,
            Error::NotEvaluated => 5,
            Error::InsufficientPayment => 6,
            Error::CannotRepayEarly => 14,
            Error::NotFunded => 12,
            Error::WrongStatus => 13,
            Error::AdvanceTooHigh => 9,
            Error::InvalidAmount => 10,
            Error::UnauthorizedFunder => 11,
            Error::NotPastGrace => 15,
            Error::VerdictNotFound => 16,
        }
    }
}

/// A tokenized farmer invoice: the real-world asset tracked on-chain.
#[derive(Debug)]
pub struct Invoice {
    /// Sequential token id.
    pub id: u64,
    /// The farmer who owns the harvest.
    pub farmer: Address,
    /// Commodity, e.g. "Cocoa".
    pub commodity: String,
    /// Production region.
    pub region: String,
    /// Full face value of the invoice.
    pub face_amount: Motes,
    /// Working capital advanced to the farmer by the funder.
    pub advance_amount: Motes,
    /// Block time at which the invoice is due.
    pub maturity: u64,
    /// Lifecycle status (one of the `STATUS_*` constants).
    pub status: u8,
    /// The liquidity provider that funded the invoice (zero address until then).
    pub funder: Address,
    /// Block time when the invoice was registered.
    pub created_at: u64,
}

impl Clone for Invoice {
    fn clone(&self) -> (r: Self)
        ensures
            r == *self,
    {
        Invoice {
            id: self.id,
            farmer: self.farmer,
            commodity: self.commodity.clone(),
            region: self.region.clone(),
            face_amount: self.face_amount,
            advance_amount: self.advance_amount,
            maturity: self.maturity,
            status: self.status,
            funder: self.funder,
            created_at: self.created_at,
        }
    }
}

/// An underwriting verdict posted by an authorized agent.
#[derive(Debug)]
pub struct RiskVerdict {
    pub invoice_id: u64,
    /// Credit score, 0 to 1000 (higher is safer).
    pub score: u32,
    /// Risk band, e.g. "AAA".
    pub risk_band: String,
    /// Largest share of the face value (basis points) that may be advanced.
    pub max_advance_bps: u32,
    /// Recommended annual discount rate in basis points.
    pub discount_rate_bps: u32,
    /// Hash of the off-chain underwriting data.
    pub data_hash: String,
    /// The agent that posted the verdict.
    pub agent: Address,
    /// Block time of the verdict.
    pub timestamp: u64,
    /// What the agent paid for data feeds for this verdict.
    pub x402_cost: Motes,
}

impl Clone for RiskVerdict {
    fn clone(&self) -> (r: Self)
        ensures
            r == *self,
    {
        RiskVerdict {
            invoice_id: self.invoice_id,
            score: self.score,
            risk_band: self.risk_band.clone(),
            max_advance_bps: self.max_advance_bps,
            discount_rate_bps: self.discount_rate_bps,
            data_hash: self.data_hash.clone(),
            agent: self.agent,
            timestamp: self.timestamp,
            x402_cost: self.x402_cost,
        }
    }
}

/// Aggregated protocol statistics.
#[derive(Clone, Copy, Debug, PartialEq, Eq)]
pub struct ProtocolStats {
    pub total_invoices: u64,
    pub total_funded: Motes,
    pub total_settled: Motes,
    pub total_defaulted: Motes,
    pub total_x402_spent: Motes,
    pub active_agents: u32,
}

/// A transfer of native tokens that a call makes: `amount` motes to `to`.
#[derive(Clone, Copy, Debug)]
pub struct Payment {
    pub to: Address,
    pub amount: Motes,
}

/// Emitted when a farmer registers an invoice.
#[derive(Debug)]
pub struct InvoiceRegistered {
    pub invoice_id: u64,
    pub farmer: Address,
    pub commodity: String,
    pub face_amount: Motes,
}

/// Emitted when an agent posts a verdict.
#[derive(Debug)]
pub struct VerdictPosted {
    pub invoice_id: u64,
    pub score: u32,
    pub risk_band: String,
    pub agent: Address,
    pub x402_cost: Motes,
}

/// Emitted when a liquidity provider funds an invoice.
#[derive(Clone, Copy, Debug)]
pub struct InvoiceFunded {
    pub invoice_id: u64,
    pub funder: Address,
    pub advance_amount: Motes,
}

/// Emitted when an invoice is repaid and settled.
#[derive(Clone, Copy, Debug)]
pub struct InvoiceSettled {
    pub invoice_id: u64,
    pub funder: Address,
    pub repayment: Motes,
    pub fee: Motes,
}

/// Emitted when an invoice is declared in default.
#[derive(Clone, Copy, Debug)]
pub struct InvoiceDefaulted {
    pub invoice_id: u64,
    pub funder: Address,
}

/// Emitted when the owner authorizes a new agent.
#[derive(Clone, Copy, Debug)]
pub struct AgentAuthorized {
    pub agent: Address,
}

} // verus!
