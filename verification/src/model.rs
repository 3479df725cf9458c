//! The data the opening transition reads and writes: identities, the gig
//! being accepted, the global fee configuration, the deal record it
//! persists, and everything that can make it fail.

use vstd::prelude::*;

verus! {

/// An opaque account identity in the host system: a party or a record key.
/// The transition only ever compares identities for equality.
#[derive(Clone, Copy, PartialEq, Eq, Structural, Debug)]
pub struct Identity {
    pub id: u64,
}

/// A freelancer's offer to do work.
#[derive(Clone, Copy, PartialEq, Eq, Debug)]
pub struct Gig {
    /// The freelancer who posted the gig.
    pub owner: Identity,
    /// Settlement currency; `None` means the native currency, which this
    /// transition does not support and rejects at the mint check.
    pub mint: Option<Identity>,
    /// Minimum acceptable price, in the currency's smallest unit.
    pub asking: u64,
    /// Minimum duration the work is guaranteed to take, in time units.
    pub min_completion_time: i64,
    /// Lifecycle state; `1` means open for acceptance.
    pub state: u8,
}

/// Process-wide fee parameters, administered elsewhere and read-only here.
#[derive(Clone, Copy, PartialEq, Eq, Debug)]
pub struct Config {
    /// Derivation salt of the configuration record's storage key.
    pub bump: u8,
    /// Fee rate applied to the offer, in basis points scaled by 100, so a
    /// divisor of 10_000.
    pub client_fee_percentage: u64,
    /// Minimum fee charged regardless of the percentage cut. It is
    /// denominated in one reference currency but applied to every mint — a
    /// known approximation of the fee policy, kept as it stands.
    pub client_fee_min: u64,
}

/// An accepted agreement between a client and a gig's owner, backed by
/// escrowed funds. One such record exists per (client, gig) pair.
#[derive(Clone, Copy, PartialEq, Eq, Debug)]
pub struct Deal {
    /// Derivation salt of the record's storage key.
    pub bump: u8,
    /// Agreed price.
    pub offer: u64,
    /// Lifecycle state; `1` means active and funded.
    pub state: u8,
    /// Key of the accepted gig record.
    pub gig: Identity,
    /// The gig's owner.
    pub freelancer: Identity,
    /// The client who opened the deal.
    pub client: Identity,
    /// Third party entitled to referral credit; `None` if absent or if the
    /// would-be referrer is the client itself.
    pub referrer: Option<Identity>,
    /// Time at which the deal was opened.
    pub time_created: i64,
    /// Time after which the deal is overdue.
    pub deadline: i64,
}

/// The client's request to open a deal.
#[derive(Clone, Copy, PartialEq, Eq, Debug)]
pub struct CreateDealParams {
    /// Identity claiming referral credit, if any.
    pub referrer: Option<Identity>,
    /// Offered price; must cover the gig's asking price.
    pub offer: u64,
    /// Proposed deadline; must leave at least the gig's minimum completion
    /// time from the opening instant.
    pub deadline: i64,
}

/// Everything that can make the opening transition fail. Any failure aborts
/// the whole transition: no funds move and no record is created.
#[derive(Clone, Copy, PartialEq, Eq, Structural, Debug)]
pub enum DealError {
    /// A deal for this (client, gig) pair already exists.
    DuplicateDeal,
    /// The supplied settlement currency is not the gig's mint.
    MintMismatch,
    /// The gig is not open for acceptance.
    GigNotOpen,
    /// The offer is below the gig's asking price.
    InsufficientOffer,
    /// The fee or the escrow total leaves the 64-bit range; the transition
    /// fails rather than wraps.
    ArithmeticOverflow,
    /// The deadline violates the gig's minimum completion time.
    DeadlineTooShort,
    /// The client's wallet cannot cover the offer plus the fee.
    InsufficientFunds,
}

} // verus!
