//! The deal-opening transition: the single atomic step that turns an open
//! gig plus a client's acceptance into a funded deal.
//!
//! Every precondition is checked up front, before any effect, so a failing
//! opening observably does nothing: no funds move, no record is created.

use vstd::prelude::*;

use crate::fee::{client_fee, fee_computable, total_due};
use crate::model::{Config, CreateDealParams, Deal, DealError, Gig, Identity};
use crate::store::{same_pair, DealStore, OpenedDeal};

verus! {

/// The accounts the opening transition reads: the gig being accepted, the
/// global configuration, the accepting client, the settlement currency the
/// caller supplied, and the derivation salt for the new deal record.
#[derive(Clone, Copy, PartialEq, Eq, Debug)]
pub struct CreateDeal {
    /// Storage key of the gig record.
    pub gig_key: Identity,
    /// The gig record itself; read, never mutated here.
    pub gig: Gig,
    /// Global fee configuration.
    pub config: Config,
    /// The client accepting the gig: the signer whose wallet funds the
    /// escrow.
    pub owner: Identity,
    /// The settlement currency the caller supplied; must be the gig's mint.
    pub mint: Identity,
    /// Derivation salt recorded on the new deal.
    pub deal_bump: u8,
}

/// Anti-self-referral guard: a referrer identical to the client is dropped;
/// any other supplied referrer is recorded unchanged. The guard does not —
/// deliberately, as an open issue of the policy — stop a client from routing
/// credit through a second identity it controls.
pub open spec fn resolved_referrer(referrer: Option<Identity>, client: Identity) -> Option<
    Identity,
> {
    match referrer {
        Some(r) => if r == client {
            None
        } else {
            Some(r)
        },
        None => None,
    }
}

/// The deal record a successful opening persists.
pub open spec fn built_deal(ctx: CreateDeal, params: CreateDealParams, now: i64) -> Deal {
    Deal {
        bump: ctx.deal_bump,
        offer: params.offer,
        state: 1,
        gig: ctx.gig_key,
        freelancer: ctx.gig.owner,
        client: ctx.owner,
        referrer: resolved_referrer(params.referrer, ctx.owner),
        time_created: now,
        deadline: params.deadline,
    }
}

/// The first precondition of the opening transition that fails, or `None`
/// when the opening succeeds. The order is the order in which the host
/// system detects the failures: the create-once store first, then the
/// supplied accounts, then the arithmetic, then the wallet, and the
/// deadline last of all — which is why the transition must roll the
/// transfer and the record back in full when only the deadline is wrong.
pub open spec fn opening_error(
    store: DealStore,
    ctx: CreateDeal,
    owner_wallet: u64,
    params: CreateDealParams,
    now: i64,
) -> Option<DealError> {
    let offer = params.offer as int;
    let percentage = ctx.config.client_fee_percentage as int;
    let fee_min = ctx.config.client_fee_min as int;
    if store.has_deal_for(ctx.owner, ctx.gig_key) {
        Some(DealError::DuplicateDeal)
    } else if ctx.gig.mint != Some(ctx.mint) {
        Some(DealError::MintMismatch)
    } else if ctx.gig.state != 1 {
        Some(DealError::GigNotOpen)
    } else if params.offer < ctx.gig.asking {
        Some(DealError::InsufficientOffer)
    } else if !fee_computable(offer, percentage) {
        Some(DealError::ArithmeticOverflow)
    } else if total_due(offer, percentage, fee_min) > u64::MAX {
        Some(DealError::ArithmeticOverflow)
    } else if owner_wallet < total_due(offer, percentage, fee_min) {
        Some(DealError::InsufficientFunds)
    } else if now + ctx.gig.min_completion_time > params.deadline {
        Some(DealError::DeadlineTooShort)
    } else {
        None
    }
}

/// Pre-flight validation: returns the first failing precondition of the
/// opening, before any side-effecting step runs.
pub fn validate_opening(
    store: &DealStore,
    ctx: &CreateDeal,
    owner_wallet: u64,
    params: &CreateDealParams,
    now: i64,
) -> (r: Option<DealError>)
    requires
        i64::MIN <= now + ctx.gig.min_completion_time <= i64::MAX,
    ensures
        r == opening_error(*store, *ctx, owner_wallet, *params, now),
{
    if store.contains_pair(ctx.owner, ctx.gig_key) {
        return Some(DealError::DuplicateDeal);
    }
    let mint_matches = match ctx.gig.mint {
        Some(m) => m == ctx.mint,
        None => false,
    };
    if !mint_matches {
        return Some(DealError::MintMismatch);
    }
    if ctx.gig.state != 1 {
        return Some(DealError::GigNotOpen);
    }
    if params.offer < ctx.gig.asking {
        return Some(DealError::InsufficientOffer);
    }
    let fee: u64 = match client_fee(
        params.offer,
        ctx.config.client_fee_percentage,
        ctx.config.client_fee_min,
    ) {
        Ok(f) => f,
        Err(e) => {
            return Some(e);
        },
    };
    let total: u64 = match params.offer.checked_add(fee) {
        Some(t) => t,
        None => {
            return Some(DealError::ArithmeticOverflow);
        },
    };
    if owner_wallet < total {
        return Some(DealError::InsufficientFunds);
    }
    let earliest_deadline: i64 = now + ctx.gig.min_completion_time;
    if earliest_deadline > params.deadline {
        return Some(DealError::DeadlineTooShort);
    }
    None
}

/// The deal-opening transition. It validates the whole agreement, computes
/// the fee, moves `offer + fee` from the client's wallet into the escrow of
/// the new record, and persists the deal — all of it, or nothing: on any
/// error the store and the wallet are exactly as they were.
pub fn create_deal_handler(
    store: &mut DealStore,
    ctx: &CreateDeal,
    owner_wallet: &mut u64,
    params: CreateDealParams,
    now: i64,
) -> (r: Result<(), DealError>)
    requires
        old(store).wf(),
        i64::MIN <= now + ctx.gig.min_completion_time <= i64::MAX,
    ensures
        final(store).wf(),
        match opening_error(*old(store), *ctx, *old(owner_wallet), params, now) {
            Some(e) => {
                &&& r == Err::<(), DealError>(e)
                &&& *final(store) == *old(store)
                &&& *final(owner_wallet) == *old(owner_wallet)
            },
            None => {
                let total = total_due(
                    params.offer as int,
                    ctx.config.client_fee_percentage as int,
                    ctx.config.client_fee_min as int,
                );
                &&& r is Ok
                &&& *final(owner_wallet) == *old(owner_wallet) - total
                &&& final(store).records@ == old(store).records@.push(
                    (OpenedDeal { deal: built_deal(*ctx, params, now), escrow: total as u64 }),
                )
            },
        },
{
    match validate_opening(store, ctx, *owner_wallet, &params, now) {
        Some(e) => Err(e),
        None => {
            let fee: u64 = client_fee(
                params.offer,
                ctx.config.client_fee_percentage,
                ctx.config.client_fee_min,
            ).unwrap();
            let total: u64 = params.offer.checked_add(fee).unwrap();
            // The custody transfer: the wallet funds the new escrow in full,
            // atomically with the record creation below.
            *owner_wallet = *owner_wallet - total;
            let referrer = match params.referrer {
                Some(r) => if r == ctx.owner {
                    None
                } else {
                    Some(r)
                },
                None => None,
            };
            let deal = Deal {
                bump: ctx.deal_bump,
                offer: params.offer,
                state: 1,
                gig: ctx.gig_key,
                freelancer: ctx.gig.owner,
                client: ctx.owner,
                referrer,
                time_created: now,
                deadline: params.deadline,
            };
            store.records.push(OpenedDeal { deal, escrow: total });
            proof {
                let pre = old(store).records@;
                let post = store.records@;
                assert forall|i: int, j: int|
                    0 <= i < j < post.len() implies !same_pair(post[i].deal, post[j].deal) by {
                    if j < pre.len() {
                        assert(!same_pair((pre[i]).deal, (pre[j]).deal));
                    } else {
                        assert(post[i] == pre[i]);
                        assert(!((pre[i]).deal.client == ctx.owner && (pre[i]).deal.gig
                            == ctx.gig_key));
                    }
                }
            }
            Ok(())
        },
    }
}

} // verus!
