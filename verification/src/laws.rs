//! The properties the opening transition is held to, stated over the same
//! spec functions its contract uses, and proved once and for all. Together
//! with `create_deal_handler`'s contract — a rejected opening changes
//! nothing, a successful one escrows exactly the total due — these pin the
//! transition's observable behaviour.

use vstd::prelude::*;

use crate::fee::{fee_computable, fee_spec, total_due, FEE_RATE_DIVISOR};
use crate::model::{CreateDealParams, DealError};
use crate::store::{DealStore, OpenedDeal};
use crate::transition::{built_deal, opening_error, CreateDeal};

verus! {

/// Fee law: for every offer, the fee is exactly the integer-floored
/// percentage cut, floored at the configured minimum — the larger of the
/// two, nothing else. A successful opening then escrows `offer + fee`
/// exactly, by `create_deal_handler`'s contract.
pub proof fn lemma_fee_formula(offer: u64, percentage: u64, fee_min: u64)
    ensures
        ({
            let raw = percentage * offer / (FEE_RATE_DIVISOR as int);
            fee_spec(offer as int, percentage as int, fee_min as int) == if raw >= fee_min {
                raw
            } else {
                fee_min as int
            }
        }),
        total_due(offer as int, percentage as int, fee_min as int) == offer + fee_spec(
            offer as int,
            percentage as int,
            fee_min as int,
        ),
{
}

/// Rejection law for low offers: when the gig is open in the supplied
/// currency and no deal exists yet for the pair, an offer below the asking
/// price fails as insufficient — and a failing opening moves no funds and
/// persists no record, by `create_deal_handler`'s contract.
pub proof fn lemma_insufficient_offer_rejected(
    store: DealStore,
    ctx: CreateDeal,
    owner_wallet: u64,
    params: CreateDealParams,
    now: i64,
)
    requires
        !store.has_deal_for(ctx.owner, ctx.gig_key),
        ctx.gig.mint == Some(ctx.mint),
        ctx.gig.state == 1,
        params.offer < ctx.gig.asking,
    ensures
        opening_error(store, ctx, owner_wallet, params, now) == Some(
            DealError::InsufficientOffer,
        ),
{
}

/// Rejection law for short deadlines: once every earlier precondition
/// holds, a deadline short of the opening time plus the gig's minimum
/// completion time fails as too short. By `create_deal_handler`'s contract
/// the rejected opening leaves the store and the wallet untouched: no
/// escrow retains a balance and no deal record persists, however late the
/// deadline check sits in the sequence.
pub proof fn lemma_short_deadline_rejected(
    store: DealStore,
    ctx: CreateDeal,
    owner_wallet: u64,
    params: CreateDealParams,
    now: i64,
)
    requires
        !store.has_deal_for(ctx.owner, ctx.gig_key),
        ctx.gig.mint == Some(ctx.mint),
        ctx.gig.state == 1,
        params.offer >= ctx.gig.asking,
        fee_computable(params.offer as int, ctx.config.client_fee_percentage as int),
        total_due(
            params.offer as int,
            ctx.config.client_fee_percentage as int,
            ctx.config.client_fee_min as int,
        ) <= u64::MAX,
        owner_wallet >= total_due(
            params.offer as int,
            ctx.config.client_fee_percentage as int,
            ctx.config.client_fee_min as int,
        ),
        params.deadline < now + ctx.gig.min_completion_time,
    ensures
        opening_error(store, ctx, owner_wallet, params, now) == Some(DealError::DeadlineTooShort),
{
}

/// Referral law: the persisted deal never names the client as its own
/// referrer; any other supplied referrer is recorded unchanged, and an
/// absent one stays absent.
pub proof fn lemma_referrer_resolution(ctx: CreateDeal, params: CreateDealParams, now: i64)
    ensures
        params.referrer == Some(ctx.owner) ==> built_deal(ctx, params, now).referrer is None,
        params.referrer != Some(ctx.owner) ==> built_deal(ctx, params, now).referrer
            == params.referrer,
{
}

/// Uniqueness law, one store: while a deal for a (client, gig) pair is
/// stored, every opening for that pair fails as a duplicate, whatever the
/// offer, deadline, wallet or clock say — and a failing opening charges the
/// wallet nothing, by `create_deal_handler`'s contract.
pub proof fn lemma_duplicate_always_rejected(
    store: DealStore,
    ctx: CreateDeal,
    owner_wallet: u64,
    params: CreateDealParams,
    now: i64,
)
    requires
        store.has_deal_for(ctx.owner, ctx.gig_key),
    ensures
        opening_error(store, ctx, owner_wallet, params, now) == Some(DealError::DuplicateDeal),
{
}

/// Uniqueness law, two calls: after one opening succeeds, a second opening
/// for the same (client, gig) pair — under any parameters, wallet or clock,
/// and whoever else the second context names — fails as a duplicate. The
/// client is therefore never charged twice for one gig.
pub proof fn lemma_reopening_rejected(
    pre: DealStore,
    post: DealStore,
    rec: OpenedDeal,
    ctx: CreateDeal,
    owner_wallet: u64,
    params: CreateDealParams,
    now: i64,
    second_ctx: CreateDeal,
    second_wallet: u64,
    second_params: CreateDealParams,
    second_now: i64,
)
    requires
        opening_error(pre, ctx, owner_wallet, params, now) is None,
        rec.deal == built_deal(ctx, params, now),
        post.records@ == pre.records@.push(rec),
        second_ctx.owner == ctx.owner,
        second_ctx.gig_key == ctx.gig_key,
    ensures
        opening_error(post, second_ctx, second_wallet, second_params, second_now) == Some(
            DealError::DuplicateDeal,
        ),
{
    let n: int = pre.records@.len() as int;
    assert(post.records@[n] == rec);
    assert(post.records@[n].deal.client == second_ctx.owner);
    assert(post.records@[n].deal.gig == second_ctx.gig_key);
    assert(post.has_deal_for(second_ctx.owner, second_ctx.gig_key));
}

} // verus!
