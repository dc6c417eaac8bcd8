//! The guarantees the sale core gives, stated and proved as laws.
//!
//! Reachability is rendered by [`crate::sale::sale_step`]: every call of
//! [`crate::sale::deposit_ico_in_ata`] and [`crate::sale::buy_tokens`] ensures
//! that the old and new states stand in that relation, and every sale returned
//! by [`crate::sale::create_ico_ata`] satisfies the invariant
//! [`crate::sale::Sale::inv`]. The trace lemma below closes the induction:
//! along any sequence of transitions from a freshly created sale, the
//! invariant — and with it each of the pointwise laws — holds after every
//! step.

use vstd::prelude::*;

use crate::config::IcoConfig;
use crate::errors::SaleError;
use crate::sale::{
    purchase_outcome, purchase_step, quote_outcome, sale_step, topup_step, PurchaseReceipt, Sale,
};

verus! {

/// A single transition preserves the sale invariant.
pub proof fn lemma_step_preserves_invariant(pre: Sale, post: Sale, cfg: IcoConfig)
    requires
        cfg.wf(),
        pre.inv(cfg),
        sale_step(pre, post, cfg),
    ensures
        post.inv(cfg),
{
    if post == pre {
    } else if exists|amount: u64| #[trigger] topup_step(pre, post, cfg, amount) {
        let amount = choose|amount: u64| #[trigger] topup_step(pre, post, cfg, amount);
        let t = pre.data.total_tokens as int;
        let s = pre.data.tokens_sold as int;
        let a = amount as int;
        let d = cfg.token_decimals as int;
        assert((t - s) * d + a * d == (t + a - s) * d) by (nonlinear_arith);
    } else {
        let (buyer, amount) = choose|buyer: u64, amount: u64|
            #[trigger] purchase_step(pre, post, cfg, buyer, amount);
        let t = pre.data.total_tokens as int;
        let s = pre.data.tokens_sold as int;
        let a = amount as int;
        let d = cfg.token_decimals as int;
        assert(t - s >= a) by (nonlinear_arith)
            requires
                (t - s) * d >= a * d,
                d >= 1,
                t - s >= 0,
        ;
        assert((t - s) * d - a * d == (t - (s + a)) * d) by (nonlinear_arith);
        assert forall|b: u64| #[trigger] post.data.user_purchases.spec_get(b)
            <= cfg.max_user_total_limit by {
            if b != buyer {
                assert(pre.data.user_purchases.spec_get(b) <= cfg.max_user_total_limit);
            }
        }
    }
}

/// Along any sequence of transitions that starts in a state satisfying the
/// sale invariant — in particular, in a freshly created sale — the invariant
/// holds after every transition.
pub proof fn lemma_transition_sequences_keep_invariant(cfg: IcoConfig, trace: Seq<Sale>)
    requires
        cfg.wf(),
        trace.len() > 0,
        trace[0].inv(cfg),
        forall|i: int|
            0 <= i < trace.len() - 1 ==> sale_step(#[trigger] trace[i], trace[i + 1], cfg),
    ensures
        forall|i: int| 0 <= i < trace.len() ==> (#[trigger] trace[i]).inv(cfg),
    decreases trace.len(),
{
    if trace.len() > 1 {
        lemma_step_preserves_invariant(trace[0], trace[1], cfg);
        let rest = trace.subrange(1, trace.len() as int);
        assert forall|i: int|
            0 <= i < rest.len() - 1 implies sale_step(#[trigger] rest[i], rest[i + 1], cfg) by {
            let j = i + 1;
            assert(sale_step(trace[j], trace[j + 1], cfg));
            assert(rest[i] == trace[j]);
            assert(rest[i + 1] == trace[j + 1]);
        }
        lemma_transition_sequences_keep_invariant(cfg, rest);
        assert forall|i: int| 0 <= i < trace.len() implies (#[trigger] trace[i]).inv(cfg) by {
            if i > 0 {
                assert(rest[i - 1].inv(cfg));
                assert(rest[i - 1] == trace[i]);
            }
        }
    }
}

/// Sold tokens never exceed the committed supply in any state satisfying the
/// sale invariant, hence after every transition of every valid sequence.
pub proof fn lemma_sold_within_supply(s: Sale, cfg: IcoConfig)
    requires
        s.inv(cfg),
    ensures
        s.data.tokens_sold <= s.data.total_tokens,
{
}

/// No buyer's cumulative purchase exceeds the per-buyer cap in any state
/// satisfying the sale invariant — for recorded and unseen buyers alike.
pub proof fn lemma_buyer_within_cap(s: Sale, cfg: IcoConfig, buyer: u64)
    requires
        s.inv(cfg),
    ensures
        s.data.user_purchases.spec_get(buyer) <= cfg.max_user_total_limit,
{
}

/// Accounting identity: in any state satisfying the sale invariant, the
/// per-buyer purchase records sum exactly to the global sold counter.
pub proof fn lemma_purchases_match_sold(s: Sale, cfg: IcoConfig)
    requires
        s.inv(cfg),
    ensures
        s.data.user_purchases.total() == s.data.tokens_sold,
{
}

/// The vault backs exactly the unsold supply: in any state satisfying the
/// sale invariant, its raw balance is the committed-but-unsold whole-token
/// count at the configured decimal scale.
pub proof fn lemma_vault_backs_unsold_supply(s: Sale, cfg: IcoConfig)
    requires
        s.inv(cfg),
    ensures
        s.vault.raw_balance == (s.data.total_tokens - s.data.tokens_sold) * cfg.token_decimals,
{
}

/// What a transition can never do: shrink the committed supply or the sold
/// counter, lower any buyer's cumulative record, change the authority, the
/// unit price or the vault tag, or add more than one entry to the per-buyer
/// ledger.
pub proof fn lemma_step_monotonic(pre: Sale, post: Sale, cfg: IcoConfig)
    requires
        sale_step(pre, post, cfg),
    ensures
        post.data.total_tokens >= pre.data.total_tokens,
        post.data.tokens_sold >= pre.data.tokens_sold,
        post.data.admin == pre.data.admin,
        post.data.token_price == pre.data.token_price,
        post.vault.tag == pre.vault.tag,
        forall|b: u64| #[trigger] post.data.user_purchases.spec_get(b)
            >= pre.data.user_purchases.spec_get(b),
        post.data.user_purchases.num_entries() <= pre.data.user_purchases.num_entries() + 1,
{
    if post == pre {
    } else if exists|amount: u64| #[trigger] topup_step(pre, post, cfg, amount) {
        let amount = choose|amount: u64| #[trigger] topup_step(pre, post, cfg, amount);
        assert(topup_step(pre, post, cfg, amount));
    } else {
        let (buyer, amount) = choose|buyer: u64, amount: u64|
            #[trigger] purchase_step(pre, post, cfg, buyer, amount);
        assert forall|b: u64| #[trigger] post.data.user_purchases.spec_get(b)
            >= pre.data.user_purchases.spec_get(b) by {
            if b != buyer {
                assert(post.data.user_purchases.spec_get(b)
                    == pre.data.user_purchases.spec_get(b));
            }
        }
    }
}

/// The read-only quote predicts the full purchase transition: a rejected quote
/// is rejected by the transition with the same error before any asset moves; an
/// accepted quote leads either to the quoted receipt, or to the payment or
/// disbursement failure of the collaborator that was consulted after it.
pub proof fn lemma_quote_agrees_with_purchase(
    s: Sale,
    buyer: u64,
    vault_proof: u64,
    token_amount: u64,
    cfg: IcoConfig,
    payment_ok: bool,
)
    ensures
        ({
            let q = quote_outcome(s, buyer, vault_proof, token_amount, cfg);
            let p = purchase_outcome(s, buyer, vault_proof, token_amount, cfg, payment_ok);
            &&& q is Err ==> p == q
            &&& q is Ok && !payment_ok ==> p == Err::<PurchaseReceipt, SaleError>(
                SaleError::PaymentFailed,
            )
            &&& q is Ok && payment_ok && s.vault.raw_balance < token_amount * cfg.token_decimals
                ==> p == Err::<PurchaseReceipt, SaleError>(SaleError::TokenTransferFailed)
            &&& q is Ok && payment_ok && s.vault.raw_balance >= token_amount * cfg.token_decimals
                ==> p == q
        }),
{
}

} // verus!
