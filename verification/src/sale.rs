//! The sale ledger, the vault, and the three state transitions.
//!
//! Each transition is atomic: it either commits its full effect or leaves the
//! state exactly as it found it. Balance moves themselves are performed by
//! collaborating services of the host runtime; their verdicts enter the
//! transitions as plain values (`transfer_ok`, `payment_ok`), and the
//! contracts state the outcome for every verdict. States shown to callers are
//! always post-transition states: a transition that reports an error has, by
//! the host's all-or-nothing guarantee, moved nothing.

use vstd::prelude::*;

use crate::config::IcoConfig;
use crate::errors::{ErrorCode, SaleError};
use crate::purchases::PurchaseMap;

verus! {

/// Global sale state, one instance per authority.
#[derive(Clone, Debug, PartialEq, Eq)]
pub struct Data {
    /// Identity empowered to initialize and top up the vault. Immutable after
    /// creation.
    pub admin: u64,
    /// Cumulative whole tokens ever committed to the vault.
    pub total_tokens: u64,
    /// Cumulative whole tokens disbursed to buyers.
    pub tokens_sold: u64,
    /// Per-buyer cumulative purchase ledger.
    pub user_purchases: PurchaseMap,
    /// Native-currency cost per whole token, fixed at creation.
    pub token_price: u64,
}

/// The program-controlled holding account backing the unsold supply. It holds
/// no externally controlled key: outgoing transfers are authorized by a
/// capability tag fixed at creation.
#[derive(Clone, Copy, Debug, PartialEq, Eq, Structural)]
pub struct Vault {
    /// Balance in raw sub-units of the fungible asset.
    pub raw_balance: u64,
    /// Capability tag derived once from the fixed public identifier; a
    /// disbursement is trusted only on presentation of a matching proof.
    pub tag: u64,
}

/// The whole persisted sale: ledger and vault.
#[derive(Clone, Debug, PartialEq, Eq)]
pub struct Sale {
    pub data: Data,
    pub vault: Vault,
}

/// What a successful purchase moved: the currency the buyer paid to the
/// authority, and the raw token amount disbursed from the vault to the buyer.
#[derive(Clone, Copy, Debug, PartialEq, Eq, Structural)]
pub struct PurchaseReceipt {
    /// Native currency paid, `token_amount * token_price`.
    pub sol_amount: u64,
    /// Raw sub-units disbursed, `token_amount * token_decimals`.
    pub raw_token_amount: u64,
}

impl Data {
    /// Structural well-formedness of the ledger.
    pub open spec fn wf(self) -> bool {
        self.user_purchases.wf()
    }

    /// No buyer's cumulative purchase exceeds the cap.
    pub open spec fn caps_ok(self, cap: u64) -> bool {
        forall|b: u64| #[trigger] self.user_purchases.spec_get(b) <= cap
    }

    /// Accounting identity: the recorded per-buyer purchases sum to the global
    /// sold counter.
    pub open spec fn accounting_ok(self) -> bool {
        self.user_purchases.total() == self.tokens_sold
    }
}

impl Sale {
    /// The sale invariant. It holds of the state a creation returns and is
    /// preserved by every transition, so it holds of every reachable state:
    /// sold never exceeds the committed supply, no buyer is past the cap, the
    /// per-buyer ledger sums to the sold counter, and the vault balance backs
    /// exactly the unsold supply at the configured scale.
    pub open spec fn inv(self, cfg: IcoConfig) -> bool {
        &&& self.data.wf()
        &&& self.data.tokens_sold <= self.data.total_tokens
        &&& self.data.caps_ok(cfg.max_user_total_limit)
        &&& self.data.accounting_ok()
        &&& self.vault.raw_balance == (self.data.total_tokens - self.data.tokens_sold)
            * cfg.token_decimals
    }
}

/// Outcome of a top-up of `s` attempted by `caller`, for a given verdict of
/// the fungible-token service on moving the scaled amount out of the caller's
/// holding account. The authority check comes before anything else, and every
/// arithmetic step is checked before use.
pub open spec fn deposit_outcome(
    s: Sale,
    caller: u64,
    ico_amount: u64,
    cfg: IcoConfig,
    transfer_ok: bool,
) -> Result<u64, SaleError> {
    if caller != s.data.admin {
        Err(SaleError::Code(ErrorCode::InvalidAdmin))
    } else if ico_amount * cfg.token_decimals > u64::MAX {
        Err(SaleError::Code(ErrorCode::Overflow))
    } else if s.data.total_tokens + ico_amount > u64::MAX {
        Err(SaleError::Code(ErrorCode::Overflow))
    } else if !transfer_ok {
        Err(SaleError::TokenTransferFailed)
    } else if s.vault.raw_balance + ico_amount * cfg.token_decimals > u64::MAX {
        Err(SaleError::TokenTransferFailed)
    } else {
        Ok((ico_amount * cfg.token_decimals) as u64)
    }
}

/// Outcome of a purchase of `token_amount` whole tokens by `buyer` against the
/// sale `s`, for a given verdict of the native-currency primitive on the
/// buyer's payment. The chain fixes the order of the checks: the derivation
/// proof and the per-buyer cap are decided before any transfer, the payment
/// precedes the disbursement, and the disbursement goes through only if the
/// vault balance covers the scaled amount.
pub open spec fn purchase_outcome(
    s: Sale,
    buyer: u64,
    vault_proof: u64,
    token_amount: u64,
    cfg: IcoConfig,
    payment_ok: bool,
) -> Result<PurchaseReceipt, SaleError> {
    let current = s.data.user_purchases.spec_get(buyer);
    if vault_proof != s.vault.tag {
        Err(SaleError::VaultAuthorityMismatch)
    } else if current + token_amount > u64::MAX {
        Err(SaleError::Code(ErrorCode::Overflow))
    } else if current + token_amount > cfg.max_user_total_limit {
        Err(SaleError::Code(ErrorCode::ExceedsTotalUserLimit))
    } else if token_amount * cfg.token_decimals > u64::MAX {
        Err(SaleError::Code(ErrorCode::Overflow))
    } else if token_amount * s.data.token_price > u64::MAX {
        Err(SaleError::Code(ErrorCode::Overflow))
    } else if !payment_ok {
        Err(SaleError::PaymentFailed)
    } else if s.vault.raw_balance < token_amount * cfg.token_decimals {
        Err(SaleError::TokenTransferFailed)
    } else {
        Ok(
            PurchaseReceipt {
                sol_amount: (token_amount * s.data.token_price) as u64,
                raw_token_amount: (token_amount * cfg.token_decimals) as u64,
            },
        )
    }
}

/// The validation-and-quote prefix of [`purchase_outcome`]: everything that is
/// decided before any asset moves. A quote says nothing about the payment
/// verdict or the vault balance, which are consulted only after it.
pub open spec fn quote_outcome(
    s: Sale,
    buyer: u64,
    vault_proof: u64,
    token_amount: u64,
    cfg: IcoConfig,
) -> Result<PurchaseReceipt, SaleError> {
    let current = s.data.user_purchases.spec_get(buyer);
    if vault_proof != s.vault.tag {
        Err(SaleError::VaultAuthorityMismatch)
    } else if current + token_amount > u64::MAX {
        Err(SaleError::Code(ErrorCode::Overflow))
    } else if current + token_amount > cfg.max_user_total_limit {
        Err(SaleError::Code(ErrorCode::ExceedsTotalUserLimit))
    } else if token_amount * cfg.token_decimals > u64::MAX {
        Err(SaleError::Code(ErrorCode::Overflow))
    } else if token_amount * s.data.token_price > u64::MAX {
        Err(SaleError::Code(ErrorCode::Overflow))
    } else {
        Ok(
            PurchaseReceipt {
                sol_amount: (token_amount * s.data.token_price) as u64,
                raw_token_amount: (token_amount * cfg.token_decimals) as u64,
            },
        )
    }
}

/// Relation of one successful top-up of `amount` whole tokens: the committed
/// supply and the vault balance grow together, and nothing else moves.
pub open spec fn topup_step(pre: Sale, post: Sale, cfg: IcoConfig, amount: u64) -> bool {
    &&& post.data.admin == pre.data.admin
    &&& post.data.total_tokens == pre.data.total_tokens + amount
    &&& post.data.tokens_sold == pre.data.tokens_sold
    &&& post.data.user_purchases == pre.data.user_purchases
    &&& post.data.token_price == pre.data.token_price
    &&& post.vault.tag == pre.vault.tag
    &&& post.vault.raw_balance == pre.vault.raw_balance + amount * cfg.token_decimals
}

/// Relation of one successful purchase of `amount` whole tokens by `buyer`:
/// it happens only under the cap and against a covering vault balance; the
/// buyer's record, the sold counter and the recorded sum grow together, the
/// vault shrinks by the scaled amount, and nothing else moves.
pub open spec fn purchase_step(
    pre: Sale,
    post: Sale,
    cfg: IcoConfig,
    buyer: u64,
    amount: u64,
) -> bool {
    &&& pre.data.user_purchases.spec_get(buyer) + amount <= cfg.max_user_total_limit
    &&& pre.vault.raw_balance >= amount * cfg.token_decimals
    &&& post.data.admin == pre.data.admin
    &&& post.data.total_tokens == pre.data.total_tokens
    &&& post.data.tokens_sold == pre.data.tokens_sold + amount
    &&& post.data.user_purchases.wf()
    &&& post.data.user_purchases.spec_get(buyer) == pre.data.user_purchases.spec_get(buyer)
        + amount
    &&& forall|b: u64|
        b != buyer ==> #[trigger] post.data.user_purchases.spec_get(b)
            == pre.data.user_purchases.spec_get(b)
    &&& post.data.user_purchases.total() == pre.data.user_purchases.total() + amount
    &&& post.data.user_purchases.num_entries() <= pre.data.user_purchases.num_entries() + 1
    &&& post.data.token_price == pre.data.token_price
    &&& post.vault.tag == pre.vault.tag
    &&& post.vault.raw_balance == pre.vault.raw_balance - amount * cfg.token_decimals
}

/// One atomic transition of an existing sale: a failed attempt, which leaves
/// the state exactly as it was; a successful top-up; or a successful purchase.
pub open spec fn sale_step(pre: Sale, post: Sale, cfg: IcoConfig) -> bool {
    ||| post == pre
    ||| exists|amount: u64| #[trigger] topup_step(pre, post, cfg, amount)
    ||| exists|buyer: u64, amount: u64| #[trigger] purchase_step(pre, post, cfg, buyer, amount)
}

/// Scale a whole-token amount to the raw sub-units the fungible-token service
/// moves, rejecting any amount whose scaled value leaves the integer range.
pub fn scale_to_raw(token_amount: u64, cfg: &IcoConfig) -> (r: Result<u64, ErrorCode>)
    ensures
        token_amount * cfg.token_decimals <= u64::MAX ==> r == Ok::<u64, ErrorCode>(
            (token_amount * cfg.token_decimals) as u64,
        ),
        token_amount * cfg.token_decimals > u64::MAX ==> r == Err::<u64, ErrorCode>(
            ErrorCode::Overflow,
        ),
{
    match token_amount.checked_mul(cfg.token_decimals) {
        Some(raw) => Ok(raw),
        None => Err(ErrorCode::Overflow),
    }
}

/// Vault initialization: commit `ico_amount` whole tokens as the initial
/// supply and create the sale ledger for `admin`.
///
/// `vault_tag` is the capability tag the derivation scheme computed from the
/// fixed public identifier; `transfer_ok` is the fungible-token service's
/// verdict on moving the scaled amount from the creator's holding account into
/// the vault. On success the ledger starts with the whole supply unsold, an
/// empty purchase ledger, and the configured unit price, and the invariant
/// holds.
pub fn create_ico_ata(
    admin: u64,
    vault_tag: u64,
    ico_amount: u64,
    cfg: &IcoConfig,
    transfer_ok: bool,
) -> (r: Result<Sale, SaleError>)
    requires
        cfg.wf(),
    ensures
        ico_amount * cfg.token_decimals > u64::MAX ==> r == Err::<Sale, SaleError>(
            SaleError::Code(ErrorCode::Overflow),
        ),
        ico_amount * cfg.token_decimals <= u64::MAX && !transfer_ok ==> r == Err::<
            Sale,
            SaleError,
        >(SaleError::TokenTransferFailed),
        (r is Ok) == (ico_amount * cfg.token_decimals <= u64::MAX && transfer_ok),
        r matches Ok(s) ==> {
            &&& s.data.admin == admin
            &&& s.data.total_tokens == ico_amount
            &&& s.data.tokens_sold == 0
            &&& s.data.token_price == cfg.lamports_per_token
            &&& forall|b: u64| #[trigger] s.data.user_purchases.spec_get(b) == 0
            &&& s.data.user_purchases.num_entries() == 0
            &&& s.vault.raw_balance == ico_amount * cfg.token_decimals
            &&& s.vault.tag == vault_tag
            &&& s.inv(*cfg)
        },
{
    let raw_balance = match scale_to_raw(ico_amount, cfg) {
        Ok(raw) => raw,
        Err(e) => {
            return Err(SaleError::Code(e));
        },
    };
    if !transfer_ok {
        return Err(SaleError::TokenTransferFailed);
    }
    let data = Data {
        admin,
        total_tokens: ico_amount,
        tokens_sold: 0,
        user_purchases: PurchaseMap::new(),
        token_price: cfg.lamports_per_token,
    };
    Ok(Sale { data, vault: Vault { raw_balance, tag: vault_tag } })
}

/// Vault top-up: the recorded authority commits `ico_amount` further whole
/// tokens.
///
/// The authority check comes before any transfer is attempted, so a rejected
/// caller moves nothing; on any error the sale is exactly as before. On
/// success the committed supply grows by `ico_amount`, the vault balance by
/// its scaled value (returned), and the sold counter, the purchase ledger, the
/// authority and the price are untouched. The invariant is preserved either
/// way.
pub fn deposit_ico_in_ata(
    sale: &mut Sale,
    caller: u64,
    ico_amount: u64,
    cfg: &IcoConfig,
    transfer_ok: bool,
) -> (r: Result<u64, SaleError>)
    requires
        cfg.wf(),
        old(sale).inv(*cfg),
    ensures
        r == deposit_outcome(*old(sale), caller, ico_amount, *cfg, transfer_ok),
        r is Err ==> *final(sale) == *old(sale),
        r is Ok ==> topup_step(*old(sale), *final(sale), *cfg, ico_amount),
        sale_step(*old(sale), *final(sale), *cfg),
        final(sale).inv(*cfg),
{
    if caller != sale.data.admin {
        return Err(SaleError::Code(ErrorCode::InvalidAdmin));
    }
    let raw_amount = match scale_to_raw(ico_amount, cfg) {
        Ok(raw) => raw,
        Err(e) => {
            return Err(SaleError::Code(e));
        },
    };
    let new_total = match sale.data.total_tokens.checked_add(ico_amount) {
        Some(v) => v,
        None => {
            return Err(SaleError::Code(ErrorCode::Overflow));
        },
    };
    if !transfer_ok {
        return Err(SaleError::TokenTransferFailed);
    }
    let new_balance = match sale.vault.raw_balance.checked_add(raw_amount) {
        Some(v) => v,
        None => {
            return Err(SaleError::TokenTransferFailed);
        },
    };
    proof {
        let t = sale.data.total_tokens as int;
        let s = sale.data.tokens_sold as int;
        let a = ico_amount as int;
        let d = cfg.token_decimals as int;
        assert((t - s) * d + a * d == (t + a - s) * d) by (nonlinear_arith);
    }
    sale.data.total_tokens = new_total;
    sale.vault.raw_balance = new_balance;
    proof {
        assert(topup_step(*old(sale), *sale, *cfg, ico_amount));
    }
    Ok(raw_amount)
}

/// Purchase quote: the whole validation that precedes any asset movement, as a
/// read-only call. The host runtime uses it to learn the exact payment to
/// collect; [`crate::laws::lemma_quote_agrees_with_purchase`] states how its
/// verdict predicts the full transition's.
pub fn quote_purchase(
    sale: &Sale,
    buyer: u64,
    vault_proof: u64,
    token_amount: u64,
    cfg: &IcoConfig,
) -> (r: Result<PurchaseReceipt, SaleError>)
    requires
        sale.data.wf(),
    ensures
        r == quote_outcome(*sale, buyer, vault_proof, token_amount, *cfg),
{
    if vault_proof != sale.vault.tag {
        return Err(SaleError::VaultAuthorityMismatch);
    }
    let current = sale.data.user_purchases.get(buyer);
    let new_user_total = match current.checked_add(token_amount) {
        Some(v) => v,
        None => {
            return Err(SaleError::Code(ErrorCode::Overflow));
        },
    };
    if new_user_total > cfg.max_user_total_limit {
        return Err(SaleError::Code(ErrorCode::ExceedsTotalUserLimit));
    }
    let raw_token_amount = match scale_to_raw(token_amount, cfg) {
        Ok(raw) => raw,
        Err(e) => {
            return Err(SaleError::Code(e));
        },
    };
    let sol_amount = match token_amount.checked_mul(sale.data.token_price) {
        Some(v) => v,
        None => {
            return Err(SaleError::Code(ErrorCode::Overflow));
        },
    };
    Ok(PurchaseReceipt { sol_amount, raw_token_amount })
}

/// Purchase transition: `buyer` buys `token_amount` whole tokens, presenting
/// `vault_proof` as the vault's disbursement authorization and paying
/// `token_amount * token_price` native currency.
///
/// The per-buyer cap is decided before any transfer, so a buyer who would
/// exceed it never pays; a failed payment (`payment_ok == false`) aborts the
/// transition before any token moves; the disbursement goes through only if
/// the vault covers the scaled amount. On any error the sale is exactly as
/// before. On success the buyer's cumulative record and the sold counter grow
/// by `token_amount`, every other buyer's record, the committed supply, the
/// authority and the price are untouched, and the vault balance shrinks by the
/// scaled amount. The invariant is preserved either way.
pub fn buy_tokens(
    sale: &mut Sale,
    buyer: u64,
    vault_proof: u64,
    token_amount: u64,
    cfg: &IcoConfig,
    payment_ok: bool,
) -> (r: Result<PurchaseReceipt, SaleError>)
    requires
        cfg.wf(),
        old(sale).inv(*cfg),
    ensures
        r == purchase_outcome(*old(sale), buyer, vault_proof, token_amount, *cfg, payment_ok),
        r is Err ==> *final(sale) == *old(sale),
        r is Ok ==> purchase_step(*old(sale), *final(sale), *cfg, buyer, token_amount),
        sale_step(*old(sale), *final(sale), *cfg),
        final(sale).inv(*cfg),
{
    if vault_proof != sale.vault.tag {
        return Err(SaleError::VaultAuthorityMismatch);
    }
    let current = sale.data.user_purchases.get(buyer);
    let new_user_total = match current.checked_add(token_amount) {
        Some(v) => v,
        None => {
            return Err(SaleError::Code(ErrorCode::Overflow));
        },
    };
    if new_user_total > cfg.max_user_total_limit {
        return Err(SaleError::Code(ErrorCode::ExceedsTotalUserLimit));
    }
    let raw_token_amount = match scale_to_raw(token_amount, cfg) {
        Ok(raw) => raw,
        Err(e) => {
            return Err(SaleError::Code(e));
        },
    };
    let sol_amount = match token_amount.checked_mul(sale.data.token_price) {
        Some(v) => v,
        None => {
            return Err(SaleError::Code(ErrorCode::Overflow));
        },
    };
    if !payment_ok {
        return Err(SaleError::PaymentFailed);
    }
    if sale.vault.raw_balance < raw_token_amount {
        return Err(SaleError::TokenTransferFailed);
    }
    proof {
        let t = sale.data.total_tokens as int;
        let s = sale.data.tokens_sold as int;
        let a = token_amount as int;
        let d = cfg.token_decimals as int;
        // The vault covers the disbursement, so the unsold supply covers the
        // amount, and the sold counter cannot overflow.
        assert(t - s >= a) by (nonlinear_arith)
            requires
                (t - s) * d >= a * d,
                d >= 1,
                t - s >= 0,
        ;
        assert((t - s) * d - a * d == (t - (s + a)) * d) by (nonlinear_arith);
    }
    sale.vault.raw_balance = sale.vault.raw_balance - raw_token_amount;
    sale.data.user_purchases.set(buyer, new_user_total);
    sale.data.tokens_sold = sale.data.tokens_sold + token_amount;
    proof {
        assert(purchase_step(*old(sale), *sale, *cfg, buyer, token_amount));
    }
    Ok(PurchaseReceipt { sol_amount, raw_token_amount })
}

} // verus!
