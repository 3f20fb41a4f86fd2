//! Transfer requests and the model of the host's asset ledger.
//!
//! The escrow never moves assets itself: each handler emits transfer
//! requests, and the host's transfer primitive carries them out with
//! all-or-nothing semantics per call. `Balances` is the crate's model of
//! the balances that matter to one escrow, so that the effect of a whole
//! instruction — state transition plus transfers — can be stated and
//! checked end to end.

use vstd::prelude::*;

use crate::errors::EscrowError;
use crate::record::Stablecoin;

verus! {

/// The asset one transfer moves: the native settlement asset, or the
/// escrow's stablecoin of the recorded kind.
#[derive(Clone, Copy, Debug, PartialEq, Eq, Structural)]
pub enum Asset {
    Native,
    Stable(Stablecoin),
}

/// A balance holder involved in one escrow: the two parties and the
/// escrow's own holding accounts.
#[derive(Clone, Copy, Debug, PartialEq, Eq, Structural)]
pub enum Holder {
    Seller,
    Buyer,
    Escrow,
}

/// One asset movement for the host to perform: `amount` units of `asset`
/// from `source` to `dest`.
#[derive(Clone, Copy, Debug, PartialEq, Eq, Structural)]
pub struct TransferRequest {
    pub asset: Asset,
    pub source: Holder,
    pub dest: Holder,
    pub amount: u64,
}

/// The balances of one escrow's participants, in the native asset and in
/// the escrow's stablecoin denomination.
#[derive(Clone, Copy, Debug, PartialEq, Eq, Structural)]
pub struct Balances {
    pub seller_native: u64,
    pub seller_stable: u64,
    pub buyer_native: u64,
    pub buyer_stable: u64,
    pub escrow_native: u64,
    pub escrow_stable: u64,
}

/// Whether an asset is the native one; the stablecoin kind does not pick
/// the balance column, the escrow settles in a single stablecoin.
pub open spec fn spec_is_native(asset: Asset) -> bool {
    asset is Native
}

/// The holder's balance for the given asset.
pub open spec fn spec_balance_of(b: Balances, holder: Holder, asset: Asset) -> u64 {
    match holder {
        Holder::Seller => if spec_is_native(asset) { b.seller_native } else { b.seller_stable },
        Holder::Buyer => if spec_is_native(asset) { b.buyer_native } else { b.buyer_stable },
        Holder::Escrow => if spec_is_native(asset) { b.escrow_native } else { b.escrow_stable },
    }
}

/// The balances with the holder's balance for the given asset replaced.
pub open spec fn spec_with_balance(b: Balances, holder: Holder, asset: Asset, v: u64) -> Balances {
    match holder {
        Holder::Seller => if spec_is_native(asset) {
            Balances { seller_native: v, ..b }
        } else {
            Balances { seller_stable: v, ..b }
        },
        Holder::Buyer => if spec_is_native(asset) {
            Balances { buyer_native: v, ..b }
        } else {
            Balances { buyer_stable: v, ..b }
        },
        Holder::Escrow => if spec_is_native(asset) {
            Balances { escrow_native: v, ..b }
        } else {
            Balances { escrow_stable: v, ..b }
        },
    }
}

/// The all-or-nothing effect of one transfer on the ledger model: the
/// amount leaves the source and reaches the destination, or — when the
/// source lacks the funds or the destination would overflow — nothing
/// moves and the transfer fails.
pub open spec fn spec_apply_transfer(b: Balances, req: TransferRequest) -> Result<
    Balances,
    EscrowError,
> {
    let src = spec_balance_of(b, req.source, req.asset);
    if src < req.amount {
        Err(EscrowError::TransferFailure)
    } else {
        let debited = spec_with_balance(b, req.source, req.asset, (src - req.amount) as u64);
        let dst = spec_balance_of(debited, req.dest, req.asset);
        if dst + req.amount > u64::MAX {
            Err(EscrowError::TransferFailure)
        } else {
            Ok(spec_with_balance(debited, req.dest, req.asset, (dst + req.amount) as u64))
        }
    }
}

/// The holder's balance for the given asset.
pub fn balance_of(b: &Balances, holder: Holder, asset: Asset) -> (r: u64)
    ensures
        r == spec_balance_of(*b, holder, asset),
{
    let native = matches!(asset, Asset::Native);
    match holder {
        Holder::Seller => if native { b.seller_native } else { b.seller_stable },
        Holder::Buyer => if native { b.buyer_native } else { b.buyer_stable },
        Holder::Escrow => if native { b.escrow_native } else { b.escrow_stable },
    }
}

/// The balances with the holder's balance for the given asset replaced.
fn with_balance(b: Balances, holder: Holder, asset: Asset, v: u64) -> (r: Balances)
    ensures
        r == spec_with_balance(b, holder, asset, v),
{
    let native = matches!(asset, Asset::Native);
    match holder {
        Holder::Seller => if native {
            Balances { seller_native: v, ..b }
        } else {
            Balances { seller_stable: v, ..b }
        },
        Holder::Buyer => if native {
            Balances { buyer_native: v, ..b }
        } else {
            Balances { buyer_stable: v, ..b }
        },
        Holder::Escrow => if native {
            Balances { escrow_native: v, ..b }
        } else {
            Balances { escrow_stable: v, ..b }
        },
    }
}

/// The total native-asset value across every holder.
pub open spec fn spec_total_native(b: Balances) -> int {
    b.seller_native + b.buyer_native + b.escrow_native
}

/// The total stablecoin value across every holder.
pub open spec fn spec_total_stable(b: Balances) -> int {
    b.seller_stable + b.buyer_stable + b.escrow_stable
}

/// A transfer only moves value, it never creates or destroys any: a
/// successful transfer leaves both assets' totals unchanged, and a failed
/// one leaves every balance unchanged.
pub proof fn lemma_transfer_conserves_value(b: Balances, req: TransferRequest)
    ensures
        spec_apply_transfer(b, req) matches Ok(after) ==> spec_total_native(after)
            == spec_total_native(b) && spec_total_stable(after) == spec_total_stable(b),
{
}

/// Applies one transfer to the ledger model; fails, moving nothing, when
/// the source lacks the funds or the destination would overflow.
pub fn apply_transfer(b: &Balances, req: &TransferRequest) -> (r: Result<Balances, EscrowError>)
    ensures
        r == spec_apply_transfer(*b, *req),
{
    let src = balance_of(b, req.source, req.asset);
    if src < req.amount {
        return Err(EscrowError::TransferFailure);
    }
    let debited = with_balance(*b, req.source, req.asset, src - req.amount);
    let dst = balance_of(&debited, req.dest, req.asset);
    if dst > u64::MAX - req.amount {
        return Err(EscrowError::TransferFailure);
    }
    Ok(with_balance(debited, req.dest, req.asset, dst + req.amount))
}

} // verus!
