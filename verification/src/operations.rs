//! The four operations. Each takes the records and principals that it works
//! on and either carries out one change or refuses and changes nothing.
//!
//! A purchase goes around a payment, which only the ledger can make:
//! `payment_instruction` says what to pay, the caller has the ledger pay it,
//! and `purchase_pass` records the purchase once the payment is reported as
//! made. The ledger keeps the payment and the records together or neither.

use vstd::prelude::*;
use crate::address::Address;
use crate::error::ErrorCode;
use crate::payment::{system_transfer, Instruction, Payment};
use crate::state::{expiry, expiry_of, text_within_bounds, PassCollection, UserPass, NEVER_EXPIRES};

verus! {

/// What the creation of a collection works on.
#[derive(Clone, Debug, PartialEq, Eq)]
pub struct CreatePassCollection {
    /// What is stored at the address derived from the organizer and the
    /// name of the collection: nothing, before the collection is created.
    pub pass_collection: Option<PassCollection>,
    /// The principal that creates the collection.
    pub organizer: Address,
    /// Bump seed of the address of the collection.
    pub bump: u8,
}

/// What the purchase of a pass works on.
#[derive(Clone, Debug, PartialEq, Eq)]
pub struct PurchasePass {
    /// Address at which the collection is stored.
    pub pass_collection_key: Address,
    pub pass_collection: PassCollection,
    /// What is stored at the address derived from the collection and the
    /// buyer: nothing, before the buyer has a pass of this collection.
    pub user_pass: Option<UserPass>,
    /// The principal that buys and pays.
    pub buyer: Address,
    /// The principal that the caller names as the one to be paid.
    pub organizer: Address,
    /// Bump seed of the address of the pass.
    pub bump: u8,
}

/// What the verification of a pass works on.
#[derive(Clone, Copy, Debug, PartialEq, Eq)]
pub struct VerifyPass {
    pub user_pass: UserPass,
    /// The principal that claims to hold the pass.
    pub owner: Address,
}

/// What the revocation of a pass works on.
#[derive(Clone, Debug, PartialEq, Eq)]
pub struct RevokePass {
    pub user_pass: UserPass,
    /// Address at which the collection is stored.
    pub pass_collection_key: Address,
    pub pass_collection: PassCollection,
    /// The principal that asks for the revocation.
    pub organizer: Address,
    /// The ledger has established that the request comes from `organizer`.
    pub organizer_is_signer: bool,
}

impl PurchasePass {
    /// Why no payment is asked for this purchase, if it is refused before
    /// any payment: the supply is used up, the buyer already has a pass of
    /// the collection, or the principal to be paid is not the organizer of
    /// the collection. The first of these that holds is reported.
    pub open spec fn refusal(&self) -> Option<ErrorCode> {
        if !self.pass_collection.has_supply() {
            Some(ErrorCode::MaxSupplyReached)
        } else if self.user_pass is Some {
            Some(ErrorCode::AlreadyExists)
        } else if self.organizer != self.pass_collection.organizer {
            Some(ErrorCode::Unauthorized)
        } else {
            None
        }
    }

    /// Why this purchase is refused, given what the ledger reports of the
    /// payment: for one of the reasons that hold before any payment, or
    /// because the price has not moved from the buyer to the organizer.
    pub open spec fn refusal_given(&self, payment: Payment) -> Option<ErrorCode> {
        if self.refusal() is Some {
            self.refusal()
        } else if !payment.moved(self.buyer, self.pass_collection.organizer, self.pass_collection.price) {
            Some(ErrorCode::TransferFailed)
        } else {
            None
        }
    }

    /// The pass that this purchase creates at `now`.
    pub open spec fn issued_pass(&self, now: i64) -> UserPass {
        UserPass::issued(
            self.buyer,
            self.pass_collection_key,
            now,
            self.pass_collection.validity_period,
            self.bump,
        )
    }

    /// The state after this purchase has been recorded at `now`.
    pub open spec fn after_purchase(self, now: i64) -> PurchasePass {
        PurchasePass {
            pass_collection: self.pass_collection.after_issue(),
            user_pass: Some(self.issued_pass(now)),
            ..self
        }
    }

    /// The payment that this purchase asks for, not yet made: the price of
    /// the collection, from the buyer to its organizer.
    pub fn payment_due(&self) -> (payment: Payment)
        ensures
            payment == (Payment {
                from: self.buyer,
                to: self.pass_collection.organizer,
                lamports: self.pass_collection.price,
                settled: false,
            }),
    {
        Payment {
            from: self.buyer,
            to: self.pass_collection.organizer,
            lamports: self.pass_collection.price,
            settled: false,
        }
    }

    /// Reports the reason for which the purchase is refused before any
    /// payment, if there is one.
    fn check(&self) -> (checked: Result<(), ErrorCode>)
        ensures
            self.refusal() matches Some(error) ==> checked == Err::<(), ErrorCode>(error),
            self.refusal() is None ==> checked is Ok,
    {
        if self.pass_collection.current_supply >= self.pass_collection.max_supply {
            Err(ErrorCode::MaxSupplyReached)
        } else if self.user_pass.is_some() {
            Err(ErrorCode::AlreadyExists)
        } else if self.organizer != self.pass_collection.organizer {
            Err(ErrorCode::Unauthorized)
        } else {
            Ok(())
        }
    }
}

impl RevokePass {
    /// The request may revoke the pass: the pass is of the collection, the
    /// one who asks is the organizer of the collection, and the ledger has
    /// established that the request comes from that principal.
    pub open spec fn authorized(&self) -> bool {
        &&& self.user_pass.pass_collection == self.pass_collection_key
        &&& self.pass_collection.organizer == self.organizer
        &&& self.organizer_is_signer
    }

    /// The state after the pass has been revoked: only the pass has changed.
    pub open spec fn after_revoke(self) -> RevokePass {
        RevokePass { user_pass: self.user_pass.revoked(), ..self }
    }
}

/// Creates the collection of `ctx.organizer` with the given name at the
/// instant `now`, with no pass issued yet. Refused where a collection is
/// already stored at its address.
pub fn create_pass_collection(
    ctx: &mut CreatePassCollection,
    name: String,
    description: String,
    price: u64,
    max_supply: u64,
    validity_period: i64,
    now: i64,
) -> (result: Result<(), ErrorCode>)
    requires
        text_within_bounds(name@, description@),
    ensures
        old(ctx).pass_collection is Some ==> result == Err::<(), ErrorCode>(ErrorCode::AlreadyExists),
        old(ctx).pass_collection is None ==> result is Ok,
        result is Err ==> *final(ctx) == *old(ctx),
        result is Ok ==> *final(ctx) == (CreatePassCollection {
            pass_collection: Some(
                PassCollection {
                    organizer: old(ctx).organizer,
                    name,
                    description,
                    price,
                    max_supply,
                    current_supply: 0,
                    validity_period,
                    created_at: now,
                    bump: old(ctx).bump,
                },
            ),
            ..*old(ctx)
        }),
        result is Ok ==> final(ctx).pass_collection->Some_0.well_formed(),
{
    if ctx.pass_collection.is_some() {
        return Err(ErrorCode::AlreadyExists);
    }
    ctx.pass_collection = Some(
        PassCollection {
            organizer: ctx.organizer,
            name,
            description,
            price,
            max_supply,
            current_supply: 0,
            validity_period,
            created_at: now,
            bump: ctx.bump,
        },
    );
    Ok(())
}

/// The instruction by which the buyer pays the price of a pass to the
/// organizer of the collection. It is refused where the purchase would be,
/// whatever the payment.
pub fn payment_instruction(ctx: &PurchasePass) -> (result: Result<Instruction, ErrorCode>)
    ensures
        ctx.refusal() matches Some(error) ==> result == Err::<Instruction, ErrorCode>(error),
        ctx.refusal() is None ==> result is Ok,
        result matches Ok(instruction) ==> instruction.is_transfer(
            ctx.buyer,
            ctx.pass_collection.organizer,
            ctx.pass_collection.price,
        ),
{
    match ctx.check() {
        Err(error) => Err(error),
        Ok(()) => Ok(system_transfer(&ctx.buyer, &ctx.pass_collection.organizer, ctx.pass_collection.price)),
    }
}

/// Records the purchase of a pass at the instant `now`, given what the
/// ledger reports of the payment: the buyer gets a pass, and the collection
/// has issued one more. Refused, with nothing changed, where the supply is
/// used up, the buyer already has a pass of the collection, the principal
/// to be paid is not the organizer, or the price has not moved from the
/// buyer to the organizer.
pub fn purchase_pass(ctx: &mut PurchasePass, now: i64, payment: &Payment) -> (result: Result<(), ErrorCode>)
    requires
        old(ctx).refusal_given(*payment) is None ==> expiry_of(now, old(ctx).pass_collection.validity_period) <= i64::MAX,
    ensures
        old(ctx).refusal_given(*payment) matches Some(error) ==> result == Err::<(), ErrorCode>(error),
        old(ctx).refusal_given(*payment) is None ==> result is Ok,
        !old(ctx).pass_collection.has_supply() ==> result == Err::<(), ErrorCode>(ErrorCode::MaxSupplyReached),
        result is Err ==> *final(ctx) == *old(ctx),
        result is Ok ==> *final(ctx) == old(ctx).after_purchase(now),
        result is Ok ==> final(ctx).pass_collection.current_supply == old(ctx).pass_collection.current_supply + 1,
        result is Ok ==> payment.moved(old(ctx).buyer, old(ctx).pass_collection.organizer, old(ctx).pass_collection.price),
        old(ctx).pass_collection.well_formed() ==> final(ctx).pass_collection.well_formed(),
{
    match ctx.check() {
        Err(error) => {
            return Err(error);
        },
        Ok(()) => {},
    }
    if !payment.settled || payment.from != ctx.buyer || payment.to != ctx.pass_collection.organizer
        || payment.lamports != ctx.pass_collection.price {
        return Err(ErrorCode::TransferFailed);
    }
    let expires_at = expiry(now, ctx.pass_collection.validity_period).unwrap();
    ctx.user_pass = Some(
        UserPass {
            owner: ctx.buyer,
            pass_collection: ctx.pass_collection_key,
            purchased_at: now,
            expires_at,
            is_active: true,
            bump: ctx.bump,
        },
    );
    ctx.pass_collection.current_supply += 1;
    Ok(())
}

/// Tells whether the pass lets `ctx.owner` in at the instant `now`.
pub fn verify_pass(ctx: &VerifyPass, now: i64) -> (valid: bool)
    ensures
        valid == ctx.user_pass.valid_at(ctx.owner, now),
{
    ctx.user_pass.is_active && ctx.user_pass.owner == ctx.owner && (ctx.user_pass.expires_at
        == NEVER_EXPIRES || now < ctx.user_pass.expires_at)
}

/// Revokes the pass for good, at the request of the organizer of its
/// collection. A pass that is already revoked stays so. Refused, with
/// nothing changed, where the request is not authorized.
pub fn revoke_pass(ctx: &mut RevokePass) -> (result: Result<(), ErrorCode>)
    ensures
        old(ctx).authorized() ==> result is Ok,
        !old(ctx).authorized() ==> result == Err::<(), ErrorCode>(ErrorCode::Unauthorized),
        result is Err ==> *final(ctx) == *old(ctx),
        result is Ok ==> *final(ctx) == old(ctx).after_revoke(),
        result is Ok ==> !final(ctx).user_pass.is_active,
        final(ctx).user_pass.is_active ==> old(ctx).user_pass.is_active,
        old(ctx).pass_collection.well_formed() ==> final(ctx).pass_collection.well_formed(),
{
    if ctx.user_pass.pass_collection != ctx.pass_collection_key || ctx.pass_collection.organizer
        != ctx.organizer || !ctx.organizer_is_signer {
        return Err(ErrorCode::Unauthorized);
    }
    ctx.user_pass.is_active = false;
    Ok(())
}

} // verus!
