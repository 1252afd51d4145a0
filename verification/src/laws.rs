//! What holds of the operations taken together: of the supply of a
//! collection, of a pass from its purchase to its expiry, of its revocation,
//! and of the addresses of records.

use vstd::prelude::*;
use crate::address::Address;
use crate::derivation::{derived_view, pass_collection_seeds, program_address, user_pass_seeds};
use crate::error::ErrorCode;
use crate::operations::{PurchasePass, RevokePass};
use crate::payment::Payment;
use crate::state::expiry_of;

verus! {

/// A recorded purchase raises the supply by exactly one and never takes it
/// past its bound: a collection that was well formed before is well formed
/// after. Nothing is recorded unless exactly the price has moved from the
/// buyer to the organizer.
pub proof fn law_supply_stays_bounded(ctx: PurchasePass, now: i64, payment: Payment)
    requires
        ctx.pass_collection.well_formed(),
        ctx.refusal_given(payment) is None,
    ensures
        ctx.after_purchase(now).pass_collection.well_formed(),
        ctx.after_purchase(now).pass_collection.current_supply == ctx.pass_collection.current_supply + 1,
        0 <= ctx.after_purchase(now).pass_collection.current_supply <= ctx.pass_collection.max_supply,
        payment.moved(ctx.buyer, ctx.pass_collection.organizer, ctx.pass_collection.price),
{
}

/// A purchase from a collection whose supply is used up is refused for that
/// reason, whoever buys and whatever was paid.
pub proof fn law_no_purchase_beyond_supply(ctx: PurchasePass, payment: Payment)
    requires
        ctx.pass_collection.current_supply == ctx.pass_collection.max_supply,
    ensures
        ctx.refusal() == Some(ErrorCode::MaxSupplyReached),
        ctx.refusal_given(payment) == Some(ErrorCode::MaxSupplyReached),
{
}

/// The pass that a purchase records is valid for its buyer at the instant of
/// the purchase and at every later instant before its expiry, at every
/// instant if it never expires, and at no instant for anyone else.
pub proof fn law_fresh_pass_is_valid(ctx: PurchasePass, now: i64, later: i64, claimed_owner: Address)
    requires
        expiry_of(now, ctx.pass_collection.validity_period) <= i64::MAX,
    ensures
        ctx.after_purchase(now).user_pass == Some(ctx.issued_pass(now)),
        ctx.issued_pass(now).valid_at(ctx.buyer, now),
        ctx.issued_pass(now).never_expires() || later < ctx.issued_pass(now).expires_at
            ==> ctx.issued_pass(now).valid_at(ctx.buyer, later),
        claimed_owner != ctx.buyer ==> !ctx.issued_pass(now).valid_at(claimed_owner, later),
{
}

/// A pass of limited validity expires the validity period after its
/// purchase, and is valid at no instant from then on. The one purchase left
/// out is that whose expiry would fall on the largest timestamp, which
/// stands for "never".
pub proof fn law_pass_expires(ctx: PurchasePass, now: i64, later: i64, claimed_owner: Address)
    requires
        ctx.pass_collection.validity_period > 0,
        now + ctx.pass_collection.validity_period < i64::MAX,
        later >= now + ctx.pass_collection.validity_period,
    ensures
        ctx.after_purchase(now).user_pass == Some(ctx.issued_pass(now)),
        ctx.issued_pass(now).expires_at == now + ctx.pass_collection.validity_period,
        !ctx.issued_pass(now).valid_at(claimed_owner, later),
{
}

/// A pass of a collection whose validity period is zero or less never
/// expires: it is valid for its buyer at every instant.
pub proof fn law_unlimited_pass_never_expires(ctx: PurchasePass, now: i64, later: i64)
    requires
        ctx.pass_collection.validity_period <= 0,
    ensures
        ctx.after_purchase(now).user_pass == Some(ctx.issued_pass(now)),
        ctx.issued_pass(now).never_expires(),
        ctx.issued_pass(now).valid_at(ctx.buyer, later),
{
}

/// Revoking twice is revoking once: the second revocation is authorized as
/// the first was and changes nothing. A revoked pass is valid for no one at
/// no instant, and the supply of its collection is what it was.
pub proof fn law_revocation_is_idempotent(ctx: RevokePass, claimed_owner: Address, now: i64)
    ensures
        ctx.after_revoke().authorized() == ctx.authorized(),
        ctx.after_revoke().after_revoke() == ctx.after_revoke(),
        !ctx.after_revoke().user_pass.is_active,
        !ctx.after_revoke().user_pass.valid_at(claimed_owner, now),
        ctx.after_revoke().pass_collection == ctx.pass_collection,
{
}

/// A request that does not come from the organizer of the collection is not
/// authorized to revoke.
pub proof fn law_only_the_organizer_revokes(ctx: RevokePass)
    requires
        ctx.organizer != ctx.pass_collection.organizer || !ctx.organizer_is_signer,
    ensures
        !ctx.authorized(),
{
}

/// Addresses with the same bytes are the same address.
pub proof fn law_address_is_its_bytes(first: Address, second: Address)
    ensures
        first@ == second@ <==> first == second,
{
    if first@ == second@ {
        assert forall|i: int| 0 <= i < 32 implies first.bytes[i] == second.bytes[i] by {
            assert(first.bytes[i] == first@[i]);
            assert(second.bytes[i] == second@[i]);
        }
        assert(first.bytes =~= second.bytes);
    }
}

/// The address of a collection is determined by its organizer and its name:
/// whatever is found for the same organizer and name under the same program
/// is the same address. An organizer cannot have two collections of one
/// name.
pub proof fn law_collection_address_is_determined(
    program_id: Address,
    organizer: Address,
    name: Seq<char>,
    first: Option<(Address, u8)>,
    second: Option<(Address, u8)>,
)
    requires
        derived_view(first) == program_address(pass_collection_seeds(organizer, name), program_id@),
        derived_view(second) == program_address(pass_collection_seeds(organizer, name), program_id@),
    ensures
        first == second,
{
    if let (Some((a, _)), Some((b, _))) = (first, second) {
        law_address_is_its_bytes(a, b);
    }
}

/// The address of a pass is determined by its collection and its buyer:
/// whatever is found for the same collection and buyer under the same
/// program is the same address. A buyer cannot have two passes of one
/// collection.
pub proof fn law_pass_address_is_determined(
    program_id: Address,
    pass_collection: Address,
    owner: Address,
    first: Option<(Address, u8)>,
    second: Option<(Address, u8)>,
)
    requires
        derived_view(first) == program_address(user_pass_seeds(pass_collection, owner), program_id@),
        derived_view(second) == program_address(user_pass_seeds(pass_collection, owner), program_id@),
    ensures
        first == second,
{
    if let (Some((a, _)), Some((b, _))) = (first, second) {
        law_address_is_its_bytes(a, b);
    }
}

} // verus!
