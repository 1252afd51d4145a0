//! The two kinds of record: a collection of passes and a pass held by a buyer.

use vstd::prelude::*;
use vstd::utf8::encode_utf8;
use crate::address::Address;

verus! {

/// Most bytes that the name of a collection may take, encoded as UTF-8.
pub const MAX_NAME_BYTES: usize = 50;

/// Most bytes that the description of a collection may take, encoded as UTF-8.
pub const MAX_DESCRIPTION_BYTES: usize = 200;

/// The expiry instant of a pass that never expires: the largest timestamp.
pub const NEVER_EXPIRES: i64 = i64::MAX;

/// Number of bytes that a text takes when encoded as UTF-8.
pub open spec fn byte_len(text: Seq<char>) -> nat {
    encode_utf8(text).len()
}

/// A name and a description that a collection may carry.
pub open spec fn text_within_bounds(name: Seq<char>, description: Seq<char>) -> bool {
    byte_len(name) <= MAX_NAME_BYTES && byte_len(description) <= MAX_DESCRIPTION_BYTES
}

/// The instant at which a pass bought at `now` expires, for a collection with
/// the given validity period in seconds. A period of zero or less means that
/// the pass never expires.
pub open spec fn expiry_of(now: i64, validity_period: i64) -> int {
    if validity_period > 0 {
        now + validity_period
    } else {
        NEVER_EXPIRES as int
    }
}

/// One sellable class of pass, owned by its organizer.
#[derive(Clone, Debug, PartialEq, Eq)]
pub struct PassCollection {
    /// The principal that created the collection, is paid for its passes and
    /// alone may revoke them.
    pub organizer: Address,
    pub name: String,
    pub description: String,
    /// Payment owed for one pass.
    pub price: u64,
    /// Most passes that may ever be issued.
    pub max_supply: u64,
    /// Passes issued so far.
    pub current_supply: u64,
    /// Seconds for which a pass is valid after its purchase; zero or less
    /// means for ever.
    pub validity_period: i64,
    pub created_at: i64,
    /// Bump seed of the address that the record is stored at.
    pub bump: u8,
}

impl PassCollection {
    /// What holds of every stored collection: it has not issued more passes
    /// than it may, and its texts are within their bounds.
    pub open spec fn well_formed(&self) -> bool {
        &&& self.current_supply <= self.max_supply
        &&& text_within_bounds(self.name@, self.description@)
    }

    /// The collection can still issue a pass.
    pub open spec fn has_supply(&self) -> bool {
        self.current_supply < self.max_supply
    }

    /// The collection after it has issued one more pass.
    pub open spec fn after_issue(self) -> PassCollection
        recommends
            self.has_supply(),
    {
        PassCollection { current_supply: (self.current_supply + 1) as u64, ..self }
    }
}

/// The right of one buyer to enter, bought from one collection.
#[derive(Clone, Copy, Debug, PartialEq, Eq)]
pub struct UserPass {
    /// The principal that bought the pass.
    pub owner: Address,
    /// Address of the collection that the pass was bought from.
    pub pass_collection: Address,
    pub purchased_at: i64,
    /// The first instant at which the pass is no longer valid, or
    /// `NEVER_EXPIRES`.
    pub expires_at: i64,
    /// False once the organizer has revoked the pass; never true again.
    pub is_active: bool,
    /// Bump seed of the address that the record is stored at.
    pub bump: u8,
}

impl UserPass {
    /// The pass that a purchase at `now` creates.
    pub open spec fn issued(
        owner: Address,
        pass_collection: Address,
        now: i64,
        validity_period: i64,
        bump: u8,
    ) -> UserPass
        recommends
            expiry_of(now, validity_period) <= i64::MAX,
    {
        UserPass {
            owner,
            pass_collection,
            purchased_at: now,
            expires_at: expiry_of(now, validity_period) as i64,
            is_active: true,
            bump,
        }
    }

    /// The pass expires at no instant.
    pub open spec fn never_expires(&self) -> bool {
        self.expires_at == NEVER_EXPIRES
    }

    /// The pass lets `claimed_owner` in at the instant `now`: it has not been
    /// revoked, it belongs to that principal, and it has not expired. A pass
    /// is no longer valid at the very instant of its expiry.
    pub open spec fn valid_at(&self, claimed_owner: Address, now: i64) -> bool {
        &&& self.is_active
        &&& self.owner == claimed_owner
        &&& (self.never_expires() || now < self.expires_at)
    }

    /// The pass after its revocation.
    pub open spec fn revoked(self) -> UserPass {
        UserPass { is_active: false, ..self }
    }
}

/// The instant at which a pass bought at `now` expires, for a collection with
/// the given validity period; `None` where that instant is past the largest
/// timestamp.
pub fn expiry(now: i64, validity_period: i64) -> (expires_at: Option<i64>)
    ensures
        expires_at matches Some(instant) ==> instant == expiry_of(now, validity_period),
        expires_at is None <==> expiry_of(now, validity_period) > i64::MAX,
{
    if validity_period > 0 {
        now.checked_add(validity_period)
    } else {
        Some(NEVER_EXPIRES)
    }
}

/// Tells whether a name and a description are within the bounds of a
/// collection's texts.
pub fn fits_bounds(name: &str, description: &str) -> (fits: bool)
    ensures
        fits == text_within_bounds(name@, description@),
{
    name.as_bytes().len() <= MAX_NAME_BYTES && description.as_bytes().len() <= MAX_DESCRIPTION_BYTES
}

} // verus!
