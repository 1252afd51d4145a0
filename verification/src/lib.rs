//! Time-bounded access passes: collections, issuance, verification and
//! revocation, as state transitions on plain records.
//!
//! An organizer creates a collection of passes; buyers purchase passes from
//! it while its supply lasts; anyone can have a pass verified; the organizer
//! can revoke a pass. The ledger that stores the records, proves who asks
//! and moves the payments stays outside: it hands the operations what it has
//! stored and established, and stores what they return.

pub mod address;
pub mod derivation;
pub mod error;
pub mod laws;
pub mod operations;
pub mod payment;
pub mod state;

pub use address::Address;
pub use error::ErrorCode;
pub use operations::{
    create_pass_collection, payment_instruction, purchase_pass, revoke_pass, verify_pass,
    CreatePassCollection, PurchasePass, RevokePass, VerifyPass,
};
pub use payment::{AccountMeta, Instruction, Payment};
pub use state::{PassCollection, UserPass};
