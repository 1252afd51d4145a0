//! The payment for a pass: the transfer that the ledger is asked to make,
//! and what it reports of it.

use vstd::prelude::*;
use anchor_lang::solana_program::pubkey::Pubkey;
use anchor_lang::solana_program::system_instruction;
use crate::address::Address;

verus! {

/// An account that an instruction touches, and how.
#[derive(Clone, Copy, Debug, PartialEq, Eq)]
pub struct AccountMeta {
    pub pubkey: Address,
    /// The instruction needs the signature of this account.
    pub is_signer: bool,
    /// The instruction may change this account.
    pub is_writable: bool,
}

/// A request to a program on the ledger, in the form in which it is sent.
#[derive(Clone, Debug, PartialEq, Eq)]
pub struct Instruction {
    /// Address of the program that carries the instruction out.
    pub program_id: Address,
    pub accounts: Vec<AccountMeta>,
    /// What the program is asked to do, in its own encoding.
    pub data: Vec<u8>,
}

/// What the ledger reports of a transfer that it was asked to make.
#[derive(Clone, Copy, Debug, PartialEq, Eq)]
pub struct Payment {
    /// The account that was to pay.
    pub from: Address,
    /// The account that was to be paid.
    pub to: Address,
    /// The amount that was to move.
    pub lamports: u64,
    /// The amount has moved.
    pub settled: bool,
}

impl Instruction {
    /// The instruction is the system program's transfer of `lamports` from
    /// `from` to `to`.
    pub open spec fn is_transfer(&self, from: Address, to: Address, lamports: u64) -> bool {
        &&& self.program_id@ == system_program()
        &&& self.accounts@ == transfer_accounts(from, to)
        &&& self.data@ == transfer_data(lamports)
    }
}

impl Payment {
    /// The report shows that exactly `lamports` have moved from `from` to
    /// `to`.
    pub open spec fn moved(&self, from: Address, to: Address, lamports: u64) -> bool {
        &&& self.settled
        &&& self.from == from
        &&& self.to == to
        &&& self.lamports == lamports
    }
}

/// Address of the system program, which moves value between accounts: 32
/// zero bytes.
pub open spec fn system_program() -> Seq<u8> {
    Seq::new(32, |i: int| 0u8)
}

/// The two accounts of a transfer, as the system program expects them: the
/// payer, which signs, and then the payee; both may change.
pub open spec fn transfer_accounts(from: Address, to: Address) -> Seq<AccountMeta> {
    seq![
        AccountMeta { pubkey: from, is_signer: true, is_writable: true },
        AccountMeta { pubkey: to, is_signer: false, is_writable: true },
    ]
}

/// The data of the system program's instruction that transfers `lamports`.
pub uninterp spec fn transfer_data(lamports: u64) -> Seq<u8>;

/// Builds the system program's instruction that transfers `lamports` from
/// `from` to `to`, by `system_instruction::transfer`.
///
/// Believed, not proved: the instruction is addressed to the system program,
/// names `from` as a writable signer and then `to` as writable, and carries
/// data that depends on `lamports` alone.
#[verifier::external_body]
pub(crate) fn system_transfer(from: &Address, to: &Address, lamports: u64) -> (instruction: Instruction)
    ensures
        instruction.program_id@ == system_program(),
        instruction.accounts@ == transfer_accounts(*from, *to),
        instruction.data@ == transfer_data(lamports),
{
    let from_key = Pubkey::new_from_array(from.bytes);
    let to_key = Pubkey::new_from_array(to.bytes);
    let built = system_instruction::transfer(&from_key, &to_key, lamports);
    Instruction {
        program_id: Address { bytes: built.program_id.to_bytes() },
        accounts: built.accounts.iter().map(|meta| AccountMeta {
            pubkey: Address { bytes: meta.pubkey.to_bytes() },
            is_signer: meta.is_signer,
            is_writable: meta.is_writable,
        }).collect(),
        data: built.data,
    }
}

} // verus!
