//! Instructions for the ledger's native value transfer.

use crate::key::Key;
use vstd::prelude::*;

verus! {

/// One account that an instruction touches.
#[derive(Clone, Copy, Debug, PartialEq, Eq)]
pub struct AccountMeta {
    pub pubkey: Key,
    pub is_signer: bool,
    pub is_writable: bool,
}

/// A request to run one program of the ledger on some accounts.
#[derive(Clone, Debug, PartialEq, Eq)]
pub struct Instruction {
    pub program_id: Key,
    pub accounts: Vec<AccountMeta>,
    pub data: Vec<u8>,
}

/// The mathematical content of an [`Instruction`].
pub struct InstructionView {
    pub program_id: Seq<u8>,
    pub accounts: Seq<AccountMeta>,
    pub data: Seq<u8>,
}

impl View for Instruction {
    type V = InstructionView;

    open spec fn view(&self) -> InstructionView {
        InstructionView {
            program_id: self.program_id@,
            accounts: self.accounts@,
            data: self.data@,
        }
    }
}

/// The eight bytes of `x`, least significant first.
pub open spec fn le_bytes(x: u64) -> Seq<u8> {
    seq![
        (x & 0xff) as u8,
        ((x >> 8) & 0xff) as u8,
        ((x >> 16) & 0xff) as u8,
        ((x >> 24) & 0xff) as u8,
        ((x >> 32) & 0xff) as u8,
        ((x >> 40) & 0xff) as u8,
        ((x >> 48) & 0xff) as u8,
        ((x >> 56) & 0xff) as u8,
    ]
}

/// The instruction that moves `lamports` from `from`, who signs, to `to`.
pub open spec fn transfer_instruction(from: Key, to: Key, lamports: u64) -> InstructionView {
    InstructionView {
        program_id: Seq::new(32, |i: int| 0u8),
        accounts: seq![
            AccountMeta { pubkey: from, is_signer: true, is_writable: true },
            AccountMeta { pubkey: to, is_signer: false, is_writable: true },
        ],
        data: seq![2u8, 0u8, 0u8, 0u8] + le_bytes(lamports),
    }
}

/// Calls `system_instruction::transfer` of `anchor_lang::solana_program`.
///
/// Trusted: the instruction addresses the system program (the all-zero key),
/// names `from` as a writable signer and `to` as writable, and carries the
/// transfer tag 2 as four little-endian bytes followed by `lamports` as
/// eight.
#[verifier::external_body]
pub(crate) fn transfer(from: &Key, to: &Key, lamports: u64) -> (ix: Instruction)
    ensures
        ix@ == transfer_instruction(*from, *to, lamports),
{
    let built = anchor_lang::solana_program::system_instruction::transfer(
        &anchor_lang::prelude::Pubkey::new_from_array(from.bytes),
        &anchor_lang::prelude::Pubkey::new_from_array(to.bytes),
        lamports,
    );
    Instruction {
        program_id: Key { bytes: built.program_id.to_bytes() },
        accounts: built.accounts.iter().map(|m| AccountMeta {
            pubkey: Key { bytes: m.pubkey.to_bytes() },
            is_signer: m.is_signer,
            is_writable: m.is_writable,
        }).collect(),
        data: built.data,
    }
}

} // verus!
