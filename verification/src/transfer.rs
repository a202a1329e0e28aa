//! The instruction that asks the host's system program to move funds from
//! one account to another.

use vstd::prelude::*;
use crate::identity::Identity;

verus! {

/// How an instruction uses one account.
#[derive(Clone, Copy, Debug, PartialEq, Eq)]
pub struct AccountMeta {
    pub pubkey: Identity,
    pub is_signer: bool,
    pub is_writable: bool,
}

/// An instruction for the host: the program to run, the accounts it
/// touches, and the data it reads.
#[derive(Clone, Debug, PartialEq, Eq)]
pub struct Instruction {
    pub program_id: Identity,
    pub accounts: Vec<AccountMeta>,
    pub data: Vec<u8>,
}

/// An instruction as a mathematical value.
pub struct InstructionView {
    pub program_id: Identity,
    pub accounts: Seq<AccountMeta>,
    pub data: Seq<u8>,
}

impl View for Instruction {
    type V = InstructionView;

    open spec fn view(&self) -> InstructionView {
        InstructionView { program_id: self.program_id, accounts: self.accounts@, data: self.data@ }
    }
}

/// The data of the system program's transfer instruction for this amount.
pub uninterp spec fn transfer_data(lamports: u64) -> Seq<u8>;

/// Whether `id` is the system program: the identity of 32 zero bytes.
pub open spec fn is_system_program(id: Identity) -> bool {
    forall|i: int| 0 <= i < 32 ==> id@[i] == 0
}

/// Whether `instruction` is the transfer of `lamports` from `from` to `to`:
/// addressed to the system program; the payer first, signing and writable;
/// the recipient second, writable only; the data that of a transfer.
pub open spec fn is_transfer(instruction: InstructionView, from: Identity, to: Identity, lamports: u64) -> bool {
    &&& is_system_program(instruction.program_id)
    &&& instruction.accounts == seq![
        AccountMeta { pubkey: from, is_signer: true, is_writable: true },
        AccountMeta { pubkey: to, is_signer: false, is_writable: true },
    ]
    &&& instruction.data == transfer_data(lamports)
}

/// Calls `system_instruction::transfer` of `anchor_lang::solana_program`.
/// Trusted: the instruction is addressed to the system program, whose
/// identity is all zero; it lists the payer as a writable signer and then
/// the recipient as writable; its data depends on the amount alone.
#[verifier::external_body]
fn system_transfer(from: &Identity, to: &Identity, lamports: u64) -> (instruction: Instruction)
    ensures
        is_system_program(instruction.program_id),
        instruction.accounts@.len() == 2,
        instruction.accounts@[0] == (AccountMeta { pubkey: *from, is_signer: true, is_writable: true }),
        instruction.accounts@[1] == (AccountMeta { pubkey: *to, is_signer: false, is_writable: true }),
        instruction.data@ == transfer_data(lamports),
{
    let from_key = anchor_lang::prelude::Pubkey::new_from_array(from.bytes);
    let to_key = anchor_lang::prelude::Pubkey::new_from_array(to.bytes);
    let built = anchor_lang::solana_program::system_instruction::transfer(&from_key, &to_key, lamports);
    Instruction {
        program_id: Identity { bytes: built.program_id.to_bytes() },
        accounts: built.accounts.iter().map(|meta| AccountMeta {
            pubkey: Identity { bytes: meta.pubkey.to_bytes() },
            is_signer: meta.is_signer,
            is_writable: meta.is_writable,
        }).collect(),
        data: built.data,
    }
}

/// Builds the instruction that moves `lamports` from `from` to `to`.
pub fn transfer(from: &Identity, to: &Identity, lamports: u64) -> (instruction: Instruction)
    ensures
        is_transfer(instruction@, *from, *to, lamports),
{
    let instruction = system_transfer(from, to, lamports);
    assert(instruction.accounts@ =~= seq![
        AccountMeta { pubkey: *from, is_signer: true, is_writable: true },
        AccountMeta { pubkey: *to, is_signer: false, is_writable: true },
    ]);
    instruction
}

} // verus!
