//! Instructions addressed to the record program and to the system program.
use vstd::bytes::{
    lemma_auto_spec_u32_to_from_le_bytes, spec_u32_to_le_bytes, spec_u64_to_le_bytes,
    u32_to_le_bytes,
};
use solana_pubkey::Pubkey;
use vstd::prelude::*;

use crate::record::{decode_record, encode_record, zero_reserved, RecordView};

verus! {

/// Tag of the instruction that records the account's authority.
pub const TAG_INITIALIZE: u8 = 0;

/// Tag of the instruction that writes bytes into the record region.
pub const TAG_WRITE: u8 = 1;

/// Tag of the instruction that closes the account and refunds its lamports.
pub const TAG_CLOSE: u8 = 2;

/// Bytes ahead of the payload in a write instruction: the tag and the
/// little-endian offset.
pub const WRITE_HEADER_LEN: usize = 5;

/// An account that an instruction touches, and how.
#[derive(Clone, Copy, Debug, PartialEq, Eq)]
pub struct AccountRef {
    pub pubkey: [u8; 32],
    pub is_signer: bool,
    pub is_writable: bool,
}

/// An instruction: the program it is addressed to, the accounts it touches
/// and its opaque data.
#[derive(Clone, Debug, PartialEq, Eq)]
pub struct Instruction {
    pub program_id: [u8; 32],
    pub accounts: Vec<AccountRef>,
    pub data: Vec<u8>,
}

/// What an instruction holds.
pub struct InstructionView {
    pub program_id: Seq<u8>,
    pub accounts: Seq<AccountRef>,
    pub data: Seq<u8>,
}

impl View for Instruction {
    type V = InstructionView;

    open spec fn view(&self) -> InstructionView {
        InstructionView { program_id: self.program_id@, accounts: self.accounts@, data: self.data@ }
    }
}

pub open spec fn writable(pubkey: [u8; 32]) -> AccountRef {
    AccountRef { pubkey, is_signer: false, is_writable: true }
}

pub open spec fn signer(pubkey: [u8; 32]) -> AccountRef {
    AccountRef { pubkey, is_signer: true, is_writable: false }
}

pub open spec fn writable_signer(pubkey: [u8; 32]) -> AccountRef {
    AccountRef { pubkey, is_signer: true, is_writable: true }
}

/// Initialize: the tag and the authority to record; the target is written.
pub open spec fn initialize_view(program_id: [u8; 32], target: [u8; 32], authority: [u8; 32]) -> InstructionView {
    InstructionView {
        program_id: program_id@,
        accounts: seq![writable(target)],
        data: seq![TAG_INITIALIZE] + authority@,
    }
}

/// Write: the tag, the offset as 4 little-endian bytes, then the payload.
/// The target is written and the authority signs.
pub open spec fn write_view(
    program_id: [u8; 32],
    target: [u8; 32],
    authority: [u8; 32],
    offset: u32,
    payload: Seq<u8>,
) -> InstructionView {
    InstructionView {
        program_id: program_id@,
        accounts: seq![writable(target), signer(authority)],
        data: seq![TAG_WRITE] + spec_u32_to_le_bytes(offset) + payload,
    }
}

/// Close: the tag alone. The target is emptied, the authority signs and the
/// destination receives the lamports.
pub open spec fn close_view(
    program_id: [u8; 32],
    target: [u8; 32],
    authority: [u8; 32],
    destination: [u8; 32],
) -> InstructionView {
    InstructionView {
        program_id: program_id@,
        accounts: seq![writable(target), signer(authority), writable(destination)],
        data: seq![TAG_CLOSE],
    }
}

/// Address of the system program: 32 zero bytes.
pub open spec fn system_program_id() -> Seq<u8> {
    Seq::new(32, |i: int| 0u8)
}

/// The system program's account creation: the funder and the new account
/// both sign and are written; the data is the instruction's index 0 as a
/// little-endian u32, the lamports and the space as little-endian u64, then
/// the owning program.
pub open spec fn create_account_view(
    from: [u8; 32],
    to: [u8; 32],
    lamports: u64,
    space: u64,
    owner: [u8; 32],
) -> InstructionView {
    InstructionView {
        program_id: system_program_id(),
        accounts: seq![writable_signer(from), writable_signer(to)],
        data: spec_u32_to_le_bytes(0) + spec_u64_to_le_bytes(lamports) + spec_u64_to_le_bytes(space)
            + owner@,
    }
}

fn push_all(v: &mut Vec<u8>, bytes: &[u8])
    ensures
        final(v)@ == old(v)@ + bytes@,
{
    let mut i: usize = 0;
    while i < bytes.len()
        invariant
            i <= bytes@.len(),
            v@ == old(v)@ + bytes@.subrange(0, i as int),
        decreases bytes@.len() - i,
    {
        v.push(bytes[i]);
        i += 1;
        assert(bytes@.subrange(0, i as int) =~= bytes@.subrange(0, i - 1) + seq![bytes@[i - 1]]);
    }
    assert(bytes@.subrange(0, i as int) =~= bytes@);
}

/// The instruction that records `authority` as the authority of `target`.
pub fn build_initialize(program_id: &[u8; 32], target: &[u8; 32], authority: &[u8; 32]) -> (r: Instruction)
    ensures
        r@ == initialize_view(*program_id, *target, *authority),
{
    let mut data: Vec<u8> = Vec::new();
    data.push(TAG_INITIALIZE);
    push_all(&mut data, authority);
    let mut accounts: Vec<AccountRef> = Vec::new();
    accounts.push(AccountRef { pubkey: *target, is_signer: false, is_writable: true });
    let r = Instruction { program_id: *program_id, accounts, data };
    assert(r@.accounts =~= initialize_view(*program_id, *target, *authority).accounts);
    r
}

/// The instruction that writes `payload` at `offset` within the record
/// region of `target`, signed by `authority`.
///
/// The offset and the payload's length are not checked against the record's
/// size here: the on-chain program rejects a write past the region's end, and
/// a write of part of the record is a legitimate use.
pub fn build_write(
    program_id: &[u8; 32],
    target: &[u8; 32],
    authority: &[u8; 32],
    offset: u32,
    payload: &[u8],
) -> (r: Instruction)
    ensures
        r@ == write_view(*program_id, *target, *authority, offset, payload@),
{
    let mut data: Vec<u8> = Vec::new();
    data.push(TAG_WRITE);
    let off = u32_to_le_bytes(offset);
    push_all(&mut data, off.as_slice());
    push_all(&mut data, payload);
    let mut accounts: Vec<AccountRef> = Vec::new();
    accounts.push(AccountRef { pubkey: *target, is_signer: false, is_writable: true });
    accounts.push(AccountRef { pubkey: *authority, is_signer: true, is_writable: false });
    let r = Instruction { program_id: *program_id, accounts, data };
    assert(r@.accounts =~= write_view(*program_id, *target, *authority, offset, payload@).accounts);
    assert(r@.data =~= write_view(*program_id, *target, *authority, offset, payload@).data);
    r
}

/// The instruction that closes `target`, signed by `authority`, and sends its
/// lamports to `destination`.
pub fn build_close(
    program_id: &[u8; 32],
    target: &[u8; 32],
    authority: &[u8; 32],
    destination: &[u8; 32],
) -> (r: Instruction)
    ensures
        r@ == close_view(*program_id, *target, *authority, *destination),
{
    let mut data: Vec<u8> = Vec::new();
    data.push(TAG_CLOSE);
    let mut accounts: Vec<AccountRef> = Vec::new();
    accounts.push(AccountRef { pubkey: *target, is_signer: false, is_writable: true });
    accounts.push(AccountRef { pubkey: *authority, is_signer: true, is_writable: false });
    accounts.push(AccountRef { pubkey: *destination, is_signer: false, is_writable: true });
    let r = Instruction { program_id: *program_id, accounts, data };
    assert(r@.accounts =~= close_view(*program_id, *target, *authority, *destination).accounts);
    assert(r@.data =~= close_view(*program_id, *target, *authority, *destination).data);
    r
}

/// The builders are pure: two instructions built from the same arguments
/// carry the same program, accounts and bytes.
pub proof fn lemma_builders_deterministic(
    program_id: [u8; 32],
    target: [u8; 32],
    authority: [u8; 32],
    destination: [u8; 32],
    offset: u32,
    payload: Seq<u8>,
    init: (Instruction, Instruction),
    write: (Instruction, Instruction),
    close: (Instruction, Instruction),
)
    requires
        init.0@ == initialize_view(program_id, target, authority),
        init.1@ == initialize_view(program_id, target, authority),
        write.0@ == write_view(program_id, target, authority, offset, payload),
        write.1@ == write_view(program_id, target, authority, offset, payload),
        close.0@ == close_view(program_id, target, authority, destination),
        close.1@ == close_view(program_id, target, authority, destination),
    ensures
        init.0@ == init.1@,
        write.0@ == write.1@,
        close.0@ == close.1@,
{
}

/// A record written whole at offset 0 is read back unchanged from the
/// instruction's payload.
pub proof fn lemma_write_then_decode(
    program_id: [u8; 32],
    target: [u8; 32],
    authority: [u8; 32],
    v: RecordView,
)
    requires
        v.reserved == zero_reserved(),
    ensures
        ({
            let data = write_view(program_id, target, authority, 0, encode_record(v)).data;
            decode_record(data.subrange(WRITE_HEADER_LEN as int, data.len() as int)) == Some(v)
        }),
{
    lemma_auto_spec_u32_to_from_le_bytes();
    crate::record::lemma_round_trip(v);
    let data = write_view(program_id, target, authority, 0, encode_record(v)).data;
    assert(data.subrange(WRITE_HEADER_LEN as int, data.len() as int) =~= encode_record(v));
}

/// Relies on solana_system_interface::instruction::create_account: it lists the
/// funder and the new account as written signers and encodes
/// `SystemInstruction::CreateAccount` (variant 0) with bincode, whose integers
/// are fixed-width little-endian and whose pubkey is its 32 bytes.
#[verifier::external_body]
pub(crate) fn system_create_account(
    from: &[u8; 32],
    to: &[u8; 32],
    lamports: u64,
    space: u64,
    owner: &[u8; 32],
) -> (r: Instruction)
    ensures
        r@ == create_account_view(*from, *to, lamports, space, *owner),
{
    let (from, to, owner) = (Pubkey::new_from_array(*from), Pubkey::new_from_array(*to), Pubkey::new_from_array(*owner));
    let ix = solana_system_interface::instruction::create_account(&from, &to, lamports, space, &owner);
    let accounts = ix.accounts.iter().map(
        |m| AccountRef { pubkey: m.pubkey.to_bytes(), is_signer: m.is_signer, is_writable: m.is_writable },
    ).collect();
    Instruction { program_id: ix.program_id.to_bytes(), accounts, data: ix.data }
}

} // verus!
