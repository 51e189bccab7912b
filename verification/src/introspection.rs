//! A read-only view of the transaction that is being executed.
//!
//! Before execution begins the host publishes the calls of the current
//! transaction as one block of bytes. Nothing here changes that block.

use vstd::prelude::*;
use anchor_lang::prelude::{AccountInfo, Pubkey};
use anchor_lang::solana_program::sysvar::instructions::{
    load_current_index_checked, load_instruction_at_checked, ID,
};
use crate::address::Address;

verus! {

/// One account that a call names, with the rights the call claims on it.
#[derive(Clone, Copy, Debug, PartialEq, Eq)]
pub struct AccountRef {
    pub key: Address,
    pub is_signer: bool,
    pub is_writable: bool,
}

/// One call of a transaction: the program it addresses, the accounts it
/// names, and its payload.
#[derive(Clone, Debug, PartialEq, Eq)]
pub struct Call {
    pub program: Address,
    pub accounts: Vec<AccountRef>,
    pub data: Vec<u8>,
}

/// What a `Call` holds, as mathematical values.
pub ghost struct CallView {
    pub program: Address,
    pub accounts: Seq<AccountRef>,
    pub data: Seq<u8>,
}

impl View for Call {
    type V = CallView;

    open spec fn view(&self) -> CallView {
        CallView { program: self.program, accounts: self.accounts@, data: self.data@ }
    }
}

/// The view of a call that may be absent.
pub open spec fn view_of(call: Option<Call>) -> Option<CallView> {
    match call {
        Some(c) => Some(c@),
        None => None,
    }
}

/// The number that two bytes spell, least significant byte first.
pub open spec fn le16(low: u8, high: u8) -> int {
    low + 256 * high
}

/// The call that the host's decoder finds at position `index` in the
/// published bytes `data`, if it finds one.
pub uninterp spec fn instruction_at(data: Seq<u8>, index: int) -> Option<CallView>;

/// The position of the executing call, where the block is long enough to
/// hold one: its last two bytes.
pub open spec fn current_index_of(data: Seq<u8>) -> Option<u16> {
    if data.len() >= 2 {
        Some(le16(data[data.len() - 2], data[data.len() - 1]) as u16)
    } else {
        None
    }
}

/// The number of calls, where the block is long enough to hold the header:
/// its first two bytes.
pub open spec fn call_count_of(data: Seq<u8>) -> Option<u16> {
    if data.len() >= 2 {
        Some(le16(data[0], data[1]) as u16)
    } else {
        None
    }
}

/// Whether `index` is a position that the header of `data` counts.
pub open spec fn in_range(data: Seq<u8>, index: int) -> bool {
    match call_count_of(data) {
        Some(n) => 0 <= index < n,
        None => false,
    }
}

/// The call at position `index`: what the host's decoder finds there, for a
/// position that the header counts, and nothing for any other.
pub open spec fn call_at_of(data: Seq<u8>, index: int) -> Option<CallView> {
    if in_range(data, index) {
        instruction_at(data, index)
    } else {
        None
    }
}

/// The last call of the transaction: the one at the position that the header
/// gives, less one. A block without a header, or with a header of zero, has
/// none.
pub open spec fn last_call_of(data: Seq<u8>) -> Option<CallView> {
    match call_count_of(data) {
        Some(n) => call_at_of(data, n - 1),
        None => None,
    }
}

/// Calls `load_current_index_checked` on an account that carries the
/// identity of the instructions sysvar and a copy of `data`. The function
/// reads the last two bytes of the account's data as a little-endian number;
/// on shorter data it panics, which `requires` rules out.
#[verifier::external_body]
fn load_current_index(data: &Vec<u8>) -> (r: Option<u16>)
    requires
        data@.len() >= 2,
    ensures
        r == current_index_of(data@),
{
    let mut bytes = data.clone();
    let mut lamports = 0u64;
    let owner = Pubkey::default();
    let info = AccountInfo::new(&ID, false, false, &mut lamports, &mut bytes, &owner, false, 0);
    load_current_index_checked(&info).ok()
}

/// Calls `load_instruction_at_checked` on an account that carries the
/// identity of the instructions sysvar and a copy of `data`. The result is
/// the decoded instruction, field for field, or `None` where the decoder
/// reports an error; it depends on `data` and `index` alone, and the
/// contract gives it its name.
#[verifier::external_body]
fn load_instruction_at(data: &Vec<u8>, index: usize) -> (r: Option<Call>)
    ensures
        view_of(r) == instruction_at(data@, index as int),
{
    let mut bytes = data.clone();
    let mut lamports = 0u64;
    let owner = Pubkey::default();
    let info = AccountInfo::new(&ID, false, false, &mut lamports, &mut bytes, &owner, false, 0);
    let ix = load_instruction_at_checked(index, &info).ok()?;
    let accounts = ix.accounts.iter().map(|m| AccountRef {
        key: Address { bytes: m.pubkey.to_bytes() },
        is_signer: m.is_signer,
        is_writable: m.is_writable,
    }).collect();
    Some(Call { program: Address { bytes: ix.program_id.to_bytes() }, accounts, data: ix.data })
}

/// The position of the executing call within the transaction, or `None`
/// where `data` is too short to hold one.
pub fn current_index(data: &Vec<u8>) -> (r: Option<u16>)
    ensures
        r == current_index_of(data@),
{
    if data.len() < 2 {
        None
    } else {
        load_current_index(data)
    }
}

/// The number of calls in the transaction, read from the header of `data`,
/// or `None` where `data` is too short to hold a header.
pub fn call_count(data: &Vec<u8>) -> (r: Option<u16>)
    ensures
        r == call_count_of(data@),
{
    if data.len() < 2 {
        None
    } else {
        let low: u16 = data[0] as u16;
        let high: u16 = data[1] as u16;
        Some(low + 256 * high)
    }
}

/// The call at position `index`, decoded without executing it, or `None`
/// where the transaction holds no such call. A position that the header
/// does not count is not found, whatever the block holds.
pub fn call_at(data: &Vec<u8>, index: usize) -> (r: Option<Call>)
    ensures
        view_of(r) == call_at_of(data@, index as int),
        !in_range(data@, index as int) ==> r is None,
{
    match call_count(data) {
        Some(n) => if index < n as usize {
            load_instruction_at(data, index)
        } else {
            None
        },
        None => None,
    }
}

/// The last call of the transaction, or `None` where it has none.
pub fn last_call(data: &Vec<u8>) -> (r: Option<Call>)
    ensures
        view_of(r) == last_call_of(data@),
{
    match call_count(data) {
        Some(n) => if n > 0 {
            call_at(data, (n - 1) as usize)
        } else {
            None
        },
        None => None,
    }
}

} // verus!
