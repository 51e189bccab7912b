//! The two operations of the protocol: borrow and repay.
//!
//! Neither moves funds itself. Each decides what the host is to do and hands
//! back a transfer for it to perform. A refusal aborts the whole transaction,
//! and the host undoes whatever the transaction had done so far; nothing here
//! compensates or rolls back.

use vstd::prelude::*;
use crate::address::{program_id, program_id_bytes, Address};
use crate::authority::{program_address, protocol_seed_bytes, reserve_authority};
use crate::error::ProtocolError;
use crate::fee::{fee_of, total_due, total_due_of, total_of};
use crate::instruction::{
    borrow_payload, borrow_tag, borrowed_amount, borrowed_amount_of, has_tag,
    lemma_borrow_round_trip, lemma_tags_differ, repay_discriminator, repay_tag, BORROW_LEN,
};
use crate::introspection::{
    call_at, call_at_of, current_index, current_index_of, in_range, last_call, last_call_of,
    view_of, Call, CallView,
};

verus! {

/// Where a repayment names the borrower's token account in its account list.
pub const BORROWER_ATA_INDEX: usize = 3;

/// Where a repayment names the reserve's token account in its account list.
pub const PROTOCOL_ATA_INDEX: usize = 4;

/// The accounts of one borrow or one repayment, as plain values. `Loan::new`
/// builds one only where `protocol` is the reserve authority, and then with
/// the bump that derives it.
#[derive(Clone, Debug, PartialEq, Eq)]
pub struct Loan {
    /// Who borrows, and signs the transaction.
    pub borrower: Address,
    /// The reserve authority.
    pub protocol: Address,
    /// The bump of the reserve authority.
    pub bump: u8,
    /// The asset that is lent.
    pub mint: Address,
    /// The borrower's token account.
    pub borrower_ata: Address,
    /// The reserve's token account.
    pub protocol_ata: Address,
    /// The bytes in which the host publishes the calls of the transaction.
    pub instructions: Vec<u8>,
}

/// An order to the host to move `amount` from `from` to `to` in the name of
/// `authority`.
#[derive(Clone, Copy, Debug, PartialEq, Eq)]
pub struct Transfer {
    pub from: Address,
    pub to: Address,
    pub authority: Address,
    pub amount: u64,
    /// The bump that, with the protocol seed, proves the protocol's right to
    /// sign for `authority`; `None` where `authority` signed the transaction
    /// itself.
    pub bump: Option<u8>,
}

/// How far a borrow has come.
#[derive(Clone, Copy, Debug, PartialEq, Eq, Structural)]
pub enum BorrowStage {
    /// The borrow was asked for and nothing has moved.
    Requested,
    /// The host has moved the funds to the borrower.
    Released,
}

/// What the host is to do next for a borrow.
#[derive(Clone, Copy, Debug, PartialEq, Eq)]
pub enum BorrowStep {
    /// Perform this transfer, then come back at stage `Released`.
    Release(Transfer),
    /// Nothing more: the borrow stands.
    Settled,
}

/// The context that a check of the accounts yields: `Some` exactly where
/// `protocol` is the reserve authority of this protocol, and then with the
/// bump of its derivation.
pub open spec fn checked_loan(
    borrower: Address,
    protocol: Address,
    mint: Address,
    borrower_ata: Address,
    protocol_ata: Address,
    instructions: Seq<u8>,
    loan: Option<Loan>,
) -> bool {
    match program_address(protocol_seed_bytes(), program_id_bytes()) {
        Some((address, bump)) => if address == protocol@ {
            &&& loan is Some
            &&& loan->Some_0.borrower == borrower
            &&& loan->Some_0.protocol == protocol
            &&& loan->Some_0.bump == bump
            &&& loan->Some_0.mint == mint
            &&& loan->Some_0.borrower_ata == borrower_ata
            &&& loan->Some_0.protocol_ata == protocol_ata
            &&& loan->Some_0.instructions@ == instructions
        } else {
            loan is None
        },
        None => loan is None,
    }
}

/// The transfer that releases `amount` to the borrower: out of the reserve,
/// signed for the reserve authority with its bump.
pub open spec fn release_of(loan: Loan, amount: u64) -> Transfer {
    Transfer {
        from: loan.protocol_ata,
        to: loan.borrower_ata,
        authority: loan.protocol,
        amount,
        bump: Some(loan.bump),
    }
}

/// How the inspection of a transaction ends, given the position `index` of
/// the executing call and the last call `last`. It passes where the borrow
/// comes first and the last call is a repayment to this protocol that names
/// the token accounts of `loan`; the checks are made in this order, and the
/// first that fails gives the refusal.
pub open spec fn structure_of(loan: Loan, index: Option<u16>, last: Option<CallView>) -> Result<
    (),
    ProtocolError,
> {
    if index != Some(0u16) {
        Err(ProtocolError::InvalidIx)
    } else {
        match last {
            None => Err(ProtocolError::MissingRepayIx),
            Some(call) => if call.program@ != program_id_bytes() {
                Err(ProtocolError::InvalidProgram)
            } else if !(call.data.len() >= 8 && call.data.subrange(0, 8) == repay_tag()) {
                Err(ProtocolError::InvalidIx)
            } else if !(call.accounts.len() > 3 && call.accounts[3].key == loan.borrower_ata) {
                Err(ProtocolError::InvalidBorrowerAta)
            } else if !(call.accounts.len() > 4 && call.accounts[4].key == loan.protocol_ata) {
                Err(ProtocolError::InvalidProtocolAta)
            } else {
                Ok(())
            },
        }
    }
}

/// What a borrow of `amount` comes to at `stage`, given the position `index`
/// of the executing call and the last call `last` of the transaction.
pub open spec fn borrow_of(
    loan: Loan,
    amount: u64,
    stage: BorrowStage,
    index: Option<u16>,
    last: Option<CallView>,
) -> Result<BorrowStep, ProtocolError> {
    if amount == 0 {
        Err(ProtocolError::InvalidAmount)
    } else {
        match stage {
            BorrowStage::Requested => Ok(BorrowStep::Release(release_of(loan, amount))),
            BorrowStage::Released => match structure_of(loan, index, last) {
                Ok(_) => Ok(BorrowStep::Settled),
                Err(e) => Err(e),
            },
        }
    }
}

/// What a repayment comes to, given the first call `first` of the
/// transaction: the transfer of the borrowed amount and its fee from the
/// borrower back to the reserve, in the borrower's own name.
pub open spec fn repayment_of(loan: Loan, first: Option<CallView>) -> Result<
    Transfer,
    ProtocolError,
>
    recommends
        first matches Some(call) ==> call.data.len() >= 16,
{
    match first {
        None => Err(ProtocolError::MissingBorrowIx),
        Some(call) => {
            let total = total_of(borrowed_amount_of(call.data));
            if total > u64::MAX {
                Err(ProtocolError::Overflow)
            } else {
                Ok(
                    Transfer {
                        from: loan.borrower_ata,
                        to: loan.protocol_ata,
                        authority: loan.borrower,
                        amount: total as u64,
                        bump: None,
                    },
                )
            }
        },
    }
}

/// Whether the first call `first`, where there is one, is long enough to
/// carry a borrowed amount.
pub open spec fn carries_amount(first: Option<CallView>) -> bool {
    first matches Some(call) ==> call.data.len() >= 16
}

/// A borrow of nothing is refused at every stage, whatever the transaction
/// holds; no transfer is ordered for it, so no balance changes.
pub proof fn lemma_zero_amount_refused(
    loan: Loan,
    stage: BorrowStage,
    index: Option<u16>,
    last: Option<CallView>,
)
    ensures
        borrow_of(loan, 0, stage, index, last) == Err::<BorrowStep, ProtocolError>(
            ProtocolError::InvalidAmount,
        ),
{
}

/// A borrow that is not the first call of its transaction is refused with
/// `InvalidIx`, whatever the last call is. So is one whose position cannot
/// be read.
pub proof fn lemma_borrow_must_come_first(loan: Loan, index: Option<u16>, last: Option<CallView>)
    requires
        index != Some(0u16),
    ensures
        structure_of(loan, index, last) == Err::<(), ProtocolError>(ProtocolError::InvalidIx),
{
}

/// A first call without a last call to repay with is refused with
/// `MissingRepayIx`.
pub proof fn lemma_missing_repay(loan: Loan)
    ensures
        structure_of(loan, Some(0u16), None) == Err::<(), ProtocolError>(
            ProtocolError::MissingRepayIx,
        ),
{
}

/// A last call that addresses another program is refused with
/// `InvalidProgram`, even where it carries the tag of a repayment.
pub proof fn lemma_foreign_program(loan: Loan, last: CallView)
    requires
        last.program@ != program_id_bytes(),
    ensures
        structure_of(loan, Some(0u16), Some(last)) == Err::<(), ProtocolError>(
            ProtocolError::InvalidProgram,
        ),
{
}

/// A last call to this protocol that opens with the tag of a borrow is no
/// repayment: it is refused with `InvalidIx`. A transaction that holds a
/// borrow and nothing else ends in such a call, the borrow itself.
pub proof fn lemma_borrow_is_no_repayment(loan: Loan, last: CallView)
    requires
        last.program@ == program_id_bytes(),
        last.data.len() >= 8,
        last.data.subrange(0, 8) == borrow_tag(),
    ensures
        structure_of(loan, Some(0u16), Some(last)) == Err::<(), ProtocolError>(
            ProtocolError::InvalidIx,
        ),
{
    lemma_tags_differ();
}

/// A repayment that names another borrower token account than the borrow,
/// or none, is refused with `InvalidBorrowerAta`.
pub proof fn lemma_other_borrower_account(loan: Loan, last: CallView)
    requires
        last.program@ == program_id_bytes(),
        last.data.len() >= 8,
        last.data.subrange(0, 8) == repay_tag(),
        last.accounts.len() <= 3 || last.accounts[3].key != loan.borrower_ata,
    ensures
        structure_of(loan, Some(0u16), Some(last)) == Err::<(), ProtocolError>(
            ProtocolError::InvalidBorrowerAta,
        ),
{
}

/// A repayment that names the borrower token account of the borrow but
/// another reserve token account, or none, is refused with
/// `InvalidProtocolAta`.
pub proof fn lemma_other_reserve_account(loan: Loan, last: CallView)
    requires
        last.program@ == program_id_bytes(),
        last.data.len() >= 8,
        last.data.subrange(0, 8) == repay_tag(),
        last.accounts.len() > 3,
        last.accounts[3].key == loan.borrower_ata,
        last.accounts.len() <= 4 || last.accounts[4].key != loan.protocol_ata,
    ensures
        structure_of(loan, Some(0u16), Some(last)) == Err::<(), ProtocolError>(
            ProtocolError::InvalidProtocolAta,
        ),
{
}

/// A borrow stands exactly where it is the first call and the last call is
/// a repayment to this protocol that names both token accounts of the loan.
pub proof fn lemma_structure_accepted(loan: Loan, index: Option<u16>, last: Option<CallView>)
    ensures
        structure_of(loan, index, last) is Ok <==> {
            &&& index == Some(0u16)
            &&& last is Some
            &&& last->Some_0.program@ == program_id_bytes()
            &&& last->Some_0.data.len() >= 8
            &&& last->Some_0.data.subrange(0, 8) == repay_tag()
            &&& last->Some_0.accounts.len() > 4
            &&& last->Some_0.accounts[3].key == loan.borrower_ata
            &&& last->Some_0.accounts[4].key == loan.protocol_ata
        },
{
}

/// A repayment returns the borrowed amount and its fee: for the payload of
/// a borrow of `amount` in the first call, the transfer goes from the
/// borrower's token account to the reserve's, in the borrower's name, and
/// carries the total owed on `amount`.
pub proof fn lemma_repayment_of_borrow(loan: Loan, first: CallView, amount: u64)
    requires
        first.data == borrow_payload(amount),
    ensures
        carries_amount(Some(first)),
        repayment_of(loan, Some(first)) == match total_due_of(amount) {
            Ok(total) => Ok::<Transfer, ProtocolError>(
                Transfer {
                    from: loan.borrower_ata,
                    to: loan.protocol_ata,
                    authority: loan.borrower,
                    amount: total,
                    bump: None,
                },
            ),
            Err(e) => Err::<Transfer, ProtocolError>(e),
        },
{
    lemma_borrow_round_trip(amount);
}

/// Over a borrow and its repayment the reserve gains the fee and the
/// borrower loses it: the repayment runs against the release, between the
/// same two token accounts, and carries the fee more.
pub proof fn lemma_reserve_gains_fee(loan: Loan, first: CallView, amount: u64)
    requires
        first.data == borrow_payload(amount),
        total_of(amount as nat) <= u64::MAX,
    ensures
        repayment_of(loan, Some(first)) is Ok,
        repayment_of(loan, Some(first))->Ok_0.from == release_of(loan, amount).to,
        repayment_of(loan, Some(first))->Ok_0.to == release_of(loan, amount).from,
        repayment_of(loan, Some(first))->Ok_0.amount - release_of(loan, amount).amount == fee_of(
            amount as nat,
        ),
{
    lemma_borrow_round_trip(amount);
}

impl Loan {
    /// Checks the accounts presented for an operation and builds its
    /// context. The reserve authority is derived anew, and `protocol` is
    /// accepted only if it is that address.
    pub fn new(
        borrower: Address,
        protocol: Address,
        mint: Address,
        borrower_ata: Address,
        protocol_ata: Address,
        instructions: Vec<u8>,
    ) -> (r: Option<Loan>)
        ensures
            checked_loan(borrower, protocol, mint, borrower_ata, protocol_ata, instructions@, r),
    {
        match reserve_authority() {
            Some(authority) => if authority.address.same(&protocol) {
                Some(
                    Loan {
                        borrower,
                        protocol,
                        bump: authority.bump,
                        mint,
                        borrower_ata,
                        protocol_ata,
                        instructions,
                    },
                )
            } else {
                None
            },
            None => None,
        }
    }
}

/// Decides whether the transaction is built as a borrow demands, from the
/// position `index` of the executing call and the last call `last`.
pub fn check_structure(loan: &Loan, index: Option<u16>, last: &Option<Call>) -> (r: Result<
    (),
    ProtocolError,
>)
    ensures
        r == structure_of(*loan, index, view_of(*last)),
{
    match index {
        Some(i) => if i != 0 {
            return Err(ProtocolError::InvalidIx);
        },
        None => {
            return Err(ProtocolError::InvalidIx);
        },
    }
    match last {
        None => Err(ProtocolError::MissingRepayIx),
        Some(call) => {
            let id = program_id();
            let tag = repay_discriminator();
            if !call.program.same(&id) {
                Err(ProtocolError::InvalidProgram)
            } else if !has_tag(&call.data, &tag) {
                Err(ProtocolError::InvalidIx)
            } else if !(call.accounts.len() > BORROWER_ATA_INDEX
                && call.accounts[BORROWER_ATA_INDEX].key.same(&loan.borrower_ata)) {
                Err(ProtocolError::InvalidBorrowerAta)
            } else if !(call.accounts.len() > PROTOCOL_ATA_INDEX
                && call.accounts[PROTOCOL_ATA_INDEX].key.same(&loan.protocol_ata)) {
                Err(ProtocolError::InvalidProtocolAta)
            } else {
                Ok(())
            }
        },
    }
}

/// One step of a borrow.
///
/// At stage `Requested` the amount is checked and the transfer that releases
/// it is handed back; the host performs it and comes back at stage
/// `Released`, where the transaction is inspected: the borrow must be its
/// first call and its last call a repayment that names the same token
/// accounts. The funds thus move before the inspection, and a refusal at
/// either stage leaves it to the host to undo the transaction.
pub fn borrow(loan: &Loan, borrow_amount: u64, stage: BorrowStage) -> (r: Result<
    BorrowStep,
    ProtocolError,
>)
    ensures
        r == borrow_of(
            *loan,
            borrow_amount,
            stage,
            current_index_of(loan.instructions@),
            last_call_of(loan.instructions@),
        ),
        borrow_amount == 0 ==> r == Err::<BorrowStep, ProtocolError>(ProtocolError::InvalidAmount),
{
    if borrow_amount == 0 {
        return Err(ProtocolError::InvalidAmount);
    }
    match stage {
        BorrowStage::Requested => Ok(
            BorrowStep::Release(
                Transfer {
                    from: loan.protocol_ata,
                    to: loan.borrower_ata,
                    authority: loan.protocol,
                    amount: borrow_amount,
                    bump: Some(loan.bump),
                },
            ),
        ),
        BorrowStage::Released => {
            let index = current_index(&loan.instructions);
            let last = last_call(&loan.instructions);
            match check_structure(loan, index, &last) {
                Ok(_) => Ok(BorrowStep::Settled),
                Err(e) => Err(e),
            }
        },
    }
}

/// Decides what a repayment owes, from the first call `first` of the
/// transaction: the amount read from its payload, and the fee on it.
pub fn repayment(loan: &Loan, first: &Option<Call>) -> (r: Result<Transfer, ProtocolError>)
    requires
        carries_amount(view_of(*first)),
    ensures
        r == repayment_of(*loan, view_of(*first)),
{
    match first {
        None => Err(ProtocolError::MissingBorrowIx),
        Some(call) => {
            let amount = borrowed_amount(&call.data);
            match total_due(amount) {
                Ok(total) => Ok(
                    Transfer {
                        from: loan.borrower_ata,
                        to: loan.protocol_ata,
                        authority: loan.borrower,
                        amount: total,
                        bump: None,
                    },
                ),
                Err(e) => Err(e),
            }
        },
    }
}

/// The repayment: reads the amount from the first call of the transaction
/// and hands back the transfer of that amount and its fee to the reserve.
pub fn repay(loan: &Loan) -> (r: Result<Transfer, ProtocolError>)
    requires
        carries_amount(call_at_of(loan.instructions@, 0)),
    ensures
        r == repayment_of(*loan, call_at_of(loan.instructions@, 0)),
        !in_range(loan.instructions@, 0) ==> r == Err::<Transfer, ProtocolError>(
            ProtocolError::MissingBorrowIx,
        ),
{
    let first = call_at(&loan.instructions, 0);
    repayment(loan, &first)
}

/// The repayment, for any transaction: `None` where the first call is too
/// short to carry an amount, else what `repay` gives.
pub fn try_repay(loan: &Loan) -> (r: Option<Result<Transfer, ProtocolError>>)
    ensures
        carries_amount(call_at_of(loan.instructions@, 0)) ==> r == Some(
            repayment_of(*loan, call_at_of(loan.instructions@, 0)),
        ),
        !carries_amount(call_at_of(loan.instructions@, 0)) ==> r is None,
        !in_range(loan.instructions@, 0) ==> r == Some(
            Err::<Transfer, ProtocolError>(ProtocolError::MissingBorrowIx),
        ),
{
    let first = call_at(&loan.instructions, 0);
    let fits = match &first {
        Some(call) => call.data.len() >= BORROW_LEN,
        None => true,
    };
    if fits {
        Some(repay(loan))
    } else {
        None
    }
}

} // verus!
