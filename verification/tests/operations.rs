#[allow(deprecated)]
use anchor_lang::solana_program::sysvar::instructions::{
    construct_instructions_data, store_current_index, BorrowedAccountMeta, BorrowedInstruction,
};
use anchor_lang::prelude::Pubkey;
use flash_loan::address::{program_id, Address};
use flash_loan::authority::reserve_authority;
use flash_loan::error::ProtocolError;
use flash_loan::instruction::{Borrow, Repay};
use flash_loan::introspection::{AccountRef, Call};
use flash_loan::loan::{
    borrow, check_structure, repay, repayment, try_repay, BorrowStage, BorrowStep, Loan, Transfer,
};

struct Sent {
    program: Address,
    accounts: Vec<Address>,
    data: Vec<u8>,
}

#[allow(deprecated)]
fn publish(calls: &[Sent], current: u16) -> Vec<u8> {
    let programs: Vec<Pubkey> =
        calls.iter().map(|call| Pubkey::new_from_array(call.program.bytes)).collect();
    let keys: Vec<Vec<Pubkey>> = calls
        .iter()
        .map(|call| call.accounts.iter().map(|a| Pubkey::new_from_array(a.bytes)).collect())
        .collect();
    let borrowed: Vec<BorrowedInstruction> = calls
        .iter()
        .enumerate()
        .map(|(i, call)| BorrowedInstruction {
            program_id: &programs[i],
            accounts: keys[i]
                .iter()
                .map(|key| BorrowedAccountMeta { pubkey: key, is_signer: false, is_writable: true })
                .collect(),
            data: &call.data,
        })
        .collect();
    let mut data = construct_instructions_data(&borrowed);
    store_current_index(&mut data, current);
    data
}

fn address(n: u8) -> Address {
    Address { bytes: [n; 32] }
}

const BORROWER: u8 = 1;
const MINT: u8 = 3;
const BORROWER_ATA: u8 = 4;
const PROTOCOL_ATA: u8 = 5;

fn loan(instructions: Vec<u8>) -> Loan {
    let authority = reserve_authority().unwrap();
    Loan::new(
        address(BORROWER),
        authority.address,
        address(MINT),
        address(BORROWER_ATA),
        address(PROTOCOL_ATA),
        instructions,
    )
    .unwrap()
}

fn accounts() -> Vec<Address> {
    vec![
        address(BORROWER),
        reserve_authority().unwrap().address,
        address(MINT),
        address(BORROWER_ATA),
        address(PROTOCOL_ATA),
        address(6),
        address(7),
        address(8),
        address(9),
    ]
}

fn borrow_call(amount: u64) -> Sent {
    Sent { program: program_id(), accounts: accounts(), data: Borrow { borrow_amount: amount }.data() }
}

fn repay_call() -> Sent {
    Sent { program: program_id(), accounts: accounts(), data: Repay {}.data() }
}

fn other_call() -> Sent {
    Sent { program: address(42), accounts: vec![address(43)], data: vec![1, 2, 3] }
}

fn release(loan: &Loan, amount: u64) -> Transfer {
    Transfer {
        from: loan.protocol_ata,
        to: loan.borrower_ata,
        authority: loan.protocol,
        amount,
        bump: Some(loan.bump),
    }
}

fn giving_back(loan: &Loan, amount: u64) -> Transfer {
    Transfer {
        from: loan.borrower_ata,
        to: loan.protocol_ata,
        authority: loan.borrower,
        amount,
        bump: None,
    }
}

#[test]
fn context_is_built_for_the_reserve_authority() {
    let authority = reserve_authority().unwrap();
    let built = Loan::new(
        address(BORROWER),
        authority.address,
        address(MINT),
        address(BORROWER_ATA),
        address(PROTOCOL_ATA),
        vec![1, 2, 3],
    );
    assert_eq!(
        built,
        Some(Loan {
            borrower: address(BORROWER),
            protocol: authority.address,
            bump: authority.bump,
            mint: address(MINT),
            borrower_ata: address(BORROWER_ATA),
            protocol_ata: address(PROTOCOL_ATA),
            instructions: vec![1, 2, 3],
        })
    );
}

#[test]
fn context_is_refused_for_another_authority() {
    let mut wrong = reserve_authority().unwrap().address;
    wrong.bytes[0] ^= 1;
    for protocol in [wrong, address(2), address(BORROWER), program_id()] {
        let built = Loan::new(
            address(BORROWER),
            protocol,
            address(MINT),
            address(BORROWER_ATA),
            address(PROTOCOL_ATA),
            vec![],
        );
        assert_eq!(built, None);
    }
}

#[test]
fn borrow_of_nothing_is_refused_and_moves_nothing() {
    let data = publish(&[borrow_call(0), repay_call()], 0);
    let loan = loan(data);
    assert_eq!(borrow(&loan, 0, BorrowStage::Requested), Err(ProtocolError::InvalidAmount));
    assert_eq!(borrow(&loan, 0, BorrowStage::Released), Err(ProtocolError::InvalidAmount));
    let nowhere = Loan { instructions: vec![], ..loan };
    assert_eq!(borrow(&nowhere, 0, BorrowStage::Requested), Err(ProtocolError::InvalidAmount));
    assert_eq!(borrow(&nowhere, 0, BorrowStage::Released), Err(ProtocolError::InvalidAmount));
}

#[test]
fn borrow_first_releases_the_funds() {
    let loan = loan(publish(&[borrow_call(10_000), repay_call()], 0));
    assert_eq!(
        borrow(&loan, 10_000, BorrowStage::Requested),
        Ok(BorrowStep::Release(release(&loan, 10_000)))
    );
    assert_eq!(
        borrow(&loan, u64::MAX, BorrowStage::Requested),
        Ok(BorrowStep::Release(release(&loan, u64::MAX)))
    );
}

#[test]
fn funds_are_released_before_the_transaction_is_inspected() {
    let loan = loan(publish(&[borrow_call(5)], 0));
    assert_eq!(
        borrow(&loan, 5, BorrowStage::Requested),
        Ok(BorrowStep::Release(release(&loan, 5)))
    );
    assert_eq!(borrow(&loan, 5, BorrowStage::Released), Err(ProtocolError::InvalidIx));
}

#[test]
fn borrow_stands_with_a_repayment_at_the_end() {
    let loan_two = loan(publish(&[borrow_call(10_000), repay_call()], 0));
    assert_eq!(borrow(&loan_two, 10_000, BorrowStage::Released), Ok(BorrowStep::Settled));
    let loan_three = loan(publish(&[borrow_call(10_000), other_call(), repay_call()], 0));
    assert_eq!(borrow(&loan_three, 10_000, BorrowStage::Released), Ok(BorrowStep::Settled));
}

#[test]
fn borrow_alone_is_refused() {
    let loan = loan(publish(&[borrow_call(10_000)], 0));
    assert_eq!(borrow(&loan, 10_000, BorrowStage::Released), Err(ProtocolError::InvalidIx));
}

#[test]
fn borrow_without_a_last_call_misses_its_repayment() {
    let empty = loan(publish(&[], 0));
    assert_eq!(borrow(&empty, 10_000, BorrowStage::Released), Err(ProtocolError::MissingRepayIx));
    let mut data = publish(&[borrow_call(10_000), repay_call()], 0);
    data[0] = 3;
    let promised = loan(data);
    assert_eq!(
        borrow(&promised, 10_000, BorrowStage::Released),
        Err(ProtocolError::MissingRepayIx)
    );
    let mut cut = publish(&[borrow_call(10_000), repay_call()], 0);
    cut.truncate(40);
    cut.extend_from_slice(&[0, 0]);
    let cut = loan(cut);
    assert_eq!(borrow(&cut, 10_000, BorrowStage::Released), Err(ProtocolError::MissingRepayIx));
}

#[test]
fn borrow_followed_by_something_else_is_refused() {
    let loan = loan(publish(&[borrow_call(10_000), repay_call(), other_call()], 0));
    assert_eq!(borrow(&loan, 10_000, BorrowStage::Released), Err(ProtocolError::InvalidProgram));
}

#[test]
fn repay_before_borrow_is_refused() {
    let loan = loan(publish(&[repay_call(), borrow_call(10_000)], 1));
    assert_eq!(borrow(&loan, 10_000, BorrowStage::Released), Err(ProtocolError::InvalidIx));
}

#[test]
fn borrow_in_second_place_is_refused_even_with_a_repayment_last() {
    let loan = loan(publish(&[other_call(), borrow_call(10_000), repay_call()], 1));
    assert_eq!(borrow(&loan, 10_000, BorrowStage::Released), Err(ProtocolError::InvalidIx));
}

#[test]
fn borrow_whose_position_cannot_be_read_is_refused() {
    let nowhere = loan(vec![]);
    assert_eq!(borrow(&nowhere, 1, BorrowStage::Released), Err(ProtocolError::InvalidIx));
    let one = loan(vec![0]);
    assert_eq!(borrow(&one, 1, BorrowStage::Released), Err(ProtocolError::InvalidIx));
}

#[test]
fn repayment_from_another_program_is_refused() {
    let foreign = Sent { program: address(42), ..repay_call() };
    let loan = loan(publish(&[borrow_call(10_000), foreign], 0));
    assert_eq!(borrow(&loan, 10_000, BorrowStage::Released), Err(ProtocolError::InvalidProgram));
}

#[test]
fn last_call_without_the_repay_tag_is_refused() {
    let loan_a = loan(publish(&[borrow_call(10_000), borrow_call(10_000)], 0));
    assert_eq!(borrow(&loan_a, 10_000, BorrowStage::Released), Err(ProtocolError::InvalidIx));
    let short = Sent { data: Repay {}.data()[..7].to_vec(), ..repay_call() };
    let loan_b = loan(publish(&[borrow_call(10_000), short], 0));
    assert_eq!(borrow(&loan_b, 10_000, BorrowStage::Released), Err(ProtocolError::InvalidIx));
    let empty = Sent { data: vec![], ..repay_call() };
    let loan_c = loan(publish(&[borrow_call(10_000), empty], 0));
    assert_eq!(borrow(&loan_c, 10_000, BorrowStage::Released), Err(ProtocolError::InvalidIx));
}

#[test]
fn repayment_for_another_borrower_account_is_refused() {
    let mut named = accounts();
    named[3] = address(99);
    let other = Sent { accounts: named, ..repay_call() };
    let loan = loan(publish(&[borrow_call(10_000), other], 0));
    assert_eq!(
        borrow(&loan, 10_000, BorrowStage::Released),
        Err(ProtocolError::InvalidBorrowerAta)
    );
}

#[test]
fn repayment_for_another_reserve_account_is_refused() {
    let mut named = accounts();
    named[4] = address(99);
    let other = Sent { accounts: named, ..repay_call() };
    let loan = loan(publish(&[borrow_call(10_000), other], 0));
    assert_eq!(
        borrow(&loan, 10_000, BorrowStage::Released),
        Err(ProtocolError::InvalidProtocolAta)
    );
}

#[test]
fn repayment_with_too_few_accounts_is_refused() {
    let three = Sent { accounts: accounts()[..3].to_vec(), ..repay_call() };
    let loan_three = loan(publish(&[borrow_call(10_000), three], 0));
    assert_eq!(
        borrow(&loan_three, 10_000, BorrowStage::Released),
        Err(ProtocolError::InvalidBorrowerAta)
    );
    let four = Sent { accounts: accounts()[..4].to_vec(), ..repay_call() };
    let loan_four = loan(publish(&[borrow_call(10_000), four], 0));
    assert_eq!(
        borrow(&loan_four, 10_000, BorrowStage::Released),
        Err(ProtocolError::InvalidProtocolAta)
    );
    let five = Sent { accounts: accounts()[..5].to_vec(), ..repay_call() };
    let loan_five = loan(publish(&[borrow_call(10_000), five], 0));
    assert_eq!(borrow(&loan_five, 10_000, BorrowStage::Released), Ok(BorrowStep::Settled));
}

#[test]
fn checks_come_in_their_order() {
    let mut named = accounts();
    named[3] = address(98);
    named[4] = address(99);
    let all_wrong = Sent { program: address(42), accounts: named.clone(), data: vec![0; 8] };
    let loan_a = loan(publish(&[borrow_call(1), all_wrong], 1));
    assert_eq!(borrow(&loan_a, 0, BorrowStage::Released), Err(ProtocolError::InvalidAmount));
    assert_eq!(borrow(&loan_a, 1, BorrowStage::Released), Err(ProtocolError::InvalidIx));
    let all_wrong = Sent { program: address(42), accounts: named.clone(), data: vec![0; 8] };
    let loan_b = loan(publish(&[borrow_call(1), all_wrong], 0));
    assert_eq!(borrow(&loan_b, 1, BorrowStage::Released), Err(ProtocolError::InvalidProgram));
    let wrong_tag = Sent { program: program_id(), accounts: named.clone(), data: vec![0; 8] };
    let loan_c = loan(publish(&[borrow_call(1), wrong_tag], 0));
    assert_eq!(borrow(&loan_c, 1, BorrowStage::Released), Err(ProtocolError::InvalidIx));
    let wrong_accounts = Sent { accounts: named, ..repay_call() };
    let loan_d = loan(publish(&[borrow_call(1), wrong_accounts], 0));
    assert_eq!(borrow(&loan_d, 1, BorrowStage::Released), Err(ProtocolError::InvalidBorrowerAta));
}

#[test]
fn structure_is_decided_from_position_and_last_call() {
    let loan = loan(vec![]);
    let repayment = Call {
        program: program_id(),
        accounts: accounts()
            .into_iter()
            .map(|key| AccountRef { key, is_signer: false, is_writable: false })
            .collect(),
        data: Repay {}.data(),
    };
    assert_eq!(check_structure(&loan, Some(0), &Some(repayment.clone())), Ok(()));
    assert_eq!(
        check_structure(&loan, Some(1), &Some(repayment.clone())),
        Err(ProtocolError::InvalidIx)
    );
    assert_eq!(
        check_structure(&loan, None, &Some(repayment.clone())),
        Err(ProtocolError::InvalidIx)
    );
    assert_eq!(check_structure(&loan, Some(0), &None), Err(ProtocolError::MissingRepayIx));
    assert_eq!(check_structure(&loan, Some(7), &None), Err(ProtocolError::InvalidIx));
    let foreign = Call { program: address(42), ..repayment.clone() };
    assert_eq!(check_structure(&loan, Some(0), &Some(foreign)), Err(ProtocolError::InvalidProgram));
}

#[test]
fn repay_returns_amount_and_fee_to_the_reserve() {
    let loan = loan(publish(&[borrow_call(10_000), repay_call()], 1));
    assert_eq!(repay(&loan), Ok(giving_back(&loan, 10_500)));
    assert_eq!(try_repay(&loan), Some(Ok(giving_back(&loan, 10_500))));
}

#[test]
fn repay_rounds_the_fee_down() {
    let loan_a = loan(publish(&[borrow_call(999_999), repay_call()], 1));
    assert_eq!(try_repay(&loan_a), Some(Ok(giving_back(&loan_a, 1_049_998))));
    let loan_b = loan(publish(&[borrow_call(19), repay_call()], 1));
    assert_eq!(try_repay(&loan_b), Some(Ok(giving_back(&loan_b, 19))));
}

#[test]
fn repay_without_a_first_call_misses_its_borrow() {
    let empty = loan(publish(&[], 0));
    assert_eq!(try_repay(&empty), Some(Err(ProtocolError::MissingBorrowIx)));
    assert_eq!(repay(&empty), Err(ProtocolError::MissingBorrowIx));
    let nowhere = loan(vec![]);
    assert_eq!(try_repay(&nowhere), Some(Err(ProtocolError::MissingBorrowIx)));
}

#[test]
fn repay_of_too_much_overflows() {
    let loan_a = loan(publish(&[borrow_call(u64::MAX), repay_call()], 1));
    assert_eq!(try_repay(&loan_a), Some(Err(ProtocolError::Overflow)));
    let loan_b = loan(publish(&[borrow_call(17_568_327_689_247_192_016), repay_call()], 1));
    assert_eq!(try_repay(&loan_b), Some(Err(ProtocolError::Overflow)));
    let loan_c = loan(publish(&[borrow_call(17_568_327_689_247_192_015), repay_call()], 1));
    assert_eq!(try_repay(&loan_c), Some(Ok(giving_back(&loan_c, u64::MAX))));
}

#[test]
fn repay_reads_the_first_call_whatever_it_is() {
    let mut data = vec![0u8; 8];
    data.extend_from_slice(&200u64.to_le_bytes());
    let stranger = Sent { program: address(42), accounts: vec![], data };
    let loan = loan(publish(&[stranger, repay_call()], 1));
    assert_eq!(try_repay(&loan), Some(Ok(giving_back(&loan, 210))));
}

#[test]
fn repay_has_nothing_to_read_in_a_first_call_too_short() {
    let loan_a = loan(publish(&[repay_call()], 0));
    assert_eq!(try_repay(&loan_a), None);
    let loan_b = loan(publish(&[other_call(), repay_call()], 1));
    assert_eq!(try_repay(&loan_b), None);
    let fifteen = Sent { data: vec![0; 15], ..borrow_call(0) };
    let loan_c = loan(publish(&[fifteen, repay_call()], 1));
    assert_eq!(try_repay(&loan_c), None);
}

#[test]
fn repayment_is_decided_from_the_first_call() {
    let loan = loan(vec![]);
    let first = Call { program: program_id(), accounts: vec![], data: Borrow { borrow_amount: 200 }.data() };
    assert_eq!(repayment(&loan, &Some(first)), Ok(giving_back(&loan, 210)));
    assert_eq!(repayment(&loan, &None), Err(ProtocolError::MissingBorrowIx));
}

#[test]
fn flash_loan_of_ten_thousand_end_to_end() {
    let amount = 10_000u64;
    let data_at_borrow = publish(&[borrow_call(amount), repay_call()], 0);
    let data_at_repay = publish(&[borrow_call(amount), repay_call()], 1);
    let mut reserve = 1_000_000u64;
    let mut borrower = 2_000u64;

    let at_borrow = loan(data_at_borrow);
    let out = match borrow(&at_borrow, amount, BorrowStage::Requested) {
        Ok(BorrowStep::Release(transfer)) => transfer,
        other => panic!("no transfer was ordered: {:?}", other),
    };
    assert_eq!(out.from, address(PROTOCOL_ATA));
    assert_eq!(out.to, address(BORROWER_ATA));
    assert_eq!(out.authority, reserve_authority().unwrap().address);
    assert_eq!(out.bump, Some(reserve_authority().unwrap().bump));
    assert_eq!(out.amount, 10_000);
    reserve -= out.amount;
    borrower += out.amount;
    assert_eq!(reserve, 990_000);
    assert_eq!(borrower, 12_000);
    assert_eq!(borrow(&at_borrow, amount, BorrowStage::Released), Ok(BorrowStep::Settled));

    let at_repay = loan(data_at_repay);
    let back = try_repay(&at_repay).unwrap().unwrap();
    assert_eq!(back.from, address(BORROWER_ATA));
    assert_eq!(back.to, address(PROTOCOL_ATA));
    assert_eq!(back.authority, address(BORROWER));
    assert_eq!(back.bump, None);
    assert_eq!(back.amount, 10_500);
    assert_eq!(back.amount - out.amount, 500);
    borrower -= back.amount;
    reserve += back.amount;
    assert_eq!(reserve, 1_000_500);
    assert_eq!(borrower, 1_500);
}

#[test]
fn flash_loan_of_an_odd_amount_end_to_end() {
    let amount = 999_999u64;
    let at_borrow = loan(publish(&[borrow_call(amount), repay_call()], 0));
    assert_eq!(
        borrow(&at_borrow, amount, BorrowStage::Requested),
        Ok(BorrowStep::Release(release(&at_borrow, 999_999)))
    );
    assert_eq!(borrow(&at_borrow, amount, BorrowStage::Released), Ok(BorrowStep::Settled));
    let at_repay = loan(publish(&[borrow_call(amount), repay_call()], 1));
    let back = try_repay(&at_repay).unwrap().unwrap();
    assert_eq!(back.amount, 1_049_998);
    assert_eq!(back.amount - amount, 49_999);
}
