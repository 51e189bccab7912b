//! The wire format of the two calls this protocol accepts.
//!
//! Every payload begins with an 8-byte tag. A borrow carries the amount
//! after it, as 8 bytes with the least significant first; a repayment
//! carries nothing more.

use vstd::prelude::*;

verus! {

/// Length of the tag that opens every payload.
pub const TAG_LEN: usize = 8;

/// Length of a borrow payload: the tag and the amount.
pub const BORROW_LEN: usize = 16;

/// The tag of a borrow.
pub open spec fn borrow_tag() -> Seq<u8> {
    seq![228u8, 253u8, 131u8, 202u8, 207u8, 116u8, 89u8, 18u8]
}

/// The tag of a repayment.
pub open spec fn repay_tag() -> Seq<u8> {
    seq![234u8, 103u8, 67u8, 82u8, 208u8, 234u8, 219u8, 166u8]
}

/// The number that eight bytes spell, least significant byte first.
pub open spec fn le64(bytes: Seq<u8>) -> nat
    recommends
        bytes.len() == 8,
{
    (bytes[0] as nat) + (bytes[1] as nat) * 0x100 + (bytes[2] as nat) * 0x1_0000
        + (bytes[3] as nat) * 0x100_0000 + (bytes[4] as nat) * 0x1_0000_0000
        + (bytes[5] as nat) * 0x100_0000_0000 + (bytes[6] as nat) * 0x1_0000_0000_0000
        + (bytes[7] as nat) * 0x100_0000_0000_0000
}

/// The eight bytes that spell `value`, least significant byte first.
pub open spec fn le64_bytes(value: u64) -> Seq<u8> {
    seq![
        (value % 0x100) as u8,
        (value / 0x100 % 0x100) as u8,
        (value / 0x1_0000 % 0x100) as u8,
        (value / 0x100_0000 % 0x100) as u8,
        (value / 0x1_0000_0000 % 0x100) as u8,
        (value / 0x100_0000_0000 % 0x100) as u8,
        (value / 0x1_0000_0000_0000 % 0x100) as u8,
        (value / 0x100_0000_0000_0000 % 0x100) as u8,
    ]
}

/// The payload of a borrow of `amount`.
pub open spec fn borrow_payload(amount: u64) -> Seq<u8> {
    borrow_tag() + le64_bytes(amount)
}

/// The payload of a repayment.
pub open spec fn repay_payload() -> Seq<u8> {
    repay_tag()
}

/// The amount that a payload carries right after its tag.
pub open spec fn borrowed_amount_of(payload: Seq<u8>) -> nat
    recommends
        payload.len() >= 16,
{
    le64(payload.subrange(8, 16))
}

/// Eight bytes always spell a number that fits in 64 bits.
pub proof fn lemma_le64_fits(bytes: Seq<u8>)
    requires
        bytes.len() == 8,
    ensures
        le64(bytes) <= u64::MAX,
{
}

/// Spelling a number and reading the bytes back gives the number.
pub proof fn lemma_le64_round_trip(value: u64)
    ensures
        le64_bytes(value).len() == 8,
        le64(le64_bytes(value)) == value,
{
    assert(value == (value % 0x100) + (value / 0x100 % 0x100) * 0x100 + (value / 0x1_0000 % 0x100)
        * 0x1_0000 + (value / 0x100_0000 % 0x100) * 0x100_0000 + (value / 0x1_0000_0000 % 0x100)
        * 0x1_0000_0000 + (value / 0x100_0000_0000 % 0x100) * 0x100_0000_0000 + (value
        / 0x1_0000_0000_0000 % 0x100) * 0x1_0000_0000_0000 + (value / 0x100_0000_0000_0000 % 0x100)
        * 0x100_0000_0000_0000) by (bit_vector);
}

/// A borrow payload is 16 bytes, opens with the borrow tag, and decodes to
/// the amount it was made from.
pub proof fn lemma_borrow_round_trip(amount: u64)
    ensures
        borrow_payload(amount).len() == 16,
        borrow_payload(amount).subrange(0, 8) == borrow_tag(),
        borrowed_amount_of(borrow_payload(amount)) == amount,
{
    lemma_le64_round_trip(amount);
    assert(borrow_payload(amount).subrange(8, 16) =~= le64_bytes(amount));
    assert(borrow_payload(amount).subrange(0, 8) =~= borrow_tag());
}

/// The two tags differ, so no payload is both a borrow and a repayment.
pub proof fn lemma_tags_differ()
    ensures
        borrow_tag() != repay_tag(),
{
    assert(borrow_tag()[0] != repay_tag()[0]);
}

/// The tag of a borrow.
pub fn borrow_discriminator() -> (tag: [u8; 8])
    ensures
        tag@ == borrow_tag(),
{
    let tag: [u8; 8] = [228, 253, 131, 202, 207, 116, 89, 18];
    assert(tag@ =~= borrow_tag());
    tag
}

/// The tag of a repayment.
pub fn repay_discriminator() -> (tag: [u8; 8])
    ensures
        tag@ == repay_tag(),
{
    let tag: [u8; 8] = [234, 103, 67, 82, 208, 234, 219, 166];
    assert(tag@ =~= repay_tag());
    tag
}

/// Whether `payload` opens with `tag`.
pub fn has_tag(payload: &Vec<u8>, tag: &[u8; 8]) -> (r: bool)
    ensures
        r == (payload@.len() >= 8 && payload@.subrange(0, 8) == tag@),
{
    if payload.len() < TAG_LEN {
        return false;
    }
    let mut i: usize = 0;
    while i < TAG_LEN
        invariant
            0 <= i <= 8,
            payload@.len() >= 8,
            forall|j: int| 0 <= j < i ==> payload@[j] == tag@[j],
        decreases 8 - i,
    {
        if payload[i] != tag[i] {
            assert(payload@.subrange(0, 8)[i as int] != tag@[i as int]);
            return false;
        }
        i += 1;
    }
    assert(payload@.subrange(0, 8) =~= tag@);
    true
}

/// Reads the amount that `payload` carries right after its tag.
pub fn borrowed_amount(payload: &Vec<u8>) -> (amount: u64)
    requires
        payload@.len() >= 16,
    ensures
        amount == borrowed_amount_of(payload@),
{
    let b0: u64 = payload[8] as u64;
    let b1: u64 = payload[9] as u64;
    let b2: u64 = payload[10] as u64;
    let b3: u64 = payload[11] as u64;
    let b4: u64 = payload[12] as u64;
    let b5: u64 = payload[13] as u64;
    let b6: u64 = payload[14] as u64;
    let b7: u64 = payload[15] as u64;
    b0 + b1 * 0x100 + b2 * 0x1_0000 + b3 * 0x100_0000 + b4 * 0x1_0000_0000 + b5 * 0x100_0000_0000
        + b6 * 0x1_0000_0000_0000 + b7 * 0x100_0000_0000_0000
}

/// A request to borrow `borrow_amount` from the reserve.
#[derive(Clone, Copy, Debug, PartialEq, Eq)]
pub struct Borrow {
    pub borrow_amount: u64,
}

/// A request to return what was borrowed, with its fee. It names no amount:
/// the amount is read from the borrow that opens the transaction.
#[derive(Clone, Copy, Debug, PartialEq, Eq)]
pub struct Repay {}

impl Borrow {
    /// The payload of this borrow.
    pub fn data(&self) -> (payload: Vec<u8>)
        ensures
            payload@ == borrow_payload(self.borrow_amount),
    {
        let a = self.borrow_amount;
        let mut payload: Vec<u8> = Vec::new();
        let tag = borrow_discriminator();
        let mut i: usize = 0;
        while i < TAG_LEN
            invariant
                0 <= i <= 8,
                tag@ == borrow_tag(),
                payload@ == borrow_tag().subrange(0, i as int),
            decreases 8 - i,
        {
            payload.push(tag[i]);
            assert(payload@ =~= borrow_tag().subrange(0, i + 1));
            i += 1;
        }
        payload.push((a % 0x100) as u8);
        payload.push((a / 0x100 % 0x100) as u8);
        payload.push((a / 0x1_0000 % 0x100) as u8);
        payload.push((a / 0x100_0000 % 0x100) as u8);
        payload.push((a / 0x1_0000_0000 % 0x100) as u8);
        payload.push((a / 0x100_0000_0000 % 0x100) as u8);
        payload.push((a / 0x1_0000_0000_0000 % 0x100) as u8);
        payload.push((a / 0x100_0000_0000_0000 % 0x100) as u8);
        assert(payload@ =~= borrow_payload(a));
        payload
    }
}

impl Repay {
    /// The payload of a repayment: its tag alone.
    pub fn data(&self) -> (payload: Vec<u8>)
        ensures
            payload@ == repay_payload(),
    {
        let tag = repay_discriminator();
        let mut payload: Vec<u8> = Vec::new();
        let mut i: usize = 0;
        while i < TAG_LEN
            invariant
                0 <= i <= 8,
                tag@ == repay_tag(),
                payload@ == repay_tag().subrange(0, i as int),
            decreases 8 - i,
        {
            payload.push(tag[i]);
            assert(payload@ =~= repay_tag().subrange(0, i + 1));
            i += 1;
        }
        assert(payload@ =~= repay_payload());
        payload
    }
}

} // verus!
