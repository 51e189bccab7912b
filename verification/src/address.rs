//! Identities of accounts and programs.

use vstd::prelude::*;

verus! {

/// A 32-byte identity of an account or a program.
#[derive(Clone, Copy, Debug, PartialEq, Eq, Hash)]
pub struct Address {
    pub bytes: [u8; 32],
}

impl View for Address {
    type V = Seq<u8>;

    open spec fn view(&self) -> Seq<u8> {
        self.bytes@
    }
}

/// The bytes of the identity under which this protocol is deployed.
pub open spec fn program_id_bytes() -> Seq<u8> {
    seq![
        15u8, 30u8, 107u8, 20u8, 33u8, 192u8, 74u8, 7u8,
        4u8, 49u8, 38u8, 92u8, 25u8, 197u8, 187u8, 238u8,
        25u8, 146u8, 186u8, 232u8, 175u8, 209u8, 205u8, 7u8,
        142u8, 248u8, 175u8, 112u8, 71u8, 220u8, 17u8, 247u8,
    ]
}

/// The identity under which this protocol is deployed.
pub fn program_id() -> (id: Address)
    ensures
        id@ == program_id_bytes(),
{
    let id = Address {
        bytes: [
            15, 30, 107, 20, 33, 192, 74, 7,
            4, 49, 38, 92, 25, 197, 187, 238,
            25, 146, 186, 232, 175, 209, 205, 7,
            142, 248, 175, 112, 71, 220, 17, 247,
        ],
    };
    assert(id@ =~= program_id_bytes());
    id
}

impl Address {
    /// Two addresses with the same bytes are the same address.
    pub proof fn lemma_view_injective(a: Address, b: Address)
        requires
            a@ == b@,
        ensures
            a == b,
    {
        assert forall|i: int| 0 <= i < 32 implies a.bytes[i] == b.bytes[i] by {
            assert(a@[i] == b@[i]);
        }
        assert(a.bytes =~= b.bytes);
    }

    /// Whether `self` and `other` name the same account.
    pub fn same(&self, other: &Address) -> (r: bool)
        ensures
            r == (self@ == other@),
            r == (*self == *other),
    {
        let mut i: usize = 0;
        while i < 32
            invariant
                0 <= i <= 32,
                forall|j: int| 0 <= j < i ==> self@[j] == other@[j],
            decreases 32 - i,
        {
            if self.bytes[i] != other.bytes[i] {
                return false;
            }
            i += 1;
        }
        proof {
            assert(self@ =~= other@);
            Self::lemma_view_injective(*self, *other);
        }
        true
    }
}

} // verus!
