//! Plain identities: the asset under escrow and the principals that hold it.

use vstd::prelude::*;

verus! {

/// Identifier of a fungible asset: 32 raw bytes, as the token service names
/// its assets. The escrow never looks inside the bytes; it only stores the
/// identifier and compares it against the one a withdrawer presents.
#[derive(Clone, Copy, Debug)]
pub struct Token {
    pub bytes: [u8; 32],
}

impl View for Token {
    type V = Seq<u8>;

    open spec fn view(&self) -> Seq<u8> {
        self.bytes@
    }
}

impl PartialEq for Token {
    fn eq(&self, other: &Token) -> bool {
        let mut i: usize = 0;
        while i < 32
            invariant
                0 <= i <= 32,
                forall|j: int| 0 <= j < i ==> self.bytes@[j] == other.bytes@[j],
            decreases 32 - i,
        {
            if self.bytes[i] != other.bytes[i] {
                return false;
            }
            i = i + 1;
        }
        proof {
            assert(self.bytes@ =~= other.bytes@);
        }
        true
    }
}

impl vstd::std_specs::cmp::PartialEqSpecImpl for Token {
    open spec fn obeys_eq_spec() -> bool {
        true
    }

    open spec fn eq_spec(&self, other: &Token) -> bool {
        self.bytes@ == other.bytes@
    }
}

/// Opaque identity of a principal (an account or a contract) in the sense the
/// token service uses: the escrow only records principals and hands them back,
/// it never interprets them.
#[derive(Clone, Copy, Debug, PartialEq, Eq, Structural)]
pub struct Principal {
    pub id: u64,
}

} // verus!
