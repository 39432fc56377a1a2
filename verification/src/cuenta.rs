use vstd::prelude::*;

verus! {

broadcast use vstd::array::group_array_axioms;

/// Identificador de cuenta de un participante: un valor opaco de 32 bytes,
/// comparable por igualdad, provisto por la capa externa que autentica.
#[derive(Debug, Clone, Copy)]
pub struct AccountId {
    pub bytes: [u8; 32],
}

impl PartialEq for AccountId {
    fn eq(&self, otro: &AccountId) -> (r: bool) {
        let mut i: usize = 0;
        while i < 32
            invariant
                i <= 32,
                forall|j: int| 0 <= j < i ==> self.bytes@[j] == otro.bytes@[j],
            decreases 32 - i,
        {
            if self.bytes[i] != otro.bytes[i] {
                return false;
            }
            i += 1;
        }
        proof {
            assert(self.bytes =~= otro.bytes);
        }
        true
    }
}

impl vstd::std_specs::cmp::PartialEqSpecImpl for AccountId {
    open spec fn obeys_eq_spec() -> bool {
        true
    }

    open spec fn eq_spec(&self, otro: &AccountId) -> bool {
        self.bytes == otro.bytes
    }
}

impl From<[u8; 32]> for AccountId {
    fn from(bytes: [u8; 32]) -> (r: AccountId) {
        AccountId { bytes }
    }
}

impl vstd::std_specs::convert::FromSpecImpl<[u8; 32]> for AccountId {
    open spec fn obeys_from_spec() -> bool {
        true
    }

    open spec fn from_spec(bytes: [u8; 32]) -> AccountId {
        AccountId { bytes }
    }
}

} // verus!
