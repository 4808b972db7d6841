use vstd::prelude::*;

verus! {

/// The identity of an account or of an asset contract, held as the bytes of
/// its textual key.
#[derive(Debug)]
pub struct AccountId {
    pub key: Vec<u8>,
}

impl View for AccountId {
    type V = Seq<u8>;

    open spec fn view(&self) -> Seq<u8> {
        self.key@
    }
}

impl AccountId {
    pub fn new(key: Vec<u8>) -> (r: AccountId)
        ensures
            r@ == key@,
    {
        AccountId { key }
    }

    /// Whether both identifiers name the same account.
    pub fn same_as(&self, other: &AccountId) -> (r: bool)
        ensures
            r == (self@ == other@),
    {
        if self.key.len() != other.key.len() {
            return false;
        }
        let mut i: usize = 0;
        while i < self.key.len()
            invariant
                self.key@.len() == other.key@.len(),
                i <= self.key@.len(),
                forall|j: int| 0 <= j < i ==> self.key@[j] == other.key@[j],
            decreases self.key@.len() - i,
        {
            if self.key[i] != other.key[i] {
                return false;
            }
            i = i + 1;
        }
        assert(self.key@ =~= other.key@);
        true
    }

    pub fn copy(&self) -> (r: AccountId)
        ensures
            r@ == self@,
    {
        AccountId { key: self.key.clone() }
    }
}

} // verus!
