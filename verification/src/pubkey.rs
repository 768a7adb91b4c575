//! Fixed 32-byte identifiers of accounts, mints and programs.

use vstd::prelude::*;
use vstd::std_specs::cmp::PartialEqSpecImpl;
use crate::trusted::{base58_encode, base58_encoding};

verus! {

/// A 32-byte account address.
#[derive(Clone, Copy, Debug)]
pub struct Pubkey {
    pub bytes: [u8; 32],
}

impl View for Pubkey {
    type V = Seq<u8>;

    open spec fn view(&self) -> Seq<u8> {
        self.bytes@
    }
}

impl Pubkey {
    /// The all-zero key, which stands for "not set".
    pub open spec fn zero() -> Pubkey {
        Pubkey { bytes: vstd::array::spec_array_fill_for_copy_type::<u8, 32>(0u8) }
    }

    pub open spec fn is_zero(&self) -> bool {
        *self == Pubkey::zero()
    }

    pub fn new_from_array(bytes: [u8; 32]) -> (key: Pubkey)
        ensures
            key.bytes == bytes,
    {
        Pubkey { bytes }
    }

    /// Builds a key from a slice, which must hold exactly 32 bytes.
    pub fn from_slice(bytes: &[u8]) -> (key: Option<Pubkey>)
        ensures
            key is Some <==> bytes@.len() == 32,
            key is Some ==> key.unwrap()@ == bytes@,
    {
        match array_from_slice::<32>(bytes) {
            Some(array) => Some(Pubkey { bytes: array }),
            None => None,
        }
    }

    /// The 32 bytes of the key, in order.
    pub fn to_vec(&self) -> (out: Vec<u8>)
        ensures
            out@ == self@,
    {
        let mut out: Vec<u8> = Vec::new();
        let mut i: usize = 0;
        while i < 32
            invariant
                0 <= i <= 32,
                out@.len() == i,
                forall|j: int| 0 <= j < i ==> out@[j] == self.bytes[j],
            decreases 32 - i,
        {
            out.push(self.bytes[i]);
            i += 1;
        }
        assert(out@ =~= self@);
        out
    }

    /// The key as text, in base 58.
    pub open spec fn text(self) -> Seq<char> {
        base58_encoding(self@)
    }

    /// The key as text, in base 58.
    pub fn to_text(&self) -> (text: String)
        ensures
            text@ == self.text(),
    {
        base58_encode(self.bytes.as_slice())
    }

    /// Whether this is the all-zero key.
    pub fn is_default(&self) -> (b: bool)
        ensures
            b == self.is_zero(),
    {
        let zero = Pubkey::default();
        *self == zero
    }
}

impl Default for Pubkey {
    fn default() -> (key: Pubkey)
        ensures
            key == Pubkey::zero(),
    {
        Pubkey { bytes: [0u8; 32] }
    }
}

impl PartialEq for Pubkey {
    fn eq(&self, other: &Pubkey) -> (b: bool) {
        let mut i: usize = 0;
        while i < 32
            invariant
                0 <= i <= 32,
                forall|j: int| 0 <= j < i ==> self.bytes[j] == other.bytes[j],
            decreases 32 - i,
        {
            if self.bytes[i] != other.bytes[i] {
                return false;
            }
            i += 1;
        }
        assert(self.bytes =~= other.bytes);
        true
    }
}

impl PartialEqSpecImpl for Pubkey {
    open spec fn obeys_eq_spec() -> bool {
        true
    }

    open spec fn eq_spec(&self, other: &Pubkey) -> bool {
        *self == *other
    }
}

impl Eq for Pubkey {

}

/// Two keys are the same key exactly when their byte sequences agree.
pub proof fn lemma_pubkey_view_injective(a: Pubkey, b: Pubkey)
    ensures
        a@ == b@ <==> a == b,
{
    if a@ == b@ {
        assert(a.bytes =~= b.bytes);
    }
}

/// The key with the given bytes, where there are 32 of them.
pub open spec fn key_of_bytes(bytes: Seq<u8>) -> Pubkey {
    choose|key: Pubkey| key@ == bytes
}

/// A key is the key of its bytes.
pub proof fn lemma_key_of_bytes(key: Pubkey)
    ensures
        key_of_bytes(key@) == key,
{
    let chosen = key_of_bytes(key@);
    assert(chosen@ == key@);
    lemma_pubkey_view_injective(chosen, key);
}

/// Copies a slice into an array, where the slice has the array's length.
pub fn array_from_slice<const N: usize>(bytes: &[u8]) -> (out: Option<[u8; N]>)
    ensures
        out is Some <==> bytes@.len() == N,
        out is Some ==> out.unwrap()@ == bytes@,
{
    if bytes.len() != N {
        return None;
    }
    let mut out: [u8; N] = [0u8; N];
    let mut i: usize = 0;
    while i < N
        invariant
            0 <= i <= N,
            bytes@.len() == N,
            forall|j: int| 0 <= j < i ==> out[j] == bytes@[j],
        decreases N - i,
    {
        out[i] = bytes[i];
        i += 1;
    }
    assert(out@ =~= bytes@);
    Some(out)
}

} // verus!
