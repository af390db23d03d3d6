//! Account addresses and their byte-wise comparison.
use vstd::prelude::*;

verus! {

/// A 32-byte account address.
#[derive(Clone, Copy, Debug, PartialEq, Eq)]
pub struct Pubkey {
    pub bytes: [u8; 32],
}

impl View for Pubkey {
    type V = Seq<u8>;

    open spec fn view(&self) -> Seq<u8> {
        self.bytes@
    }
}

/// Relies on solana_program::program_memory::sol_memcmp: it walks the first
/// `n` bytes of both slices and returns zero exactly when no byte differs.
#[verifier::external_body]
fn memcmp(s1: &[u8], s2: &[u8], n: usize) -> (r: i32)
    requires
        n <= s1@.len(),
        n <= s2@.len(),
    ensures
        (r == 0) == (s1@.subrange(0, n as int) == s2@.subrange(0, n as int)),
{
    solana_program::program_memory::sol_memcmp(s1, s2, n)
}

/// Compares two addresses byte for byte.
pub fn cmp_pubkeys(a: &Pubkey, b: &Pubkey) -> (r: bool)
    ensures
        r == (a@ == b@),
{
    let r = memcmp(a.bytes.as_slice(), b.bytes.as_slice(), 32);
    assert(a@.subrange(0, 32) =~= a@);
    assert(b@.subrange(0, 32) =~= b@);
    r == 0
}

} // verus!
