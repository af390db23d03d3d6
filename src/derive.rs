//! Key-less deterministic addresses: the seeds of each record and their
//! derivation under a program.
use vstd::prelude::*;
use crate::keys::Pubkey;

verus! {

/// What `Pubkey::try_find_program_address` yields for these seeds under this
/// program: the address and the bump seed that was appended to reach it.
pub uninterp spec fn program_address_of(seeds: Seq<Seq<u8>>, program_id: Seq<u8>) -> Option<
    (Seq<u8>, u8),
>;

/// The view of a list of seeds.
pub open spec fn seeds_view(seeds: Seq<Vec<u8>>) -> Seq<Seq<u8>> {
    seeds.map_values(|s: Vec<u8>| s@)
}

/// Relies on solana_program::pubkey::Pubkey::try_find_program_address: a
/// hash of the seeds and the program id alone, probed over the bump seeds
/// for an address that lies off the curve.
#[verifier::external_body]
fn try_find_program_address(seeds: &Vec<Vec<u8>>, program_id: &Pubkey) -> (r: Option<(Pubkey, u8)>)
    ensures
        match program_address_of(seeds_view(seeds@), program_id@) {
            Some((a, b)) => r matches Some((k, c)) && k@ == a && c == b,
            None => r is None,
        },
{
    let s: Vec<&[u8]> = seeds.iter().map(|v| v.as_slice()).collect();
    let p = solana_program::pubkey::Pubkey::new_from_array(program_id.bytes);
    solana_program::pubkey::Pubkey::try_find_program_address(&s, &p).map(
        |(k, b)| (Pubkey { bytes: k.to_bytes() }, b),
    )
}

/// The `n` least significant bytes of `x`, lowest first.
pub open spec fn le_bytes(x: nat, n: nat) -> Seq<u8>
    decreases n,
{
    if n == 0 {
        Seq::empty()
    } else {
        seq![(x % 256) as u8].add(le_bytes(x / 256, (n - 1) as nat))
    }
}

/// `256` raised to `n`.
pub open spec fn byte_power(n: nat) -> nat
    decreases n,
{
    if n == 0 {
        1
    } else {
        256 * byte_power((n - 1) as nat)
    }
}

/// Two numbers below `256^n` with the same `n` low bytes are equal.
pub proof fn lemma_le_bytes_injective(x: nat, y: nat, n: nat)
    requires
        x < byte_power(n),
        y < byte_power(n),
        le_bytes(x, n) == le_bytes(y, n),
    ensures
        x == y,
    decreases n,
{
    if n > 0 {
        let lx = le_bytes(x, n);
        let ly = le_bytes(y, n);
        assert(lx[0] == ly[0]);
        assert(le_bytes(x / 256, (n - 1) as nat) =~= lx.subrange(1, lx.len() as int));
        assert(le_bytes(y / 256, (n - 1) as nat) =~= ly.subrange(1, ly.len() as int));
        let p = byte_power((n - 1) as nat);
        assert(x / 256 < p) by (nonlinear_arith)
            requires x < 256 * p;
        assert(y / 256 < p) by (nonlinear_arith)
            requires y < 256 * p;
        lemma_le_bytes_injective(x / 256, y / 256, (n - 1) as nat);
        assert(x % 256 == y % 256);
    }
}

/// The eight bytes of `x`, lowest first.
pub fn u64_le_bytes(x: u64) -> (r: Vec<u8>)
    ensures
        r@ == le_bytes(x as nat, 8),
{
    let mut r: Vec<u8> = Vec::new();
    let mut v: u64 = x;
    let mut i: usize = 0;
    while i < 8
        invariant
            i <= 8,
            r@.add(le_bytes(v as nat, (8 - i) as nat)) == le_bytes(x as nat, 8),
        decreases 8 - i,
    {
        let ghost before = r@;
        r.push((v % 256) as u8);
        assert(r@.add(le_bytes((v / 256) as nat, (8 - i - 1) as nat)) =~= before.add(
            le_bytes(v as nat, (8 - i) as nat),
        ));
        v = v / 256;
        i = i + 1;
    }
    assert(r@.add(le_bytes(v as nat, 0)) =~= r@);
    r
}

/// The tag of an asset's mint address: "mint".
pub open spec fn mint_tag() -> Seq<u8> {
    seq![109u8, 105u8, 110u8, 116u8]
}

/// The tag of the metadata program's records: "metadata".
pub open spec fn metadata_tag() -> Seq<u8> {
    seq![109u8, 101u8, 116u8, 97u8, 100u8, 97u8, 116u8, 97u8]
}

/// The suffix of an edition record's seeds: "edition".
pub open spec fn edition_tag() -> Seq<u8> {
    seq![101u8, 100u8, 105u8, 116u8, 105u8, 111u8, 110u8]
}

/// The tag of the treasury's address: "distributor".
pub open spec fn treasury_tag() -> Seq<u8> {
    seq![100u8, 105u8, 115u8, 116u8, 114u8, 105u8, 98u8, 117u8, 116u8, 111u8, 114u8]
}

/// Seeds of the mint of asset `id`: the tag and the id's eight little-endian bytes.
pub open spec fn mint_seeds(id: u64) -> Seq<Seq<u8>> {
    seq![mint_tag(), le_bytes(id as nat, 8)]
}

/// Seeds of an asset's metadata record, owned by the metadata program.
pub open spec fn metadata_seeds(metadata_program: Seq<u8>, mint: Seq<u8>) -> Seq<Seq<u8>> {
    seq![metadata_tag(), metadata_program, mint]
}

/// Seeds of an asset's edition record, owned by the metadata program.
pub open spec fn edition_seeds(metadata_program: Seq<u8>, mint: Seq<u8>) -> Seq<Seq<u8>> {
    seq![metadata_tag(), metadata_program, mint, edition_tag()]
}

/// Seeds of the treasury singleton.
pub open spec fn treasury_seeds() -> Seq<Seq<u8>> {
    seq![treasury_tag()]
}

/// `r` is the executable form of the derivation outcome `d`.
pub open spec fn derived_as(r: Option<(Pubkey, u8)>, d: Option<(Seq<u8>, u8)>) -> bool {
    match d {
        Some((a, b)) => r matches Some((k, c)) && k@ == a && c == b,
        None => r is None,
    }
}

/// The bytes of an address, as a vector.
pub fn key_bytes(k: &Pubkey) -> (r: Vec<u8>)
    ensures
        r@ == k@,
{
    let mut r: Vec<u8> = Vec::new();
    let mut i: usize = 0;
    while i < 32
        invariant
            i <= 32,
            k@.len() == 32,
            r@ == k@.subrange(0, i as int),
        decreases 32 - i,
    {
        r.push(k.bytes[i]);
        assert(r@ =~= k@.subrange(0, i + 1));
        i = i + 1;
    }
    assert(k@.subrange(0, 32) =~= k@);
    r
}

/// Derives the mint address of asset `id` under `program_id`.
pub fn find_mint_address(id: u64, program_id: &Pubkey) -> (r: Option<(Pubkey, u8)>)
    ensures
        derived_as(r, program_address_of(mint_seeds(id), program_id@)),
{
    let seeds: Vec<Vec<u8>> = vec![vec![109u8, 105u8, 110u8, 116u8], u64_le_bytes(id)];
    assert(seeds_view(seeds@) =~= mint_seeds(id));
    try_find_program_address(&seeds, program_id)
}

/// Derives the metadata record address of `mint` under the metadata program.
pub fn find_metadata_address(metadata_program: &Pubkey, mint: &Pubkey) -> (r: Option<(Pubkey, u8)>)
    ensures
        derived_as(r, program_address_of(metadata_seeds(metadata_program@, mint@), metadata_program@)),
{
    let seeds: Vec<Vec<u8>> = vec![
        vec![109u8, 101u8, 116u8, 97u8, 100u8, 97u8, 116u8, 97u8],
        key_bytes(metadata_program),
        key_bytes(mint),
    ];
    assert(seeds_view(seeds@) =~= metadata_seeds(metadata_program@, mint@));
    try_find_program_address(&seeds, metadata_program)
}

/// Derives the edition record address of `mint` under the metadata program.
pub fn find_edition_address(metadata_program: &Pubkey, mint: &Pubkey) -> (r: Option<(Pubkey, u8)>)
    ensures
        derived_as(r, program_address_of(edition_seeds(metadata_program@, mint@), metadata_program@)),
{
    let seeds: Vec<Vec<u8>> = vec![
        vec![109u8, 101u8, 116u8, 97u8, 100u8, 97u8, 116u8, 97u8],
        key_bytes(metadata_program),
        key_bytes(mint),
        vec![101u8, 100u8, 105u8, 116u8, 105u8, 111u8, 110u8],
    ];
    assert(seeds_view(seeds@) =~= edition_seeds(metadata_program@, mint@));
    try_find_program_address(&seeds, metadata_program)
}

/// Derives the treasury's address under `program_id`.
pub fn find_treasury_address(program_id: &Pubkey) -> (r: Option<(Pubkey, u8)>)
    ensures
        derived_as(r, program_address_of(treasury_seeds(), program_id@)),
{
    let seeds: Vec<Vec<u8>> = vec![
        vec![100u8, 105u8, 115u8, 116u8, 114u8, 105u8, 98u8, 117u8, 116u8, 111u8, 114u8],
    ];
    assert(seeds_view(seeds@) =~= treasury_seeds());
    try_find_program_address(&seeds, program_id)
}

/// Deriving a mint address is deterministic: any two results of
/// `find_mint_address` for the same id and program are the same address and
/// the same bump seed.
pub proof fn lemma_mint_derivation_deterministic(
    id: u64,
    program_id: Pubkey,
    r1: Option<(Pubkey, u8)>,
    r2: Option<(Pubkey, u8)>,
)
    requires
        derived_as(r1, program_address_of(mint_seeds(id), program_id@)),
        derived_as(r2, program_address_of(mint_seeds(id), program_id@)),
    ensures
        r1 == r2,
{
    if let Some((k1, _)) = r1 {
        if let Some((k2, _)) = r2 {
            assert(k1.bytes@ == k2.bytes@);
            assert(k1.bytes == k2.bytes);
        }
    }
}

/// Distinct ids give distinct mint seeds: the mint derivation of one id never
/// hashes the input of another's.
pub proof fn lemma_mint_seeds_distinct(a: u64, b: u64)
    requires
        a != b,
    ensures
        mint_seeds(a) != mint_seeds(b),
{
    if mint_seeds(a) == mint_seeds(b) {
        assert(mint_seeds(a)[1] == mint_seeds(b)[1]);
        reveal_with_fuel(byte_power, 9);
        assert(byte_power(8) == 0x1_0000_0000_0000_0000);
        lemma_le_bytes_injective(a as nat, b as nat, 8);
    }
}

} // verus!
