use solana_program::pubkey::Pubkey;
use vstd::prelude::*;

verus! {

/// The program address that `seeds` and `program_id` derive, or `None` where
/// the derivation lands on the curve or the seeds are refused.
pub uninterp spec fn program_address(seeds: Seq<Seq<u8>>, program_id: Seq<u8>) -> Option<Seq<u8>>;

/// The canonical address and nonce found for `seeds` and `program_id`.
pub uninterp spec fn found_program_address(seeds: Seq<Seq<u8>>, program_id: Seq<u8>) -> Option<(Seq<u8>, u8)>;

/// Seeds that a derivation accepts: at most sixteen, none longer than 32 bytes.
pub open spec fn seeds_fit(seeds: Seq<Seq<u8>>) -> bool {
    seeds.len() <= 16 && forall|i: int| 0 <= i < seeds.len() ==> (#[trigger] seeds[i]).len() <= 32
}

/// The seeds with the one-byte nonce appended.
pub open spec fn with_bump(seeds: Seq<Seq<u8>>, bump: u8) -> Seq<Seq<u8>> {
    seeds.push(seq![bump])
}

pub open spec fn key_view(k: Option<[u8; 32]>) -> Option<Seq<u8>> {
    match k {
        Some(a) => Some(a@),
        None => None,
    }
}

pub open spec fn found_view(k: Option<([u8; 32], u8)>) -> Option<(Seq<u8>, u8)> {
    match k {
        Some((a, b)) => Some((a@, b)),
        None => None,
    }
}

/// Relies on `Pubkey::create_program_address`: it hashes the seeds with the
/// program id, fails on an address on the curve, and refuses more than
/// sixteen seeds or a seed longer than 32 bytes.
#[verifier::external_body]
fn create_program_address(seeds: &Vec<Vec<u8>>, program_id: &[u8; 32]) -> (r: Option<[u8; 32]>)
    ensures
        key_view(r) == program_address(seeds.deep_view(), program_id@),
        !seeds_fit(seeds.deep_view()) ==> r is None,
{
    let refs: Vec<&[u8]> = seeds.iter().map(|s| s.as_slice()).collect();
    Pubkey::create_program_address(&refs, &Pubkey::new_from_array(*program_id)).ok().map(
        |k| k.to_bytes(),
    )
}

/// Relies on `Pubkey::try_find_program_address`: it tries the nonces from 255
/// down to 1, appending each to the seeds for `create_program_address`, and
/// returns the first address found with its nonce.
#[verifier::external_body]
fn try_find_program_address(seeds: &Vec<Vec<u8>>, program_id: &[u8; 32]) -> (r: Option<([u8; 32], u8)>)
    ensures
        found_view(r) == found_program_address(seeds.deep_view(), program_id@),
        r matches Some((a, b)) ==> program_address(with_bump(seeds.deep_view(), b), program_id@)
            == Some(a@),
        r matches Some((a, b)) ==> forall|c: u8|
            b < c ==> #[trigger] program_address(with_bump(seeds.deep_view(), c), program_id@) is None,
{
    let refs: Vec<&[u8]> = seeds.iter().map(|s| s.as_slice()).collect();
    Pubkey::try_find_program_address(&refs, &Pubkey::new_from_array(*program_id)).map(
        |(k, b)| (k.to_bytes(), b),
    )
}

/// The first `n` bytes of `x`, least significant first.
pub open spec fn le_bytes(x: nat, n: nat) -> Seq<u8>
    decreases n,
{
    if n == 0 {
        seq![]
    } else {
        seq![(x % 256) as u8] + le_bytes(x / 256, (n - 1) as nat)
    }
}

/// The little-endian encoding of `x`.
pub fn u64_le_bytes(x: u64) -> (r: Vec<u8>)
    ensures
        r@ == le_bytes(x as nat, 8),
{
    let mut r: Vec<u8> = Vec::new();
    let mut v: u64 = x;
    let mut i: usize = 0;
    while i < 8
        invariant
            i <= 8,
            r@ + le_bytes(v as nat, (8 - i) as nat) == le_bytes(x as nat, 8),
        decreases 8 - i,
    {
        let ghost before = r@;
        r.push((v % 256) as u8);
        assert(le_bytes(v as nat, (8 - i) as nat) == seq![(v % 256) as u8] + le_bytes(
            (v / 256) as nat,
            (8 - i - 1) as nat,
        ));
        assert(before + le_bytes(v as nat, (8 - i) as nat) =~= r@ + le_bytes(
            (v / 256) as nat,
            (8 - i - 1) as nat,
        ));
        v = v / 256;
        i = i + 1;
    }
    assert(le_bytes(v as nat, 0) =~= seq![]);
    assert(r@ =~= r@ + le_bytes(v as nat, 0));
    r
}

/// Whether two addresses are the same.
pub fn keys_equal(a: &[u8; 32], b: &[u8; 32]) -> (r: bool)
    ensures
        r == (a@ == b@),
{
    let mut i: usize = 0;
    while i < 32
        invariant
            i <= 32,
            a@.len() == 32,
            b@.len() == 32,
            forall|j: int| 0 <= j < i ==> a@[j] == b@[j],
        decreases 32 - i,
    {
        if a[i] != b[i] {
            return false;
        }
        i = i + 1;
    }
    assert(a@ =~= b@);
    true
}

/// Whether `claimed` is the address derived from `seeds` with the nonce `bump`.
pub fn verify_address(seeds: Vec<Vec<u8>>, bump: u8, program_id: &[u8; 32], claimed: &[u8; 32]) -> (r: bool)
    ensures
        r == (program_address(with_bump(seeds.deep_view(), bump), program_id@) == Some(claimed@)),
{
    let signed = signer_seeds(seeds, bump);
    match create_program_address(&signed, program_id) {
        Some(k) => keys_equal(&k, claimed),
        None => false,
    }
}

/// The canonical address derived from `seeds`, with its nonce.
pub fn find_address(seeds: &Vec<Vec<u8>>, program_id: &[u8; 32]) -> (r: Option<([u8; 32], u8)>)
    ensures
        found_view(r) == found_program_address(seeds.deep_view(), program_id@),
        r matches Some((a, b)) ==> program_address(with_bump(seeds.deep_view(), b), program_id@)
            == Some(a@),
        r matches Some((a, b)) ==> forall|c: u8|
            b < c ==> #[trigger] program_address(with_bump(seeds.deep_view(), c), program_id@) is None,
{
    try_find_program_address(seeds, program_id)
}

} // verus!

verus! {

/// Domain tag of the sample cache: "random".
pub open spec fn random_tag() -> Seq<u8> {
    seq![114u8, 97, 110, 100, 111, 109]
}

/// Domain tag of a reserve's configuration record: "honeypot".
pub open spec fn honeypot_tag() -> Seq<u8> {
    seq![104u8, 111, 110, 101, 121, 112, 111, 116]
}

/// Domain tag of a reserve's vault: "vault".
pub open spec fn vault_tag() -> Seq<u8> {
    seq![118u8, 97, 117, 108, 116]
}

/// Domain tag of a wager record: "guess_account".
pub open spec fn guess_account_tag() -> Seq<u8> {
    seq![103u8, 117, 101, 115, 115, 95, 97, 99, 99, 111, 117, 110, 116]
}

/// Seeds of a reserve's records: the tag, the denomination and the three
/// configuration values.
pub open spec fn pool_seed_seq(
    tag: Seq<u8>,
    mint: Seq<u8>,
    tick_size: u64,
    max_amount: u64,
    minimum_bank_size: u64,
) -> Seq<Seq<u8>> {
    seq![
        tag,
        mint,
        le_bytes(tick_size as nat, 8),
        le_bytes(max_amount as nat, 8),
        le_bytes(minimum_bank_size as nat, 8),
    ]
}

/// Seeds of a requester's sample cache.
pub open spec fn rng_seed_seq(payer: Seq<u8>, program_id: Seq<u8>) -> Seq<Seq<u8>> {
    seq![random_tag(), payer, program_id]
}

/// Seeds of a player's wager record on a vault.
pub open spec fn guess_account_seed_seq(gambler: Seq<u8>, vault: Seq<u8>) -> Seq<Seq<u8>> {
    seq![guess_account_tag(), gambler, vault]
}

proof fn lemma_bytes_deep_view(v: Vec<u8>)
    ensures
        v.deep_view() == v@,
{
    assert(v.deep_view() =~= v@);
}

/// The deep view of a vector of byte strings, one string at a time.
proof fn lemma_seeds_deep_view(r: Vec<Vec<u8>>)
    ensures
        r.deep_view().len() == r@.len(),
        forall|i: int| 0 <= i < r@.len() ==> #[trigger] r.deep_view()[i] == r@[i]@,
{
    assert forall|i: int| 0 <= i < r@.len() implies #[trigger] r.deep_view()[i] == r@[i]@ by {
        lemma_bytes_deep_view(r@[i]);
    }
}

/// The bytes of an address.
pub fn key_bytes(k: &[u8; 32]) -> (r: Vec<u8>)
    ensures
        r@ == k@,
{
    let mut r: Vec<u8> = Vec::new();
    let mut i: usize = 0;
    while i < 32
        invariant
            i <= 32,
            k@.len() == 32,
            r@ == k@.take(i as int),
        decreases 32 - i,
    {
        r.push(k[i]);
        assert(r@ =~= k@.take(i + 1));
        i = i + 1;
    }
    assert(r@ =~= k@);
    r
}

pub fn pool_seeds(tag: Vec<u8>, mint: &[u8; 32], tick_size: u64, max_amount: u64, minimum_bank_size: u64) -> (r: Vec<Vec<u8>>)
    ensures
        r.deep_view() == pool_seed_seq(tag@, mint@, tick_size, max_amount, minimum_bank_size),
{
    let ghost t = tag@;
    let mut r: Vec<Vec<u8>> = Vec::new();
    r.push(tag);
    r.push(key_bytes(mint));
    r.push(u64_le_bytes(tick_size));
    r.push(u64_le_bytes(max_amount));
    r.push(u64_le_bytes(minimum_bank_size));
    proof {
        lemma_seeds_deep_view(r);
    }
    assert(r.deep_view() =~= pool_seed_seq(t, mint@, tick_size, max_amount, minimum_bank_size));
    r
}

pub fn honeypot_seeds(mint: &[u8; 32], tick_size: u64, max_amount: u64, minimum_bank_size: u64) -> (r: Vec<Vec<u8>>)
    ensures
        r.deep_view() == pool_seed_seq(honeypot_tag(), mint@, tick_size, max_amount, minimum_bank_size),
{
    let tag: Vec<u8> = vec![104u8, 111, 110, 101, 121, 112, 111, 116];
    assert(tag@ =~= honeypot_tag());
    pool_seeds(tag, mint, tick_size, max_amount, minimum_bank_size)
}

pub fn vault_seeds(mint: &[u8; 32], tick_size: u64, max_amount: u64, minimum_bank_size: u64) -> (r: Vec<Vec<u8>>)
    ensures
        r.deep_view() == pool_seed_seq(vault_tag(), mint@, tick_size, max_amount, minimum_bank_size),
{
    let tag: Vec<u8> = vec![118u8, 97, 117, 108, 116];
    assert(tag@ =~= vault_tag());
    pool_seeds(tag, mint, tick_size, max_amount, minimum_bank_size)
}

pub fn rng_seeds(payer: &[u8; 32], program_id: &[u8; 32]) -> (r: Vec<Vec<u8>>)
    ensures
        r.deep_view() == rng_seed_seq(payer@, program_id@),
{
    let tag: Vec<u8> = vec![114u8, 97, 110, 100, 111, 109];
    assert(tag@ =~= random_tag());
    let mut r: Vec<Vec<u8>> = Vec::new();
    r.push(tag);
    r.push(key_bytes(payer));
    r.push(key_bytes(program_id));
    proof {
        lemma_seeds_deep_view(r);
    }
    assert(r.deep_view() =~= rng_seed_seq(payer@, program_id@));
    r
}

pub fn guess_account_seeds(gambler: &[u8; 32], vault: &[u8; 32]) -> (r: Vec<Vec<u8>>)
    ensures
        r.deep_view() == guess_account_seed_seq(gambler@, vault@),
{
    let tag: Vec<u8> = vec![103u8, 117, 101, 115, 115, 95, 97, 99, 99, 111, 117, 110, 116];
    assert(tag@ =~= guess_account_tag());
    let mut r: Vec<Vec<u8>> = Vec::new();
    r.push(tag);
    r.push(key_bytes(gambler));
    r.push(key_bytes(vault));
    proof {
        lemma_seeds_deep_view(r);
    }
    assert(r.deep_view() =~= guess_account_seed_seq(gambler@, vault@));
    r
}

/// The seeds with the nonce appended: what signs for the derived address.
pub fn signer_seeds(seeds: Vec<Vec<u8>>, bump: u8) -> (r: Vec<Vec<u8>>)
    ensures
        r.deep_view() == with_bump(seeds.deep_view(), bump),
{
    let mut r = seeds;
    let nonce: Vec<u8> = vec![bump];
    assert(nonce.deep_view() =~= seq![bump]);
    r.push(nonce);
    assert(r.deep_view() =~= with_bump(seeds.deep_view(), bump));
    r
}

} // verus!
