//! Account addresses and the host's derivation of program addresses.

use vstd::prelude::*;

verus! {

/// The address of an account: 32 bytes.
pub type Pubkey = [u8; 32];

/// Whether two addresses hold the same bytes.
pub fn pubkey_eq(a: &Pubkey, b: &Pubkey) -> (r: bool)
    ensures
        r == (a@ == b@),
{
    let mut i: usize = 0;
    while i < 32
        invariant
            i <= 32,
            forall|j: int| 0 <= j < i ==> a@[j] == b@[j],
        decreases 32 - i,
    {
        if a[i] != b[i] {
            return false;
        }
        i += 1;
    }
    assert(a@ =~= b@);
    true
}

/// The bytes of an address as a seed.
pub fn pubkey_bytes(key: &Pubkey) -> (v: Vec<u8>)
    ensures
        v@ == key@,
{
    let mut v: Vec<u8> = Vec::new();
    let mut i: usize = 0;
    while i < 32
        invariant
            i <= 32,
            v@.len() == i,
            forall|j: int| 0 <= j < i ==> v@[j] == key@[j],
        decreases 32 - i,
    {
        v.push(key[i]);
        i += 1;
    }
    assert(v@ =~= key@);
    v
}

/// The seeds of a derivation as sequences of bytes.
pub open spec fn seeds_view(seeds: &Vec<Vec<u8>>) -> Seq<Seq<u8>> {
    Seq::new(seeds@.len(), |i: int| seeds@[i]@)
}

/// The address that the host derives from `seeds` for the program `program_id`,
/// where the seeds give one: a hash of the seeds and the program that lies off the
/// signature curve, so that no key pair can sign for it.
pub uninterp spec fn program_address(seeds: Seq<Seq<u8>>, program_id: Seq<u8>) -> Option<Seq<u8>>;

/// The address and bump seed that the host's search finds for `seeds` and the
/// program `program_id`, where it finds any.
pub uninterp spec fn found_program_address(seeds: Seq<Seq<u8>>, program_id: Seq<u8>) -> Option<
    (Seq<u8>, u8),
>;

/// `solana_address::Address::create_program_address`: the address derived from the
/// seeds for the program. The contract gives the outcome the name
/// `program_address`, with nothing where the call refuses the seeds (a seed too
/// many or too long, or a hash that lies on the curve).
#[verifier::external_body]
pub(crate) fn create_program_address(seeds: &Vec<Vec<u8>>, program_id: &Pubkey) -> (r: Option<
    Pubkey,
>)
    ensures
        match r {
            Some(a) => program_address(seeds_view(seeds), program_id@) == Some(a@),
            None => program_address(seeds_view(seeds), program_id@) is None,
        },
{
    let parts: Vec<&[u8]> = seeds.iter().map(|s| s.as_slice()).collect();
    let program = solana_address::Address::new_from_array(*program_id);
    match solana_address::Address::create_program_address(&parts, &program) {
        Ok(address) => Some(address.to_bytes()),
        Err(_) => None,
    }
}

/// `solana_address::Address::try_find_program_address`: the search for a bump seed
/// with which the seeds derive an address. The contract gives the outcome the name
/// `found_program_address`, and says what the search itself checks before it
/// answers: the seeds, followed by the bump as one more seed of a single byte,
/// derive the address that it returns.
#[verifier::external_body]
pub(crate) fn try_find_program_address(seeds: &Vec<Vec<u8>>, program_id: &Pubkey) -> (r: Option<
    (Pubkey, u8),
>)
    ensures
        match r {
            Some((a, bump)) => {
                &&& found_program_address(seeds_view(seeds), program_id@) == Some((a@, bump))
                &&& program_address(seeds_view(seeds).push(seq![bump]), program_id@) == Some(a@)
            },
            None => found_program_address(seeds_view(seeds), program_id@) is None,
        },
{
    let parts: Vec<&[u8]> = seeds.iter().map(|s| s.as_slice()).collect();
    let program = solana_address::Address::new_from_array(*program_id);
    match solana_address::Address::try_find_program_address(&parts, &program) {
        Some((address, bump)) => Some((address.to_bytes(), bump)),
        None => None,
    }
}

} // verus!
