//! The escrow record: one open offer, as it is kept in its account.

use crate::errors::ProgramError;
use crate::pubkey::{
    create_program_address, found_program_address, program_address, pubkey_bytes, pubkey_eq,
    seeds_view, try_find_program_address, Pubkey,
};
use crate::ID;
use vstd::bytes::*;
use vstd::prelude::*;
use vstd::slice::slice_subrange;

verus! {

/// The tag that starts the seeds of every escrow record's address: the word
/// `escrow` in ASCII.
pub open spec fn escrow_tag() -> Seq<u8> {
    seq![101u8, 115u8, 99u8, 114u8, 111u8, 119u8]
}

/// One open offer: the maker has put tokens of `mint_a` into custody and wants
/// `receive` tokens of `mint_b` for them.
#[derive(Clone, Copy, Debug, PartialEq, Eq)]
pub struct Escrow {
    /// A number of the maker's choice, which tells this maker's offers apart.
    pub seed: u64,
    /// Who made the offer.
    pub maker: Pubkey,
    /// The asset in custody.
    pub mint_a: Pubkey,
    /// The asset that the maker wants.
    pub mint_b: Pubkey,
    /// How much of `mint_b` a taker pays.
    pub receive: u64,
    /// The bump seed with which the record's address was derived.
    pub bump: u8,
}

/// Reads the address that starts at `at`.
pub fn read_pubkey(bytes: &[u8], at: usize) -> (key: Pubkey)
    requires
        at + 32 <= bytes@.len(),
    ensures
        key@ == bytes@.subrange(at as int, at + 32),
{
    let len = bytes.len();
    let mut key: Pubkey = [0u8; 32];
    let mut i: usize = 0;
    while i < 32
        invariant
            i <= 32,
            at + 32 <= len,
            len == bytes@.len(),
            forall|j: int| 0 <= j < i ==> key@[j] == bytes@[at + j],
        decreases 32 - i,
    {
        key[i] = bytes[at + i];
        i += 1;
    }
    assert(key@ =~= bytes@.subrange(at as int, at + 32));
    key
}

/// Reads the little-endian number of eight bytes that starts at `at`.
pub fn read_u64(bytes: &[u8], at: usize) -> (value: u64)
    requires
        at + 8 <= bytes@.len(),
    ensures
        value == spec_u64_from_le_bytes(bytes@.subrange(at as int, at + 8)),
{
    let len = bytes.len();
    assert(at + 8 <= len);
    u64_from_le_bytes(slice_subrange(bytes, at, at + 8))
}

/// The bytes of a record with these fields: the fields in their order, numbers
/// little-endian.
pub open spec fn record_bytes(
    seed: u64,
    maker: Seq<u8>,
    mint_a: Seq<u8>,
    mint_b: Seq<u8>,
    receive: u64,
    bump: u8,
) -> Seq<u8> {
    spec_u64_to_le_bytes(seed) + maker + mint_a + mint_b + spec_u64_to_le_bytes(receive)
        + seq![bump]
}

/// The tag as a seed.
fn tag_bytes() -> (tag: Vec<u8>)
    ensures
        tag@ == escrow_tag(),
{
    let tag: Vec<u8> = vec![101u8, 115u8, 99u8, 114u8, 111u8, 119u8];
    assert(tag@ =~= escrow_tag());
    tag
}

/// The authority of an escrow record to sign: the seeds of its address, from which
/// the host derives the signature, and no key that anybody holds.
#[derive(Debug, PartialEq, Eq)]
pub struct DerivedAuthority {
    /// The maker of the offer.
    pub maker: Pubkey,
    /// The maker's number for the offer.
    pub seed: u64,
    /// The bump seed of the record's address.
    pub bump: u8,
}

impl DerivedAuthority {
    /// The seeds that the host takes for this authority's signature.
    pub open spec fn spec_seeds(self) -> Seq<Seq<u8>> {
        Escrow::spec_seeds(self.maker@, self.seed, self.bump)
    }

    /// The address for which this authority signs, if its seeds derive one.
    pub open spec fn spec_address(self) -> Option<Seq<u8>> {
        program_address(self.spec_seeds(), ID@)
    }

    /// The seeds that the host takes for this authority's signature.
    pub fn seeds(&self) -> (seeds: Vec<Vec<u8>>)
        ensures
            seeds_view(&seeds) == self.spec_seeds(),
    {
        let mut seeds: Vec<Vec<u8>> = Vec::new();
        seeds.push(tag_bytes());
        seeds.push(pubkey_bytes(&self.maker));
        seeds.push(u64_to_le_bytes(self.seed));
        let mut bump: Vec<u8> = Vec::new();
        bump.push(self.bump);
        assert(bump@ =~= seq![self.bump]);
        seeds.push(bump);
        assert(seeds_view(&seeds) =~= self.spec_seeds());
        seeds
    }

    /// The address for which this authority signs, if its seeds derive one.
    pub fn address(&self) -> (r: Option<Pubkey>)
        ensures
            match r {
                Some(a) => self.spec_address() == Some(a@),
                None => self.spec_address() is None,
            },
    {
        let seeds = self.seeds();
        create_program_address(&seeds, &ID)
    }
}

impl Escrow {
    /// The size of a record in its account.
    pub const LEN: usize = 113;

    /// The bytes of the record in its account: the fields in their order, numbers
    /// little-endian.
    pub open spec fn spec_bytes(self) -> Seq<u8> {
        record_bytes(self.seed, self.maker@, self.mint_a@, self.mint_b@, self.receive, self.bump)
    }

    /// The seeds from which the record's address is searched.
    pub open spec fn spec_base_seeds(maker: Seq<u8>, seed: u64) -> Seq<Seq<u8>> {
        seq![escrow_tag(), maker, spec_u64_to_le_bytes(seed)]
    }

    /// The seeds from which the record's address, and its authority to sign, are
    /// derived.
    pub open spec fn spec_seeds(maker: Seq<u8>, seed: u64, bump: u8) -> Seq<Seq<u8>> {
        seq![escrow_tag(), maker, spec_u64_to_le_bytes(seed), seq![bump]]
    }

    /// The address of the record of `maker` with number `seed` and bump `bump`, if
    /// these derive one.
    pub open spec fn spec_address(maker: Seq<u8>, seed: u64, bump: u8) -> Option<Seq<u8>> {
        program_address(Escrow::spec_seeds(maker, seed, bump), ID@)
    }

    /// The address and the bump that the host's search finds for the record of
    /// `maker` with number `seed`, if it finds any.
    pub open spec fn spec_found_address(maker: Seq<u8>, seed: u64) -> Option<(Seq<u8>, u8)> {
        found_program_address(Escrow::spec_base_seeds(maker, seed), ID@)
    }

    /// Derives the address of the record of `maker` with number `seed` and bump
    /// `bump`.
    pub fn derive_address(maker: &Pubkey, seed: u64, bump: u8) -> (r: Option<Pubkey>)
        ensures
            match r {
                Some(a) => Escrow::spec_address(maker@, seed, bump) == Some(a@),
                None => Escrow::spec_address(maker@, seed, bump) is None,
            },
    {
        let authority = DerivedAuthority { maker: *maker, seed, bump };
        authority.address()
    }

    /// Searches the address of the record of `maker` with number `seed`, and the
    /// bump that goes with it. What it finds is the address that `derive_address`
    /// derives with that bump.
    pub fn find_address(maker: &Pubkey, seed: u64) -> (r: Option<(Pubkey, u8)>)
        ensures
            match r {
                Some((a, bump)) => {
                    &&& Escrow::spec_found_address(maker@, seed) == Some((a@, bump))
                    &&& Escrow::spec_address(maker@, seed, bump) == Some(a@)
                },
                None => Escrow::spec_found_address(maker@, seed) is None,
            },
    {
        let mut seeds: Vec<Vec<u8>> = Vec::new();
        seeds.push(tag_bytes());
        seeds.push(pubkey_bytes(maker));
        seeds.push(u64_to_le_bytes(seed));
        assert(seeds_view(&seeds) =~= Escrow::spec_base_seeds(maker@, seed));
        let found = try_find_program_address(&seeds, &ID);
        proof {
            if let Some((a, bump)) = found {
                assert(Escrow::spec_base_seeds(maker@, seed).push(seq![bump])
                    =~= Escrow::spec_seeds(maker@, seed, bump));
            }
        }
        found
    }

    /// The bump of the record of `maker` with number `seed`, where `escrow` is the
    /// address of that record: the address that the search finds, and that the
    /// bump derives.
    pub open spec fn spec_bump_at(maker: Seq<u8>, seed: u64, escrow: Seq<u8>) -> Option<u8> {
        match Escrow::spec_found_address(maker, seed) {
            Some((address, bump)) if address == escrow && Escrow::spec_address(
                maker,
                seed,
                bump,
            ) == Some(escrow) => Some(bump),
            _ => None,
        }
    }

    /// The bump of the record of `maker` with number `seed`, if `escrow` is the
    /// address of that record.
    pub fn bump_at(maker: &Pubkey, seed: u64, escrow: &Pubkey) -> (r: Option<u8>)
        ensures
            r == Escrow::spec_bump_at(maker@, seed, escrow@),
    {
        match Escrow::find_address(maker, seed) {
            Some((address, bump)) => {
                if pubkey_eq(&address, escrow) {
                    Some(bump)
                } else {
                    None
                }
            },
            None => None,
        }
    }

    /// The authority with which this record signs, for the maker to whom the
    /// instruction says it belongs.
    pub fn authority(&self, maker: &Pubkey) -> (authority: DerivedAuthority)
        ensures
            authority == (DerivedAuthority { maker: *maker, seed: self.seed, bump: self.bump }),
    {
        DerivedAuthority { maker: *maker, seed: self.seed, bump: self.bump }
    }

    /// The maker's number in the bytes of a record.
    pub open spec fn spec_seed_in(bytes: Seq<u8>) -> u64 {
        spec_u64_from_le_bytes(bytes.subrange(0, 8))
    }

    /// The requested quantity in the bytes of a record.
    pub open spec fn spec_receive_in(bytes: Seq<u8>) -> u64 {
        spec_u64_from_le_bytes(bytes.subrange(104, 112))
    }

    /// The bump in the bytes of a record.
    pub open spec fn spec_bump_in(bytes: Seq<u8>) -> u8 {
        bytes[112]
    }

    /// Whether the record is what the bytes of an account say.
    pub open spec fn spec_is_loaded_from(self, bytes: Seq<u8>) -> bool {
        &&& self.seed == Escrow::spec_seed_in(bytes)
        &&& self.maker@ == bytes.subrange(8, 40)
        &&& self.mint_a@ == bytes.subrange(40, 72)
        &&& self.mint_b@ == bytes.subrange(72, 104)
        &&& self.receive == Escrow::spec_receive_in(bytes)
        &&& self.bump == Escrow::spec_bump_in(bytes)
    }

    /// Reads a record from the data of its account. The data must have the size of
    /// a record exactly; the record read is the one whose bytes they are.
    pub fn load(bytes: &[u8]) -> (r: Result<Escrow, ProgramError>)
        ensures
            bytes@.len() != Escrow::LEN ==> r == Err::<Escrow, ProgramError>(
                ProgramError::InvalidAccountData,
            ),
            bytes@.len() == Escrow::LEN ==> r is Ok && r->Ok_0.spec_is_loaded_from(bytes@)
                && r->Ok_0.spec_bytes() == bytes@,
    {
        if bytes.len() != Escrow::LEN {
            return Err(ProgramError::InvalidAccountData);
        }
        let escrow = Escrow {
            seed: read_u64(bytes, 0),
            maker: read_pubkey(bytes, 8),
            mint_a: read_pubkey(bytes, 40),
            mint_b: read_pubkey(bytes, 72),
            receive: read_u64(bytes, 104),
            bump: bytes[112],
        };
        proof {
            lemma_auto_spec_u64_to_from_le_bytes();
            assert(escrow.spec_bytes() =~= bytes@);
        }
        Ok(escrow)
    }

    /// The bytes of the record, as they stand in its account.
    pub fn to_bytes(&self) -> (bytes: Vec<u8>)
        ensures
            bytes@ == self.spec_bytes(),
            bytes@.len() == Escrow::LEN,
    {
        let mut bytes = u64_to_le_bytes(self.seed);
        bytes.extend_from_slice(self.maker.as_slice());
        bytes.extend_from_slice(self.mint_a.as_slice());
        bytes.extend_from_slice(self.mint_b.as_slice());
        let mut receive = u64_to_le_bytes(self.receive);
        bytes.append(&mut receive);
        bytes.push(self.bump);
        bytes
    }
}

/// A record has 113 bytes, and two records with the same bytes are the same record:
/// what `load` reads from the bytes of a record is that record.
pub proof fn lemma_record_bytes_are_exact(a: Escrow, b: Escrow)
    ensures
        a.spec_bytes().len() == Escrow::LEN,
        a.spec_bytes() == b.spec_bytes() ==> a == b,
{
    lemma_auto_spec_u64_to_from_le_bytes();
    if a.spec_bytes() == b.spec_bytes() {
        let x = a.spec_bytes();
        let y = b.spec_bytes();
        assert(spec_u64_to_le_bytes(a.seed) =~= x.subrange(0, 8));
        assert(spec_u64_to_le_bytes(b.seed) =~= y.subrange(0, 8));
        assert(a.maker@ =~= x.subrange(8, 40));
        assert(b.maker@ =~= y.subrange(8, 40));
        assert(a.mint_a@ =~= x.subrange(40, 72));
        assert(b.mint_a@ =~= y.subrange(40, 72));
        assert(a.mint_b@ =~= x.subrange(72, 104));
        assert(b.mint_b@ =~= y.subrange(72, 104));
        assert(spec_u64_to_le_bytes(a.receive) =~= x.subrange(104, 112));
        assert(spec_u64_to_le_bytes(b.receive) =~= y.subrange(104, 112));
        assert(a.bump == x[112]);
        assert(b.bump == y[112]);
        assert(a.seed == spec_u64_from_le_bytes(spec_u64_to_le_bytes(a.seed)));
        assert(a.receive == spec_u64_from_le_bytes(spec_u64_to_le_bytes(a.receive)));
        assert(a.maker =~= b.maker);
        assert(a.mint_a =~= b.mint_a);
        assert(a.mint_b =~= b.mint_b);
    }
}

/// What is read from the bytes of a record is what the record was made of.
pub proof fn lemma_record_bytes(
    seed: u64,
    maker: Seq<u8>,
    mint_a: Seq<u8>,
    mint_b: Seq<u8>,
    receive: u64,
    bump: u8,
)
    requires
        maker.len() == 32,
        mint_a.len() == 32,
        mint_b.len() == 32,
    ensures
        ({
            let bytes = record_bytes(seed, maker, mint_a, mint_b, receive, bump);
            &&& bytes.len() == Escrow::LEN
            &&& Escrow::spec_seed_in(bytes) == seed
            &&& Escrow::spec_receive_in(bytes) == receive
            &&& Escrow::spec_bump_in(bytes) == bump
            &&& bytes.subrange(8, 40) == maker
            &&& bytes.subrange(40, 72) == mint_a
            &&& bytes.subrange(72, 104) == mint_b
        }),
{
    lemma_auto_spec_u64_to_from_le_bytes();
    let bytes = record_bytes(seed, maker, mint_a, mint_b, receive, bump);
    assert(bytes.subrange(0, 8) =~= spec_u64_to_le_bytes(seed));
    assert(bytes.subrange(104, 112) =~= spec_u64_to_le_bytes(receive));
    assert(bytes.subrange(8, 40) =~= maker);
    assert(bytes.subrange(40, 72) =~= mint_a);
    assert(bytes.subrange(72, 104) =~= mint_b);
}

} // verus!
