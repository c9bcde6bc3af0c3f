use anchor_lang::prelude::Pubkey;
use vstd::prelude::*;
use vstd::slice::slice_to_vec;
use vstd::string::StringSliceAdditionalSpecFns;

verus! {

/// Longest seed, in bytes, that program address derivation accepts.
pub const MAX_SEED_LEN: usize = 32;

/// A 32-byte public identifier: a wallet, a program or a derived record.
#[derive(Clone, Copy, Debug)]
pub struct Address {
    pub bytes: [u8; 32],
}

impl View for Address {
    type V = Seq<u8>;

    open spec fn view(&self) -> Seq<u8> {
        self.bytes@
    }
}

impl PartialEq for Address {
    fn eq(&self, o: &Address) -> (r: bool) {
        let mut i: usize = 0;
        while i < 32
            invariant
                0 <= i <= 32,
                self.bytes@.len() == 32,
                o.bytes@.len() == 32,
                forall|j: int| 0 <= j < i ==> self.bytes@[j] == o.bytes@[j],
            decreases 32 - i,
        {
            if self.bytes[i] != o.bytes[i] {
                return false;
            }
            i = i + 1;
        }
        assert(self.bytes@ =~= o.bytes@);
        true
    }
}

impl vstd::std_specs::cmp::PartialEqSpecImpl for Address {
    open spec fn obeys_eq_spec() -> bool {
        true
    }

    open spec fn eq_spec(&self, o: &Address) -> bool {
        self.bytes@ == o.bytes@
    }
}

impl Eq for Address {
}

impl Address {
    pub fn new(bytes: [u8; 32]) -> (r: Address)
        ensures
            r.bytes == bytes,
    {
        Address { bytes }
    }

    /// The identifier's bytes, as a seed.
    pub fn to_vec(&self) -> (r: Vec<u8>)
        ensures
            r@ == self@,
            r@.len() == 32,
    {
        let r = slice_to_vec(self.bytes.as_slice());
        r
    }
}

/// The address and bump that program address derivation yields for `seeds`
/// under `program`, or none when no bump lands off the curve.
pub uninterp spec fn program_address(seeds: Seq<Seq<u8>>, program: Seq<u8>) -> Option<(Seq<u8>, u8)>;

pub open spec fn seeds_view(seeds: Seq<Vec<u8>>) -> Seq<Seq<u8>> {
    seeds.map_values(|s: Vec<u8>| s@)
}

pub open spec fn derived_view(r: Option<(Address, u8)>) -> Option<(Seq<u8>, u8)> {
    match r {
        Some((a, b)) => Some((a@, b)),
        None => None,
    }
}

/// Relies on `Pubkey::try_find_program_address` (solana-program): it hashes the
/// seeds, the program id and a fixed marker for each bump from 255 down, and
/// returns the first result off the ed25519 curve with its bump. The result
/// depends on its arguments alone. A seed longer than `MAX_SEED_LEN` bytes
/// makes `create_program_address` fail with `MaxSeedLengthExceeded`, which
/// ends the search with `None`.
#[verifier::external_body]
fn find_program_address(seeds: &Vec<Vec<u8>>, program_id: &Address) -> (r: Option<(Address, u8)>)
    ensures
        derived_view(r) == program_address(seeds_view(seeds@), program_id@),
        (exists|i: int| 0 <= i < seeds@.len() && seeds@[i]@.len() > MAX_SEED_LEN) ==> r is None,
{
    let slices: Vec<&[u8]> = seeds.iter().map(|s| s.as_slice()).collect();
    let program = Pubkey::new_from_array(program_id.bytes);
    Pubkey::try_find_program_address(&slices, &program).map(|(k, b)| (Address { bytes: k.to_bytes() }, b))
}

/// Namespace tag of metadata record addresses.
pub open spec fn token_data_tag() -> Seq<u8> {
    seq![116u8, 111, 107, 101, 110, 95, 100, 97, 116, 97]
}

/// Namespace tag of the mint authority address.
pub open spec fn mint_authority_tag() -> Seq<u8> {
    seq![109u8, 105, 110, 116, 95, 97, 117, 116, 104, 111, 114, 105, 116, 121]
}

/// Seeds of the metadata record of `creator`'s token called `name` (its bytes).
pub open spec fn token_data_seeds(creator: Seq<u8>, name: Seq<u8>) -> Seq<Seq<u8>> {
    seq![token_data_tag(), creator, name]
}

pub open spec fn mint_authority_seeds() -> Seq<Seq<u8>> {
    seq![mint_authority_tag()]
}

/// Where the metadata record of `creator`'s token called `name` lives.
pub open spec fn token_data_address(program: Seq<u8>, creator: Seq<u8>, name: Seq<u8>) -> Option<(Seq<u8>, u8)> {
    program_address(token_data_seeds(creator, name), program)
}

/// The one mint authority of all tokens issued under `program`.
pub open spec fn mint_authority_address(program: Seq<u8>) -> Option<(Seq<u8>, u8)> {
    program_address(mint_authority_seeds(), program)
}

fn token_data_tag_vec() -> (r: Vec<u8>)
    ensures
        r@ == token_data_tag(),
{
    let r = vec![116u8, 111, 107, 101, 110, 95, 100, 97, 116, 97];
    assert(r@ =~= token_data_tag());
    r
}

fn mint_authority_tag_vec() -> (r: Vec<u8>)
    ensures
        r@ == mint_authority_tag(),
{
    let r = vec![109u8, 105, 110, 116, 95, 97, 117, 116, 104, 111, 114, 105, 116, 121];
    assert(r@ =~= mint_authority_tag());
    r
}

/// Derives the metadata record address and bump of `creator`'s token `name`.
/// `None` when derivation finds no address, as for a name longer than
/// `MAX_SEED_LEN` bytes.
pub fn derive_token_data(program_id: &Address, creator: &Address, name: &str) -> (r: Option<(Address, u8)>)
    ensures
        derived_view(r) == token_data_address(program_id@, creator@, name.spec_bytes()),
        name.spec_bytes().len() > MAX_SEED_LEN ==> r is None,
{
    let mut seeds: Vec<Vec<u8>> = Vec::new();
    seeds.push(token_data_tag_vec());
    seeds.push(creator.to_vec());
    seeds.push(slice_to_vec(name.as_bytes()));
    assert(seeds_view(seeds@) =~= token_data_seeds(creator@, name.spec_bytes()));
    assert(seeds@[2]@ == name.spec_bytes());
    find_program_address(&seeds, program_id)
}

/// Derives the mint authority address and bump of `program_id`.
pub fn derive_mint_authority(program_id: &Address) -> (r: Option<(Address, u8)>)
    ensures
        derived_view(r) == mint_authority_address(program_id@),
{
    let mut seeds: Vec<Vec<u8>> = Vec::new();
    seeds.push(mint_authority_tag_vec());
    assert(seeds_view(seeds@) =~= mint_authority_seeds());
    find_program_address(&seeds, program_id)
}

} // verus!
