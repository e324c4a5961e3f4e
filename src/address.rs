//! Account addresses and their deterministic derivation from seeds.
use vstd::prelude::*;
use vstd::string::StringSliceAdditionalSpecFns;

verus! {

/// A 32-byte account address.
#[derive(Clone, Copy, Debug, PartialEq, Eq)]
pub struct Address {
    pub bytes: [u8; 32],
}

impl Address {
    pub open spec fn view(self) -> Seq<u8> {
        self.bytes@
    }

    /// Byte-wise comparison of two addresses.
    pub fn same_as(&self, other: &Address) -> (r: bool)
        ensures
            r == (self@ == other@),
    {
        let mut i: usize = 0;
        while i < 32
            invariant
                i <= 32,
                self.bytes@.len() == 32,
                other.bytes@.len() == 32,
                forall|j: int| 0 <= j < i ==> self.bytes@[j] == other.bytes@[j],
            decreases 32 - i,
        {
            if self.bytes[i] != other.bytes[i] {
                assert(self.bytes@[i as int] != other.bytes@[i as int]);
                return false;
            }
            i = i + 1;
        }
        assert(self.bytes@ =~= other.bytes@);
        true
    }
}

/// The program-derived address and bump byte that the address scheme assigns
/// to a list of seeds under a program, if one exists.
pub uninterp spec fn program_address_of(seeds: Seq<Seq<u8>>, program: Seq<u8>) -> Option<(Seq<u8>, u8)>;

pub open spec fn seeds_view(seeds: Seq<Vec<u8>>) -> Seq<Seq<u8>> {
    seeds.map_values(|s: Vec<u8>| s@)
}

pub open spec fn derived_view(r: Option<(Address, u8)>) -> Option<(Seq<u8>, u8)> {
    match r {
        Some((a, bump)) => Some((a@, bump)),
        None => None,
    }
}

/// Relies on `Pubkey::try_find_program_address` of solana-program (through
/// anchor-lang): the address and bump depend on the seeds and program alone.
#[verifier::external_body]
fn try_find_program_address(seeds: &Vec<Vec<u8>>, program_id: &Address) -> (r: Option<(Address, u8)>)
    ensures
        derived_view(r) == program_address_of(seeds_view(seeds@), program_id@),
{
    let slices: Vec<&[u8]> = seeds.iter().map(|s| s.as_slice()).collect();
    let program = anchor_lang::prelude::Pubkey::new_from_array(program_id.bytes);
    anchor_lang::prelude::Pubkey::try_find_program_address(&slices, &program).map(
        |(a, bump)| (Address { bytes: a.to_bytes() }, bump),
    )
}

/// Domain tag of a registry's custody account.
pub const TREASURY_TAG: &'static str = "vesting_treasury";

/// Domain tag of a grant.
pub const GRANT_TAG: &'static str = "employee_vesting";

pub open spec fn tag_bytes(tag: &str) -> Seq<u8> {
    tag.spec_bytes()
}

/// Seeds of a registry entry: its organization name.
pub open spec fn registry_seeds(name: Seq<u8>) -> Seq<Seq<u8>> {
    seq![name]
}

/// Seeds of a registry's custody account and signing authority.
pub open spec fn treasury_seeds(name: Seq<u8>) -> Seq<Seq<u8>> {
    seq![tag_bytes(TREASURY_TAG), name]
}

/// Seeds of the grant of a beneficiary under a registry entry.
pub open spec fn grant_seeds(beneficiary: Seq<u8>, registry: Seq<u8>) -> Seq<Seq<u8>> {
    seq![tag_bytes(GRANT_TAG), beneficiary, registry]
}

/// Seeds that sign for a custody account: its seeds and its bump byte.
pub open spec fn treasury_signer_seeds(name: Seq<u8>, bump: u8) -> Seq<Seq<u8>> {
    treasury_seeds(name).push(seq![bump])
}


fn bytes_of(s: &str) -> (r: Vec<u8>)
    ensures
        r@ == s.spec_bytes(),
{
    vstd::slice::slice_to_vec(s.as_bytes())
}

fn array_to_vec(a: &[u8; 32]) -> (r: Vec<u8>)
    ensures
        r@ == a@,
{
    let mut v: Vec<u8> = Vec::new();
    let mut i: usize = 0;
    while i < 32
        invariant
            i <= 32,
            a@.len() == 32,
            v@ == a@.subrange(0, i as int),
        decreases 32 - i,
    {
        v.push(a[i]);
        i = i + 1;
        assert(v@ =~= a@.subrange(0, i as int));
    }
    assert(a@.subrange(0, 32) =~= a@);
    v
}

/// Address and bump of the registry entry of an organization.
pub fn derive_registry_address(name: &str, program_id: &Address) -> (r: Option<(Address, u8)>)
    ensures
        derived_view(r) == program_address_of(registry_seeds(name.spec_bytes()), program_id@),
{
    let seeds: Vec<Vec<u8>> = vec![bytes_of(name)];
    assert(seeds_view(seeds@) =~= registry_seeds(name.spec_bytes()));
    try_find_program_address(&seeds, program_id)
}

/// Address and bump of an organization's custody account.
pub fn derive_treasury_address(name: &str, program_id: &Address) -> (r: Option<(Address, u8)>)
    ensures
        derived_view(r) == program_address_of(treasury_seeds(name.spec_bytes()), program_id@),
{
    let seeds: Vec<Vec<u8>> = vec![bytes_of(TREASURY_TAG), bytes_of(name)];
    assert(seeds_view(seeds@) =~= treasury_seeds(name.spec_bytes()));
    try_find_program_address(&seeds, program_id)
}

/// Address and bump of a beneficiary's grant under a registry entry.
pub fn derive_grant_address(beneficiary: &Address, registry: &Address, program_id: &Address) -> (r: Option<(Address, u8)>)
    ensures
        derived_view(r) == program_address_of(grant_seeds(beneficiary@, registry@), program_id@),
{
    let seeds: Vec<Vec<u8>> = vec![bytes_of(GRANT_TAG), array_to_vec(&beneficiary.bytes), array_to_vec(&registry.bytes)];
    assert(seeds_view(seeds@) =~= grant_seeds(beneficiary@, registry@));
    try_find_program_address(&seeds, program_id)
}

/// The seeds with which the custody account of an organization signs a transfer.
pub fn treasury_signer(name: &str, bump: u8) -> (r: Vec<Vec<u8>>)
    ensures
        seeds_view(r@) == treasury_signer_seeds(name.spec_bytes(), bump),
{
    let b: Vec<u8> = vec![bump];
    assert(b@ =~= seq![bump]);
    let r: Vec<Vec<u8>> = vec![bytes_of(TREASURY_TAG), bytes_of(name), b];
    assert(seeds_view(r@) =~= treasury_signer_seeds(name.spec_bytes(), bump));
    r
}

} // verus!
