//! Addresses of stored records, and their derivation from a namespace tag and
//! an ordered list of seeds.

use vstd::prelude::*;
use anchor_lang::prelude::Pubkey;
use crate::error::PlatformError;

verus! {

/// Most seeds that one derivation accepts, the namespace tag included.
pub const MAX_SEEDS: usize = 16;

/// Most bytes that a single seed may hold.
pub const MAX_SEED_LEN: usize = 32;

/// A 32-byte key: the address of a record, or the identity of an authority.
#[derive(Clone, Copy, Debug)]
pub struct Address {
    pub bytes: [u8; 32],
}

impl View for Address {
    type V = Seq<u8>;

    open spec fn view(&self) -> Seq<u8> {
        self.bytes@
    }
}

impl Address {
    /// The address made of the given bytes.
    pub fn new(bytes: [u8; 32]) -> (a: Address)
        ensures
            a.bytes == bytes,
            a@ == bytes@,
    {
        Address { bytes }
    }

    /// Whether two addresses hold the same bytes.
    pub fn same(&self, other: &Address) -> (r: bool)
        ensures
            r == (self@ == other@),
            r == (*self == *other),
    {
        let mut i: usize = 0;
        while i < 32
            invariant
                i <= 32,
                forall|j: int| 0 <= j < i ==> self.bytes[j] == other.bytes[j],
            decreases 32 - i,
        {
            if self.bytes[i] != other.bytes[i] {
                assert(self@[i as int] != other@[i as int]);
                return false;
            }
            i += 1;
        }
        assert(self.bytes@ =~= other.bytes@);
        assert(self.bytes =~= other.bytes);
        true
    }
}

/// The byte sequences that a list of seeds holds, in order.
pub open spec fn seed_bytes(seeds: Seq<Vec<u8>>) -> Seq<Seq<u8>> {
    Seq::new(seeds.len(), |i: int| seeds[i]@)
}

/// Whether the host accepts a seed list: fewer than `MAX_SEEDS` seeds, none
/// longer than `MAX_SEED_LEN` bytes.
pub open spec fn seeds_in_bounds(seeds: Seq<Seq<u8>>) -> bool {
    &&& seeds.len() < MAX_SEEDS
    &&& forall|i: int| 0 <= i < seeds.len() ==> (#[trigger] seeds[i]).len() <= MAX_SEED_LEN
}

/// The address and bump seed that the host derives for a program from a list
/// of seeds, if it derives one.
pub uninterp spec fn program_address(seeds: Seq<Seq<u8>>, program: Seq<u8>) -> Option<
    (Seq<u8>, u8),
>;

/// The view of a derivation's result.
pub open spec fn derived_view(d: Option<(Address, u8)>) -> Option<(Seq<u8>, u8)> {
    match d {
        Some((a, bump)) => Some((a@, bump)),
        None => None,
    }
}

/// Calls `Pubkey::try_find_program_address`. The result is a function of the
/// seeds and the program's key alone, named `program_address`. It is `None`
/// where the list holds `MAX_SEEDS` seeds or more, or a seed of more than
/// `MAX_SEED_LEN` bytes; nothing is claimed of when it is `Some`.
#[verifier::external_body]
fn find_program_address(seeds: &Vec<Vec<u8>>, program: &Address) -> (d: Option<(Address, u8)>)
    ensures
        derived_view(d) == program_address(seed_bytes(seeds@), program@),
        !seeds_in_bounds(seed_bytes(seeds@)) ==> d is None,
{
    let parts: Vec<&[u8]> = seeds.iter().map(|s| s.as_slice()).collect();
    let program_key = Pubkey::new_from_array(program.bytes);
    match Pubkey::try_find_program_address(&parts, &program_key) {
        Some((key, bump)) => Some((Address { bytes: key.to_bytes() }, bump)),
        None => None,
    }
}

/// What a derivation returns for each result of the host.
pub open spec fn derive_outcome(d: Option<(Seq<u8>, u8)>) -> Result<
    (Seq<u8>, u8),
    PlatformError,
> {
    match d {
        Some(pair) => Ok(pair),
        None => Err(PlatformError::AddressDerivationError),
    }
}

/// The view of what `derive_address` returns.
pub open spec fn derive_result_view(r: Result<(Address, u8), PlatformError>) -> Result<
    (Seq<u8>, u8),
    PlatformError,
> {
    match r {
        Ok((a, bump)) => Ok((a@, bump)),
        Err(e) => Err(e),
    }
}

/// Derives the address of a record from a namespace tag and an ordered list
/// of seeds, together with the bump seed that disambiguates it. The same
/// inputs give the same address. Fails with `AddressDerivationError` where
/// the host derives none, as it does for a list out of its bounds.
pub fn derive_address(namespace: Vec<u8>, seeds: Vec<Vec<u8>>, program: &Address) -> (r: Result<
    (Address, u8),
    PlatformError,
>)
    ensures
        derive_result_view(r) == derive_outcome(
            program_address(seq![namespace@] + seed_bytes(seeds@), program@),
        ),
        !seeds_in_bounds(seq![namespace@] + seed_bytes(seeds@)) ==> r == Err::<(Address, u8), _>(
            PlatformError::AddressDerivationError,
        ),
{
    let mut all = seeds;
    all.insert(0, namespace);
    assert(seed_bytes(all@) =~= seq![namespace@] + seed_bytes(seeds@));
    match find_program_address(&all, program) {
        Some(pair) => Ok(pair),
        None => Err(PlatformError::AddressDerivationError),
    }
}

} // verus!
