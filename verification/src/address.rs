//! Account addresses, and the addresses derived for an escrow's storage.
//!
//! The record of an escrow and its vault live at addresses that are computed
//! from the maker and the seed, so that the same inputs lead to the same
//! storage at creation and at every later lookup.

use vstd::bytes::spec_u64_to_le_bytes;
use vstd::bytes::u64_to_le_bytes;
use vstd::prelude::*;

verus! {

/// The address of an account: thirty-two bytes.
#[derive(Clone, Copy, Debug, Eq)]
pub struct Address {
    pub bytes: [u8; 32],
}

impl View for Address {
    type V = Seq<u8>;

    open spec fn view(&self) -> Seq<u8> {
        self.bytes@
    }
}

impl PartialEq for Address {
    fn eq(&self, other: &Address) -> (same: bool) {
        let mut i: usize = 0;
        while i < 32
            invariant
                i <= 32,
                forall|k: int| 0 <= k < i ==> self.bytes@[k] == other.bytes@[k],
            decreases 32 - i,
        {
            if self.bytes[i] != other.bytes[i] {
                return false;
            }
            i += 1;
        }
        assert(self.bytes =~= other.bytes);
        true
    }
}

impl vstd::std_specs::cmp::PartialEqSpecImpl for Address {
    open spec fn obeys_eq_spec() -> bool {
        true
    }

    open spec fn eq_spec(&self, other: &Address) -> bool {
        *self == *other
    }
}

impl Address {
    /// The address with the given bytes.
    pub fn new(bytes: [u8; 32]) -> (address: Address)
        ensures
            address.bytes == bytes,
    {
        Address { bytes }
    }

    /// The bytes of the address, in order.
    pub fn to_vec(&self) -> (out: Vec<u8>)
        ensures
            out@ == self@,
    {
        let mut out: Vec<u8> = Vec::with_capacity(32);
        let mut i: usize = 0;
        while i < 32
            invariant
                i <= 32,
                out@ == self@.take(i as int),
            decreases 32 - i,
        {
            out.push(self.bytes[i]);
            i += 1;
        }
        out
    }
}

/// The address that has the given bytes.
pub open spec fn address_of(bytes: Seq<u8>) -> Address {
    choose|address: Address| address@ == bytes
}

/// Two addresses with the same bytes are the same address.
pub proof fn lemma_address_of(address: Address)
    ensures
        address_of(address@) == address,
{
    let found = address_of(address@);
    assert(found.bytes =~= address.bytes);
}

/// The seed that marks the address of an escrow's record: the bytes of
/// `escrow`.
pub open spec fn record_tag() -> Seq<u8> {
    seq![101u8, 115u8, 99u8, 114u8, 111u8, 119u8]
}

/// The seed that marks the address of an escrow's vault: the bytes of
/// `vault`.
pub open spec fn vault_tag() -> Seq<u8> {
    seq![118u8, 97u8, 117u8, 108u8, 116u8]
}

/// The seeds of the record of the escrow that `maker` opens under `seed`:
/// the record's tag, the maker's address, and the seed in little-endian
/// order.
pub open spec fn record_seeds(maker: Address, seed: u64) -> Seq<Seq<u8>> {
    seq![record_tag(), maker@, spec_u64_to_le_bytes(seed)]
}

/// The seeds of the vault that belongs to the record at `record`: the
/// vault's tag and the record's address.
pub open spec fn vault_seeds(record: Address) -> Seq<Seq<u8>> {
    seq![vault_tag(), record@]
}

/// The program-derived address of `seeds` under the program `program`, with
/// its bump seed: the first of 255, 254, .. for which the hash of the seeds,
/// the bump seed and the program lies off the curve. `None` where there is no
/// such bump seed, or where the seeds are too many or too long.
pub uninterp spec fn program_address(seeds: Seq<Seq<u8>>, program: Seq<u8>) -> Option<(Seq<u8>, u8)>;

/// The derived address of `seeds` under `program`, as an address.
pub open spec fn derived(seeds: Seq<Seq<u8>>, program: Address) -> Option<(Address, u8)> {
    match program_address(seeds, program@) {
        Some((bytes, bump)) => Some((address_of(bytes), bump)),
        None => None,
    }
}

/// Where the record of the escrow of `maker` and `seed` is stored.
pub open spec fn record_address(program: Address, maker: Address, seed: u64) -> Option<
    (Address, u8),
> {
    derived(record_seeds(maker, seed), program)
}

/// Where the vault of the record at `record` is stored.
pub open spec fn vault_address(program: Address, record: Address) -> Option<(Address, u8)> {
    derived(vault_seeds(record), program)
}

/// Calls `Pubkey::try_find_program_address` of `anchor_lang`, which never
/// panics: where it finds no address it returns `None`. What it returns is
/// computed from the seeds and the program id alone, by hashing; the contract
/// names it `program_address` and says nothing more of it. Verus takes this
/// contract on trust.
#[verifier::external_body]
fn find_program_address(seeds: &Vec<Vec<u8>>, program: &Address) -> (found: Option<(Address, u8)>)
    ensures
        found matches Some(pair) ==> program_address(seeds.deep_view(), program@) == Some(
            (pair.0@, pair.1),
        ),
        found is None ==> program_address(seeds.deep_view(), program@) is None,
{
    let parts: Vec<&[u8]> = seeds.iter().map(|s| s.as_slice()).collect();
    let id = anchor_lang::prelude::Pubkey::new_from_array(program.bytes);
    match anchor_lang::prelude::Pubkey::try_find_program_address(&parts, &id) {
        Some((key, bump)) => Some((Address { bytes: key.to_bytes() }, bump)),
        None => None,
    }
}

/// Derives the address of `seeds` under `program`.
fn derive(seeds: &Vec<Vec<u8>>, program: &Address) -> (found: Option<(Address, u8)>)
    ensures
        found == derived(seeds.deep_view(), *program),
{
    let found = find_program_address(seeds, program);
    proof {
        if let Some(pair) = found {
            lemma_address_of(pair.0);
        }
    }
    found
}

/// The tag of a record's address.
fn record_tag_bytes() -> (tag: Vec<u8>)
    ensures
        tag@ == record_tag(),
{
    let tag: Vec<u8> = vec![101u8, 115u8, 99u8, 114u8, 111u8, 119u8];
    tag
}

/// The tag of a vault's address.
fn vault_tag_bytes() -> (tag: Vec<u8>)
    ensures
        tag@ == vault_tag(),
{
    let tag: Vec<u8> = vec![118u8, 97u8, 117u8, 108u8, 116u8];
    tag
}

/// The seeds from which the address of the record of `maker` and `seed` is
/// derived.
pub fn seeds_of_record(maker: &Address, seed: u64) -> (seeds: Vec<Vec<u8>>)
    ensures
        seeds.deep_view() == record_seeds(*maker, seed),
{
    let seeds: Vec<Vec<u8>> = vec![record_tag_bytes(), maker.to_vec(), u64_to_le_bytes(seed)];
    assert(seeds.deep_view() =~= record_seeds(*maker, seed)) by {
        assert(seeds@[0].deep_view() =~= record_tag());
        assert(seeds@[1].deep_view() =~= maker@);
        assert(seeds@[2].deep_view() =~= spec_u64_to_le_bytes(seed));
    }
    seeds
}

/// The seeds from which the address of the vault of the record at `record`
/// is derived.
pub fn seeds_of_vault(record: &Address) -> (seeds: Vec<Vec<u8>>)
    ensures
        seeds.deep_view() == vault_seeds(*record),
{
    let seeds: Vec<Vec<u8>> = vec![vault_tag_bytes(), record.to_vec()];
    assert(seeds.deep_view() =~= vault_seeds(*record)) by {
        assert(seeds@[0].deep_view() =~= vault_tag());
        assert(seeds@[1].deep_view() =~= record@);
    }
    seeds
}

/// Finds where the record of the escrow of `maker` and `seed` is stored under
/// `program`, and the bump seed of that address.
pub fn find_record_address(program: &Address, maker: &Address, seed: u64) -> (found: Option<
    (Address, u8),
>)
    ensures
        found == record_address(*program, *maker, seed),
{
    let seeds = seeds_of_record(maker, seed);
    derive(&seeds, program)
}

/// Finds where the vault of the record at `record` is stored under
/// `program`, and the bump seed of that address.
pub fn find_vault_address(program: &Address, record: &Address) -> (found: Option<(Address, u8)>)
    ensures
        found == vault_address(*program, *record),
{
    let seeds = seeds_of_vault(record);
    derive(&seeds, program)
}

/// The seeds by which the vault of the record at `record` signs for its own
/// address under `program`: the seeds of that address, and its bump seed.
/// `None` where the vault has no address.
pub fn vault_signer_seeds(program: &Address, record: &Address) -> (seeds: Option<Vec<Vec<u8>>>)
    ensures
        seeds is Some <==> vault_address(*program, *record) is Some,
        seeds matches Some(parts) ==> parts.deep_view() == vault_seeds(*record).push(
            seq![vault_address(*program, *record).unwrap().1],
        ),
{
    let mut parts = seeds_of_vault(record);
    match derive(&parts, program) {
        Some(found) => {
            let ghost first = parts@;
            assert(first.len() == 2) by {
                assert(parts.deep_view().len() == vault_seeds(*record).len());
            }
            assert forall|i: int| 0 <= i < 2 implies (#[trigger] first[i]).deep_view()
                == vault_seeds(*record)[i] by {
                assert(parts.deep_view()[i] == first[i].deep_view());
            }
            let bump: Vec<u8> = vec![found.1];
            assert(bump.deep_view() =~= seq![found.1]);
            parts.push(bump);
            assert(parts.deep_view() =~= vault_seeds(*record).push(seq![found.1])) by {
                assert(parts.deep_view()[2] == bump.deep_view());
            }
            Some(parts)
        },
        None => None,
    }
}

} // verus!
