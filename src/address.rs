//! Deterministic storage addresses: a namespace tag and optional key bytes,
//! together with the program's own identity, give the address of a record.
use vstd::prelude::*;
use vstd::string::StrSliceExecFns;
use vstd::utf8::encode_utf8;
use anchor_lang::prelude::Pubkey;

verus! {

/// A 32-byte account identity: a storage address, a signer or a token.
pub type Address = [u8; 32];

/// The address and bump seed that program address derivation gives for these
/// seeds under this program, or `None` where no bump seed yields a valid one.
pub uninterp spec fn program_address(seeds: Seq<Seq<u8>>, program_id: Seq<u8>) -> Option<(Seq<u8>, u8)>;

/// The address alone, as a sequence of bytes.
pub open spec fn derived(seeds: Seq<Seq<u8>>, program_id: Seq<u8>) -> Option<Seq<u8>> {
    match program_address(seeds, program_id) {
        Some(p) => Some(p.0),
        None => None,
    }
}

/// Relies on `Pubkey::try_find_program_address` (solana-program, re-exported
/// by anchor_lang): a pure function of the seeds and the program id, which
/// returns `None` instead of panicking where no bump seed is found.
#[verifier::external_body]
fn try_find_program_address(seeds: &Vec<Vec<u8>>, program_id: &Address) -> (r: Option<(Address, u8)>)
    ensures
        match r {
            Some(p) => program_address(seeds.deep_view(), program_id@) == Some((p.0@, p.1)),
            None => program_address(seeds.deep_view(), program_id@) is None,
        },
{
    let slices: Vec<&[u8]> = seeds.iter().map(|s| s.as_slice()).collect();
    Pubkey::try_find_program_address(&slices, &Pubkey::new_from_array(*program_id))
        .map(|(key, bump)| (key.to_bytes(), bump))
}

/// The seeds of an address: the namespace tag, then the key bytes if any.
pub open spec fn address_seeds(tag: Seq<char>, key: Option<Seq<char>>) -> Seq<Seq<u8>> {
    match key {
        Some(k) => seq![encode_utf8(tag), encode_utf8(k)],
        None => seq![encode_utf8(tag)],
    }
}

/// The characters of an optional key.
pub open spec fn key_view(key: Option<&str>) -> Option<Seq<char>> {
    match key {
        Some(k) => Some(k@),
        None => None,
    }
}

/// Derives the address of the record in namespace `tag` with key `key`,
/// with the bump seed that makes it a valid program address.
pub fn derive_program_address(tag: &str, key: Option<&str>, program_id: &Address) -> (r: Option<(Address, u8)>)
    ensures
        match r {
            Some(p) => program_address(address_seeds(tag@, key_view(key)), program_id@) == Some((p.0@, p.1)),
            None => program_address(address_seeds(tag@, key_view(key)), program_id@) is None,
        },
{
    let mut seeds: Vec<Vec<u8>> = Vec::new();
    seeds.push(tag.as_bytes_vec());
    match key {
        Some(k) => seeds.push(k.as_bytes_vec()),
        None => {},
    }
    assert(seeds.deep_view()[0] =~= encode_utf8(tag@));
    if key.is_some() {
        assert(seeds.deep_view()[1] =~= encode_utf8(key_view(key).unwrap()));
    }
    assert(seeds.deep_view() =~= address_seeds(tag@, key_view(key)));
    try_find_program_address(&seeds, program_id)
}

/// Derives the address of the record in namespace `tag` with key `key`.
pub fn derive_address(tag: &str, key: Option<&str>, program_id: &Address) -> (r: Option<Address>)
    ensures
        match r {
            Some(a) => derived(address_seeds(tag@, key_view(key)), program_id@) == Some(a@),
            None => derived(address_seeds(tag@, key_view(key)), program_id@) is None,
        },
{
    match derive_program_address(tag, key, program_id) {
        Some(p) => Some(p.0),
        None => None,
    }
}

/// Byte-wise equality of two addresses.
pub fn same_address(a: &Address, b: &Address) -> (r: bool)
    ensures
        r == (a@ == b@),
{
    let mut i: usize = 0;
    while i < 32
        invariant
            0 <= i <= 32,
            a@.len() == 32,
            b@.len() == 32,
            forall|j: int| 0 <= j < i ==> a@[j] == b@[j],
        decreases 32 - i,
    {
        if a[i] != b[i] {
            return false;
        }
        i = i + 1;
    }
    assert(a@ =~= b@);
    true
}

} // verus!
