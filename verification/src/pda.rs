//! Deterministic, keyless address derivation. A record address is derived
//! from the owning program's identity and the seed tuple (fixed tag, maker,
//! asset-X class); the custody address is derived by the token ledger's
//! canonical association rule applied to (record address, asset-X class).
//! Supplied addresses are never trusted: every validator recomputes the
//! derived address and compares.

use vstd::prelude::*;

verus! {

/// What the ledger SDK's address derivation returns for a program identity
/// and a seed tuple: the derived address and its disambiguation byte, or
/// nothing in the statistically improbable event that no viable
/// disambiguation byte exists (or when the seeds exceed the derivation
/// limits). The result depends on the arguments alone.
pub uninterp spec fn pda_of(program: Seq<u8>, seeds: Seq<Seq<u8>>) -> Option<(Seq<u8>, u8)>;

/// Relies on solana_pubkey::Pubkey::try_find_program_address: the derived
/// address and disambiguation byte are a pure function of the seed tuple and
/// the program identity; the address is 32 bytes; `None` comes only when no
/// viable derivation exists for these seeds.
#[verifier::external_body]
fn try_find_pda(seeds: &Vec<Vec<u8>>, program_id: &Vec<u8>) -> (r: Option<(Vec<u8>, u8)>)
    requires
        program_id@.len() == 32,
    ensures
        (match (r, pda_of(program_id@, seeds@.map_values(|s: Vec<u8>| s@))) {
            (Some(p), Some(q)) => p.0@ == q.0 && p.1 == q.1 && q.0.len() == 32,
            (None, None) => true,
            _ => false,
        }),
{
    let pid = solana_pubkey::Pubkey::new_from_array(program_id.as_slice().try_into().unwrap());
    let seed_refs: Vec<&[u8]> = seeds.iter().map(|s| s.as_slice()).collect();
    solana_pubkey::Pubkey::try_find_program_address(&seed_refs, &pid)
        .map(|(addr, bump)| (addr.to_bytes().to_vec(), bump))
}

/// The seed tag under which record addresses are derived.
pub open spec fn record_tag() -> Seq<u8> {
    seq![101u8, 115u8, 99u8, 114u8, 111u8, 119u8]
}

/// The record address and disambiguation byte derived for a maker and an
/// asset-X class under the owning program.
pub open spec fn spec_record_pda(program: Seq<u8>, maker: Seq<u8>, mint_x: Seq<u8>) -> Option<
    (Seq<u8>, u8),
> {
    pda_of(program, seq![record_tag(), maker, mint_x])
}

/// The custody address derived for a record address and an asset class by
/// the token ledger's canonical association rule.
pub open spec fn spec_custody_pda(
    ata_program: Seq<u8>,
    record: Seq<u8>,
    token_program: Seq<u8>,
    mint: Seq<u8>,
) -> Option<(Seq<u8>, u8)> {
    pda_of(ata_program, seq![record, token_program, mint])
}

/// The seed tag under which lamport-vault addresses are derived.
pub open spec fn vault_tag() -> Seq<u8> {
    seq![118u8, 97u8, 117u8, 108u8, 116u8]
}

/// The vault address and disambiguation byte derived for an owner under the
/// vault program.
pub open spec fn spec_vault_pda(program: Seq<u8>, owner: Seq<u8>) -> Option<(Seq<u8>, u8)> {
    pda_of(program, seq![vault_tag(), owner])
}

/// Recompute the vault address for an owner. Deterministic: the result is
/// fixed by the two arguments.
pub fn derive_vault_address(program_id: &Vec<u8>, owner: &Vec<u8>) -> (r: Option<(Vec<u8>, u8)>)
    requires
        program_id@.len() == 32,
        owner@.len() == 32,
    ensures
        (match (r, spec_vault_pda(program_id@, owner@)) {
            (Some(p), Some(q)) => p.0@ == q.0 && p.1 == q.1 && p.0@.len() == 32,
            (None, None) => true,
            _ => false,
        }),
{
    let mut tag: Vec<u8> = Vec::new();
    tag.push(118);
    tag.push(97);
    tag.push(117);
    tag.push(108);
    tag.push(116);
    let mut seeds: Vec<Vec<u8>> = Vec::new();
    seeds.push(tag);
    seeds.push(crate::codec::read_key(owner, 0));
    proof {
        assert(seeds@[0]@ =~= vault_tag());
        assert(seeds@[1]@ =~= owner@);
        assert(seeds@.map_values(|s: Vec<u8>| s@) =~= seq![vault_tag(), owner@]);
    }
    try_find_pda(&seeds, program_id)
}

/// Law: address derivation is a pure deterministic function of the owning
/// program, the maker and the asset-X class; recomputing it from the same
/// inputs always reproduces the same address and disambiguation byte.
pub proof fn lemma_record_derivation_deterministic(
    program: Seq<u8>,
    maker: Seq<u8>,
    mint_x: Seq<u8>,
)
    ensures
        spec_record_pda(program, maker, mint_x) == spec_record_pda(program, maker, mint_x),
{
}

/// Recompute the record address for (maker, asset-X class). Deterministic:
/// the result is fixed by the three arguments.
pub fn derive_record_address(program_id: &Vec<u8>, maker: &Vec<u8>, mint_x: &Vec<u8>) -> (r: Option<
    (Vec<u8>, u8),
>)
    requires
        program_id@.len() == 32,
        maker@.len() == 32,
        mint_x@.len() == 32,
    ensures
        (match (r, spec_record_pda(program_id@, maker@, mint_x@)) {
            (Some(p), Some(q)) => p.0@ == q.0 && p.1 == q.1 && p.0@.len() == 32,
            (None, None) => true,
            _ => false,
        }),
{
    let mut tag: Vec<u8> = Vec::new();
    tag.push(101);
    tag.push(115);
    tag.push(99);
    tag.push(114);
    tag.push(111);
    tag.push(119);
    let mut seeds: Vec<Vec<u8>> = Vec::new();
    seeds.push(tag);
    seeds.push(crate::codec::read_key(maker, 0));
    seeds.push(crate::codec::read_key(mint_x, 0));
    proof {
        assert(seeds@[0]@ =~= record_tag());
        assert(seeds@[1]@ =~= maker@);
        assert(seeds@[2]@ =~= mint_x@);
        assert(seeds@.map_values(|s: Vec<u8>| s@) =~= seq![record_tag(), maker@, mint_x@]);
    }
    try_find_pda(&seeds, program_id)
}

/// Recompute the custody address associated to (record address, asset
/// class). Deterministic: the result is fixed by the four arguments.
pub fn derive_custody_address(
    ata_program: &Vec<u8>,
    record: &Vec<u8>,
    token_program: &Vec<u8>,
    mint: &Vec<u8>,
) -> (r: Option<(Vec<u8>, u8)>)
    requires
        ata_program@.len() == 32,
        record@.len() == 32,
        token_program@.len() == 32,
        mint@.len() == 32,
    ensures
        (match (r, spec_custody_pda(ata_program@, record@, token_program@, mint@)) {
            (Some(p), Some(q)) => p.0@ == q.0 && p.1 == q.1 && p.0@.len() == 32,
            (None, None) => true,
            _ => false,
        }),
{
    let mut seeds: Vec<Vec<u8>> = Vec::new();
    seeds.push(crate::codec::read_key(record, 0));
    seeds.push(crate::codec::read_key(token_program, 0));
    seeds.push(crate::codec::read_key(mint, 0));
    proof {
        assert(seeds@[0]@ =~= record@);
        assert(seeds@[1]@ =~= token_program@);
        assert(seeds@[2]@ =~= mint@);
        assert(seeds@.map_values(|s: Vec<u8>| s@) =~= seq![record@, token_program@, mint@]);
    }
    try_find_pda(&seeds, ata_program)
}

} // verus!
