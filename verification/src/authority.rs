//! The authority capsule: a deterministic, key-less signing capability
//! derived from a fixed seed plus an identity, verified by recomputation
//! rather than by any stored secret. Two independent domains exist: one
//! per-vault authority and one global mint authority.

use vstd::prelude::*;
use crate::errors::VaultError;

verus! {

/// What the program-address derivation returns for given seeds and program
/// id: the derived 32-byte address and its bump seed, or nothing when no
/// bump yields a valid address. The result is a function of the arguments
/// alone.
pub uninterp spec fn pda_of(seeds: Seq<Seq<u8>>, program_id: Seq<u8>) -> Option<(Seq<u8>, u8)>;

/// Relies on `Pubkey::try_find_program_address`, re-exported by
/// anchor_lang: the derived address and bump seed depend on the seeds and
/// the program id alone, a derived address is 32 bytes, and no input makes
/// the call panic.
#[verifier::external_body]
fn try_find_pda(seeds: &Vec<Vec<u8>>, program_id: &[u8; 32]) -> (r: Option<(Vec<u8>, u8)>)
    ensures
        ({
            let d = pda_of(seeds@.map_values(|s: Vec<u8>| s@), program_id@);
            match r {
                Some(p) => d == Some((p.0@, p.1)) && p.0@.len() == 32,
                None => d is None,
            }
        }),
{
    let refs: Vec<&[u8]> = seeds.iter().map(|s| s.as_slice()).collect();
    let pk = anchor_lang::prelude::Pubkey::new_from_array(*program_id);
    anchor_lang::prelude::Pubkey::try_find_program_address(&refs, &pk)
        .map(|(addr, bump)| (addr.to_bytes().to_vec(), bump))
}

/// The fixed seed rooting every per-vault authority: "user_vault" in ASCII.
pub open spec fn vault_seed_spec() -> Seq<u8> {
    seq![117u8, 115u8, 101u8, 114u8, 95u8, 118u8, 97u8, 117u8, 108u8, 116u8]
}

/// The fixed seed rooting the global mint authority: "mint_auth" in ASCII.
pub open spec fn mint_seed_spec() -> Seq<u8> {
    seq![109u8, 105u8, 110u8, 116u8, 95u8, 97u8, 117u8, 116u8, 104u8]
}

/// The identity's 8-byte little-endian encoding, used as the second seed of
/// the per-vault domain.
pub open spec fn owner_bytes_spec(owner: u64) -> Seq<u8> {
    seq![
        owner as u8,
        (owner >> 8) as u8,
        (owner >> 16) as u8,
        (owner >> 24) as u8,
        (owner >> 32) as u8,
        (owner >> 40) as u8,
        (owner >> 48) as u8,
        (owner >> 56) as u8,
    ]
}

/// The seed sequence of the per-vault authority domain for `owner`.
pub open spec fn vault_authority_seeds_spec(owner: u64) -> Seq<Seq<u8>> {
    seq![vault_seed_spec(), owner_bytes_spec(owner)]
}

/// The seed sequence of the global mint authority domain.
pub open spec fn mint_authority_seeds_spec() -> Seq<Seq<u8>> {
    seq![mint_seed_spec()]
}

fn vault_seed() -> (s: Vec<u8>)
    ensures
        s@ == vault_seed_spec(),
{
    let mut s: Vec<u8> = Vec::new();
    s.push(117);
    s.push(115);
    s.push(101);
    s.push(114);
    s.push(95);
    s.push(118);
    s.push(97);
    s.push(117);
    s.push(108);
    s.push(116);
    proof {
        assert(s@ =~= vault_seed_spec());
    }
    s
}

fn mint_seed() -> (s: Vec<u8>)
    ensures
        s@ == mint_seed_spec(),
{
    let mut s: Vec<u8> = Vec::new();
    s.push(109);
    s.push(105);
    s.push(110);
    s.push(116);
    s.push(95);
    s.push(97);
    s.push(117);
    s.push(116);
    s.push(104);
    proof {
        assert(s@ =~= mint_seed_spec());
    }
    s
}

fn owner_seed_bytes(owner: u64) -> (s: Vec<u8>)
    ensures
        s@ == owner_bytes_spec(owner),
{
    let mut s: Vec<u8> = Vec::new();
    s.push(#[verifier::truncate] (owner as u8));
    s.push(#[verifier::truncate] ((owner >> 8) as u8));
    s.push(#[verifier::truncate] ((owner >> 16) as u8));
    s.push(#[verifier::truncate] ((owner >> 24) as u8));
    s.push(#[verifier::truncate] ((owner >> 32) as u8));
    s.push(#[verifier::truncate] ((owner >> 40) as u8));
    s.push(#[verifier::truncate] ((owner >> 48) as u8));
    s.push(#[verifier::truncate] ((owner >> 56) as u8));
    proof {
        assert(s@ =~= owner_bytes_spec(owner));
    }
    s
}

/// Derive the per-vault signing authority for `owner`: the address that
/// custodies this vault's pool sub-account, and the tag (bump seed) that
/// the vault records so the authority can be recomputed later.
pub fn derive_vault_authority(owner: u64, program_id: &[u8; 32]) -> (r: Option<(Vec<u8>, u8)>)
    ensures
        ({
            let d = pda_of(vault_authority_seeds_spec(owner), program_id@);
            match r {
                Some(p) => d == Some((p.0@, p.1)) && p.0@.len() == 32,
                None => d is None,
            }
        }),
{
    let mut seeds: Vec<Vec<u8>> = Vec::new();
    seeds.push(vault_seed());
    seeds.push(owner_seed_bytes(owner));
    proof {
        assert(seeds@.map_values(|s: Vec<u8>| s@) =~= vault_authority_seeds_spec(owner));
    }
    try_find_pda(&seeds, program_id)
}

/// Derive the global mint authority: the address entitled to sign token
/// issuance into the custodial pool.
pub fn derive_mint_authority(program_id: &[u8; 32]) -> (r: Option<(Vec<u8>, u8)>)
    ensures
        ({
            let d = pda_of(mint_authority_seeds_spec(), program_id@);
            match r {
                Some(p) => d == Some((p.0@, p.1)) && p.0@.len() == 32,
                None => d is None,
            }
        }),
{
    let mut seeds: Vec<Vec<u8>> = Vec::new();
    seeds.push(mint_seed());
    proof {
        assert(seeds@.map_values(|s: Vec<u8>| s@) =~= mint_authority_seeds_spec());
    }
    try_find_pda(&seeds, program_id)
}

/// Check a recorded per-vault authority tag by recomputing the derivation:
/// exactly a mismatch (or a failed derivation) is `AuthorityMismatch`.
pub fn verify_vault_authority(owner: u64, program_id: &[u8; 32], recorded_tag: u8)
    -> (r: Result<(), VaultError>)
    ensures
        r is Ok <==> (pda_of(vault_authority_seeds_spec(owner), program_id@)
            matches Some(p) && p.1 == recorded_tag),
        r is Err ==> r == Err::<(), VaultError>(VaultError::AuthorityMismatch),
{
    match derive_vault_authority(owner, program_id) {
        Some(pair) => {
            if pair.1 == recorded_tag {
                Ok(())
            } else {
                Err(VaultError::AuthorityMismatch)
            }
        },
        None => Err(VaultError::AuthorityMismatch),
    }
}

/// Check a recorded mint authority tag by recomputing the derivation:
/// exactly a mismatch (or a failed derivation) is `AuthorityMismatch`.
pub fn verify_mint_authority(program_id: &[u8; 32], recorded_tag: u8)
    -> (r: Result<(), VaultError>)
    ensures
        r is Ok <==> (pda_of(mint_authority_seeds_spec(), program_id@)
            matches Some(p) && p.1 == recorded_tag),
        r is Err ==> r == Err::<(), VaultError>(VaultError::AuthorityMismatch),
{
    match derive_mint_authority(program_id) {
        Some(pair) => {
            if pair.1 == recorded_tag {
                Ok(())
            } else {
                Err(VaultError::AuthorityMismatch)
            }
        },
        None => Err(VaultError::AuthorityMismatch),
    }
}

} // verus!
