use vstd::prelude::*;

use anchor_lang::solana_program::pubkey::Pubkey;

use crate::identity::Identity;

verus! {

/// The program-derived address of `seeds` under `program`, or `None` where
/// the seeds are too many or too long, or derive a point on the curve.
pub uninterp spec fn program_address_of(seeds: Seq<Seq<u8>>, program: Seq<u8>) -> Option<Seq<u8>>;

/// The canonical program-derived address of `seeds` under `program`, with its
/// bump, or `None` where no bump yields one.
pub uninterp spec fn canonical_address_of(seeds: Seq<Seq<u8>>, program: Seq<u8>) -> Option<(Seq<u8>, u8)>;

/// Seed label of the global state, `b"state"`.
pub open spec fn state_seed() -> Seq<u8> {
    seq![115u8, 116u8, 97u8, 116u8, 101u8]
}

/// Seed label of the redemption records, `b"redemption"`.
pub open spec fn redemption_seed() -> Seq<u8> {
    seq![114u8, 101u8, 100u8, 101u8, 109u8, 112u8, 116u8, 105u8, 111u8, 110u8]
}

/// The seeds of the global state's address, with its bump.
pub open spec fn state_seeds(bump: u8) -> Seq<Seq<u8>> {
    seq![state_seed(), seq![bump]]
}

/// The seeds of a user's redemption record, before the bump.
pub open spec fn record_seeds(user: Identity) -> Seq<Seq<u8>> {
    seq![redemption_seed(), user@]
}

/// The seeds of an associated token account of `wallet` for `mint`, before the bump.
pub open spec fn associated_seeds(wallet: Identity, token_program: Identity, mint: Identity) -> Seq<Seq<u8>> {
    seq![wallet@, token_program@, mint@]
}

/// Whether `key` is the state address derived with `bump` under `program_id`.
pub open spec fn is_state_address(program_id: Identity, key: Identity, bump: u8) -> bool {
    program_address_of(state_seeds(bump), program_id@) == Some(key@)
}

/// Whether `key` is the canonical address of `seeds` under `program_id`.
pub open spec fn is_canonical_address(seeds: Seq<Seq<u8>>, program_id: Identity, key: Identity) -> bool {
    match canonical_address_of(seeds, program_id@) {
        Some(found) => found.0 == key@,
        None => false,
    }
}

/// Relies on `Pubkey::create_program_address`: it hashes the seeds and the
/// program id, and fails on more than sixteen seeds, on a seed longer than
/// thirty-two bytes, and on a hash that lies on the curve.
#[verifier::external_body]
fn create_program_address(seeds: &Vec<Vec<u8>>, program_id: &Identity) -> (r: Option<Identity>)
    ensures
        match r {
            Some(k) => program_address_of(seeds.deep_view(), program_id@) == Some(k@),
            None => program_address_of(seeds.deep_view(), program_id@) is None,
        },
        seeds@.len() > 16 ==> r is None,
        (exists|i: int| 0 <= i < seeds@.len() && seeds@[i]@.len() > 32) ==> r is None,
{
    let s: Vec<&[u8]> = seeds.iter().map(|v| v.as_slice()).collect();
    let p = Pubkey::new_from_array(program_id.bytes);
    Pubkey::create_program_address(&s, &p).ok().map(|k| Identity { bytes: k.to_bytes() })
}

/// Relies on `Pubkey::try_find_program_address`: it tries the bumps from 255
/// down and returns the first address that `create_program_address` gives for
/// the seeds followed by the bump.
#[verifier::external_body]
fn try_find_program_address(seeds: &Vec<Vec<u8>>, program_id: &Identity) -> (r: Option<(Identity, u8)>)
    ensures
        match r {
            Some(found) => {
                &&& canonical_address_of(seeds.deep_view(), program_id@) == Some((found.0@, found.1))
                &&& program_address_of(seeds.deep_view().push(seq![found.1]), program_id@) == Some(found.0@)
            },
            None => canonical_address_of(seeds.deep_view(), program_id@) is None,
        },
{
    let s: Vec<&[u8]> = seeds.iter().map(|v| v.as_slice()).collect();
    let p = Pubkey::new_from_array(program_id.bytes);
    Pubkey::try_find_program_address(&s, &p).map(|(k, b)| (Identity { bytes: k.to_bytes() }, b))
}

fn state_seed_bytes() -> (r: Vec<u8>)
    ensures
        r@ == state_seed(),
{
    let r = vec![115u8, 116u8, 97u8, 116u8, 101u8];
    assert(r@ =~= state_seed());
    r
}

fn redemption_seed_bytes() -> (r: Vec<u8>)
    ensures
        r@ == redemption_seed(),
{
    let r = vec![114u8, 101u8, 100u8, 101u8, 109u8, 112u8, 116u8, 105u8, 111u8, 110u8];
    assert(r@ =~= redemption_seed());
    r
}

fn identity_bytes(id: &Identity) -> (r: Vec<u8>)
    ensures
        r@ == id@,
{
    let mut r: Vec<u8> = Vec::new();
    let mut i: usize = 0;
    while i < 32
        invariant
            0 <= i <= 32,
            id@.len() == 32,
            r@ == id@.subrange(0, i as int),
        decreases 32 - i,
    {
        r.push(id.bytes[i]);
        i = i + 1;
        assert(r@ =~= id@.subrange(0, i as int));
    }
    assert(id@.subrange(0, 32) =~= id@);
    r
}

/// The address of the global state for `bump` under `program_id`, if it exists.
pub fn state_address(program_id: &Identity, bump: u8) -> (r: Option<Identity>)
    ensures
        match r {
            Some(k) => program_address_of(state_seeds(bump), program_id@) == Some(k@),
            None => program_address_of(state_seeds(bump), program_id@) is None,
        },
{
    let seeds = vec![state_seed_bytes(), vec![bump]];
    assert(seeds.deep_view()[0] =~= state_seed());
    assert(seeds.deep_view()[1] =~= seq![bump]);
    assert(seeds.deep_view() =~= state_seeds(bump));
    create_program_address(&seeds, program_id)
}

/// The canonical address of the global state under `program_id`, with its bump.
pub fn find_state_address(program_id: &Identity) -> (r: Option<(Identity, u8)>)
    ensures
        match r {
            Some(found) => {
                &&& canonical_address_of(seq![state_seed()], program_id@) == Some((found.0@, found.1))
                &&& program_address_of(state_seeds(found.1), program_id@) == Some(found.0@)
            },
            None => canonical_address_of(seq![state_seed()], program_id@) is None,
        },
{
    let seeds = vec![state_seed_bytes()];
    assert(seeds.deep_view()[0] =~= state_seed());
    assert(seeds.deep_view() =~= seq![state_seed()]);
    let r = try_find_program_address(&seeds, program_id);
    if let Some(found) = r {
        assert(seeds.deep_view().push(seq![found.1]) =~= state_seeds(found.1));
    }
    r
}

/// The canonical address of `user`'s redemption record under `program_id`, with its bump.
pub fn find_record_address(program_id: &Identity, user: &Identity) -> (r: Option<(Identity, u8)>)
    ensures
        match r {
            Some(found) => canonical_address_of(record_seeds(*user), program_id@) == Some((found.0@, found.1)),
            None => canonical_address_of(record_seeds(*user), program_id@) is None,
        },
{
    let seeds = vec![redemption_seed_bytes(), identity_bytes(user)];
    assert(seeds.deep_view()[0] =~= redemption_seed());
    assert(seeds.deep_view()[1] =~= user@);
    assert(seeds.deep_view() =~= record_seeds(*user));
    try_find_program_address(&seeds, program_id)
}

/// The associated token account of `wallet` for `mint`, as the associated
/// token program derives it.
pub fn find_associated_address(
    wallet: &Identity,
    token_program: &Identity,
    mint: &Identity,
    associated_token_program: &Identity,
) -> (r: Option<(Identity, u8)>)
    ensures
        match r {
            Some(found) => canonical_address_of(
                associated_seeds(*wallet, *token_program, *mint),
                associated_token_program@,
            ) == Some((found.0@, found.1)),
            None => canonical_address_of(
                associated_seeds(*wallet, *token_program, *mint),
                associated_token_program@,
            ) is None,
        },
{
    let seeds = vec![identity_bytes(wallet), identity_bytes(token_program), identity_bytes(mint)];
    assert(seeds.deep_view()[0] =~= wallet@);
    assert(seeds.deep_view()[1] =~= token_program@);
    assert(seeds.deep_view()[2] =~= mint@);
    assert(seeds.deep_view() =~= associated_seeds(*wallet, *token_program, *mint));
    try_find_program_address(&seeds, associated_token_program)
}

/// Whether `key` is the global state's address derived with `bump`.
pub fn is_state_account(program_id: &Identity, key: &Identity, bump: u8) -> (r: bool)
    ensures
        r == is_state_address(*program_id, *key, bump),
{
    match state_address(program_id, bump) {
        Some(k) => k == *key,
        None => false,
    }
}

/// Whether `key` is the canonical address of `user`'s redemption record.
pub fn is_record_account(program_id: &Identity, key: &Identity, user: &Identity) -> (r: bool)
    ensures
        r == is_canonical_address(record_seeds(*user), *program_id, *key),
{
    match find_record_address(program_id, user) {
        Some(found) => found.0 == *key,
        None => false,
    }
}

} // verus!
