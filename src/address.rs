use vstd::prelude::*;
use crate::key::Key;

verus! {

/// The program-derived address and bump seed for `seeds` under
/// `program_id`, or `None` where no bump seed gives an off-curve address.
pub uninterp spec fn program_address(seeds: Seq<Seq<u8>>, program_id: Seq<u8>) -> Option<(Seq<u8>, u8)>;

pub open spec fn derived_view(r: Option<(Key, u8)>) -> Option<(Seq<u8>, u8)> {
    match r {
        Some(p) => Some((p.0@, p.1)),
        None => None,
    }
}

/// Namespace tag of the configuration record: the bytes of "config".
pub open spec fn config_tag() -> Seq<u8> {
    seq![99u8, 111, 110, 102, 105, 103]
}

pub fn config_tag_bytes() -> (r: Vec<u8>)
    ensures
        r@ == config_tag(),
{
    let r: Vec<u8> = vec![99u8, 111, 110, 102, 105, 103];
    assert(r@ =~= config_tag());
    r
}

/// Namespace tag of the deposit vault: the bytes of "vault".
pub open spec fn vault_tag() -> Seq<u8> {
    seq![118u8, 97, 117, 108, 116]
}

pub fn vault_tag_bytes() -> (r: Vec<u8>)
    ensures
        r@ == vault_tag(),
{
    let r: Vec<u8> = vec![118u8, 97, 117, 108, 116];
    assert(r@ =~= vault_tag());
    r
}

/// Namespace tag of the admin fee vault: the bytes of "admin_vault".
pub open spec fn admin_vault_tag() -> Seq<u8> {
    seq![97u8, 100, 109, 105, 110, 95, 118, 97, 117, 108, 116]
}

pub fn admin_vault_tag_bytes() -> (r: Vec<u8>)
    ensures
        r@ == admin_vault_tag(),
{
    let r: Vec<u8> = vec![97u8, 100, 109, 105, 110, 95, 118, 97, 117, 108, 116];
    assert(r@ =~= admin_vault_tag());
    r
}

/// Namespace tag of user profiles: the bytes of "user_profile".
pub open spec fn user_profile_tag() -> Seq<u8> {
    seq![117u8, 115, 101, 114, 95, 112, 114, 111, 102, 105, 108, 101]
}

pub fn user_profile_tag_bytes() -> (r: Vec<u8>)
    ensures
        r@ == user_profile_tag(),
{
    let r: Vec<u8> = vec![117u8, 115, 101, 114, 95, 112, 114, 111, 102, 105, 108, 101];
    assert(r@ =~= user_profile_tag());
    r
}

/// Namespace tag of message records: the bytes of "email_account".
pub open spec fn email_account_tag() -> Seq<u8> {
    seq![101u8, 109, 97, 105, 108, 95, 97, 99, 99, 111, 117, 110, 116]
}

pub fn email_account_tag_bytes() -> (r: Vec<u8>)
    ensures
        r@ == email_account_tag(),
{
    let r: Vec<u8> = vec![101u8, 109, 97, 105, 108, 95, 97, 99, 99, 111, 117, 110, 116];
    assert(r@ =~= email_account_tag());
    r
}

pub open spec fn seed_view(seed: Option<Key>) -> Option<Seq<u8>> {
    match seed {
        Some(k) => Some(k@),
        None => None,
    }
}

/// The seed list of a record: its namespace tag, then the owner key if any.
pub open spec fn seeds_of(namespace: Seq<u8>, seed: Option<Seq<u8>>) -> Seq<Seq<u8>> {
    match seed {
        Some(s) => seq![namespace, s],
        None => seq![namespace],
    }
}

/// The address and bump of the record in `namespace` for the optional owner `seed`.
pub open spec fn derived(program_id: Seq<u8>, namespace: Seq<u8>, seed: Option<Seq<u8>>) -> Option<(Seq<u8>, u8)> {
    program_address(seeds_of(namespace, seed), program_id)
}

/// Relies on solana_program's `Pubkey::try_find_program_address`: it hashes
/// the seeds with the program id and returns the first off-curve address with
/// its bump seed, or `None`; the result depends on the seeds and the program
/// id alone.
#[verifier::external_body]
fn try_find_program_address(seeds: &Vec<Vec<u8>>, program_id: &Key) -> (r: Option<(Key, u8)>)
    ensures
        derived_view(r) == program_address(seeds.deep_view(), program_id@),
{
    let slices: Vec<&[u8]> = seeds.iter().map(|s| s.as_slice()).collect();
    let pid = solana_program::pubkey::Pubkey::new_from_array(program_id.bytes);
    match solana_program::pubkey::Pubkey::try_find_program_address(&slices, &pid) {
        Some((a, b)) => Some((Key { bytes: a.to_bytes() }, b)),
        None => None,
    }
}

/// Derives the address and bump seed of the record in `namespace` for the
/// optional owner `seed`, under `program_id`.
pub fn derive_address(program_id: &Key, namespace: Vec<u8>, seed: Option<Key>) -> (r: Option<(Key, u8)>)
    ensures
        derived_view(r) == derived(program_id@, namespace@, seed_view(seed)),
{
    let mut seeds: Vec<Vec<u8>> = Vec::new();
    seeds.push(namespace);
    match seed {
        Some(k) => {
            let b = k.to_vec();
            seeds.push(b);
            assert(seeds@[0].deep_view() =~= namespace@);
            assert(seeds@[1].deep_view() =~= k@);
            assert(seeds.deep_view() =~= seq![namespace@, k@]);
        },
        None => {
            assert(seeds@[0].deep_view() =~= namespace@);
            assert(seeds.deep_view() =~= seq![namespace@]);
        },
    }
    try_find_program_address(&seeds, program_id)
}

/// Deriving twice from the same program id, namespace and seed yields the
/// same address and the same bump seed.
pub proof fn derive_is_deterministic(
    program_id: Seq<u8>,
    namespace: Seq<u8>,
    seed: Option<Seq<u8>>,
    first: Option<(Key, u8)>,
    second: Option<(Key, u8)>,
)
    requires
        derived_view(first) == derived(program_id, namespace, seed),
        derived_view(second) == derived(program_id, namespace, seed),
    ensures
        derived_view(first) == derived_view(second),
{
}

} // verus!
