use vstd::prelude::*;

verus! {

/// The custodial identity and disambiguation byte that the program-address
/// derivation yields for an agreement's address under a program's identity,
/// or `None` in the statistically improbable event that no disambiguation
/// byte yields a valid identity. The derivation is a pure function of the two
/// addresses alone: the same inputs always yield the same identity, and no
/// private key exists for it.
pub uninterp spec fn escrow_authority_of(agreement_key: Seq<u8>, program_id: Seq<u8>) -> Option<
    ([u8; 32], u8),
>;

/// Relies on Pubkey::try_find_program_address, seeded with the agreement's
/// address and the fixed label that scopes escrow authorities: the result is
/// deterministic in the agreement address and the program identity.
#[verifier::external_body]
fn find_escrow_authority(agreement_key: &[u8; 32], program_id: &[u8; 32]) -> (r: Option<
    ([u8; 32], u8),
>)
    ensures
        r == escrow_authority_of(agreement_key@, program_id@),
{
    let program = anchor_lang::prelude::Pubkey::new_from_array(*program_id);
    let seeds: [&[u8]; 2] = [agreement_key.as_ref(), b"authority".as_ref()];
    anchor_lang::prelude::Pubkey::try_find_program_address(&seeds, &program).map(
        |found: (anchor_lang::prelude::Pubkey, u8)| (found.0.to_bytes(), found.1),
    )
}

/// Escrow authority derivation: the custodial identity over an agreement's
/// escrow pair, with the disambiguation byte that later operations store to
/// reconstruct the derivation proof without search.
pub fn derive_escrow_authority(agreement_key: &[u8; 32], program_id: &[u8; 32]) -> (r: Option<
    ([u8; 32], u8),
>)
    ensures
        r == escrow_authority_of(agreement_key@, program_id@),
{
    find_escrow_authority(agreement_key, program_id)
}

/// Byte-for-byte equality of two 32-byte identities.
pub fn keys_equal(a: &[u8; 32], b: &[u8; 32]) -> (r: bool)
    ensures
        r == (a@ == b@),
{
    let mut i: usize = 0;
    while i < 32
        invariant
            0 <= i <= 32,
            forall|j: int| 0 <= j < i ==> a@[j] == b@[j],
        decreases 32 - i,
    {
        if a[i] != b[i] {
            assert(a@[i as int] != b@[i as int]);
            return false;
        }
        i += 1;
    }
    assert(a@ =~= b@);
    true
}

/// The check that admits an escrow authority account: a presented identity
/// and disambiguation byte are accepted exactly when they are what the
/// derivation yields for this agreement under this program.
pub fn verify_escrow_authority(
    agreement_key: &[u8; 32],
    program_id: &[u8; 32],
    key: &[u8; 32],
    authority_bump: u8,
) -> (r: bool)
    ensures
        r == (escrow_authority_of(agreement_key@, program_id@) matches Some(derived)
            && derived.0@ == key@ && derived.1 == authority_bump),
{
    match find_escrow_authority(agreement_key, program_id) {
        None => false,
        Some((derived_key, derived_bump)) => derived_bump == authority_bump && keys_equal(
            &derived_key,
            key,
        ),
    }
}

} // verus!
