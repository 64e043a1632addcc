use anchor_lang::solana_program::pubkey::Pubkey;
use vstd::prelude::*;
use crate::identity::{user_info_seed, Identity, USER_INFO_SEED};

verus! {

/// The program-derived address (key bytes and bump seed) for the seeds
/// `[namespace, key]` under the program `program_id`, or `None` when no bump
/// seed gives an address off the curve.
pub uninterp spec fn program_address(namespace: Seq<u8>, key: Seq<u8>, program_id: Seq<u8>) -> Option<
    (Seq<u8>, u8),
>;

/// The view of a derived address.
pub open spec fn derived_view(r: Option<(Identity, u8)>) -> Option<(Seq<u8>, u8)> {
    match r {
        Some((a, bump)) => Some((a@, bump)),
        None => None,
    }
}

/// Relies on `Pubkey::try_find_program_address` (re-exported by anchor_lang):
/// the derived address depends on the seed bytes and the program id alone, and
/// the call returns `None` rather than panicking when no bump seed works.
#[verifier::external_body]
fn find_program_address(namespace: &[u8], key: &Identity, program_id: &Identity) -> (r: Option<
    (Identity, u8),
>)
    ensures
        derived_view(r) == program_address(namespace@, key@, program_id@),
{
    let program = Pubkey::new_from_array(program_id.bytes);
    match Pubkey::try_find_program_address(&[namespace, &key.bytes], &program) {
        Some((address, bump)) => Some((Identity { bytes: address.to_bytes() }, bump)),
        None => None,
    }
}

/// Where the contributor record of `user` lives under `program_id`, with its bump seed.
pub open spec fn user_info_address_of(user: Seq<u8>, program_id: Seq<u8>) -> Option<(Seq<u8>, u8)> {
    program_address(user_info_seed(), user, program_id)
}

/// Whether `record_key` is the contributor record address of `user`.
pub open spec fn is_user_info_address(user: Seq<u8>, record_key: Seq<u8>, program_id: Seq<u8>) -> bool {
    match user_info_address_of(user, program_id) {
        Some((a, _)) => a == record_key,
        None => false,
    }
}

/// The bump seed of `user`'s record address; meaningful when that address exists.
pub open spec fn user_info_bump_of(user: Seq<u8>, program_id: Seq<u8>) -> u8 {
    user_info_address_of(user, program_id)->Some_0.1
}

/// The address of the contributor record of `user` and the bump seed that
/// derived it. Record creation and record lookup both go through here.
pub fn user_info_address(user: &Identity, program_id: &Identity) -> (r: Option<(Identity, u8)>)
    ensures
        derived_view(r) == user_info_address_of(user@, program_id@),
{
    find_program_address(USER_INFO_SEED.as_bytes(), user, program_id)
}

/// Checks `record_key` against the derived address of `user`'s record; on a
/// match, returns the bump seed.
pub fn check_user_info_address(user: &Identity, record_key: &Identity, program_id: &Identity) -> (r:
    Option<u8>)
    ensures
        r is Some <==> is_user_info_address(user@, record_key@, program_id@),
        r matches Some(bump) ==> bump == user_info_bump_of(user@, program_id@),
{
    match user_info_address(user, program_id) {
        Some((address, bump)) => {
            if address.same_as(record_key) {
                Some(bump)
            } else {
                None
            }
        },
        None => None,
    }
}

} // verus!
