use vstd::prelude::*;
use crate::address::{admin_vault_tag, derived, user_profile_tag, vault_tag};
use crate::fees::DEPOSIT_AMOUNT;
use crate::key::Key;
use crate::ledger::LedgerView;
use crate::transitions::{
    applied, balance_in, register_user_spec, send_email_spec, unregister_user_spec,
    update_user_spec, withdraw_admin_fees_spec,
};
use crate::state::{name_fits, ErrorCode};

verus! {

/// Whether `a` differs from the address that `d` derived, if any.
pub open spec fn apart_from(d: Option<(Seq<u8>, u8)>, a: Seq<u8>) -> bool {
    match d {
        Some((b, _)) => a != b,
        None => true,
    }
}

/// A signer who does not own a profile cannot rename it: `update_user`
/// fails with `Unauthorized` and the display name stays as it was.
pub proof fn update_by_stranger_is_refused(
    pre: LedgerView,
    post: LedgerView,
    profile: Seq<u8>,
    signer: Seq<u8>,
    name: Seq<char>,
    r: Result<(), ErrorCode>,
)
    requires
        pre.profiles.contains_key(profile),
        pre.profiles[profile].owner != signer,
        applied(update_user_spec(pre, profile, signer, name), pre, post, r),
    ensures
        r == Err::<(), ErrorCode>(ErrorCode::Unauthorized),
        post.profiles.contains_key(profile),
        post.profiles[profile].display_name == pre.profiles[profile].display_name,
{
}

/// Registering the same owner a second time fails with `AlreadyExists` and
/// leaves the profile made by the first registration untouched.
pub proof fn second_registration_is_refused(
    s0: LedgerView,
    s1: LedgerView,
    s2: LedgerView,
    owner: Seq<u8>,
    r1: Result<(), ErrorCode>,
    r2: Result<(), ErrorCode>,
)
    requires
        applied(register_user_spec(s0, owner), s0, s1, r1),
        r1 == Ok::<(), ErrorCode>(()),
        applied(register_user_spec(s1, owner), s1, s2, r2),
    ensures
        r2 == Err::<(), ErrorCode>(ErrorCode::AlreadyExists),
        s2 == s1,
{
}

/// A refused `send_email` leaves everything as it was: no message record,
/// the same fee total, the same vault and the same balances.
pub proof fn refused_send_changes_nothing(
    pre: LedgerView,
    post: LedgerView,
    sender: Key,
    r: Result<(), ErrorCode>,
)
    requires
        applied(send_email_spec(pre, sender), pre, post, r),
        r != Ok::<(), ErrorCode>(()),
    ensures
        post.emails == pre.emails,
        post.config == pre.config,
        post.vault == pre.vault,
        post.lamports == pre.lamports,
{
}

/// A sender who holds less than the deposit cannot send: whichever of the
/// two transfers comes up short, `send_email` fails and nothing is
/// committed.
pub proof fn short_sender_cannot_send(
    pre: LedgerView,
    post: LedgerView,
    sender: Key,
    r: Result<(), ErrorCode>,
)
    requires
        applied(send_email_spec(pre, sender), pre, post, r),
        balance_in(pre.lamports, sender@) < DEPOSIT_AMOUNT,
        apart_from(derived(pre.program_id, vault_tag(), None), sender@),
        apart_from(derived(pre.program_id, admin_vault_tag(), None), sender@),
    ensures
        r != Ok::<(), ErrorCode>(()),
        post == pre,
{
}

/// Withdrawing more than the fees collected always fails and changes
/// neither the fee total nor any balance; for the admin the error is
/// `InsufficientFunds`.
pub proof fn withdrawal_above_fees_is_refused(
    pre: LedgerView,
    post: LedgerView,
    signer: Seq<u8>,
    amount: u64,
    r: Result<(), ErrorCode>,
)
    requires
        applied(withdraw_admin_fees_spec(pre, signer, amount), pre, post, r),
        pre.config is Some,
        amount > pre.config->Some_0.total_fees_collected,
    ensures
        r != Ok::<(), ErrorCode>(()),
        post == pre,
        derived(pre.program_id, admin_vault_tag(), None) is Some && pre.config->Some_0.admin@ == signer
            ==> r == Err::<(), ErrorCode>(ErrorCode::InsufficientFunds),
{
}

/// Register, rename, unregister: after the rename the profile at the
/// owner's address holds the new name; once unregistered, no profile stands
/// there. Unregistering succeeds whenever the profile's address holds no
/// value.
pub proof fn profile_round_trip(
    s0: LedgerView,
    s1: LedgerView,
    s2: LedgerView,
    s3: LedgerView,
    owner: Seq<u8>,
    address: Seq<u8>,
    bump: u8,
    name: Seq<char>,
    r1: Result<(), ErrorCode>,
    r2: Result<(), ErrorCode>,
    r3: Result<(), ErrorCode>,
)
    requires
        derived(s0.program_id, user_profile_tag(), Some(owner)) == Some((address, bump)),
        applied(register_user_spec(s0, owner), s0, s1, r1),
        r1 == Ok::<(), ErrorCode>(()),
        name_fits(name),
        applied(update_user_spec(s1, address, owner, name), s1, s2, r2),
        applied(unregister_user_spec(s2, address, owner), s2, s3, r3),
    ensures
        r2 == Ok::<(), ErrorCode>(()),
        s2.profiles.contains_key(address),
        s2.profiles[address].display_name == name,
        s2.profiles[address].owner == owner,
        balance_in(s2.lamports, address) == 0 ==> r3 == Ok::<(), ErrorCode>(()),
        r3 == Ok::<(), ErrorCode>(()) ==> !s3.profiles.contains_key(address),
{
}

} // verus!
