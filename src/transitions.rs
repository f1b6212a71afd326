use vstd::prelude::*;
use crate::address::{admin_vault_tag, config_tag, derived, email_account_tag, user_profile_tag, vault_tag};
use crate::fees::{fee_of, valid_fee_rate, DEPOSIT_AMOUNT};
use crate::key::Key;
use crate::ledger::LedgerView;
use crate::state::{name_fits, Config, Email, ErrorCode, ProfileView, Vault};

verus! {

/// Value held at `a`; an address never credited holds nothing.
pub open spec fn balance_in(m: Map<Seq<u8>, u64>, a: Seq<u8>) -> u64 {
    if m.contains_key(a) {
        m[a]
    } else {
        0
    }
}

/// Balances after moving `amount` from `from` to `to`, or `None` where the
/// source holds too little or the destination would overflow.
pub open spec fn after_transfer(m: Map<Seq<u8>, u64>, from: Seq<u8>, to: Seq<u8>, amount: u64) -> Option<
    Map<Seq<u8>, u64>,
> {
    let fb = balance_in(m, from);
    let tb = balance_in(m, to);
    if fb < amount {
        None
    } else if from == to {
        Some(m)
    } else if tb + amount > u64::MAX {
        None
    } else {
        Some(m.insert(from, (fb - amount) as u64).insert(to, (tb + amount) as u64))
    }
}

/// An operation's result and the store after it: on success the state
/// that the operation describes, on failure the store untouched.
pub open spec fn applied(
    expected: Result<LedgerView, ErrorCode>,
    pre: LedgerView,
    post: LedgerView,
    r: Result<(), ErrorCode>,
) -> bool {
    match expected {
        Ok(next) => r == Ok::<(), ErrorCode>(()) && post == next,
        Err(e) => r == Err::<(), ErrorCode>(e) && post == pre,
    }
}

/// `initialize_config` once the configuration's bump is known: creates the
/// configuration with `admin` and `fee_rate`, and no fees collected yet.
pub open spec fn initialize_config_at_spec(s: LedgerView, admin: Key, fee_rate: u8, bump: u8) -> Result<
    LedgerView,
    ErrorCode,
> {
    if s.config is Some {
        Err(ErrorCode::AlreadyExists)
    } else if !valid_fee_rate(fee_rate) {
        Err(ErrorCode::InvalidFeeRate)
    } else {
        Ok(LedgerView { config: Some(Config { admin, total_fees_collected: 0, fee_rate, bump }), ..s })
    }
}

pub open spec fn initialize_config_spec(s: LedgerView, admin: Key, fee_rate: u8) -> Result<LedgerView, ErrorCode> {
    match derived(s.program_id, config_tag(), None) {
        None => Err(ErrorCode::AddressDerivationFailed),
        Some((_, bump)) => initialize_config_at_spec(s, admin, fee_rate, bump),
    }
}

/// `update_config`: the admin sets a new fee rate.
pub open spec fn update_config_spec(s: LedgerView, signer: Seq<u8>, fee_rate: u8) -> Result<LedgerView, ErrorCode> {
    match s.config {
        None => Err(ErrorCode::NotFound),
        Some(c) => if c.admin@ != signer {
            Err(ErrorCode::Unauthorized)
        } else if !valid_fee_rate(fee_rate) {
            Err(ErrorCode::InvalidFeeRate)
        } else {
            Ok(LedgerView { config: Some(Config { fee_rate, ..c }), ..s })
        },
    }
}

/// `register_user` once the profile's address is known: creates the owner's
/// profile there with an empty display name.
pub open spec fn register_user_at_spec(s: LedgerView, owner: Seq<u8>, address: Seq<u8>, bump: u8) -> Result<
    LedgerView,
    ErrorCode,
> {
    if s.profiles.contains_key(address) {
        Err(ErrorCode::AlreadyExists)
    } else {
        Ok(LedgerView {
            profiles: s.profiles.insert(address, ProfileView { owner, bump, display_name: Seq::empty() }),
            ..s
        })
    }
}

pub open spec fn register_user_spec(s: LedgerView, owner: Seq<u8>) -> Result<LedgerView, ErrorCode> {
    match derived(s.program_id, user_profile_tag(), Some(owner)) {
        None => Err(ErrorCode::AddressDerivationFailed),
        Some((a, bump)) => register_user_at_spec(s, owner, a, bump),
    }
}

/// `update_user`: the owner of the profile at `profile` renames it.
pub open spec fn update_user_spec(s: LedgerView, profile: Seq<u8>, signer: Seq<u8>, name: Seq<char>) -> Result<
    LedgerView,
    ErrorCode,
> {
    if !s.profiles.contains_key(profile) {
        Err(ErrorCode::NotFound)
    } else if s.profiles[profile].owner != signer {
        Err(ErrorCode::Unauthorized)
    } else if !name_fits(name) {
        Err(ErrorCode::DisplayNameTooLong)
    } else {
        Ok(LedgerView {
            profiles: s.profiles.insert(profile, ProfileView { display_name: name, ..s.profiles[profile] }),
            ..s
        })
    }
}

/// `unregister_user`: the owner of the profile at `profile` removes it and
/// receives all the value held at its address.
pub open spec fn unregister_user_spec(s: LedgerView, profile: Seq<u8>, signer: Seq<u8>) -> Result<LedgerView, ErrorCode> {
    if !s.profiles.contains_key(profile) {
        Err(ErrorCode::NotFound)
    } else if s.profiles[profile].owner != signer {
        Err(ErrorCode::Unauthorized)
    } else {
        match after_transfer(s.lamports, profile, signer, balance_in(s.lamports, profile)) {
            None => Err(ErrorCode::TransferFailed),
            Some(m) => Ok(LedgerView { profiles: s.profiles.remove(profile), lamports: m, ..s }),
        }
    }
}

/// The effect of one deposit once the configuration `c` is read: the fee
/// and the net part at the configured rate, the new totals, and the two
/// transfers out of the sender's balance.
pub open spec fn deposit_spec(
    s: LedgerView,
    c: Config,
    sender: Key,
    email: Seq<u8>,
    email_bump: u8,
    vault: Seq<u8>,
    vault_bump: u8,
    admin_vault: Seq<u8>,
) -> Result<LedgerView, ErrorCode> {
    let fee = fee_of(DEPOSIT_AMOUNT as int, c.fee_rate as int);
    let net = DEPOSIT_AMOUNT - fee;
    let prior = match s.vault {
        Some(v) => v.total_deposits as int,
        None => 0,
    };
    if DEPOSIT_AMOUNT * c.fee_rate > u64::MAX || fee > DEPOSIT_AMOUNT {
        Err(ErrorCode::ArithmeticOverflow)
    } else if c.total_fees_collected + fee > u64::MAX || prior + net > u64::MAX {
        Err(ErrorCode::ArithmeticOverflow)
    } else {
        match after_transfer(s.lamports, sender@, vault, net as u64) {
            None => Err(ErrorCode::TransferFailed),
            Some(m1) => match after_transfer(m1, sender@, admin_vault, fee as u64) {
                None => Err(ErrorCode::TransferFailed),
                Some(m2) => Ok(LedgerView {
                    config: Some(Config { total_fees_collected: (c.total_fees_collected + fee) as u64, ..c }),
                    vault: Some(Vault { total_deposits: (prior + net) as u64, bump: vault_bump }),
                    emails: s.emails.insert(email, Email { sender, bump: email_bump }),
                    lamports: m2,
                    ..s
                }),
            },
        }
    }
}

/// `send_email` once the three addresses are known: records the sender's
/// message and splits the fixed deposit between the vault and the admin vault.
pub open spec fn send_email_at_spec(
    s: LedgerView,
    sender: Key,
    email: Seq<u8>,
    email_bump: u8,
    vault: Seq<u8>,
    vault_bump: u8,
    admin_vault: Seq<u8>,
) -> Result<LedgerView, ErrorCode> {
    if s.emails.contains_key(email) {
        Err(ErrorCode::AlreadyExists)
    } else {
        match s.config {
            None => Err(ErrorCode::NotFound),
            Some(c) => deposit_spec(s, c, sender, email, email_bump, vault, vault_bump, admin_vault),
        }
    }
}

pub open spec fn send_email_spec(s: LedgerView, sender: Key) -> Result<LedgerView, ErrorCode> {
    match derived(s.program_id, email_account_tag(), Some(sender@)) {
        None => Err(ErrorCode::AddressDerivationFailed),
        Some((ea, eb)) => match derived(s.program_id, vault_tag(), None) {
            None => Err(ErrorCode::AddressDerivationFailed),
            Some((va, vb)) => match derived(s.program_id, admin_vault_tag(), None) {
                None => Err(ErrorCode::AddressDerivationFailed),
                Some((wa, _)) => send_email_at_spec(s, sender, ea, eb, va, vb, wa),
            },
        },
    }
}

/// `withdraw_admin_fees` once the admin vault's address is known: the admin
/// moves `amount` out of it and the fee total drops by as much.
pub open spec fn withdraw_admin_fees_at_spec(s: LedgerView, signer: Seq<u8>, admin_vault: Seq<u8>, amount: u64) -> Result<
    LedgerView,
    ErrorCode,
> {
    match s.config {
        None => Err(ErrorCode::NotFound),
        Some(c) => if c.admin@ != signer {
            Err(ErrorCode::Unauthorized)
        } else if amount > c.total_fees_collected {
            Err(ErrorCode::InsufficientFunds)
        } else {
            match after_transfer(s.lamports, admin_vault, signer, amount) {
                None => Err(ErrorCode::TransferFailed),
                Some(m) => Ok(LedgerView {
                    config: Some(Config { total_fees_collected: (c.total_fees_collected - amount) as u64, ..c }),
                    lamports: m,
                    ..s
                }),
            }
        },
    }
}

pub open spec fn withdraw_admin_fees_spec(s: LedgerView, signer: Seq<u8>, amount: u64) -> Result<LedgerView, ErrorCode> {
    match derived(s.program_id, admin_vault_tag(), None) {
        None => Err(ErrorCode::AddressDerivationFailed),
        Some((wa, _)) => withdraw_admin_fees_at_spec(s, signer, wa, amount),
    }
}

} // verus!
