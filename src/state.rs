use vstd::prelude::*;
use crate::key::Key;

verus! {

/// Why an operation was refused. Every refused operation leaves the ledger
/// as it was.
#[derive(Clone, Copy, Debug, PartialEq, Eq, Structural)]
pub enum ErrorCode {
    /// A value transfer could not be carried out.
    TransferFailed,
    /// The caller does not hold the key that the record names.
    Unauthorized,
    /// A fee rate above 100 percent.
    InvalidFeeRate,
    /// A withdrawal above the fees collected so far.
    InsufficientFunds,
    /// A record already stands at the address.
    AlreadyExists,
    /// No record stands at the address.
    NotFound,
    /// A counter or an amount would leave the range of `u64`.
    ArithmeticOverflow,
    /// A display name longer than the profile can store.
    DisplayNameTooLong,
    /// No bump seed yields a valid derived address.
    AddressDerivationFailed,
}

/// The singleton record of administrative settings.
#[derive(Clone, Copy, Debug, PartialEq, Eq)]
pub struct Config {
    pub admin: Key,
    pub total_fees_collected: u64,
    pub fee_rate: u8,
    pub bump: u8,
}

/// A registered user's profile.
#[derive(Clone, Debug, PartialEq, Eq)]
pub struct UserProfile {
    pub owner: Key,
    pub bump: u8,
    pub display_name: String,
}

/// What a profile holds, as plain values.
pub ghost struct ProfileView {
    pub owner: Seq<u8>,
    pub bump: u8,
    pub display_name: Seq<char>,
}

impl View for UserProfile {
    type V = ProfileView;

    open spec fn view(&self) -> ProfileView {
        ProfileView { owner: self.owner@, bump: self.bump, display_name: self.display_name@ }
    }
}

/// Whether a display name fits the profile's storage bound, in bytes of UTF-8.
pub open spec fn name_fits(name: Seq<char>) -> bool {
    vstd::utf8::encode_utf8(name).len() <= MAX_DISPLAY_NAME_LEN
}

/// The record left by a sent message.
#[derive(Clone, Copy, Debug, PartialEq, Eq)]
pub struct Email {
    pub sender: Key,
    pub bump: u8,
}

/// The singleton record that receives the net part of each deposit.
#[derive(Clone, Copy, Debug, PartialEq, Eq)]
pub struct Vault {
    pub total_deposits: u64,
    pub bump: u8,
}

impl UserProfile {
    /// Stored size: owner key, bump, length prefix and name.
    pub const SIZE: usize = 32 + 1 + 4 + 32;
}

impl Email {
    /// Stored size: sender key and bump.
    pub const SIZE: usize = 32 + 1;
}

impl Vault {
    /// Stored size: deposit total and bump.
    pub const SIZE: usize = 8 + 1;
}

impl Config {
    /// Stored size: admin key, fee total, rate and bump.
    pub const SIZE: usize = 32 + 8 + 1 + 1;
}

/// Largest display name, in bytes of UTF-8.
pub const MAX_DISPLAY_NAME_LEN: usize = 32;

/// The accounts of `initialize_config`: the future admin, who signs.
#[derive(Clone, Copy, Debug)]
pub struct InitializeConfig {
    pub admin: Key,
}

/// The accounts of `update_config`: the signing admin.
#[derive(Clone, Copy, Debug)]
pub struct UpdateConfig {
    pub admin: Key,
}

/// The accounts of `withdraw_admin_fees`: the signing admin, who receives the value.
#[derive(Clone, Copy, Debug)]
pub struct WithdrawAdminFees {
    pub admin: Key,
}

/// The accounts of `register_user`: the signing owner.
#[derive(Clone, Copy, Debug)]
pub struct RegisterUser {
    pub owner: Key,
}

/// The accounts of `update_user`: the address of the profile and the signer.
#[derive(Clone, Copy, Debug)]
pub struct UpdateUser {
    pub user_profile: Key,
    pub owner: Key,
}

/// The accounts of `unregister_user`: the address of the profile and the
/// signer, who receives the value the profile held.
#[derive(Clone, Copy, Debug)]
pub struct UnregisterUser {
    pub user_profile: Key,
    pub owner: Key,
}

/// The accounts of `send_email`: the signing sender, who pays the deposit.
#[derive(Clone, Copy, Debug)]
pub struct SendEmail {
    pub sender: Key,
}

} // verus!
