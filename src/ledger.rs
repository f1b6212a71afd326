use vstd::prelude::*;
use crate::address::{
    admin_vault_tag, admin_vault_tag_bytes, config_tag, config_tag_bytes, derive_address, derived,
    email_account_tag, email_account_tag_bytes, seed_view, user_profile_tag,
    user_profile_tag_bytes, vault_tag, vault_tag_bytes,
};
use crate::fees::{check_fee_rate, debit_fee, record_fee, split, valid_fee_rate, DEPOSIT_AMOUNT};
use crate::key::Key;
use crate::state::{
    Config, Email, ErrorCode, InitializeConfig, ProfileView, RegisterUser, SendEmail,
    UnregisterUser, UpdateConfig, UpdateUser, UserProfile, Vault, WithdrawAdminFees,
    MAX_DISPLAY_NAME_LEN,
};
use crate::table::KeyTable;
use crate::transitions::{
    after_transfer, applied, balance_in, initialize_config_at_spec, initialize_config_spec,
    register_user_at_spec, register_user_spec, send_email_at_spec, send_email_spec,
    unregister_user_spec, update_config_spec, update_user_spec, withdraw_admin_fees_at_spec,
    withdraw_admin_fees_spec,
};

verus! {

/// The whole store as plain values.
pub ghost struct LedgerView {
    pub program_id: Seq<u8>,
    pub config: Option<Config>,
    pub vault: Option<Vault>,
    pub profiles: Map<Seq<u8>, ProfileView>,
    pub emails: Map<Seq<u8>, Email>,
    pub lamports: Map<Seq<u8>, u64>,
}

/// The records of the service and the value held at each address.
pub struct Ledger {
    program_id: Key,
    config: Option<Config>,
    vault: Option<Vault>,
    profiles: KeyTable<UserProfile>,
    emails: KeyTable<Email>,
    lamports: KeyTable<u64>,
}

impl View for Ledger {
    type V = LedgerView;

    closed spec fn view(&self) -> LedgerView {
        LedgerView {
            program_id: self.program_id@,
            config: self.config,
            vault: self.vault,
            profiles: self.profiles@.map_values(|p: UserProfile| p@),
            emails: self.emails@,
            lamports: self.lamports@,
        }
    }
}

pub open spec fn derived_or_fail(d: Option<(Seq<u8>, u8)>) -> Result<(Seq<u8>, u8), ErrorCode> {
    match d {
        Some(p) => Ok(p),
        None => Err(ErrorCode::AddressDerivationFailed),
    }
}

pub open spec fn located_view(r: Result<(Key, u8), ErrorCode>) -> Result<(Seq<u8>, u8), ErrorCode> {
    match r {
        Ok(p) => Ok((p.0@, p.1)),
        Err(e) => Err(e),
    }
}

/// Value held at `a`.
fn balance_of(t: &KeyTable<u64>, a: &Key) -> (r: u64)
    requires
        t.wf(),
    ensures
        r == balance_in(t@, a@),
{
    match t.get(a) {
        Some(b) => *b,
        None => 0,
    }
}

/// Moves `amount` from `from` to `to`; on failure nothing moves.
fn transfer(t: &mut KeyTable<u64>, from: &Key, to: &Key, amount: u64) -> (ok: bool)
    requires
        old(t).wf(),
    ensures
        final(t).wf(),
        match after_transfer(old(t)@, from@, to@, amount) {
            Some(m) => ok && final(t)@ == m,
            None => !ok && final(t)@ == old(t)@,
        },
{
    let fb = balance_of(t, from);
    if fb < amount {
        return false;
    }
    if from.same(to) {
        return true;
    }
    let tb = balance_of(t, to);
    if tb > u64::MAX - amount {
        return false;
    }
    t.insert(*from, fb - amount);
    t.insert(*to, tb + amount);
    true
}

/// The address and bump in `namespace` for the optional owner `seed`.
fn locate(program_id: &Key, namespace: Vec<u8>, seed: Option<Key>) -> (r: Result<(Key, u8), ErrorCode>)
    ensures
        located_view(r) == derived_or_fail(derived(program_id@, namespace@, seed_view(seed))),
{
    match derive_address(program_id, namespace, seed) {
        Some(p) => Ok(p),
        None => Err(ErrorCode::AddressDerivationFailed),
    }
}

impl Ledger {
    /// The store is consistent: each table is well formed and the fee rate
    /// is at most 100 percent.
    pub closed spec fn wf(&self) -> bool {
        &&& self.profiles.wf()
        &&& self.emails.wf()
        &&& self.lamports.wf()
        &&& match self.config {
            Some(c) => valid_fee_rate(c.fee_rate),
            None => true,
        }
    }

    /// In a consistent store the fee rate is at most 100 percent.
    pub proof fn lemma_fee_rate_bounded(&self)
        requires
            self.wf(),
        ensures
            match self@.config {
                Some(c) => valid_fee_rate(c.fee_rate),
                None => true,
            },
    {
    }

    /// An empty store for the program `program_id`.
    pub fn new(program_id: Key) -> (r: Ledger)
        ensures
            r.wf(),
            r@ == (LedgerView {
                program_id: program_id@,
                config: None,
                vault: None,
                profiles: Map::empty(),
                emails: Map::empty(),
                lamports: Map::empty(),
            }),
    {
        let r = Ledger {
            program_id,
            config: None,
            vault: None,
            profiles: KeyTable::new(),
            emails: KeyTable::new(),
            lamports: KeyTable::new(),
        };
        assert(r@.profiles =~= Map::empty());
        r
    }

    pub fn program_id(&self) -> (r: Key)
        ensures
            r@ == self@.program_id,
    {
        self.program_id
    }

    pub fn config(&self) -> (r: Option<Config>)
        ensures
            r == self@.config,
    {
        self.config
    }

    pub fn vault(&self) -> (r: Option<Vault>)
        ensures
            r == self@.vault,
    {
        self.vault
    }

    /// Value held at `address`.
    pub fn balance(&self, address: &Key) -> (r: u64)
        requires
            self.wf(),
        ensures
            r == balance_in(self@.lamports, address@),
    {
        balance_of(&self.lamports, address)
    }

    /// Credits `amount` to `address` from outside the service.
    pub fn fund(&mut self, address: &Key, amount: u64) -> (r: Result<(), ErrorCode>)
        requires
            old(self).wf(),
        ensures
            final(self).wf(),
            applied(
                if balance_in(old(self)@.lamports, address@) + amount > u64::MAX {
                    Err(ErrorCode::ArithmeticOverflow)
                } else {
                    Ok(LedgerView {
                        lamports: old(self)@.lamports.insert(
                            address@,
                            (balance_in(old(self)@.lamports, address@) + amount) as u64,
                        ),
                        ..old(self)@
                    })
                },
                old(self)@,
                final(self)@,
                r,
            ),
    {
        let b = balance_of(&self.lamports, address);
        if b > u64::MAX - amount {
            return Err(ErrorCode::ArithmeticOverflow);
        }
        self.lamports.insert(*address, b + amount);
        Ok(())
    }

    /// Address and bump of `owner`'s profile.
    pub fn profile_address(&self, owner: &Key) -> (r: Result<(Key, u8), ErrorCode>)
        ensures
            located_view(r) == derived_or_fail(derived(self@.program_id, user_profile_tag(), Some(owner@))),
    {
        locate(&self.program_id, user_profile_tag_bytes(), Some(*owner))
    }

    /// Address and bump of `sender`'s message record.
    pub fn email_address(&self, sender: &Key) -> (r: Result<(Key, u8), ErrorCode>)
        ensures
            located_view(r) == derived_or_fail(derived(self@.program_id, email_account_tag(), Some(sender@))),
    {
        locate(&self.program_id, email_account_tag_bytes(), Some(*sender))
    }

    /// Address and bump of the configuration record.
    pub fn config_address(&self) -> (r: Result<(Key, u8), ErrorCode>)
        ensures
            located_view(r) == derived_or_fail(derived(self@.program_id, config_tag(), None)),
    {
        locate(&self.program_id, config_tag_bytes(), None)
    }

    /// Address and bump of the vault that receives net deposits.
    pub fn vault_address(&self) -> (r: Result<(Key, u8), ErrorCode>)
        ensures
            located_view(r) == derived_or_fail(derived(self@.program_id, vault_tag(), None)),
    {
        locate(&self.program_id, vault_tag_bytes(), None)
    }

    /// Address and bump of the admin vault that receives fees.
    pub fn admin_vault_address(&self) -> (r: Result<(Key, u8), ErrorCode>)
        ensures
            located_view(r) == derived_or_fail(derived(self@.program_id, admin_vault_tag(), None)),
    {
        locate(&self.program_id, admin_vault_tag_bytes(), None)
    }

    /// The profile stored at `address`.
    pub fn profile(&self, address: &Key) -> (r: Result<&UserProfile, ErrorCode>)
        requires
            self.wf(),
        ensures
            match r {
                Ok(p) => self@.profiles.contains_key(address@) && p@ == self@.profiles[address@],
                Err(e) => !self@.profiles.contains_key(address@) && e == ErrorCode::NotFound,
            },
    {
        match self.profiles.get(address) {
            Some(p) => Ok(p),
            None => Err(ErrorCode::NotFound),
        }
    }

    /// The message record stored at `address`.
    pub fn email(&self, address: &Key) -> (r: Option<Email>)
        requires
            self.wf(),
        ensures
            r == (if self@.emails.contains_key(address@) {
                Some(self@.emails[address@])
            } else {
                None
            }),
    {
        match self.emails.get(address) {
            Some(e) => Some(*e),
            None => None,
        }
    }
}

/// Creates the configuration record with bump `bump`. Fails with
/// `AlreadyExists` if it is there already, and with `InvalidFeeRate` for a
/// rate above 100 percent.
pub fn initialize_config_at(ledger: &mut Ledger, ctx: &InitializeConfig, fee_rate: u8, bump: u8) -> (r: Result<
    (),
    ErrorCode,
>)
    requires
        old(ledger).wf(),
    ensures
        final(ledger).wf(),
        applied(initialize_config_at_spec(old(ledger)@, ctx.admin, fee_rate, bump), old(ledger)@, final(ledger)@, r),
{
    if let Some(_) = ledger.config {
        return Err(ErrorCode::AlreadyExists);
    }
    if let Err(e) = check_fee_rate(fee_rate) {
        return Err(e);
    }
    ledger.config = Some(Config { admin: ctx.admin, total_fees_collected: 0, fee_rate, bump });
    Ok(())
}

/// Creates the configuration record at its derived address.
pub fn initialize_config(ledger: &mut Ledger, ctx: &InitializeConfig, fee_rate: u8) -> (r: Result<(), ErrorCode>)
    requires
        old(ledger).wf(),
    ensures
        final(ledger).wf(),
        applied(initialize_config_spec(old(ledger)@, ctx.admin, fee_rate), old(ledger)@, final(ledger)@, r),
{
    match locate(&ledger.program_id, config_tag_bytes(), None) {
        Ok((_, bump)) => initialize_config_at(ledger, ctx, fee_rate, bump),
        Err(e) => Err(e),
    }
}

/// Sets a new fee rate. Only the admin may do so; a rate above 100 percent
/// fails with `InvalidFeeRate`.
pub fn update_config(ledger: &mut Ledger, ctx: &UpdateConfig, new_fee_rate: u8) -> (r: Result<(), ErrorCode>)
    requires
        old(ledger).wf(),
    ensures
        final(ledger).wf(),
        applied(update_config_spec(old(ledger)@, ctx.admin@, new_fee_rate), old(ledger)@, final(ledger)@, r),
{
    let c = match ledger.config {
        Some(c) => c,
        None => return Err(ErrorCode::NotFound),
    };
    if !c.admin.same(&ctx.admin) {
        return Err(ErrorCode::Unauthorized);
    }
    if let Err(e) = check_fee_rate(new_fee_rate) {
        return Err(e);
    }
    ledger.config = Some(Config { fee_rate: new_fee_rate, ..c });
    Ok(())
}

/// Creates the signer's profile at `address` with bump `bump` and an empty
/// display name. Fails with `AlreadyExists` if a profile stands there.
pub fn register_user_at(ledger: &mut Ledger, ctx: &RegisterUser, address: Key, bump: u8) -> (r: Result<(), ErrorCode>)
    requires
        old(ledger).wf(),
    ensures
        final(ledger).wf(),
        applied(register_user_at_spec(old(ledger)@, ctx.owner@, address@, bump), old(ledger)@, final(ledger)@, r),
{
    if ledger.profiles.contains(&address) {
        return Err(ErrorCode::AlreadyExists);
    }
    let profile = UserProfile { owner: ctx.owner, bump, display_name: String::new() };
    let ghost pv = profile@;
    ledger.profiles.insert(address, profile);
    assert(ledger@.profiles =~= old(ledger)@.profiles.insert(address@, pv));
    Ok(())
}

/// Creates the signer's profile at its derived address.
pub fn register_user(ledger: &mut Ledger, ctx: &RegisterUser) -> (r: Result<(), ErrorCode>)
    requires
        old(ledger).wf(),
    ensures
        final(ledger).wf(),
        applied(register_user_spec(old(ledger)@, ctx.owner@), old(ledger)@, final(ledger)@, r),
{
    match locate(&ledger.program_id, user_profile_tag_bytes(), Some(ctx.owner)) {
        Ok((address, bump)) => register_user_at(ledger, ctx, address, bump),
        Err(e) => Err(e),
    }
}

/// Replaces the display name of the profile at `ctx.user_profile`. Fails
/// with `NotFound` if there is none, `Unauthorized` if the signer is not its
/// owner, and `DisplayNameTooLong` past the storage bound.
pub fn update_user(ledger: &mut Ledger, ctx: &UpdateUser, new_display_name: String) -> (r: Result<(), ErrorCode>)
    requires
        old(ledger).wf(),
    ensures
        final(ledger).wf(),
        applied(
            update_user_spec(old(ledger)@, ctx.user_profile@, ctx.owner@, new_display_name@),
            old(ledger)@,
            final(ledger)@,
            r,
        ),
{
    let (owner, bump) = match ledger.profiles.get(&ctx.user_profile) {
        Some(p) => (p.owner, p.bump),
        None => return Err(ErrorCode::NotFound),
    };
    if !owner.same(&ctx.owner) {
        return Err(ErrorCode::Unauthorized);
    }
    if new_display_name.as_str().as_bytes().len() > MAX_DISPLAY_NAME_LEN {
        return Err(ErrorCode::DisplayNameTooLong);
    }
    let profile = UserProfile { owner, bump, display_name: new_display_name };
    let ghost pv = profile@;
    ledger.profiles.insert(ctx.user_profile, profile);
    assert(ledger@.profiles =~= old(ledger)@.profiles.insert(ctx.user_profile@, pv));
    Ok(())
}

/// Removes the profile at `ctx.user_profile` and hands the value held at its
/// address to the signer. Fails with `NotFound` if there is none and
/// `Unauthorized` if the signer is not its owner.
pub fn unregister_user(ledger: &mut Ledger, ctx: &UnregisterUser) -> (r: Result<(), ErrorCode>)
    requires
        old(ledger).wf(),
    ensures
        final(ledger).wf(),
        applied(
            unregister_user_spec(old(ledger)@, ctx.user_profile@, ctx.owner@),
            old(ledger)@,
            final(ledger)@,
            r,
        ),
{
    let owner = match ledger.profiles.get(&ctx.user_profile) {
        Some(p) => p.owner,
        None => return Err(ErrorCode::NotFound),
    };
    if !owner.same(&ctx.owner) {
        return Err(ErrorCode::Unauthorized);
    }
    let held = balance_of(&ledger.lamports, &ctx.user_profile);
    if !transfer(&mut ledger.lamports, &ctx.user_profile, &ctx.owner, held) {
        return Err(ErrorCode::TransferFailed);
    }
    let _ = ledger.profiles.remove(&ctx.user_profile);
    assert(ledger@.profiles =~= old(ledger)@.profiles.remove(ctx.user_profile@));
    Ok(())
}

/// Records a message from the signer at `email` and takes the fixed deposit
/// from the signer's balance: the fee goes to `admin_vault` and is added to
/// the fees collected, the rest goes to `vault`. Every check is made before
/// any value moves, the transfers are staged, and nothing is committed
/// unless both succeed.
pub fn send_email_at(
    ledger: &mut Ledger,
    ctx: &SendEmail,
    email: Key,
    email_bump: u8,
    vault: &Key,
    vault_bump: u8,
    admin_vault: &Key,
) -> (r: Result<(), ErrorCode>)
    requires
        old(ledger).wf(),
    ensures
        final(ledger).wf(),
        applied(
            send_email_at_spec(old(ledger)@, ctx.sender, email@, email_bump, vault@, vault_bump, admin_vault@),
            old(ledger)@,
            final(ledger)@,
            r,
        ),
{
    if ledger.emails.contains(&email) {
        return Err(ErrorCode::AlreadyExists);
    }
    let c = match ledger.config {
        Some(c) => c,
        None => return Err(ErrorCode::NotFound),
    };
    let (fee, net) = match split(DEPOSIT_AMOUNT, c.fee_rate) {
        Ok(p) => p,
        Err(e) => return Err(e),
    };
    let total_fees = match record_fee(c.total_fees_collected, fee) {
        Ok(t) => t,
        Err(e) => return Err(e),
    };
    let prior: u64 = match ledger.vault {
        Some(v) => v.total_deposits,
        None => 0,
    };
    let deposits = match prior.checked_add(net) {
        Some(d) => d,
        None => return Err(ErrorCode::ArithmeticOverflow),
    };
    let mut staged = ledger.lamports.copy();
    if !transfer(&mut staged, &ctx.sender, vault, net) {
        return Err(ErrorCode::TransferFailed);
    }
    if !transfer(&mut staged, &ctx.sender, admin_vault, fee) {
        return Err(ErrorCode::TransferFailed);
    }
    ledger.emails.insert(email, Email { sender: ctx.sender, bump: email_bump });
    ledger.vault = Some(Vault { total_deposits: deposits, bump: vault_bump });
    ledger.config = Some(Config { total_fees_collected: total_fees, ..c });
    ledger.lamports = staged;
    Ok(())
}

/// Sends a message from the signer, with the message record, the vault and
/// the admin vault at their derived addresses.
pub fn send_email(ledger: &mut Ledger, ctx: &SendEmail) -> (r: Result<(), ErrorCode>)
    requires
        old(ledger).wf(),
    ensures
        final(ledger).wf(),
        applied(send_email_spec(old(ledger)@, ctx.sender), old(ledger)@, final(ledger)@, r),
{
    let (email, email_bump) = match locate(&ledger.program_id, email_account_tag_bytes(), Some(ctx.sender)) {
        Ok(p) => p,
        Err(e) => return Err(e),
    };
    let (vault, vault_bump) = match locate(&ledger.program_id, vault_tag_bytes(), None) {
        Ok(p) => p,
        Err(e) => return Err(e),
    };
    let admin_vault = match locate(&ledger.program_id, admin_vault_tag_bytes(), None) {
        Ok(p) => p.0,
        Err(e) => return Err(e),
    };
    send_email_at(ledger, ctx, email, email_bump, &vault, vault_bump, &admin_vault)
}

/// Moves `amount` from `admin_vault` to the signing admin and lowers the fee
/// total by as much. Fails with `Unauthorized` for any other signer and
/// `InsufficientFunds` above the fees collected; the total is lowered only
/// once the transfer has succeeded.
pub fn withdraw_admin_fees_at(ledger: &mut Ledger, ctx: &WithdrawAdminFees, admin_vault: &Key, amount: u64) -> (r:
    Result<(), ErrorCode>)
    requires
        old(ledger).wf(),
    ensures
        final(ledger).wf(),
        applied(
            withdraw_admin_fees_at_spec(old(ledger)@, ctx.admin@, admin_vault@, amount),
            old(ledger)@,
            final(ledger)@,
            r,
        ),
{
    let c = match ledger.config {
        Some(c) => c,
        None => return Err(ErrorCode::NotFound),
    };
    if !c.admin.same(&ctx.admin) {
        return Err(ErrorCode::Unauthorized);
    }
    let remaining = match debit_fee(c.total_fees_collected, amount) {
        Ok(t) => t,
        Err(e) => return Err(e),
    };
    if !transfer(&mut ledger.lamports, admin_vault, &ctx.admin, amount) {
        return Err(ErrorCode::TransferFailed);
    }
    ledger.config = Some(Config { total_fees_collected: remaining, ..c });
    Ok(())
}

/// Withdraws fees from the admin vault at its derived address.
pub fn withdraw_admin_fees(ledger: &mut Ledger, ctx: &WithdrawAdminFees, amount: u64) -> (r: Result<(), ErrorCode>)
    requires
        old(ledger).wf(),
    ensures
        final(ledger).wf(),
        applied(withdraw_admin_fees_spec(old(ledger)@, ctx.admin@, amount), old(ledger)@, final(ledger)@, r),
{
    match locate(&ledger.program_id, admin_vault_tag_bytes(), None) {
        Ok((admin_vault, _)) => withdraw_admin_fees_at(ledger, ctx, &admin_vault, amount),
        Err(e) => Err(e),
    }
}

} // verus!
