use solana_email_identity::address::derive_address;
use solana_email_identity::fees::{debit_fee, record_fee, split, DEPOSIT_AMOUNT};
use solana_email_identity::key::Key;
use solana_email_identity::ledger::{
    initialize_config, register_user, send_email, unregister_user, update_config, update_user,
    withdraw_admin_fees, Ledger,
};
use solana_email_identity::state::{
    Config, Email, ErrorCode, UserProfile, Vault, InitializeConfig, RegisterUser, SendEmail, UnregisterUser, UpdateConfig, UpdateUser,
    WithdrawAdminFees,
};
use solana_program::pubkey::Pubkey;

fn key(b: u8) -> Key {
    Key::new([b; 32])
}

fn program() -> Key {
    key(200)
}

fn ledger_with_config(admin: Key, rate: u8) -> Ledger {
    let mut l = Ledger::new(program());
    assert_eq!(initialize_config(&mut l, &InitializeConfig { admin }, rate), Ok(()));
    l
}

fn solana_pda(seeds: &[&[u8]]) -> (Key, u8) {
    let (a, b) = Pubkey::find_program_address(seeds, &Pubkey::new_from_array(program().to_bytes()));
    (Key::new(a.to_bytes()), b)
}

#[test]
fn derive_address_matches_solana_derivation() {
    let owner = key(3);
    let ours = derive_address(&program(), b"user_profile".to_vec(), Some(owner)).unwrap();
    assert_eq!(ours, solana_pda(&[b"user_profile", &owner.to_bytes()]));
    let cfg = derive_address(&program(), b"config".to_vec(), None).unwrap();
    assert_eq!(cfg, solana_pda(&[b"config"]));
    assert_ne!(cfg.0, program());
}

#[test]
fn ledger_addresses_use_the_namespace_tags() {
    let l = Ledger::new(program());
    let sender = key(4);
    assert_eq!(l.config_address().unwrap(), solana_pda(&[b"config"]));
    assert_eq!(l.vault_address().unwrap(), solana_pda(&[b"vault"]));
    assert_eq!(l.admin_vault_address().unwrap(), solana_pda(&[b"admin_vault"]));
    assert_eq!(l.profile_address(&sender).unwrap(), solana_pda(&[b"user_profile", &sender.to_bytes()]));
    assert_eq!(l.email_address(&sender).unwrap(), solana_pda(&[b"email_account", &sender.to_bytes()]));
}

#[test]
fn derivation_is_deterministic() {
    let owner = key(9);
    let a = derive_address(&program(), b"email_account".to_vec(), Some(owner));
    let b = derive_address(&program(), b"email_account".to_vec(), Some(owner));
    assert_eq!(a, b);
    let c = derive_address(&program(), b"email_account".to_vec(), Some(key(10)));
    assert_ne!(a.unwrap().0, c.unwrap().0);
}

#[test]
fn key_comparison_is_bytewise() {
    let mut bytes = [5u8; 32];
    assert!(Key::new(bytes).same(&key(5)));
    bytes[31] = 6;
    assert!(!Key::new(bytes).same(&key(5)));
    assert_eq!(Key::new(bytes).to_vec(), bytes.to_vec());
}

#[test]
fn fee_split_examples() {
    assert_eq!(split(1_000_000, 10), Ok((100_000, 900_000)));
    assert_eq!(split(1_000_000, 0), Ok((0, 1_000_000)));
    assert_eq!(split(1_000_000, 100), Ok((1_000_000, 0)));
    assert_eq!(split(999, 15), Ok((149, 850)));
}

#[test]
fn fee_split_overflow_is_refused() {
    assert_eq!(split(u64::MAX, 2), Err(ErrorCode::ArithmeticOverflow));
    assert_eq!(split(1_000_000, 101), Err(ErrorCode::ArithmeticOverflow));
}

#[test]
fn fee_counter_arithmetic() {
    assert_eq!(record_fee(5, 7), Ok(12));
    assert_eq!(record_fee(u64::MAX, 1), Err(ErrorCode::ArithmeticOverflow));
    assert_eq!(debit_fee(10, 10), Ok(0));
    assert_eq!(debit_fee(10, 11), Err(ErrorCode::InsufficientFunds));
}

#[test]
fn fee_rate_bound_on_initialize() {
    let mut l = Ledger::new(program());
    let admin = key(1);
    assert_eq!(initialize_config(&mut l, &InitializeConfig { admin }, 101), Err(ErrorCode::InvalidFeeRate));
    assert!(l.config().is_none());
    assert_eq!(initialize_config(&mut l, &InitializeConfig { admin }, 100), Ok(()));
    let c = l.config().unwrap();
    assert_eq!(c.admin, admin);
    assert_eq!(c.fee_rate, 100);
    assert_eq!(c.total_fees_collected, 0);
    assert_eq!(c.bump, l.config_address().unwrap().1);
}

#[test]
fn config_is_created_once() {
    let admin = key(1);
    let mut l = ledger_with_config(admin, 10);
    assert_eq!(initialize_config(&mut l, &InitializeConfig { admin: key(2) }, 20), Err(ErrorCode::AlreadyExists));
    assert_eq!(l.config().unwrap().admin, admin);
    assert_eq!(l.config().unwrap().fee_rate, 10);
}

#[test]
fn fee_rate_bound_on_update() {
    let admin = key(1);
    let mut l = ledger_with_config(admin, 10);
    assert_eq!(update_config(&mut l, &UpdateConfig { admin }, 101), Err(ErrorCode::InvalidFeeRate));
    assert_eq!(l.config().unwrap().fee_rate, 10);
    assert_eq!(update_config(&mut l, &UpdateConfig { admin }, 100), Ok(()));
    assert_eq!(l.config().unwrap().fee_rate, 100);
}

#[test]
fn update_config_needs_admin_and_config() {
    let mut empty = Ledger::new(program());
    assert_eq!(update_config(&mut empty, &UpdateConfig { admin: key(1) }, 5), Err(ErrorCode::NotFound));
    let mut l = ledger_with_config(key(1), 10);
    assert_eq!(update_config(&mut l, &UpdateConfig { admin: key(2) }, 5), Err(ErrorCode::Unauthorized));
    assert_eq!(l.config().unwrap().fee_rate, 10);
}

#[test]
fn update_by_stranger_is_unauthorized() {
    let mut l = Ledger::new(program());
    let owner = key(3);
    assert_eq!(register_user(&mut l, &RegisterUser { owner }), Ok(()));
    let addr = l.profile_address(&owner).unwrap().0;
    assert_eq!(update_user(&mut l, &UpdateUser { user_profile: addr, owner }, "Bob".to_string()), Ok(()));
    assert_eq!(
        update_user(&mut l, &UpdateUser { user_profile: addr, owner: key(4) }, "Mallory".to_string()),
        Err(ErrorCode::Unauthorized)
    );
    assert_eq!(l.profile(&addr).unwrap().display_name, "Bob");
}

#[test]
fn second_registration_is_rejected() {
    let mut l = Ledger::new(program());
    let owner = key(3);
    assert_eq!(register_user(&mut l, &RegisterUser { owner }), Ok(()));
    let (addr, bump) = l.profile_address(&owner).unwrap();
    assert_eq!(update_user(&mut l, &UpdateUser { user_profile: addr, owner }, "Carol".to_string()), Ok(()));
    assert_eq!(register_user(&mut l, &RegisterUser { owner }), Err(ErrorCode::AlreadyExists));
    let p = l.profile(&addr).unwrap();
    assert_eq!(p.display_name, "Carol");
    assert_eq!(p.owner, owner);
    assert_eq!(p.bump, bump);
}

#[test]
fn registration_starts_with_empty_name() {
    let mut l = Ledger::new(program());
    let owner = key(3);
    assert_eq!(register_user(&mut l, &RegisterUser { owner }), Ok(()));
    let addr = l.profile_address(&owner).unwrap().0;
    assert_eq!(l.profile(&addr).unwrap().display_name, "");
}

#[test]
fn display_name_bound_is_in_bytes() {
    let mut l = Ledger::new(program());
    let owner = key(3);
    register_user(&mut l, &RegisterUser { owner }).unwrap();
    let addr = l.profile_address(&owner).unwrap().0;
    let ctx = UpdateUser { user_profile: addr, owner };
    assert_eq!(update_user(&mut l, &ctx, "a".repeat(32)), Ok(()));
    assert_eq!(update_user(&mut l, &ctx, "a".repeat(33)), Err(ErrorCode::DisplayNameTooLong));
    assert_eq!(update_user(&mut l, &ctx, "é".repeat(17)), Err(ErrorCode::DisplayNameTooLong));
    assert_eq!(update_user(&mut l, &ctx, "é".repeat(16)), Ok(()));
    assert_eq!(l.profile(&addr).unwrap().display_name, "é".repeat(16));
}

#[test]
fn update_of_missing_profile_is_not_found() {
    let mut l = Ledger::new(program());
    assert_eq!(
        update_user(&mut l, &UpdateUser { user_profile: key(8), owner: key(3) }, "x".to_string()),
        Err(ErrorCode::NotFound)
    );
}

#[test]
fn profile_round_trip() {
    let mut l = Ledger::new(program());
    let owner = key(3);
    assert_eq!(register_user(&mut l, &RegisterUser { owner }), Ok(()));
    let addr = l.profile_address(&owner).unwrap().0;
    assert_eq!(update_user(&mut l, &UpdateUser { user_profile: addr, owner }, "Alice".to_string()), Ok(()));
    assert_eq!(l.profile(&addr).unwrap().display_name, "Alice");
    assert_eq!(unregister_user(&mut l, &UnregisterUser { user_profile: addr, owner }), Ok(()));
    assert_eq!(l.profile(&addr).err(), Some(ErrorCode::NotFound));
    assert_eq!(register_user(&mut l, &RegisterUser { owner }), Ok(()));
}

#[test]
fn unregister_returns_held_value_to_owner() {
    let mut l = Ledger::new(program());
    let owner = key(3);
    register_user(&mut l, &RegisterUser { owner }).unwrap();
    let addr = l.profile_address(&owner).unwrap().0;
    l.fund(&addr, 500).unwrap();
    l.fund(&owner, 40).unwrap();
    assert_eq!(
        unregister_user(&mut l, &UnregisterUser { user_profile: addr, owner: key(4) }),
        Err(ErrorCode::Unauthorized)
    );
    assert_eq!(l.balance(&addr), 500);
    assert_eq!(unregister_user(&mut l, &UnregisterUser { user_profile: addr, owner }), Ok(()));
    assert_eq!(l.balance(&addr), 0);
    assert_eq!(l.balance(&owner), 540);
    assert_eq!(
        unregister_user(&mut l, &UnregisterUser { user_profile: addr, owner }),
        Err(ErrorCode::NotFound)
    );
}

#[test]
fn unregister_fails_when_the_owner_cannot_receive() {
    let mut l = Ledger::new(program());
    let owner = key(3);
    register_user(&mut l, &RegisterUser { owner }).unwrap();
    let addr = l.profile_address(&owner).unwrap().0;
    l.fund(&addr, 2).unwrap();
    l.fund(&owner, u64::MAX - 1).unwrap();
    assert_eq!(
        unregister_user(&mut l, &UnregisterUser { user_profile: addr, owner }),
        Err(ErrorCode::TransferFailed)
    );
    assert!(l.profile(&addr).is_ok());
    assert_eq!(l.balance(&addr), 2);
}

#[test]
fn fund_refuses_overflow() {
    let mut l = Ledger::new(program());
    assert_eq!(l.fund(&key(1), u64::MAX), Ok(()));
    assert_eq!(l.fund(&key(1), 1), Err(ErrorCode::ArithmeticOverflow));
    assert_eq!(l.balance(&key(1)), u64::MAX);
    assert_eq!(l.balance(&key(2)), 0);
}

#[test]
fn send_email_splits_the_deposit() {
    let admin = key(1);
    let sender = key(5);
    let mut l = ledger_with_config(admin, 10);
    l.fund(&sender, 3_000_000).unwrap();
    assert_eq!(send_email(&mut l, &SendEmail { sender }), Ok(()));
    let vault = l.vault_address().unwrap();
    let admin_vault = l.admin_vault_address().unwrap().0;
    assert_eq!(l.balance(&sender), 3_000_000 - DEPOSIT_AMOUNT);
    assert_eq!(l.balance(&vault.0), 900_000);
    assert_eq!(l.balance(&admin_vault), 100_000);
    assert_eq!(l.config().unwrap().total_fees_collected, 100_000);
    let v = l.vault().unwrap();
    assert_eq!(v.total_deposits, 900_000);
    assert_eq!(v.bump, vault.1);
    let (email_addr, email_bump) = l.email_address(&sender).unwrap();
    let e = l.email(&email_addr).unwrap();
    assert_eq!(e.sender, sender);
    assert_eq!(e.bump, email_bump);
}

#[test]
fn second_send_from_same_sender_is_rejected() {
    let sender = key(5);
    let mut l = ledger_with_config(key(1), 20);
    l.fund(&sender, 3_000_000).unwrap();
    assert_eq!(send_email(&mut l, &SendEmail { sender }), Ok(()));
    assert_eq!(send_email(&mut l, &SendEmail { sender }), Err(ErrorCode::AlreadyExists));
    assert_eq!(l.balance(&sender), 2_000_000);
    assert_eq!(l.config().unwrap().total_fees_collected, 200_000);
}

#[test]
fn fees_accumulate_over_senders() {
    let mut l = ledger_with_config(key(1), 10);
    for b in 10..13u8 {
        l.fund(&key(b), DEPOSIT_AMOUNT).unwrap();
        assert_eq!(send_email(&mut l, &SendEmail { sender: key(b) }), Ok(()));
        assert_eq!(l.balance(&key(b)), 0);
    }
    assert_eq!(l.config().unwrap().total_fees_collected, 300_000);
    assert_eq!(l.vault().unwrap().total_deposits, 2_700_000);
    assert_eq!(l.balance(&l.admin_vault_address().unwrap().0), 300_000);
}

#[test]
fn send_email_needs_config() {
    let sender = key(5);
    let mut l = Ledger::new(program());
    l.fund(&sender, DEPOSIT_AMOUNT).unwrap();
    assert_eq!(send_email(&mut l, &SendEmail { sender }), Err(ErrorCode::NotFound));
    assert_eq!(l.balance(&sender), DEPOSIT_AMOUNT);
}

#[test]
fn failed_fee_transfer_rolls_everything_back() {
    let sender = key(5);
    let mut l = ledger_with_config(key(1), 10);
    l.fund(&sender, 950_000).unwrap();
    assert_eq!(send_email(&mut l, &SendEmail { sender }), Err(ErrorCode::TransferFailed));
    let email_addr = l.email_address(&sender).unwrap().0;
    assert!(l.email(&email_addr).is_none());
    assert_eq!(l.config().unwrap().total_fees_collected, 0);
    assert!(l.vault().is_none());
    assert_eq!(l.balance(&l.vault_address().unwrap().0), 0);
    assert_eq!(l.balance(&l.admin_vault_address().unwrap().0), 0);
    assert_eq!(l.balance(&sender), 950_000);
}

#[test]
fn failed_net_transfer_is_refused() {
    let sender = key(5);
    let mut l = ledger_with_config(key(1), 10);
    l.fund(&sender, 10).unwrap();
    assert_eq!(send_email(&mut l, &SendEmail { sender }), Err(ErrorCode::TransferFailed));
    assert_eq!(l.balance(&sender), 10);
    assert!(l.vault().is_none());
}

#[test]
fn withdraw_above_collected_fees_is_refused() {
    let admin = key(1);
    let sender = key(5);
    let mut l = ledger_with_config(admin, 10);
    l.fund(&sender, DEPOSIT_AMOUNT).unwrap();
    send_email(&mut l, &SendEmail { sender }).unwrap();
    let admin_vault = l.admin_vault_address().unwrap().0;
    assert_eq!(
        withdraw_admin_fees(&mut l, &WithdrawAdminFees { admin }, 100_001),
        Err(ErrorCode::InsufficientFunds)
    );
    assert_eq!(l.config().unwrap().total_fees_collected, 100_000);
    assert_eq!(l.balance(&admin_vault), 100_000);
    assert_eq!(l.balance(&admin), 0);
}

#[test]
fn withdraw_moves_fees_to_admin() {
    let admin = key(1);
    let sender = key(5);
    let mut l = ledger_with_config(admin, 10);
    l.fund(&sender, DEPOSIT_AMOUNT).unwrap();
    send_email(&mut l, &SendEmail { sender }).unwrap();
    let admin_vault = l.admin_vault_address().unwrap().0;
    assert_eq!(withdraw_admin_fees(&mut l, &WithdrawAdminFees { admin }, 40_000), Ok(()));
    assert_eq!(l.config().unwrap().total_fees_collected, 60_000);
    assert_eq!(l.balance(&admin_vault), 60_000);
    assert_eq!(l.balance(&admin), 40_000);
    assert_eq!(withdraw_admin_fees(&mut l, &WithdrawAdminFees { admin }, 60_000), Ok(()));
    assert_eq!(l.config().unwrap().total_fees_collected, 0);
    assert_eq!(l.balance(&admin), 100_000);
}

#[test]
fn withdraw_by_other_signer_is_unauthorized() {
    let admin = key(1);
    let sender = key(5);
    let mut l = ledger_with_config(admin, 10);
    l.fund(&sender, DEPOSIT_AMOUNT).unwrap();
    send_email(&mut l, &SendEmail { sender }).unwrap();
    assert_eq!(
        withdraw_admin_fees(&mut l, &WithdrawAdminFees { admin: key(2) }, 1),
        Err(ErrorCode::Unauthorized)
    );
    assert_eq!(l.config().unwrap().total_fees_collected, 100_000);
    let mut empty = Ledger::new(program());
    assert_eq!(
        withdraw_admin_fees(&mut empty, &WithdrawAdminFees { admin }, 0),
        Err(ErrorCode::NotFound)
    );
}

#[test]
fn withdraw_fails_when_admin_cannot_receive() {
    let admin = key(1);
    let sender = key(5);
    let mut l = ledger_with_config(admin, 10);
    l.fund(&sender, DEPOSIT_AMOUNT).unwrap();
    send_email(&mut l, &SendEmail { sender }).unwrap();
    l.fund(&admin, u64::MAX).unwrap();
    assert_eq!(
        withdraw_admin_fees(&mut l, &WithdrawAdminFees { admin }, 10),
        Err(ErrorCode::TransferFailed)
    );
    assert_eq!(l.config().unwrap().total_fees_collected, 100_000);
    assert_eq!(l.balance(&l.admin_vault_address().unwrap().0), 100_000);
}

#[test]
fn stored_sizes() {
    assert_eq!(UserProfile::SIZE, 69);
    assert_eq!(Email::SIZE, 33);
    assert_eq!(Vault::SIZE, 9);
    assert_eq!(Config::SIZE, 42);
}
