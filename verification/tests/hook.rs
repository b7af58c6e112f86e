use spl_token_2022::extension::transfer_hook::TransferHookAccount;
use spl_token_2022::extension::BaseStateWithExtensionsMut;
use spl_token_2022::extension::ExtensionType;
use spl_token_2022::extension::PodStateWithExtensionsMut;
use spl_token_2022::pod::PodAccount;
use spl_token_2022::state::Account;

use what_transfer_hook::error::TransferError;
use what_transfer_hook::hook::check_is_transferring;
use what_transfer_hook::hook::transfer_hook;
use what_transfer_hook::hook::CompanionAccounts;
use what_transfer_hook::hook::DelegatedTransfer;
use what_transfer_hook::hook::TransferContext;
use what_transfer_hook::identity::Identity;
use what_transfer_hook::registry::add_to_whitelist;
use what_transfer_hook::registry::initialize_extra_account_meta_list;
use what_transfer_hook::registry::turn_off_whitelist;
use what_transfer_hook::registry::RegistrySlot;
use what_transfer_hook::registry::WhiteList;

fn account_data_with_flag(transferring: bool) -> Vec<u8> {
    let len = ExtensionType::try_calculate_account_len::<Account>(&[
        ExtensionType::TransferHookAccount,
    ])
    .unwrap();
    let mut buf = vec![0u8; len];
    {
        let mut state = PodStateWithExtensionsMut::<PodAccount>::unpack_uninitialized(&mut buf)
            .unwrap();
        let extension = state.init_extension::<TransferHookAccount>(true).unwrap();
        extension.transferring = transferring.into();
        state.base.state = 1;
        state.init_account_type().unwrap();
    }
    buf
}

fn id(n: u128) -> Identity {
    Identity { hi: n, lo: n.wrapping_mul(31) }
}

fn companion() -> CompanionAccounts {
    CompanionAccounts {
        owner_holding: id(100),
        delegate_holding: id(101),
        treasury_holding: id(102),
    }
}

fn context(transferring: bool, destination: Identity, amount: u64) -> TransferContext {
    TransferContext {
        source_data: account_data_with_flag(transferring),
        destination,
        mint: id(50),
        owner: id(51),
        amount,
        companion: Some(companion()),
    }
}

fn fresh_registry(owner: Identity) -> WhiteList {
    let mut slot = RegistrySlot::empty();
    initialize_extra_account_meta_list(&mut slot, owner, 3, id(70)).unwrap();
    slot.stored.unwrap()
}

#[test]
fn in_flight_check_reads_the_extension() {
    assert_eq!(check_is_transferring(&account_data_with_flag(true)), Ok(()));
    assert_eq!(
        check_is_transferring(&account_data_with_flag(false)),
        Err(TransferError::NotTransferring)
    );
    assert_eq!(
        check_is_transferring(&vec![7u8; 16]),
        Err(TransferError::InvalidAccountData)
    );
}

#[test]
fn hook_rejects_outside_a_transfer_whatever_the_registry_says() {
    let owner = id(1);
    let mut registry = fresh_registry(owner);
    let destination = id(9);
    add_to_whitelist(&mut registry, owner, destination).unwrap();
    let ctx = context(false, destination, 42);
    assert_eq!(
        transfer_hook(&ctx, &registry),
        Err(TransferError::NotTransferring)
    );
    turn_off_whitelist(&mut registry, owner).unwrap();
    assert_eq!(
        transfer_hook(&ctx, &registry),
        Err(TransferError::NotTransferring)
    );
}

#[test]
fn fresh_registry_rejects_every_destination() {
    let registry = fresh_registry(id(1));
    assert!(registry.is_on);
    assert!(registry.white_list.is_empty());
    for n in [2u128, 3, 77] {
        let ctx = context(true, id(n), 5);
        assert_eq!(
            transfer_hook(&ctx, &registry),
            Err(TransferError::NotWhitelisted)
        );
    }
}

#[test]
fn enrolled_destination_is_admitted_with_companion_transfer() {
    let owner = id(1);
    let mut registry = fresh_registry(owner);
    let destination = id(9);
    add_to_whitelist(&mut registry, owner, destination).unwrap();
    let ctx = context(true, destination, 42);
    assert_eq!(
        transfer_hook(&ctx, &registry),
        Ok(Some(DelegatedTransfer {
            from: companion().owner_holding,
            to: companion().delegate_holding,
            amount: 42,
        }))
    );
}

#[test]
fn disabled_registry_admits_non_members() {
    let owner = id(1);
    let mut registry = fresh_registry(owner);
    turn_off_whitelist(&mut registry, owner).unwrap();
    let ctx = context(true, id(9), 7);
    assert_eq!(
        transfer_hook(&ctx, &registry),
        Ok(Some(DelegatedTransfer {
            from: companion().owner_holding,
            to: companion().delegate_holding,
            amount: 7,
        }))
    );
}

#[test]
fn no_companion_configured_means_no_secondary_transfer() {
    let owner = id(1);
    let mut registry = fresh_registry(owner);
    let destination = id(9);
    add_to_whitelist(&mut registry, owner, destination).unwrap();
    let mut ctx = context(true, destination, 42);
    ctx.companion = None;
    assert_eq!(transfer_hook(&ctx, &registry), Ok(None));
}

#[test]
fn only_the_authority_may_enroll() {
    let owner = id(1);
    let mut registry = fresh_registry(owner);
    assert_eq!(
        add_to_whitelist(&mut registry, id(2), id(9)),
        Err(TransferError::Unauthorized)
    );
    assert_eq!(registry.white_list.len(), 0);
    assert_eq!(add_to_whitelist(&mut registry, owner, id(9)), Ok(()));
    assert_eq!(registry.white_list.len(), 1);
}

#[test]
fn only_the_authority_may_disable() {
    let owner = id(1);
    let mut registry = fresh_registry(owner);
    assert_eq!(
        turn_off_whitelist(&mut registry, id(2)),
        Err(TransferError::Unauthorized)
    );
    assert!(registry.is_on);
    assert_eq!(turn_off_whitelist(&mut registry, owner), Ok(()));
    assert!(!registry.is_on);
    assert_eq!(turn_off_whitelist(&mut registry, owner), Ok(()));
    assert!(!registry.is_on);
}

#[test]
fn duplicate_members_are_appended_not_rejected() {
    let owner = id(1);
    let mut registry = fresh_registry(owner);
    add_to_whitelist(&mut registry, owner, id(9)).unwrap();
    add_to_whitelist(&mut registry, owner, id(9)).unwrap();
    assert_eq!(registry.white_list.len(), 2);
}

#[test]
fn second_creation_is_refused() {
    let mut slot = RegistrySlot::empty();
    initialize_extra_account_meta_list(&mut slot, id(1), 3, id(70)).unwrap();
    assert_eq!(
        initialize_extra_account_meta_list(&mut slot, id(2), 5, id(71)),
        Err(TransferError::AlreadyExists)
    );
    let registry = slot.stored.unwrap();
    assert_eq!(registry.authority, id(1));
    assert_eq!(registry.fee, 3);
    assert_eq!(registry.treasury_wallet, id(70));
}
