use cosmos_fanout::contract::{
    add_to_pot, admin_action, execute, instantiate, migrate, query, query_all_beneficiaries,
    query_beneficiary, query_donator, query_state, query_version, register_beneficiary,
    remove_beneficiary, split_coins_into_parts,
};
use cosmos_fanout::msg::{Coin, ContractError, ExecuteMsg, InstantiateMsg, MigrateMsg, QueryMsg};
use cosmos_fanout::state::new_storage;

fn one_coin(amount: u128, denom: &str) -> Vec<Coin> {
    vec![Coin { denom: denom.to_string(), amount }]
}

#[test]
fn equal_split_and_depositor_history() {
    // Two active recipients, 1000 units of "token": each latest receipt is
    // 500 "token", and the donator's recorded history sums to 1000.
    let mut storage = new_storage();
    instantiate(
        &mut storage,
        "owner".to_string(),
        InstantiateMsg { only_owner_can_register_beneficiary: false },
    )
    .unwrap();
    register_beneficiary(&mut storage, "alice".to_string(), "alice".to_string()).unwrap();
    register_beneficiary(&mut storage, "bob".to_string(), "bob".to_string()).unwrap();

    let transfers = add_to_pot(&mut storage, "carol".to_string(), one_coin(1000, "token")).unwrap();
    assert_eq!(transfers.len(), 2);
    assert_eq!(transfers[0].to_address, "alice".to_string());
    assert_eq!(transfers[1].to_address, "bob".to_string());
    for transfer in &transfers {
        assert_eq!(transfer.amount.len(), 1);
        assert_eq!(transfer.amount[0].denom, "token".to_string());
        assert_eq!(transfer.amount[0].amount, 500);
    }

    let donator = query_donator(&storage, "carol".to_string()).unwrap();
    let total: u128 = donator.donations.iter().map(|c| c.amount).sum();
    assert_eq!(total, 1000);
}

#[test]
fn uneven_split_drops_remainder() {
    // Three active recipients, 100 units: each receives 33, one unit is
    // dropped and never transferred.
    let mut storage = new_storage();
    instantiate(
        &mut storage,
        "owner".to_string(),
        InstantiateMsg { only_owner_can_register_beneficiary: false },
    )
    .unwrap();
    for name in ["r1", "r2", "r3"] {
        register_beneficiary(&mut storage, name.to_string(), name.to_string()).unwrap();
    }
    let transfers = add_to_pot(&mut storage, "donor".to_string(), one_coin(100, "token")).unwrap();
    assert_eq!(transfers.len(), 3);
    let mut transferred: u128 = 0;
    for transfer in &transfers {
        assert_eq!(transfer.amount[0].amount, 33);
        transferred += transfer.amount[0].amount;
    }
    assert_eq!(transferred, 99);
    for name in ["r1", "r2", "r3"] {
        let resp = query_beneficiary(&storage, name.to_string(), false).unwrap();
        assert_eq!(resp.received_donations[0].amount, 33);
    }
}

#[test]
fn split_engine_exact_shares() {
    let bundle = vec![
        Coin { denom: "token".to_string(), amount: 100 },
        Coin { denom: "atom".to_string(), amount: 7 },
    ];
    let parts = split_coins_into_parts(&bundle, 3).unwrap();
    assert_eq!(parts.len(), 3);
    for part in &parts {
        assert_eq!(part.len(), 2);
        assert_eq!(part[0].denom, "token".to_string());
        assert_eq!(part[0].amount, 33);
        assert_eq!(part[1].denom, "atom".to_string());
        assert_eq!(part[1].amount, 2);
    }
}

#[test]
fn split_into_zero_parts_is_internal_error() {
    let bundle = one_coin(10, "token");
    assert_eq!(
        split_coins_into_parts(&bundle, 0),
        Err(ContractError::InternalInvariant)
    );
}

#[test]
fn split_of_huge_amount() {
    let bundle = one_coin(u128::MAX, "token");
    let parts = split_coins_into_parts(&bundle, 1).unwrap();
    assert_eq!(parts[0][0].amount, u128::MAX);
}

#[test]
fn deposit_with_no_beneficiaries_changes_nothing() {
    let mut storage = new_storage();
    instantiate(
        &mut storage,
        "owner".to_string(),
        InstantiateMsg { only_owner_can_register_beneficiary: false },
    )
    .unwrap();
    let result = add_to_pot(&mut storage, "carol".to_string(), one_coin(1000, "token"));
    assert_eq!(result, Err(ContractError::NoBeneficiaries));
    // Nothing was recorded: the donator is unknown and no list has entries.
    assert_eq!(
        query_donator(&storage, "carol".to_string()),
        Err(ContractError::NotADonator)
    );
    match query(&storage, QueryMsg::GetAllDonators {}).unwrap() {
        cosmos_fanout::msg::QueryAnswer::Donators(resp) => assert_eq!(resp.donators.len(), 0),
        _ => panic!("unexpected query answer"),
    }
}

#[test]
fn stranger_may_not_enroll_or_remove_third_party() {
    // Even with self-enrollment allowed, an actor that is neither the
    // owner nor the target cannot act on the target.
    let mut storage = new_storage();
    instantiate(
        &mut storage,
        "owner".to_string(),
        InstantiateMsg { only_owner_can_register_beneficiary: false },
    )
    .unwrap();
    assert_eq!(
        register_beneficiary(&mut storage, "mallory".to_string(), "victim".to_string()),
        Err(ContractError::Unauthorized)
    );
    register_beneficiary(&mut storage, "victim".to_string(), "victim".to_string()).unwrap();
    assert_eq!(
        remove_beneficiary(&mut storage, "mallory".to_string(), "victim".to_string()),
        Err(ContractError::Unauthorized)
    );
}

#[test]
fn enrolling_twice_is_rejected() {
    let mut storage = new_storage();
    instantiate(
        &mut storage,
        "owner".to_string(),
        InstantiateMsg { only_owner_can_register_beneficiary: false },
    )
    .unwrap();
    register_beneficiary(&mut storage, "alice".to_string(), "alice".to_string()).unwrap();
    assert_eq!(
        register_beneficiary(&mut storage, "alice".to_string(), "alice".to_string()),
        Err(ContractError::AlreadyABeneficiary)
    );
    assert_eq!(
        register_beneficiary(&mut storage, "owner".to_string(), "alice".to_string()),
        Err(ContractError::AlreadyABeneficiary)
    );
}

#[test]
fn removing_a_non_member_is_rejected() {
    let mut storage = new_storage();
    instantiate(
        &mut storage,
        "owner".to_string(),
        InstantiateMsg { only_owner_can_register_beneficiary: false },
    )
    .unwrap();
    assert_eq!(
        remove_beneficiary(&mut storage, "owner".to_string(), "ghost".to_string()),
        Err(ContractError::NotABeneficiary)
    );
    assert_eq!(
        query_beneficiary(&storage, "ghost".to_string(), false),
        Err(ContractError::NotABeneficiary)
    );
    assert_eq!(
        query_beneficiary(&storage, "ghost".to_string(), true),
        Err(ContractError::NotABeneficiary)
    );
}

#[test]
fn uninstantiated_registry_reports_missing_state() {
    let mut storage = new_storage();
    assert_eq!(query_state(&storage), Err(ContractError::StateNotFound));
    assert_eq!(
        register_beneficiary(&mut storage, "alice".to_string(), "alice".to_string()),
        Err(ContractError::StateNotFound)
    );
    assert_eq!(
        admin_action(&mut storage, "owner".to_string()),
        Err(ContractError::StateNotFound)
    );
}

#[test]
fn admin_action_is_owner_only() {
    let mut storage = new_storage();
    instantiate(
        &mut storage,
        "owner".to_string(),
        InstantiateMsg { only_owner_can_register_beneficiary: false },
    )
    .unwrap();
    admin_action(&mut storage, "owner".to_string()).unwrap();
    assert_eq!(
        admin_action(&mut storage, "alice".to_string()),
        Err(ContractError::Unauthorized)
    );
}

#[test]
fn migrate_requires_a_stamped_version() {
    let mut storage = new_storage();
    assert_eq!(
        migrate(&mut storage, MigrateMsg {}),
        Err(ContractError::VersionNotFound)
    );
    instantiate(
        &mut storage,
        "owner".to_string(),
        InstantiateMsg { only_owner_can_register_beneficiary: false },
    )
    .unwrap();
    migrate(&mut storage, MigrateMsg {}).unwrap();
    let (name, version) = query_version(&storage).expect("version should be stamped");
    assert_eq!(name, "crates.io:cosmos-fanout".to_string());
    assert_eq!(version, "0.1.0".to_string());
}

#[test]
fn member_listing_is_ascending() {
    let mut storage = new_storage();
    instantiate(
        &mut storage,
        "owner".to_string(),
        InstantiateMsg { only_owner_can_register_beneficiary: false },
    )
    .unwrap();
    // Registered out of order; listed in ascending identity order.
    for name in ["zoe", "ann", "mike"] {
        register_beneficiary(&mut storage, name.to_string(), name.to_string()).unwrap();
    }
    let listing = query_all_beneficiaries(&storage, false).unwrap();
    assert_eq!(
        listing.beneficiaries,
        vec!["ann".to_string(), "mike".to_string(), "zoe".to_string()]
    );
}

#[test]
fn empty_bundle_deposit_creates_empty_receipts() {
    let mut storage = new_storage();
    instantiate(
        &mut storage,
        "owner".to_string(),
        InstantiateMsg { only_owner_can_register_beneficiary: false },
    )
    .unwrap();
    register_beneficiary(&mut storage, "alice".to_string(), "alice".to_string()).unwrap();
    let transfers = execute(
        &mut storage,
        "carol".to_string(),
        Vec::new(),
        ExecuteMsg::AddToPot {},
    )
    .unwrap();
    assert_eq!(transfers.len(), 1);
    assert_eq!(transfers[0].amount.len(), 0);
    // The donator is now known, with an empty history.
    let donator = query_donator(&storage, "carol".to_string()).unwrap();
    assert_eq!(donator.donations.len(), 0);
    let alice = query_beneficiary(&storage, "alice".to_string(), false).unwrap();
    assert_eq!(alice.received_donations.len(), 0);
}

#[test]
fn multi_denomination_deposit_keeps_order() {
    let mut storage = new_storage();
    instantiate(
        &mut storage,
        "owner".to_string(),
        InstantiateMsg { only_owner_can_register_beneficiary: false },
    )
    .unwrap();
    register_beneficiary(&mut storage, "alice".to_string(), "alice".to_string()).unwrap();
    let bundle = vec![
        Coin { denom: "token".to_string(), amount: 10 },
        Coin { denom: "atom".to_string(), amount: 3 },
        Coin { denom: "token".to_string(), amount: 5 },
    ];
    add_to_pot(&mut storage, "carol".to_string(), bundle).unwrap();
    let alice = query_beneficiary(&storage, "alice".to_string(), false).unwrap();
    let denoms: Vec<String> = alice.received_donations.iter().map(|c| c.denom.clone()).collect();
    assert_eq!(
        denoms,
        vec!["token".to_string(), "atom".to_string(), "token".to_string()]
    );
    let amounts: Vec<u128> = alice.received_donations.iter().map(|c| c.amount).collect();
    assert_eq!(amounts, vec![10, 3, 5]);
}

#[test]
fn donator_history_accumulates_across_deposits() {
    let mut storage = new_storage();
    instantiate(
        &mut storage,
        "owner".to_string(),
        InstantiateMsg { only_owner_can_register_beneficiary: false },
    )
    .unwrap();
    register_beneficiary(&mut storage, "alice".to_string(), "alice".to_string()).unwrap();
    add_to_pot(&mut storage, "carol".to_string(), one_coin(1000, "token")).unwrap();
    add_to_pot(&mut storage, "carol".to_string(), one_coin(500, "token")).unwrap();
    let donator = query_donator(&storage, "carol".to_string()).unwrap();
    assert_eq!(donator.donator, "carol".to_string());
    let amounts: Vec<u128> = donator.donations.iter().map(|c| c.amount).collect();
    assert_eq!(amounts, vec![1000, 500]);
}

#[test]
fn donator_listing_is_ascending() {
    let mut storage = new_storage();
    instantiate(
        &mut storage,
        "owner".to_string(),
        InstantiateMsg { only_owner_can_register_beneficiary: false },
    )
    .unwrap();
    register_beneficiary(&mut storage, "alice".to_string(), "alice".to_string()).unwrap();
    add_to_pot(&mut storage, "zeb".to_string(), one_coin(10, "token")).unwrap();
    add_to_pot(&mut storage, "amy".to_string(), one_coin(10, "token")).unwrap();
    match query(&storage, QueryMsg::GetAllDonators {}).unwrap() {
        cosmos_fanout::msg::QueryAnswer::Donators(resp) => {
            assert_eq!(resp.donators, vec!["amy".to_string(), "zeb".to_string()]);
        }
        _ => panic!("unexpected query answer"),
    }
}
