use stello_vault::errors::ContractError;
use stello_vault::escrow::EscrowStatus;
use stello_vault::identity::Address;
use stello_vault::identity::AuthGate;
use stello_vault::vault::StelloVaultContract;

fn gate_for(identities: &[u64]) -> AuthGate {
    let mut gate = AuthGate::new();
    for &id in identities {
        gate.grant(Address::new(id));
    }
    gate
}

#[test]
fn test_initialize() {
    let mut vault = StelloVaultContract::new();
    let admin = Address::new(1);

    let result = vault.initialize(admin);
    assert!(result.is_ok());

    let admin_result = vault.admin();
    assert_eq!(admin_result, admin);
}

#[test]
fn test_tokenize_collateral() {
    let mut vault = StelloVaultContract::new();
    let admin = Address::new(1);

    vault.initialize(admin).unwrap();

    let next_id: u64 = vault.next_collateral_id();
    assert_eq!(next_id, 1);

    let escrow_id: u64 = vault.next_escrow_id();
    assert_eq!(escrow_id, 1);
}

#[test]
fn second_initialize_fails_and_keeps_admin() {
    let mut vault = StelloVaultContract::new();
    let first = Address::new(10);
    let second = Address::new(20);

    assert!(vault.initialize(first).is_ok());
    assert_eq!(vault.initialize(second), Err(ContractError::Unauthorized));
    assert_eq!(vault.initialize(first), Err(ContractError::Unauthorized));
    assert_eq!(vault.admin(), first);
}

#[test]
fn tokenize_ids_are_sequential_and_records_kept() {
    let mut vault = StelloVaultContract::new();
    vault.initialize(Address::new(1)).unwrap();
    let owner_a = Address::new(2);
    let owner_b = Address::new(3);
    let gate = gate_for(&[2, 3]);

    let id1 = vault
        .tokenize_collateral(&gate, owner_a, "INVOICE".to_owned(), 1000, "h1".to_owned(), 10, 100)
        .unwrap();
    let id2 = vault
        .tokenize_collateral(&gate, owner_b, "COMMODITY".to_owned(), 250, "h2".to_owned(), 4, 101)
        .unwrap();
    let id3 = vault
        .tokenize_collateral(&gate, owner_a, "INVOICE".to_owned(), 7, "h3".to_owned(), 1, 102)
        .unwrap();
    assert_eq!(id1, 1);
    assert_eq!(id2, 2);
    assert_eq!(id3, 3);

    let t1 = vault.get_collateral(1).unwrap();
    assert_eq!(t1.owner, owner_a);
    assert_eq!(t1.asset_type, "INVOICE");
    assert_eq!(t1.asset_value, 1000);
    assert_eq!(t1.metadata, "h1");
    assert_eq!(t1.fractional_shares, 10);
    assert_eq!(t1.created_at, 100);

    let t2 = vault.get_collateral(2).unwrap();
    assert_eq!(t2.owner, owner_b);
    assert_eq!(t2.asset_type, "COMMODITY");
    assert_eq!(t2.asset_value, 250);
    assert_eq!(t2.metadata, "h2");
    assert_eq!(t2.fractional_shares, 4);
    assert_eq!(t2.created_at, 101);

    let t3 = vault.get_collateral(3).unwrap();
    assert_eq!(t3.asset_value, 7);
}

#[test]
fn tokenize_rejects_non_positive_value_and_allocates_no_id() {
    let mut vault = StelloVaultContract::new();
    vault.initialize(Address::new(1)).unwrap();
    let owner = Address::new(2);
    let gate = gate_for(&[2]);

    let zero = vault.tokenize_collateral(&gate, owner, "INVOICE".to_owned(), 0, "m".to_owned(), 1, 5);
    assert_eq!(zero, Err(ContractError::InvalidAmount));
    let negative =
        vault.tokenize_collateral(&gate, owner, "INVOICE".to_owned(), -40, "m".to_owned(), 1, 5);
    assert_eq!(negative, Err(ContractError::InvalidAmount));
    assert_eq!(vault.next_collateral_id(), 1);
    assert!(vault.get_collateral(1).is_none());

    let ok = vault.tokenize_collateral(&gate, owner, "INVOICE".to_owned(), 1, "m".to_owned(), 1, 5);
    assert_eq!(ok, Ok(1));
}

#[test]
fn tokenize_requires_owner_authorization() {
    let mut vault = StelloVaultContract::new();
    vault.initialize(Address::new(1)).unwrap();
    let owner = Address::new(2);
    let gate = gate_for(&[3, 4]);

    let denied =
        vault.tokenize_collateral(&gate, owner, "INVOICE".to_owned(), 9, "m".to_owned(), 1, 5);
    assert_eq!(denied, Err(ContractError::Unauthorized));
    assert_eq!(vault.next_collateral_id(), 1);
}

#[test]
fn create_escrow_rejects_missing_collateral_and_allocates_no_id() {
    let mut vault = StelloVaultContract::new();
    vault.initialize(Address::new(1)).unwrap();
    let buyer = Address::new(2);
    let gate = gate_for(&[2]);

    let missing = vault.create_escrow(
        &gate,
        buyer,
        Address::new(3),
        7,
        500,
        Address::new(4),
        "SHIPMENT_DELIVERED".to_owned(),
        9,
    );
    assert_eq!(missing, Err(ContractError::EscrowNotFound));
    assert_eq!(vault.next_escrow_id(), 1);
    assert!(vault.get_escrow(1).is_none());
}

#[test]
fn create_escrow_validates_amount_and_buyer() {
    let mut vault = StelloVaultContract::new();
    vault.initialize(Address::new(1)).unwrap();
    let owner = Address::new(2);
    let buyer = Address::new(3);
    let gate = gate_for(&[2, 3]);
    vault
        .tokenize_collateral(&gate, owner, "INVOICE".to_owned(), 1000, "m".to_owned(), 1, 5)
        .unwrap();

    let zero = vault.create_escrow(
        &gate,
        buyer,
        Address::new(4),
        1,
        0,
        Address::new(5),
        "COND".to_owned(),
        6,
    );
    assert_eq!(zero, Err(ContractError::InvalidAmount));

    let unproven_buyer = Address::new(9);
    let denied = vault.create_escrow(
        &gate,
        unproven_buyer,
        Address::new(4),
        1,
        100,
        Address::new(5),
        "COND".to_owned(),
        6,
    );
    assert_eq!(denied, Err(ContractError::Unauthorized));
    assert_eq!(vault.next_escrow_id(), 1);

    let ok = vault.create_escrow(
        &gate,
        buyer,
        Address::new(4),
        1,
        100,
        Address::new(5),
        "COND".to_owned(),
        6,
    );
    assert_eq!(ok, Ok(1));
    let escrow = vault.get_escrow(1).unwrap();
    assert_eq!(escrow.buyer, buyer);
    assert_eq!(escrow.seller, Address::new(4));
    assert_eq!(escrow.collateral_token_id, 1);
    assert_eq!(escrow.amount, 100);
    assert_eq!(escrow.status, EscrowStatus::Pending);
    assert_eq!(escrow.oracle_address, Address::new(5));
    assert_eq!(escrow.release_conditions, "COND");
    assert_eq!(escrow.created_at, 6);
}

#[test]
fn lookups_on_absent_ids_return_none() {
    let mut vault = StelloVaultContract::new();
    vault.initialize(Address::new(1)).unwrap();

    assert!(vault.get_collateral(0).is_none());
    assert!(vault.get_collateral(1).is_none());
    assert!(vault.get_escrow(0).is_none());
    assert!(vault.get_escrow(99).is_none());
    assert_eq!(vault.activate_escrow(1), Err(ContractError::EscrowNotFound));
    let gate = gate_for(&[1]);
    assert_eq!(vault.release_escrow(&gate, 1), Err(ContractError::EscrowNotFound));
}
