use ani_ligtas::contract::AniLigtasContract;
use ani_ligtas::records::{Error, Event};

/// A 32-byte identifier whose first byte is `seed`.
fn make_bytes(seed: u8) -> Vec<u8> {
    let mut raw = vec![0u8; 32];
    raw[0] = seed;
    raw
}

fn admin_wallet() -> Vec<u8> {
    b"GADMINWALLETADDRESS".to_vec()
}

fn farmer_wallet() -> Vec<u8> {
    b"GFARMERWALLETADDRESS".to_vec()
}

/// A deployed and initialised contract, with the admin and a farmer wallet.
fn setup() -> (AniLigtasContract, Vec<u8>, Vec<u8>) {
    let mut client = AniLigtasContract::new();
    client.initialize(admin_wallet());
    (client, admin_wallet(), farmer_wallet())
}

#[test]
fn test_happy_path_claim_and_disburse() {
    let (mut client, admin, farmer_wallet) = setup();

    let farmer_id = make_bytes(1);
    let coop_id = make_bytes(10);
    let claim_id = make_bytes(20);
    let evidence = make_bytes(30);

    // Seed pool with $500 USDC
    let pool_deposit: i128 = 500_000_000;
    client.deposit_to_pool(admin.clone(), pool_deposit).unwrap();
    assert_eq!(client.get_pool_balance(), pool_deposit);

    client
        .register_farmer(farmer_id.clone(), farmer_wallet.clone(), coop_id)
        .unwrap();

    client
        .file_claim(farmer_id.clone(), claim_id.clone(), 200_000_000_i128, evidence)
        .unwrap();

    // Admin approves $150 payout
    let payout: i128 = 150_000_000;
    let event = client
        .approve_and_disburse(claim_id.clone(), payout)
        .unwrap();

    // The payout goes to the farmer's wallet, for exactly the payout amount
    match event {
        Event::Disbursed { claim_id: c, wallet, amount } => {
            assert_eq!(c, claim_id);
            assert_eq!(wallet, farmer_wallet);
            assert_eq!(amount, payout);
        }
        other => panic!("unexpected event {:?}", other),
    }

    // Pool must be debited correctly
    assert_eq!(client.get_pool_balance(), pool_deposit - payout);

    // Claim must be marked Approved (status = 1)
    let claim = client.get_claim(claim_id).unwrap();
    assert_eq!(claim.status, 1);
    assert_eq!(claim.approved_amount, payout);
}

#[test]
fn test_duplicate_active_claim_rejected() {
    let (mut client, admin, farmer_wallet) = setup();

    let farmer_id = make_bytes(2);
    let coop_id = make_bytes(11);
    let claim_id_a = make_bytes(21);
    let claim_id_b = make_bytes(22);
    let evidence = make_bytes(31);

    client.deposit_to_pool(admin, 500_000_000_i128).unwrap();
    client
        .register_farmer(farmer_id.clone(), farmer_wallet, coop_id)
        .unwrap();

    // First claim succeeds
    client
        .file_claim(farmer_id.clone(), claim_id_a, 100_000_000_i128, evidence.clone())
        .unwrap();

    // Second claim while first is pending must fail
    let result = client.file_claim(farmer_id, claim_id_b, 80_000_000_i128, evidence);
    assert!(result.is_err());

    // Confirm it's specifically the ActiveClaimExists error
    assert_eq!(result.unwrap_err(), Error::ActiveClaimExists);
}

#[test]
fn test_state_after_claim_filing() {
    let (mut client, admin, farmer_wallet) = setup();

    let farmer_id = make_bytes(3);
    let coop_id = make_bytes(12);
    let claim_id = make_bytes(23);
    let evidence = make_bytes(32);
    let loss: i128 = 75_000_000;

    let mut events = Vec::new();
    events.push(client.deposit_to_pool(admin, 500_000_000_i128).unwrap());
    events.push(
        client
            .register_farmer(farmer_id.clone(), farmer_wallet.clone(), coop_id)
            .unwrap(),
    );
    events.push(
        client
            .file_claim(farmer_id.clone(), claim_id.clone(), loss, evidence)
            .unwrap(),
    );

    // Claim must be Pending with the correct loss amount
    let claim = client.get_claim(claim_id).unwrap();
    assert_eq!(claim.status, 0);
    assert_eq!(claim.loss_amount, loss);
    assert_eq!(claim.approved_amount, 0);

    // Farmer must have active claim flagged
    let farmer = client.get_farmer(farmer_id.clone()).unwrap();
    assert!(farmer.has_active_claim);
    assert_eq!(farmer.wallet, farmer_wallet);

    // At least enroll + deposit + claim events must exist
    assert!(events.len() >= 3);
    assert_eq!(
        events[0],
        Event::Deposited { donor: admin_wallet(), amount: 500_000_000 }
    );
    assert_eq!(
        events[1],
        Event::Enrolled { farmer_id: farmer_id.clone(), wallet: farmer_wallet.clone() }
    );
    assert_eq!(
        events[2],
        Event::ClaimFiled { claim_id: make_bytes(23), farmer_id, loss_amount: loss }
    );
}
