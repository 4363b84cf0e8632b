use ani_ligtas::bytes::{bytes_eq, copy_bytes};
use ani_ligtas::contract::AniLigtasContract;
use ani_ligtas::records::{
    ClaimRecord, Error, Event, FarmerRecord, Request, STATUS_APPROVED, STATUS_PENDING,
    STATUS_REJECTED,
};
use ani_ligtas::table::Table;

fn id(seed: u8) -> Vec<u8> {
    let mut raw = vec![0u8; 32];
    raw[0] = seed;
    raw
}

fn wallet(seed: u8) -> Vec<u8> {
    vec![b'G', seed, seed, seed]
}

/// Initialised contract with `pool` in the pool and farmers 1 and 2 enrolled.
fn funded(pool: i128) -> AniLigtasContract {
    let mut c = AniLigtasContract::new();
    c.initialize(wallet(0));
    c.deposit_to_pool(wallet(9), pool).unwrap();
    c.register_farmer(id(1), wallet(1), b"COOP-A".to_vec()).unwrap();
    c.register_farmer(id(2), wallet(2), b"COOP-B".to_vec()).unwrap();
    c
}

#[test]
fn fresh_contract_is_empty() {
    let c = AniLigtasContract::new();
    assert_eq!(c.get_pool_balance(), 0);
    assert!(c.admin().is_none());
    assert_eq!(c.get_farmer(id(1)), Err(Error::FarmerNotFound));
    assert_eq!(c.get_claim(id(1)), Err(Error::ClaimNotFound));
}

#[test]
fn initialize_records_admin_and_resets_pool() {
    let mut c = AniLigtasContract::new();
    c.initialize(wallet(0));
    assert_eq!(c.admin(), Some(&wallet(0)));
    c.deposit_to_pool(wallet(9), 40).unwrap();
    assert_eq!(c.get_pool_balance(), 40);
    c.initialize(wallet(5));
    assert_eq!(c.admin(), Some(&wallet(5)));
    assert_eq!(c.get_pool_balance(), 0);
}

#[test]
fn register_twice_is_refused() {
    let mut c = funded(0);
    let before = c.get_farmer(id(1)).unwrap();
    assert_eq!(
        c.register_farmer(id(1), wallet(7), b"OTHER".to_vec()),
        Err(Error::FarmerAlreadyRegistered)
    );
    assert_eq!(c.get_farmer(id(1)).unwrap(), before);
}

#[test]
fn register_reports_enrolment() {
    let mut c = funded(0);
    let e = c.register_farmer(id(3), wallet(3), b"COOP-C".to_vec()).unwrap();
    assert_eq!(e, Event::Enrolled { farmer_id: id(3), wallet: wallet(3) });
    let f = c.get_farmer(id(3)).unwrap();
    assert_eq!(
        f,
        FarmerRecord { wallet: wallet(3), cooperative_id: b"COOP-C".to_vec(), has_active_claim: false }
    );
}

#[test]
fn deposits_accumulate() {
    let mut c = funded(500);
    let e = c.deposit_to_pool(wallet(8), 250).unwrap();
    assert_eq!(e, Event::Deposited { donor: wallet(8), amount: 250 });
    assert_eq!(c.get_pool_balance(), 750);
}

#[test]
fn unknown_farmer_cannot_file() {
    let mut c = funded(100);
    assert_eq!(c.file_claim(id(99), id(50), 10, id(60)), Err(Error::FarmerNotFound));
    assert_eq!(c.get_claim(id(50)), Err(Error::ClaimNotFound));
}

#[test]
fn filing_reports_and_records_the_claim() {
    let mut c = funded(100);
    let e = c.file_claim(id(1), id(50), 42, id(60)).unwrap();
    assert_eq!(e, Event::ClaimFiled { claim_id: id(50), farmer_id: id(1), loss_amount: 42 });
    assert_eq!(
        c.get_claim(id(50)).unwrap(),
        ClaimRecord {
            farmer_id: id(1),
            loss_amount: 42,
            approved_amount: 0,
            status: STATUS_PENDING,
            evidence_ref: id(60),
        }
    );
    assert_eq!(c.get_pool_balance(), 100);
}

#[test]
fn approval_of_unknown_claim_is_refused() {
    let mut c = funded(100);
    assert_eq!(c.approve_and_disburse(id(77), 10), Err(Error::ClaimNotFound));
    assert_eq!(c.reject_claim(id(77)), Err(Error::ClaimNotFound));
}

#[test]
fn no_partial_payout_when_pool_is_short() {
    let mut c = funded(100);
    c.file_claim(id(1), id(50), 500, id(60)).unwrap();
    assert_eq!(c.approve_and_disburse(id(50), 101), Err(Error::InsufficientPoolFunds));
    assert_eq!(c.get_pool_balance(), 100);
    let claim = c.get_claim(id(50)).unwrap();
    assert_eq!(claim.status, STATUS_PENDING);
    assert_eq!(claim.approved_amount, 0);
    assert!(c.get_farmer(id(1)).unwrap().has_active_claim);
    // The whole pool can be paid out.
    c.approve_and_disburse(id(50), 100).unwrap();
    assert_eq!(c.get_pool_balance(), 0);
}

#[test]
fn approved_claim_is_final() {
    let mut c = funded(100);
    c.file_claim(id(1), id(50), 60, id(60)).unwrap();
    c.approve_and_disburse(id(50), 60).unwrap();
    assert_eq!(c.approve_and_disburse(id(50), 10), Err(Error::ClaimAlreadyResolved));
    assert_eq!(c.reject_claim(id(50)), Err(Error::ClaimAlreadyResolved));
    assert_eq!(c.get_pool_balance(), 40);
    assert_eq!(c.get_claim(id(50)).unwrap().status, STATUS_APPROVED);
}

#[test]
fn rejected_claim_is_final() {
    let mut c = funded(100);
    c.file_claim(id(1), id(50), 60, id(60)).unwrap();
    let e = c.reject_claim(id(50)).unwrap();
    assert_eq!(e, Event::Rejected { claim_id: id(50) });
    let claim = c.get_claim(id(50)).unwrap();
    assert_eq!(claim.status, STATUS_REJECTED);
    assert_eq!(claim.approved_amount, 0);
    assert_eq!(c.approve_and_disburse(id(50), 10), Err(Error::ClaimAlreadyResolved));
    assert_eq!(c.reject_claim(id(50)), Err(Error::ClaimAlreadyResolved));
    assert_eq!(c.get_pool_balance(), 100);
}

#[test]
fn approval_frees_the_farmer_for_next_season() {
    let mut c = funded(100);
    c.file_claim(id(1), id(50), 60, id(60)).unwrap();
    c.approve_and_disburse(id(50), 30).unwrap();
    assert!(!c.get_farmer(id(1)).unwrap().has_active_claim);
    c.file_claim(id(1), id(51), 20, id(61)).unwrap();
    assert!(c.get_farmer(id(1)).unwrap().has_active_claim);
}

#[test]
fn rejection_frees_the_farmer() {
    let mut c = funded(100);
    c.file_claim(id(1), id(50), 60, id(60)).unwrap();
    c.reject_claim(id(50)).unwrap();
    assert!(!c.get_farmer(id(1)).unwrap().has_active_claim);
    c.file_claim(id(1), id(51), 20, id(61)).unwrap();
}

#[test]
fn farmers_are_independent() {
    let mut c = funded(100);
    c.file_claim(id(1), id(50), 60, id(60)).unwrap();
    c.file_claim(id(2), id(51), 20, id(61)).unwrap();
    assert_eq!(c.file_claim(id(2), id(52), 5, id(62)), Err(Error::ActiveClaimExists));
    c.reject_claim(id(50)).unwrap();
    assert!(c.get_farmer(id(2)).unwrap().has_active_claim);
}

#[test]
fn disbursement_pays_the_claimants_wallet() {
    let mut c = funded(100);
    c.file_claim(id(2), id(50), 60, id(60)).unwrap();
    let e = c.approve_and_disburse(id(50), 25).unwrap();
    assert_eq!(e, Event::Disbursed { claim_id: id(50), wallet: wallet(2), amount: 25 });
}

#[test]
fn a_claim_id_in_use_is_refused() {
    let mut c = funded(100);
    c.file_claim(id(1), id(50), 60, id(60)).unwrap();
    let before = c.get_claim(id(50)).unwrap();
    // Another farmer cannot take over a pending claim's id.
    assert_eq!(c.file_claim(id(2), id(50), 70, id(61)), Err(Error::ClaimAlreadyExists));
    assert_eq!(c.get_claim(id(50)).unwrap(), before);
    assert!(!c.get_farmer(id(2)).unwrap().has_active_claim);
    // Rejection frees farmer 1, who then files again under a new id.
    c.reject_claim(id(50)).unwrap();
    c.file_claim(id(1), id(51), 10, id(62)).unwrap();
}

#[test]
fn a_resolved_claim_cannot_be_refiled() {
    let mut c = funded(100);
    c.file_claim(id(1), id(50), 60, id(60)).unwrap();
    c.approve_and_disburse(id(50), 60).unwrap();
    let approved = c.get_claim(id(50)).unwrap();
    assert_eq!(c.file_claim(id(1), id(50), 60, id(60)), Err(Error::ClaimAlreadyExists));
    assert_eq!(c.file_claim(id(2), id(50), 60, id(60)), Err(Error::ClaimAlreadyExists));
    assert_eq!(c.get_claim(id(50)).unwrap(), approved);
    assert_eq!(c.approve_and_disburse(id(50), 40), Err(Error::ClaimAlreadyResolved));
    assert_eq!(c.get_pool_balance(), 40);
}

#[test]
fn active_claim_is_reported_before_a_taken_id() {
    let mut c = funded(100);
    c.file_claim(id(1), id(50), 60, id(60)).unwrap();
    assert_eq!(c.file_claim(id(1), id(50), 1, id(60)), Err(Error::ActiveClaimExists));
    assert_eq!(c.file_claim(id(99), id(50), 1, id(60)), Err(Error::FarmerNotFound));
}

#[test]
fn required_signers() {
    let mut c = AniLigtasContract::new();
    let reg = Request::RegisterFarmer { farmer_id: id(1), wallet: wallet(1), cooperative_id: vec![] };
    assert_eq!(c.required_signer(&reg), None);
    assert_eq!(c.required_signer(&Request::Initialize { admin: wallet(0) }), Some(wallet(0)));
    c.initialize(wallet(0));
    assert_eq!(c.required_signer(&reg), Some(wallet(0)));
    assert_eq!(
        c.required_signer(&Request::ApproveAndDisburse { claim_id: id(50), approved_amount: 1 }),
        Some(wallet(0))
    );
    assert_eq!(c.required_signer(&Request::RejectClaim { claim_id: id(50) }), Some(wallet(0)));
    assert_eq!(
        c.required_signer(&Request::DepositToPool { donor: wallet(9), amount: 5 }),
        Some(wallet(9))
    );
    let file = Request::FileClaim { farmer_id: id(1), claim_id: id(50), loss_amount: 1, evidence_ref: vec![] };
    assert_eq!(c.required_signer(&file), None);
    c.register_farmer(id(1), wallet(1), vec![]).unwrap();
    assert_eq!(c.required_signer(&file), Some(wallet(1)));
}

#[test]
fn payout_overflow_is_detected() {
    let mut c = AniLigtasContract::new();
    c.initialize(wallet(0));
    c.deposit_to_pool(wallet(9), i128::MAX).unwrap();
    c.register_farmer(id(1), wallet(1), b"C".to_vec()).unwrap();
    c.file_claim(id(1), id(50), 1, id(60)).unwrap();
    assert!(c.payout_overflows(&id(50), -1));
    assert!(!c.payout_overflows(&id(50), 0));
    assert!(!c.payout_overflows(&id(51), -1));
    c.approve_and_disburse(id(50), 0).unwrap();
    assert!(!c.payout_overflows(&id(50), -1));
}

#[test]
fn error_codes_match_the_contract_spec() {
    assert_eq!(Error::FarmerAlreadyRegistered.code(), 1);
    assert_eq!(Error::Unauthorised.code(), 2);
    assert_eq!(Error::FarmerNotFound.code(), 3);
    assert_eq!(Error::ClaimNotFound.code(), 4);
    assert_eq!(Error::ActiveClaimExists.code(), 5);
    assert_eq!(Error::InsufficientPoolFunds.code(), 6);
    assert_eq!(Error::ClaimAlreadyResolved.code(), 7);
    assert_eq!(Error::ClaimAlreadyExists.code(), 8);
}

#[test]
fn state_survives_being_taken_apart_and_rebuilt() {
    let mut c = funded(100);
    c.file_claim(id(1), id(50), 60, id(60)).unwrap();
    let mut farmers: Table<FarmerRecord> = Table::new();
    for i in 0..c.farmers().len() {
        let (k, v) = c.farmers().entry(i);
        farmers.insert(k.clone(), v.clone());
    }
    let mut claims: Table<ClaimRecord> = Table::new();
    for i in 0..c.claims().len() {
        let (k, v) = c.claims().entry(i);
        claims.insert(k.clone(), v.clone());
    }
    let mut d = AniLigtasContract::from_parts(c.admin().cloned(), c.get_pool_balance(), farmers, claims);
    assert_eq!(d.get_pool_balance(), 100);
    assert_eq!(d.get_claim(id(50)), c.get_claim(id(50)));
    assert_eq!(d.file_claim(id(1), id(51), 1, id(61)), Err(Error::ActiveClaimExists));
    d.approve_and_disburse(id(50), 60).unwrap();
    assert_eq!(d.get_pool_balance(), 40);
}

#[test]
fn table_insert_get_and_replace() {
    let mut t: Table<ClaimRecord> = Table::new();
    assert_eq!(t.len(), 0);
    let rec = |loss: i128| ClaimRecord {
        farmer_id: id(1),
        loss_amount: loss,
        approved_amount: 0,
        status: 0,
        evidence_ref: vec![],
    };
    t.insert(id(5), rec(1));
    t.insert(id(6), rec(2));
    assert_eq!(t.len(), 2);
    assert!(t.contains(&id(5)));
    assert!(!t.contains(&id(7)));
    t.insert(id(5), rec(3));
    assert_eq!(t.len(), 2);
    assert_eq!(t.get(&id(5)).unwrap().loss_amount, 3);
    assert_eq!(t.get(&id(6)).unwrap().loss_amount, 2);
    assert!(t.get(&id(7)).is_none());
    let (k, v) = t.entry(1);
    assert_eq!(k, &id(6));
    assert_eq!(v.loss_amount, 2);
}

#[test]
fn byte_helpers() {
    assert!(bytes_eq(&vec![1, 2, 3], &vec![1, 2, 3]));
    assert!(!bytes_eq(&vec![1, 2, 3], &vec![1, 2, 4]));
    assert!(!bytes_eq(&vec![1, 2], &vec![1, 2, 3]));
    assert!(bytes_eq(&vec![], &vec![]));
    assert_eq!(copy_bytes(&vec![9, 8, 7]), vec![9, 8, 7]);
}
