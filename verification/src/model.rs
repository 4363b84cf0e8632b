//! The mathematical model of the contract: its stored state and what each
//! request does to it.
//!
//! A refused request (an `Err`) leaves the state unchanged: the ledger rolls
//! the whole invocation back.

use vstd::prelude::*;

use crate::records::{ClaimView, Error, FarmerView, STATUS_APPROVED, STATUS_PENDING, STATUS_REJECTED};

verus! {

/// Everything the contract keeps in storage.
#[verifier::ext_equal]
pub struct CoopState {
    /// The cooperative board's wallet, once initialised.
    pub admin: Option<Seq<u8>>,
    /// Funds held in the community relief pool.
    pub pool_balance: int,
    /// Registered farmers by farmer id.
    pub farmers: Map<Seq<u8>, FarmerView>,
    /// Filed claims by claim id.
    pub claims: Map<Seq<u8>, ClaimView>,
}

/// A freshly filed claim.
pub open spec fn pending_claim(farmer_id: Seq<u8>, loss_amount: i128, evidence_ref: Seq<u8>) -> ClaimView {
    ClaimView {
        farmer_id,
        loss_amount,
        approved_amount: 0,
        status: STATUS_PENDING,
        evidence_ref,
    }
}

impl FarmerView {
    /// The same farmer with the active-claim flag set to `flag`.
    pub open spec fn with_active_claim(self, flag: bool) -> FarmerView {
        FarmerView { has_active_claim: flag, ..self }
    }
}

impl CoopState {
    /// The state of a contract that has just been deployed.
    pub open spec fn empty() -> CoopState {
        CoopState {
            admin: None,
            pool_balance: 0,
            farmers: Map::empty(),
            claims: Map::empty(),
        }
    }

    /// `farmer_id` has a pending claim.
    pub open spec fn has_pending_claim(self, farmer_id: Seq<u8>) -> bool {
        exists|c: Seq<u8>| #[trigger]
            self.claims.contains_key(c) && self.claims[c].is_pending() && self.claims[c].farmer_id
                == farmer_id
    }

    /// The consistency the contract keeps between farmers and claims:
    /// every claim belongs to a registered farmer, a farmer is flagged as
    /// having an active claim exactly when it has a pending claim, and no
    /// farmer has two pending claims.
    pub open spec fn valid(self) -> bool {
        &&& forall|c: Seq<u8>| #[trigger]
            self.claims.contains_key(c) ==> self.farmers.contains_key(self.claims[c].farmer_id)
        &&& forall|c: Seq<u8>| #[trigger]
            self.claims.contains_key(c) && self.claims[c].is_pending()
                ==> self.farmers[self.claims[c].farmer_id].has_active_claim
        &&& forall|c1: Seq<u8>, c2: Seq<u8>|
            #[trigger] self.claims.contains_key(c1) && #[trigger] self.claims.contains_key(c2)
                && c1 != c2 && self.claims[c1].is_pending() && self.claims[c2].is_pending()
                ==> self.claims[c1].farmer_id != self.claims[c2].farmer_id
        &&& forall|f: Seq<u8>|
            self.farmers.contains_key(f) && #[trigger] self.farmers[f].has_active_claim
                ==> self.has_pending_claim(f)
    }

    /// `initialize`: record the admin and start the pool at zero.
    pub open spec fn initialize(self, admin: Seq<u8>) -> CoopState {
        CoopState { admin: Some(admin), pool_balance: 0, ..self }
    }

    /// `register_farmer`: enrol a new farmer with no active claim.
    pub open spec fn register_farmer(
        self,
        farmer_id: Seq<u8>,
        wallet: Seq<u8>,
        cooperative_id: Seq<u8>,
    ) -> Result<CoopState, Error> {
        if self.farmers.contains_key(farmer_id) {
            Err(Error::FarmerAlreadyRegistered)
        } else {
            Ok(
                CoopState {
                    farmers: self.farmers.insert(
                        farmer_id,
                        FarmerView { wallet, cooperative_id, has_active_claim: false },
                    ),
                    ..self
                },
            )
        }
    }

    /// `deposit_to_pool`: the pool grows by the deposited amount.
    pub open spec fn deposit_to_pool(self, amount: int) -> CoopState {
        CoopState { pool_balance: self.pool_balance + amount, ..self }
    }

    /// `file_claim`: a registered farmer without an active claim files a
    /// pending claim under an unused `claim_id` and becomes flagged.
    pub open spec fn file_claim(
        self,
        farmer_id: Seq<u8>,
        claim_id: Seq<u8>,
        loss_amount: i128,
        evidence_ref: Seq<u8>,
    ) -> Result<CoopState, Error> {
        if !self.farmers.contains_key(farmer_id) {
            Err(Error::FarmerNotFound)
        } else if self.farmers[farmer_id].has_active_claim {
            Err(Error::ActiveClaimExists)
        } else if self.claims.contains_key(claim_id) {
            Err(Error::ClaimAlreadyExists)
        } else {
            Ok(
                CoopState {
                    claims: self.claims.insert(
                        claim_id,
                        pending_claim(farmer_id, loss_amount, evidence_ref),
                    ),
                    farmers: self.farmers.insert(
                        farmer_id,
                        self.farmers[farmer_id].with_active_claim(true),
                    ),
                    ..self
                },
            )
        }
    }

    /// Whether approving `claim_id` for `amount` gets as far as the payout:
    /// the claim exists and is pending, the pool covers the amount and the
    /// claim's farmer is registered.
    pub open spec fn reaches_payout(self, claim_id: Seq<u8>, amount: i128) -> bool {
        &&& self.claims.contains_key(claim_id)
        &&& self.claims[claim_id].is_pending()
        &&& amount <= self.pool_balance
        &&& self.farmers.contains_key(self.claims[claim_id].farmer_id)
    }

    /// `approve_and_disburse`: a pending claim is approved for `amount`,
    /// the pool pays it, and the farmer may file again.
    pub open spec fn approve_and_disburse(self, claim_id: Seq<u8>, amount: i128) -> Result<
        CoopState,
        Error,
    > {
        if !self.claims.contains_key(claim_id) {
            Err(Error::ClaimNotFound)
        } else if !self.claims[claim_id].is_pending() {
            Err(Error::ClaimAlreadyResolved)
        } else if self.pool_balance < amount {
            Err(Error::InsufficientPoolFunds)
        } else if !self.farmers.contains_key(self.claims[claim_id].farmer_id) {
            Err(Error::FarmerNotFound)
        } else {
            let claim = self.claims[claim_id];
            Ok(
                CoopState {
                    claims: self.claims.insert(
                        claim_id,
                        ClaimView { approved_amount: amount, status: STATUS_APPROVED, ..claim },
                    ),
                    pool_balance: self.pool_balance - amount,
                    farmers: self.farmers.insert(
                        claim.farmer_id,
                        self.farmers[claim.farmer_id].with_active_claim(false),
                    ),
                    ..self
                },
            )
        }
    }

    /// The wallet that an approval of `claim_id` pays.
    pub open spec fn payout_wallet(self, claim_id: Seq<u8>) -> Seq<u8> {
        self.farmers[self.claims[claim_id].farmer_id].wallet
    }

    /// `reject_claim`: a pending claim is rejected and the farmer may file
    /// again.
    pub open spec fn reject_claim(self, claim_id: Seq<u8>) -> Result<CoopState, Error> {
        if !self.claims.contains_key(claim_id) {
            Err(Error::ClaimNotFound)
        } else if !self.claims[claim_id].is_pending() {
            Err(Error::ClaimAlreadyResolved)
        } else if !self.farmers.contains_key(self.claims[claim_id].farmer_id) {
            Err(Error::FarmerNotFound)
        } else {
            let claim = self.claims[claim_id];
            Ok(
                CoopState {
                    claims: self.claims.insert(
                        claim_id,
                        ClaimView { status: STATUS_REJECTED, ..claim },
                    ),
                    farmers: self.farmers.insert(
                        claim.farmer_id,
                        self.farmers[claim.farmer_id].with_active_claim(false),
                    ),
                    ..self
                },
            )
        }
    }
}

/// A request to the contract, with its arguments.
pub enum RequestView {
    Initialize { admin: Seq<u8> },
    RegisterFarmer { farmer_id: Seq<u8>, wallet: Seq<u8>, cooperative_id: Seq<u8> },
    DepositToPool { donor: Seq<u8>, amount: i128 },
    FileClaim { farmer_id: Seq<u8>, claim_id: Seq<u8>, loss_amount: i128, evidence_ref: Seq<u8> },
    ApproveAndDisburse { claim_id: Seq<u8>, approved_amount: i128 },
    RejectClaim { claim_id: Seq<u8> },
}

impl CoopState {
    /// The state after `req`; a refused request leaves the state as it was.
    pub open spec fn step(self, req: RequestView) -> CoopState {
        let outcome = match req {
            RequestView::Initialize { admin } => Ok(self.initialize(admin)),
            RequestView::RegisterFarmer { farmer_id, wallet, cooperative_id } => self.register_farmer(
                farmer_id,
                wallet,
                cooperative_id,
            ),
            RequestView::DepositToPool { donor, amount } => Ok(self.deposit_to_pool(amount as int)),
            RequestView::FileClaim { farmer_id, claim_id, loss_amount, evidence_ref } => self.file_claim(
                farmer_id,
                claim_id,
                loss_amount,
                evidence_ref,
            ),
            RequestView::ApproveAndDisburse { claim_id, approved_amount } => self.approve_and_disburse(
                claim_id,
                approved_amount,
            ),
            RequestView::RejectClaim { claim_id } => self.reject_claim(claim_id),
        };
        match outcome {
            Ok(t) => t,
            Err(_) => self,
        }
    }

    /// The state after the requests `reqs`, in order.
    pub open spec fn run(self, reqs: Seq<RequestView>) -> CoopState
        decreases reqs.len(),
    {
        if reqs.len() == 0 {
            self
        } else {
            self.run(reqs.drop_last()).step(reqs.last())
        }
    }

    /// Whose authorisation a request needs before the contract acts on it:
    /// the new admin for initialisation, the stored admin (the cooperative
    /// board) for enrolment, approval and rejection, the donor for a
    /// deposit, and the farmer's own wallet for filing a claim. `None` where
    /// nobody is asked: a claim by an unregistered farmer is refused first,
    /// and the board's requests need an initialised contract.
    pub open spec fn required_signer(self, req: RequestView) -> Option<Seq<u8>> {
        match req {
            RequestView::Initialize { admin } => Some(admin),
            RequestView::RegisterFarmer { .. } => self.admin,
            RequestView::DepositToPool { donor, .. } => Some(donor),
            RequestView::FileClaim { farmer_id, .. } => if self.farmers.contains_key(farmer_id) {
                Some(self.farmers[farmer_id].wallet)
            } else {
                None
            },
            RequestView::ApproveAndDisburse { .. } => self.admin,
            RequestView::RejectClaim { .. } => self.admin,
        }
    }
}

} // verus!
