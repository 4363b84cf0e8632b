//! The contract's state and its entry points.
//!
//! Authorisation, token transfers, storage and event publication belong to
//! the host that runs the contract: each entry point here decides what
//! happens to the state and returns the event that the host publishes (a
//! disbursement event also names the transfer to make).

use vstd::prelude::*;

use crate::bytes::copy_bytes;
use crate::laws::{
    lemma_approve_keeps_valid, lemma_deposit_keeps_valid, lemma_file_claim_keeps_valid,
    lemma_initialize_keeps_valid, lemma_register_keeps_valid, lemma_reject_keeps_valid,
};
use crate::model::CoopState;
use crate::records::{
    ClaimRecord, Error, Event, EventView, FarmerRecord, FarmerView, Request, STATUS_APPROVED, STATUS_PENDING,
    STATUS_REJECTED,
};
use crate::table::Table;

verus! {

/// The AniLigtas community relief pool: the admin, the pool balance, the
/// registered farmers and the filed claims.
pub struct AniLigtasContract {
    admin: Option<Vec<u8>>,
    pool_balance: i128,
    farmers: Table<FarmerRecord>,
    claims: Table<ClaimRecord>,
}

impl View for AniLigtasContract {
    type V = CoopState;

    closed spec fn view(&self) -> CoopState {
        CoopState {
            admin: match self.admin {
                Some(a) => Some(a@),
                None => None,
            },
            pool_balance: self.pool_balance as int,
            farmers: self.farmers@,
            claims: self.claims@,
        }
    }
}

impl AniLigtasContract {
    /// The internal invariant of the two tables.
    pub closed spec fn wf(&self) -> bool {
        self.farmers.wf() && self.claims.wf()
    }

    /// A freshly deployed contract: no admin, an empty pool, no farmers and
    /// no claims.
    pub fn new() -> (r: Self)
        ensures
            r.wf(),
            r@ == CoopState::empty(),
            r@.valid(),
    {
        let r = AniLigtasContract {
            admin: None,
            pool_balance: 0,
            farmers: Table::new(),
            claims: Table::new(),
        };
        assert(r@ =~= CoopState::empty());
        r
    }

    /// Deploy-time setup: store the admin (cooperative board wallet) and
    /// start the pool at zero.
    pub fn initialize(&mut self, admin: Vec<u8>)
        requires
            old(self).wf(),
        ensures
            final(self).wf(),
            old(self)@.valid() ==> final(self)@.valid(),
            final(self)@ == old(self)@.initialize(admin@),
            final(self)@.admin == Some(admin@),
            final(self)@.pool_balance == 0,
            final(self)@.farmers == old(self)@.farmers,
            final(self)@.claims == old(self)@.claims,
    {
        proof {
            if old(self)@.valid() {
                lemma_initialize_keeps_valid(old(self)@, admin@);
            }
        }
        self.admin = Some(admin);
        self.pool_balance = 0;
        assert(self@ =~= old(self)@.initialize(admin@));
    }

    /// Enrol a farming household. A farmer id can be registered once.
    pub fn register_farmer(&mut self, farmer_id: Vec<u8>, wallet: Vec<u8>, cooperative_id: Vec<u8>) -> (r:
        Result<Event, Error>)
        requires
            old(self).wf(),
            old(self)@.admin is Some,
        ensures
            final(self).wf(),
            old(self)@.valid() ==> final(self)@.valid(),
            match old(self)@.register_farmer(farmer_id@, wallet@, cooperative_id@) {
                Ok(s) => final(self)@ == s && (r matches Ok(e) && e@ == (EventView::Enrolled {
                    farmer_id: farmer_id@,
                    wallet: wallet@,
                })),
                Err(e) => r == Err::<Event, Error>(e) && final(self)@ == old(self)@,
            },
            r is Ok <==> !old(self)@.farmers.contains_key(farmer_id@),
            r is Ok ==> final(self)@.farmers.contains_key(farmer_id@) && final(self)@.farmers[farmer_id@]
                == (FarmerView { wallet: wallet@, cooperative_id: cooperative_id@, has_active_claim: false }),
    {
        proof {
            if old(self)@.valid() {
                lemma_register_keeps_valid(old(self)@, farmer_id@, wallet@, cooperative_id@);
            }
        }
        if self.farmers.contains(&farmer_id) {
            return Err(Error::FarmerAlreadyRegistered);
        }
        let record = FarmerRecord {
            wallet: copy_bytes(&wallet),
            cooperative_id,
            has_active_claim: false,
        };
        self.farmers.insert(copy_bytes(&farmer_id), record);
        assert(self@ =~= old(self)@.register_farmer(farmer_id@, wallet@, cooperative_id@)->Ok_0);
        Ok(Event::Enrolled { farmer_id, wallet })
    }

    /// A donor's deposit into the pool (the transfer itself is made by the
    /// host beforehand).
    pub fn deposit_to_pool(&mut self, donor: Vec<u8>, amount: i128) -> (r: Result<Event, Error>)
        requires
            old(self).wf(),
            i128::MIN <= old(self)@.pool_balance + amount <= i128::MAX,
        ensures
            final(self).wf(),
            old(self)@.valid() ==> final(self)@.valid(),
            final(self)@ == old(self)@.deposit_to_pool(amount as int),
            r matches Ok(e) && e@ == (EventView::Deposited { donor: donor@, amount }),
    {
        proof {
            if old(self)@.valid() {
                lemma_deposit_keeps_valid(old(self)@, amount as int);
            }
        }
        self.pool_balance = self.pool_balance + amount;
        assert(self@ =~= old(self)@.deposit_to_pool(amount as int));
        Ok(Event::Deposited { donor, amount })
    }

    /// A registered farmer files a crop-loss claim under a claim id not yet
    /// in use. One active claim per farmer at a time.
    pub fn file_claim(
        &mut self,
        farmer_id: Vec<u8>,
        claim_id: Vec<u8>,
        loss_amount: i128,
        evidence_ref: Vec<u8>,
    ) -> (r: Result<Event, Error>)
        requires
            old(self).wf(),
        ensures
            final(self).wf(),
            old(self)@.valid() ==> final(self)@.valid(),
            match old(self)@.file_claim(farmer_id@, claim_id@, loss_amount, evidence_ref@) {
                Ok(s) => final(self)@ == s && (r matches Ok(e) && e@ == (EventView::ClaimFiled {
                    claim_id: claim_id@,
                    farmer_id: farmer_id@,
                    loss_amount,
                })),
                Err(e) => r == Err::<Event, Error>(e) && final(self)@ == old(self)@,
            },
            r is Ok <==> ({
                &&& old(self)@.farmers.contains_key(farmer_id@)
                &&& !old(self)@.farmers[farmer_id@].has_active_claim
                &&& !old(self)@.claims.contains_key(claim_id@)
            }),
            r is Ok ==> ({
                &&& final(self)@.claims.contains_key(claim_id@)
                &&& final(self)@.claims[claim_id@].farmer_id == farmer_id@
                &&& final(self)@.claims[claim_id@].loss_amount == loss_amount
                &&& final(self)@.claims[claim_id@].approved_amount == 0
                &&& final(self)@.claims[claim_id@].status == 0
                &&& final(self)@.claims[claim_id@].evidence_ref == evidence_ref@
                &&& final(self)@.farmers[farmer_id@].has_active_claim
            }),
    {
        proof {
            if old(self)@.valid() {
                lemma_file_claim_keeps_valid(old(self)@, farmer_id@, claim_id@, loss_amount, evidence_ref@);
            }
        }
        let flagged = match self.farmers.get(&farmer_id) {
            None => {
                return Err(Error::FarmerNotFound);
            },
            Some(farmer) => {
                if farmer.has_active_claim {
                    return Err(Error::ActiveClaimExists);
                }
                if self.claims.contains(&claim_id) {
                    return Err(Error::ClaimAlreadyExists);
                }
                FarmerRecord {
                    wallet: copy_bytes(&farmer.wallet),
                    cooperative_id: copy_bytes(&farmer.cooperative_id),
                    has_active_claim: true,
                }
            },
        };
        let claim = ClaimRecord {
            farmer_id: copy_bytes(&farmer_id),
            loss_amount,
            approved_amount: 0,
            status: STATUS_PENDING,
            evidence_ref: copy_bytes(&evidence_ref),
        };
        self.claims.insert(copy_bytes(&claim_id), claim);
        self.farmers.insert(copy_bytes(&farmer_id), flagged);
        assert(self@ =~= old(self)@.file_claim(
            farmer_id@,
            claim_id@,
            loss_amount,
            evidence_ref@,
        )->Ok_0);
        Ok(Event::ClaimFiled { claim_id, farmer_id, loss_amount })
    }

    /// Whether approving `claim_id` for `approved_amount` would get to the
    /// payout with a pool balance that cannot hold the result.
    pub fn payout_overflows(&self, claim_id: &Vec<u8>, approved_amount: i128) -> (r: bool)
        requires
            self.wf(),
        ensures
            r == (self@.reaches_payout(claim_id@, approved_amount) && self@.pool_balance
                - approved_amount > i128::MAX),
    {
        match self.claims.get(claim_id) {
            None => false,
            Some(claim) => {
                if claim.status != STATUS_PENDING || self.pool_balance < approved_amount {
                    false
                } else if !self.farmers.contains(&claim.farmer_id) {
                    false
                } else {
                    approved_amount < 0 && self.pool_balance > i128::MAX + approved_amount
                }
            },
        }
    }

    /// The board approves a pending claim and pays `approved_amount` from
    /// the pool to the farmer's wallet. An underfunded pool refuses the
    /// whole approval: no partial payouts.
    pub fn approve_and_disburse(&mut self, claim_id: Vec<u8>, approved_amount: i128) -> (r: Result<
        Event,
        Error,
    >)
        requires
            old(self).wf(),
            old(self)@.admin is Some,
            old(self)@.reaches_payout(claim_id@, approved_amount) ==> old(self)@.pool_balance
                - approved_amount <= i128::MAX,
        ensures
            final(self).wf(),
            old(self)@.valid() ==> final(self)@.valid(),
            match old(self)@.approve_and_disburse(claim_id@, approved_amount) {
                Ok(s) => final(self)@ == s && (r matches Ok(e) && e@ == (EventView::Disbursed {
                    claim_id: claim_id@,
                    wallet: old(self)@.payout_wallet(claim_id@),
                    amount: approved_amount,
                })),
                Err(e) => r == Err::<Event, Error>(e) && final(self)@ == old(self)@,
            },
            r matches Ok(e) ==> (e matches Event::Disbursed { claim_id: c, wallet, amount } && c@
                == claim_id@ && wallet@ == old(self)@.farmers[old(self)@.claims[claim_id@].farmer_id].wallet
                && amount == approved_amount),
            r is Ok <==> ({
                &&& old(self)@.claims.contains_key(claim_id@)
                &&& old(self)@.claims[claim_id@].status == 0
                &&& approved_amount <= old(self)@.pool_balance
                &&& old(self)@.farmers.contains_key(old(self)@.claims[claim_id@].farmer_id)
            }),
    {
        proof {
            if old(self)@.valid() {
                lemma_approve_keeps_valid(old(self)@, claim_id@, approved_amount);
            }
        }
        let approved = match self.claims.get(&claim_id) {
            None => {
                return Err(Error::ClaimNotFound);
            },
            Some(claim) => {
                if claim.status != STATUS_PENDING {
                    return Err(Error::ClaimAlreadyResolved);
                }
                ClaimRecord {
                    farmer_id: copy_bytes(&claim.farmer_id),
                    loss_amount: claim.loss_amount,
                    approved_amount,
                    status: STATUS_APPROVED,
                    evidence_ref: copy_bytes(&claim.evidence_ref),
                }
            },
        };
        let pool = self.pool_balance;
        if pool < approved_amount {
            return Err(Error::InsufficientPoolFunds);
        }
        let (released, wallet) = match self.farmers.get(&approved.farmer_id) {
            None => {
                return Err(Error::FarmerNotFound);
            },
            Some(farmer) => (
                FarmerRecord {
                    wallet: copy_bytes(&farmer.wallet),
                    cooperative_id: copy_bytes(&farmer.cooperative_id),
                    has_active_claim: false,
                },
                copy_bytes(&farmer.wallet),
            ),
        };
        let farmer_id = copy_bytes(&approved.farmer_id);
        self.claims.insert(copy_bytes(&claim_id), approved);
        self.pool_balance = pool - approved_amount;
        self.farmers.insert(farmer_id, released);
        assert(self@ =~= old(self)@.approve_and_disburse(claim_id@, approved_amount)->Ok_0);
        Ok(Event::Disbursed { claim_id, wallet, amount: approved_amount })
    }

    /// The board rejects a pending claim; the farmer may file again.
    pub fn reject_claim(&mut self, claim_id: Vec<u8>) -> (r: Result<Event, Error>)
        requires
            old(self).wf(),
            old(self)@.admin is Some,
        ensures
            final(self).wf(),
            old(self)@.valid() ==> final(self)@.valid(),
            match old(self)@.reject_claim(claim_id@) {
                Ok(s) => final(self)@ == s && (r matches Ok(e) && e@ == (EventView::Rejected {
                    claim_id: claim_id@,
                })),
                Err(e) => r == Err::<Event, Error>(e) && final(self)@ == old(self)@,
            },
            r is Ok <==> ({
                &&& old(self)@.claims.contains_key(claim_id@)
                &&& old(self)@.claims[claim_id@].status == 0
                &&& old(self)@.farmers.contains_key(old(self)@.claims[claim_id@].farmer_id)
            }),
            r is Ok ==> final(self)@.claims[claim_id@].status == 2 && final(self)@.pool_balance
                == old(self)@.pool_balance,
    {
        proof {
            if old(self)@.valid() {
                lemma_reject_keeps_valid(old(self)@, claim_id@);
            }
        }
        let rejected = match self.claims.get(&claim_id) {
            None => {
                return Err(Error::ClaimNotFound);
            },
            Some(claim) => {
                if claim.status != STATUS_PENDING {
                    return Err(Error::ClaimAlreadyResolved);
                }
                ClaimRecord {
                    farmer_id: copy_bytes(&claim.farmer_id),
                    loss_amount: claim.loss_amount,
                    approved_amount: claim.approved_amount,
                    status: STATUS_REJECTED,
                    evidence_ref: copy_bytes(&claim.evidence_ref),
                }
            },
        };
        let released = match self.farmers.get(&rejected.farmer_id) {
            None => {
                return Err(Error::FarmerNotFound);
            },
            Some(farmer) => FarmerRecord {
                wallet: copy_bytes(&farmer.wallet),
                cooperative_id: copy_bytes(&farmer.cooperative_id),
                has_active_claim: false,
            },
        };
        let farmer_id = copy_bytes(&rejected.farmer_id);
        self.claims.insert(copy_bytes(&claim_id), rejected);
        self.farmers.insert(farmer_id, released);
        assert(self@ =~= old(self)@.reject_claim(claim_id@)->Ok_0);
        Ok(Event::Rejected { claim_id })
    }

    /// The current balance of the community relief pool.
    pub fn get_pool_balance(&self) -> (r: i128)
        ensures
            r == self@.pool_balance,
    {
        self.pool_balance
    }

    /// The claim filed under `claim_id`.
    pub fn get_claim(&self, claim_id: Vec<u8>) -> (r: Result<ClaimRecord, Error>)
        requires
            self.wf(),
        ensures
            match r {
                Ok(c) => self@.claims.contains_key(claim_id@) && c@ == self@.claims[claim_id@],
                Err(e) => e == Error::ClaimNotFound && !self@.claims.contains_key(claim_id@),
            },
    {
        match self.claims.get(&claim_id) {
            Some(c) => Ok(c.clone()),
            None => Err(Error::ClaimNotFound),
        }
    }

    /// The farmer registered under `farmer_id`.
    pub fn get_farmer(&self, farmer_id: Vec<u8>) -> (r: Result<FarmerRecord, Error>)
        requires
            self.wf(),
        ensures
            match r {
                Ok(f) => self@.farmers.contains_key(farmer_id@) && f@ == self@.farmers[farmer_id@],
                Err(e) => e == Error::FarmerNotFound && !self@.farmers.contains_key(farmer_id@),
            },
    {
        match self.farmers.get(&farmer_id) {
            Some(f) => Ok(f.clone()),
            None => Err(Error::FarmerNotFound),
        }
    }

    /// The admin recorded at initialisation, if any.
    pub fn admin(&self) -> (r: Option<&Vec<u8>>)
        ensures
            match r {
                Some(a) => self@.admin == Some(a@),
                None => self@.admin is None,
            },
    {
        match &self.admin {
            Some(a) => Some(a),
            None => None,
        }
    }

    /// The registered farmers.
    pub fn farmers(&self) -> (r: &Table<FarmerRecord>)
        requires
            self.wf(),
        ensures
            r.wf(),
            r@ == self@.farmers,
    {
        &self.farmers
    }

    /// The filed claims.
    pub fn claims(&self) -> (r: &Table<ClaimRecord>)
        requires
            self.wf(),
        ensures
            r.wf(),
            r@ == self@.claims,
    {
        &self.claims
    }

    /// Rebuilds a contract from its stored parts.
    pub fn from_parts(
        admin: Option<Vec<u8>>,
        pool_balance: i128,
        farmers: Table<FarmerRecord>,
        claims: Table<ClaimRecord>,
    ) -> (r: Self)
        requires
            farmers.wf(),
            claims.wf(),
        ensures
            r.wf(),
            r@.admin == (match admin {
                Some(a) => Some(a@),
                None => None::<Seq<u8>>,
            }),
            r@.pool_balance == pool_balance,
            r@.farmers == farmers@,
            r@.claims == claims@,
    {
        AniLigtasContract { admin, pool_balance, farmers, claims }
    }

    /// The pool balance always fits an `i128`.
    pub proof fn lemma_pool_fits(&self)
        ensures
            i128::MIN <= self@.pool_balance <= i128::MAX,
    {
    }

    /// Whose authorisation `req` needs before the contract acts on it (see
    /// `CoopState::required_signer`).
    pub fn required_signer(&self, req: &Request) -> (r: Option<Vec<u8>>)
        requires
            self.wf(),
        ensures
            match r {
                Some(w) => self@.required_signer(req@) == Some(w@),
                None => self@.required_signer(req@) is None,
            },
    {
        match req {
            Request::Initialize { admin } => Some(copy_bytes(admin)),
            Request::DepositToPool { donor, .. } => Some(copy_bytes(donor)),
            Request::FileClaim { farmer_id, .. } => match self.farmers.get(farmer_id) {
                Some(f) => Some(copy_bytes(&f.wallet)),
                None => None,
            },
            Request::RegisterFarmer { .. } | Request::ApproveAndDisburse { .. }
            | Request::RejectClaim { .. } => match &self.admin {
                Some(a) => Some(copy_bytes(a)),
                None => None,
            },
        }
    }
}

} // verus!
