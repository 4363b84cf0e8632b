//! The records the contract keeps, its errors, and the events it reports.

use vstd::prelude::*;

use crate::bytes::copy_bytes;
use crate::model::RequestView;

verus! {

/// Claim status: filed and awaiting the board's decision.
pub const STATUS_PENDING: u32 = 0;

/// Claim status: approved and paid out.
pub const STATUS_APPROVED: u32 = 1;

/// Claim status: rejected by the board.
pub const STATUS_REJECTED: u32 = 2;

/// A registered cooperative member (farmer).
#[derive(Debug, PartialEq, Eq)]
pub struct FarmerRecord {
    /// The farmer's wallet address, as bytes.
    pub wallet: Vec<u8>,
    /// Cooperative the farmer belongs to (e.g. b"IFUGAO-COOP-01").
    pub cooperative_id: Vec<u8>,
    /// Whether this farmer has an active (unresolved) claim.
    pub has_active_claim: bool,
}

/// The mathematical value of a `FarmerRecord`.
pub struct FarmerView {
    pub wallet: Seq<u8>,
    pub cooperative_id: Seq<u8>,
    pub has_active_claim: bool,
}

impl View for FarmerRecord {
    type V = FarmerView;

    open spec fn view(&self) -> FarmerView {
        FarmerView {
            wallet: self.wallet@,
            cooperative_id: self.cooperative_id@,
            has_active_claim: self.has_active_claim,
        }
    }
}

impl Clone for FarmerRecord {
    fn clone(&self) -> (r: Self)
        ensures
            r@ == self@,
    {
        FarmerRecord {
            wallet: copy_bytes(&self.wallet),
            cooperative_id: copy_bytes(&self.cooperative_id),
            has_active_claim: self.has_active_claim,
        }
    }
}

/// A crop-loss disaster relief claim.
#[derive(Debug, PartialEq, Eq)]
pub struct ClaimRecord {
    /// The farmer who filed the claim.
    pub farmer_id: Vec<u8>,
    /// Declared loss in token units (e.g. 50_000_000 = $50 USDC).
    pub loss_amount: i128,
    /// Approved payout; 0 until the claim is approved.
    pub approved_amount: i128,
    /// 0 = pending, 1 = approved, 2 = rejected.
    pub status: u32,
    /// IPFS hash or other reference to the evidence.
    pub evidence_ref: Vec<u8>,
}

/// The mathematical value of a `ClaimRecord`.
pub struct ClaimView {
    pub farmer_id: Seq<u8>,
    pub loss_amount: i128,
    pub approved_amount: i128,
    pub status: u32,
    pub evidence_ref: Seq<u8>,
}

impl ClaimView {
    /// The claim still awaits a decision.
    pub open spec fn is_pending(self) -> bool {
        self.status == STATUS_PENDING
    }
}

impl View for ClaimRecord {
    type V = ClaimView;

    open spec fn view(&self) -> ClaimView {
        ClaimView {
            farmer_id: self.farmer_id@,
            loss_amount: self.loss_amount,
            approved_amount: self.approved_amount,
            status: self.status,
            evidence_ref: self.evidence_ref@,
        }
    }
}

impl Clone for ClaimRecord {
    fn clone(&self) -> (r: Self)
        ensures
            r@ == self@,
    {
        ClaimRecord {
            farmer_id: copy_bytes(&self.farmer_id),
            loss_amount: self.loss_amount,
            approved_amount: self.approved_amount,
            status: self.status,
            evidence_ref: copy_bytes(&self.evidence_ref),
        }
    }
}

/// Why a request was refused.
#[derive(Clone, Copy, Debug, PartialEq, Eq, Structural)]
pub enum Error {
    /// Farmer ID is already registered in this cooperative.
    FarmerAlreadyRegistered,
    /// Caller is not the authorised admin / cooperative board.
    Unauthorised,
    /// Farmer ID not found.
    FarmerNotFound,
    /// Claim ID not found.
    ClaimNotFound,
    /// Farmer already has an active open claim.
    ActiveClaimExists,
    /// The pool cannot pay the approved amount.
    InsufficientPoolFunds,
    /// Claim was already approved or rejected.
    ClaimAlreadyResolved,
    /// A claim is already stored under this claim id.
    ClaimAlreadyExists,
}

impl Error {
    /// The numeric error code that the contract reports for each error.
    pub open spec fn spec_code(self) -> u32 {
        match self {
            Error::FarmerAlreadyRegistered => 1,
            Error::Unauthorised => 2,
            Error::FarmerNotFound => 3,
            Error::ClaimNotFound => 4,
            Error::ActiveClaimExists => 5,
            Error::InsufficientPoolFunds => 6,
            Error::ClaimAlreadyResolved => 7,
            Error::ClaimAlreadyExists => 8,
        }
    }

    /// The numeric error code of this error.
    pub fn code(&self) -> (r: u32)
        ensures
            r == self.spec_code(),
    {
        match self {
            Error::FarmerAlreadyRegistered => 1,
            Error::Unauthorised => 2,
            Error::FarmerNotFound => 3,
            Error::ClaimNotFound => 4,
            Error::ActiveClaimExists => 5,
            Error::InsufficientPoolFunds => 6,
            Error::ClaimAlreadyResolved => 7,
            Error::ClaimAlreadyExists => 8,
        }
    }
}

/// What a successful request reports, for the off-chain dashboards; a
/// disbursement also names the payout that has to be transferred.
#[derive(Debug, PartialEq, Eq)]
pub enum Event {
    /// A farmer was enrolled.
    Enrolled { farmer_id: Vec<u8>, wallet: Vec<u8> },
    /// A donor added funds to the pool.
    Deposited { donor: Vec<u8>, amount: i128 },
    /// A claim was filed.
    ClaimFiled { claim_id: Vec<u8>, farmer_id: Vec<u8>, loss_amount: i128 },
    /// A claim was approved: `amount` goes to `wallet`.
    Disbursed { claim_id: Vec<u8>, wallet: Vec<u8>, amount: i128 },
    /// A claim was rejected.
    Rejected { claim_id: Vec<u8> },
}

/// The mathematical value of an `Event`.
pub enum EventView {
    Enrolled { farmer_id: Seq<u8>, wallet: Seq<u8> },
    Deposited { donor: Seq<u8>, amount: i128 },
    ClaimFiled { claim_id: Seq<u8>, farmer_id: Seq<u8>, loss_amount: i128 },
    Disbursed { claim_id: Seq<u8>, wallet: Seq<u8>, amount: i128 },
    Rejected { claim_id: Seq<u8> },
}

impl View for Event {
    type V = EventView;

    open spec fn view(&self) -> EventView {
        match self {
            Event::Enrolled { farmer_id, wallet } => EventView::Enrolled {
                farmer_id: farmer_id@,
                wallet: wallet@,
            },
            Event::Deposited { donor, amount } => EventView::Deposited {
                donor: donor@,
                amount: *amount,
            },
            Event::ClaimFiled { claim_id, farmer_id, loss_amount } => EventView::ClaimFiled {
                claim_id: claim_id@,
                farmer_id: farmer_id@,
                loss_amount: *loss_amount,
            },
            Event::Disbursed { claim_id, wallet, amount } => EventView::Disbursed {
                claim_id: claim_id@,
                wallet: wallet@,
                amount: *amount,
            },
            Event::Rejected { claim_id } => EventView::Rejected { claim_id: claim_id@ },
        }
    }
}

/// A request to the contract, with its arguments (the parameters of the
/// entry point of the same name).
#[derive(Debug, PartialEq, Eq)]
pub enum Request {
    Initialize { admin: Vec<u8> },
    RegisterFarmer { farmer_id: Vec<u8>, wallet: Vec<u8>, cooperative_id: Vec<u8> },
    DepositToPool { donor: Vec<u8>, amount: i128 },
    FileClaim { farmer_id: Vec<u8>, claim_id: Vec<u8>, loss_amount: i128, evidence_ref: Vec<u8> },
    ApproveAndDisburse { claim_id: Vec<u8>, approved_amount: i128 },
    RejectClaim { claim_id: Vec<u8> },
}

impl View for Request {
    type V = RequestView;

    open spec fn view(&self) -> RequestView {
        match self {
            Request::Initialize { admin } => RequestView::Initialize { admin: admin@ },
            Request::RegisterFarmer { farmer_id, wallet, cooperative_id } => RequestView::RegisterFarmer {
                farmer_id: farmer_id@,
                wallet: wallet@,
                cooperative_id: cooperative_id@,
            },
            Request::DepositToPool { donor, amount } => RequestView::DepositToPool {
                donor: donor@,
                amount: *amount,
            },
            Request::FileClaim { farmer_id, claim_id, loss_amount, evidence_ref } => RequestView::FileClaim {
                farmer_id: farmer_id@,
                claim_id: claim_id@,
                loss_amount: *loss_amount,
                evidence_ref: evidence_ref@,
            },
            Request::ApproveAndDisburse { claim_id, approved_amount } => RequestView::ApproveAndDisburse {
                claim_id: claim_id@,
                approved_amount: *approved_amount,
            },
            Request::RejectClaim { claim_id } => RequestView::RejectClaim { claim_id: claim_id@ },
        }
    }
}

} // verus!
