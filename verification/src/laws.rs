//! What holds of the contract across requests, proved over the model that
//! the entry points' contracts speak of.

use vstd::prelude::*;

use crate::model::{pending_claim, CoopState, RequestView};
use crate::records::{Error, STATUS_APPROVED, STATUS_REJECTED};

verus! {

/// A freshly deployed contract is consistent.
pub proof fn lemma_empty_is_valid()
    ensures
        CoopState::empty().valid(),
{
}

/// Initialising (again) keeps the state consistent.
pub proof fn lemma_initialize_keeps_valid(s: CoopState, admin: Seq<u8>)
    requires
        s.valid(),
    ensures
        s.initialize(admin).valid(),
{
    let t = s.initialize(admin);
    assert(t.claims == s.claims && t.farmers == s.farmers);
    assert forall|f: Seq<u8>|
        t.farmers.contains_key(f) && #[trigger] t.farmers[f].has_active_claim implies t.has_pending_claim(
        f,
    ) by {
        let c = choose|c: Seq<u8>| #[trigger]
            s.claims.contains_key(c) && s.claims[c].is_pending() && s.claims[c].farmer_id == f;
        assert(t.claims.contains_key(c));
    }
}

/// A deposit keeps the state consistent.
pub proof fn lemma_deposit_keeps_valid(s: CoopState, amount: int)
    requires
        s.valid(),
    ensures
        s.deposit_to_pool(amount).valid(),
{
    let t = s.deposit_to_pool(amount);
    assert(t.claims == s.claims && t.farmers == s.farmers);
    assert forall|f: Seq<u8>|
        t.farmers.contains_key(f) && #[trigger] t.farmers[f].has_active_claim implies t.has_pending_claim(
        f,
    ) by {
        let c = choose|c: Seq<u8>| #[trigger]
            s.claims.contains_key(c) && s.claims[c].is_pending() && s.claims[c].farmer_id == f;
        assert(t.claims.contains_key(c));
    }
}

/// Registering a farmer keeps the state consistent.
pub proof fn lemma_register_keeps_valid(
    s: CoopState,
    farmer_id: Seq<u8>,
    wallet: Seq<u8>,
    cooperative_id: Seq<u8>,
)
    requires
        s.valid(),
    ensures
        s.register_farmer(farmer_id, wallet, cooperative_id) matches Ok(t) ==> t.valid(),
{
    if let Ok(t) = s.register_farmer(farmer_id, wallet, cooperative_id) {
        assert forall|c: Seq<u8>| #[trigger]
            t.claims.contains_key(c) && t.claims[c].is_pending() implies t.farmers[t.claims[
            c].farmer_id].has_active_claim by {
            assert(s.farmers.contains_key(s.claims[c].farmer_id));
            assert(s.claims[c].farmer_id != farmer_id);
        }
        assert forall|f: Seq<u8>|
            t.farmers.contains_key(f) && #[trigger] t.farmers[f].has_active_claim implies t.has_pending_claim(
            f,
        ) by {
            assert(f != farmer_id);
            assert(s.farmers.contains_key(f) && s.farmers[f].has_active_claim);
            let c = choose|c: Seq<u8>| #[trigger]
                s.claims.contains_key(c) && s.claims[c].is_pending() && s.claims[c].farmer_id == f;
            assert(t.claims.contains_key(c));
        }
    }
}

/// Filing a claim keeps the state consistent; in particular no farmer ends
/// up with two pending claims.
pub proof fn lemma_file_claim_keeps_valid(
    s: CoopState,
    farmer_id: Seq<u8>,
    claim_id: Seq<u8>,
    loss_amount: i128,
    evidence_ref: Seq<u8>,
)
    requires
        s.valid(),
    ensures
        s.file_claim(farmer_id, claim_id, loss_amount, evidence_ref) matches Ok(t) ==> t.valid(),
{
    if let Ok(t) = s.file_claim(farmer_id, claim_id, loss_amount, evidence_ref) {
        assert(!s.farmers[farmer_id].has_active_claim);
        assert(t.claims[claim_id] == pending_claim(farmer_id, loss_amount, evidence_ref));
        assert forall|c: Seq<u8>| #[trigger]
            t.claims.contains_key(c) implies t.farmers.contains_key(t.claims[c].farmer_id) by {
            if c != claim_id {
                assert(s.claims.contains_key(c));
            }
        }
        assert forall|c: Seq<u8>| #[trigger]
            t.claims.contains_key(c) && t.claims[c].is_pending() implies t.farmers[t.claims[
            c].farmer_id].has_active_claim by {
            if c != claim_id {
                assert(s.claims.contains_key(c) && s.claims[c].is_pending());
            }
        }
        assert forall|c1: Seq<u8>, c2: Seq<u8>|
            #[trigger] t.claims.contains_key(c1) && #[trigger] t.claims.contains_key(c2) && c1
                != c2 && t.claims[c1].is_pending() && t.claims[c2].is_pending() implies t.claims[
            c1].farmer_id != t.claims[c2].farmer_id by {
            if c1 == claim_id {
                assert(s.claims.contains_key(c2) && s.claims[c2].is_pending());
            } else if c2 == claim_id {
                assert(s.claims.contains_key(c1) && s.claims[c1].is_pending());
            } else {
                assert(s.claims.contains_key(c1) && s.claims.contains_key(c2));
            }
        }
        assert forall|g: Seq<u8>|
            t.farmers.contains_key(g) && #[trigger] t.farmers[g].has_active_claim implies t.has_pending_claim(
            g,
        ) by {
            if g == farmer_id {
                assert(t.claims.contains_key(claim_id));
            } else {
                assert(s.farmers.contains_key(g) && s.farmers[g].has_active_claim);
                let c = choose|c: Seq<u8>| #[trigger]
                    s.claims.contains_key(c) && s.claims[c].is_pending() && s.claims[c].farmer_id
                        == g;
                assert(c != claim_id);
                assert(t.claims.contains_key(c));
            }
        }
    }
}

/// Approving a claim keeps the state consistent.
pub proof fn lemma_approve_keeps_valid(s: CoopState, claim_id: Seq<u8>, amount: i128)
    requires
        s.valid(),
    ensures
        s.approve_and_disburse(claim_id, amount) matches Ok(t) ==> t.valid(),
{
    if let Ok(t) = s.approve_and_disburse(claim_id, amount) {
        let f = s.claims[claim_id].farmer_id;
        assert(s.claims.contains_key(claim_id) && s.claims[claim_id].is_pending());
        assert(t.claims[claim_id].status == STATUS_APPROVED);
        assert forall|c: Seq<u8>| #[trigger]
            t.claims.contains_key(c) implies t.farmers.contains_key(t.claims[c].farmer_id) by {
            if c != claim_id {
                assert(s.claims.contains_key(c));
            }
        }
        assert forall|c: Seq<u8>| #[trigger]
            t.claims.contains_key(c) && t.claims[c].is_pending() implies t.farmers[t.claims[
            c].farmer_id].has_active_claim by {
            assert(c != claim_id);
            assert(s.claims.contains_key(c) && s.claims[c].is_pending());
            assert(s.claims[c].farmer_id != f);
        }
        assert forall|c1: Seq<u8>, c2: Seq<u8>|
            #[trigger] t.claims.contains_key(c1) && #[trigger] t.claims.contains_key(c2) && c1
                != c2 && t.claims[c1].is_pending() && t.claims[c2].is_pending() implies t.claims[
            c1].farmer_id != t.claims[c2].farmer_id by {
            assert(c1 != claim_id && c2 != claim_id);
            assert(s.claims.contains_key(c1) && s.claims.contains_key(c2));
        }
        assert forall|g: Seq<u8>|
            t.farmers.contains_key(g) && #[trigger] t.farmers[g].has_active_claim implies t.has_pending_claim(
            g,
        ) by {
            assert(g != f);
            assert(s.farmers.contains_key(g) && s.farmers[g].has_active_claim);
            let c = choose|c: Seq<u8>| #[trigger]
                s.claims.contains_key(c) && s.claims[c].is_pending() && s.claims[c].farmer_id == g;
            assert(c != claim_id);
            assert(t.claims.contains_key(c));
        }
    }
}

/// Rejecting a claim keeps the state consistent.
pub proof fn lemma_reject_keeps_valid(s: CoopState, claim_id: Seq<u8>)
    requires
        s.valid(),
    ensures
        s.reject_claim(claim_id) matches Ok(t) ==> t.valid(),
{
    if let Ok(t) = s.reject_claim(claim_id) {
        let f = s.claims[claim_id].farmer_id;
        assert(s.claims.contains_key(claim_id) && s.claims[claim_id].is_pending());
        assert(t.claims[claim_id].status == STATUS_REJECTED);
        assert forall|c: Seq<u8>| #[trigger]
            t.claims.contains_key(c) implies t.farmers.contains_key(t.claims[c].farmer_id) by {
            if c != claim_id {
                assert(s.claims.contains_key(c));
            }
        }
        assert forall|c: Seq<u8>| #[trigger]
            t.claims.contains_key(c) && t.claims[c].is_pending() implies t.farmers[t.claims[
            c].farmer_id].has_active_claim by {
            assert(c != claim_id);
            assert(s.claims.contains_key(c) && s.claims[c].is_pending());
            assert(s.claims[c].farmer_id != f);
        }
        assert forall|c1: Seq<u8>, c2: Seq<u8>|
            #[trigger] t.claims.contains_key(c1) && #[trigger] t.claims.contains_key(c2) && c1
                != c2 && t.claims[c1].is_pending() && t.claims[c2].is_pending() implies t.claims[
            c1].farmer_id != t.claims[c2].farmer_id by {
            assert(c1 != claim_id && c2 != claim_id);
            assert(s.claims.contains_key(c1) && s.claims.contains_key(c2));
        }
        assert forall|g: Seq<u8>|
            t.farmers.contains_key(g) && #[trigger] t.farmers[g].has_active_claim implies t.has_pending_claim(
            g,
        ) by {
            assert(g != f);
            assert(s.farmers.contains_key(g) && s.farmers[g].has_active_claim);
            let c = choose|c: Seq<u8>| #[trigger]
                s.claims.contains_key(c) && s.claims[c].is_pending() && s.claims[c].farmer_id == g;
            assert(c != claim_id);
            assert(t.claims.contains_key(c));
        }
    }
}

/// No double filing: once a farmer's claim is filed, a second claim by the
/// same farmer is refused with `ActiveClaimExists` until the first is
/// resolved.
pub proof fn lemma_no_double_filing(
    s: CoopState,
    farmer_id: Seq<u8>,
    first_claim: Seq<u8>,
    first_loss: i128,
    first_evidence: Seq<u8>,
    second_claim: Seq<u8>,
    second_loss: i128,
    second_evidence: Seq<u8>,
)
    requires
        s.file_claim(farmer_id, first_claim, first_loss, first_evidence) is Ok,
    ensures
        s.file_claim(farmer_id, first_claim, first_loss, first_evidence)->Ok_0.file_claim(
            farmer_id,
            second_claim,
            second_loss,
            second_evidence,
        ) == Err::<CoopState, Error>(Error::ActiveClaimExists),
{
}

/// A filed claim reads back as pending, with the declared loss, nothing
/// approved yet and the evidence given; the farmer reads back as having an
/// active claim.
pub proof fn lemma_filed_claim_reads_back(
    s: CoopState,
    farmer_id: Seq<u8>,
    claim_id: Seq<u8>,
    loss_amount: i128,
    evidence_ref: Seq<u8>,
)
    requires
        s.file_claim(farmer_id, claim_id, loss_amount, evidence_ref) is Ok,
    ensures
        ({
            let t = s.file_claim(farmer_id, claim_id, loss_amount, evidence_ref)->Ok_0;
            &&& t.claims.contains_key(claim_id)
            &&& t.claims[claim_id] == pending_claim(farmer_id, loss_amount, evidence_ref)
            &&& t.farmers.contains_key(farmer_id)
            &&& t.farmers[farmer_id].has_active_claim
            &&& t.farmers[farmer_id].wallet == s.farmers[farmer_id].wallet
            &&& t.pool_balance == s.pool_balance
        }),
{
}

/// Approval pays out of the pool: the pool shrinks by exactly the approved
/// amount, never below zero, and the claim reads back as approved for that
/// amount.
pub proof fn lemma_approval_debits_pool(s: CoopState, claim_id: Seq<u8>, amount: i128)
    requires
        s.approve_and_disburse(claim_id, amount) is Ok,
    ensures
        ({
            let t = s.approve_and_disburse(claim_id, amount)->Ok_0;
            &&& t.pool_balance == s.pool_balance - amount
            &&& t.pool_balance >= 0
            &&& t.claims[claim_id].status == STATUS_APPROVED
            &&& t.claims[claim_id].approved_amount == amount
            &&& t.claims[claim_id].loss_amount == s.claims[claim_id].loss_amount
        }),
{
}

/// No partial payouts: a pending claim whose approved amount exceeds the
/// pool is refused with `InsufficientPoolFunds`.
pub proof fn lemma_no_partial_payout(s: CoopState, claim_id: Seq<u8>, amount: i128)
    requires
        s.claims.contains_key(claim_id),
        s.claims[claim_id].is_pending(),
        s.pool_balance < amount,
    ensures
        s.approve_and_disburse(claim_id, amount) == Err::<CoopState, Error>(
            Error::InsufficientPoolFunds,
        ),
{
}

/// A resolved claim cannot be changed by the board: approving or rejecting
/// it again is refused with `ClaimAlreadyResolved`.
pub proof fn lemma_resolved_claim_is_final(s: CoopState, claim_id: Seq<u8>, amount: i128)
    requires
        s.claims.contains_key(claim_id),
        !s.claims[claim_id].is_pending(),
    ensures
        s.approve_and_disburse(claim_id, amount) == Err::<CoopState, Error>(
            Error::ClaimAlreadyResolved,
        ),
        s.reject_claim(claim_id) == Err::<CoopState, Error>(Error::ClaimAlreadyResolved),
{
}

/// Once approved, a claim stays approved: a later rejection or a second
/// approval is refused.
pub proof fn lemma_approved_claim_stays_approved(
    s: CoopState,
    claim_id: Seq<u8>,
    amount: i128,
    second_amount: i128,
)
    requires
        s.approve_and_disburse(claim_id, amount) is Ok,
    ensures
        ({
            let t = s.approve_and_disburse(claim_id, amount)->Ok_0;
            &&& t.reject_claim(claim_id) == Err::<CoopState, Error>(Error::ClaimAlreadyResolved)
            &&& t.approve_and_disburse(claim_id, second_amount) == Err::<CoopState, Error>(
                Error::ClaimAlreadyResolved,
            )
        }),
{
    let t = s.approve_and_disburse(claim_id, amount)->Ok_0;
    lemma_resolved_claim_is_final(t, claim_id, second_amount);
}

/// Once rejected, a claim stays rejected: a later approval or a second
/// rejection is refused.
pub proof fn lemma_rejected_claim_stays_rejected(s: CoopState, claim_id: Seq<u8>, amount: i128)
    requires
        s.reject_claim(claim_id) is Ok,
    ensures
        ({
            let t = s.reject_claim(claim_id)->Ok_0;
            &&& t.approve_and_disburse(claim_id, amount) == Err::<CoopState, Error>(
                Error::ClaimAlreadyResolved,
            )
            &&& t.reject_claim(claim_id) == Err::<CoopState, Error>(Error::ClaimAlreadyResolved)
        }),
{
    let t = s.reject_claim(claim_id)->Ok_0;
    lemma_resolved_claim_is_final(t, claim_id, amount);
}

/// Approval frees the farmer: once a pending claim is approved, its farmer
/// has no active claim and no pending claim left, and can file a new claim
/// (next season) under any claim id not yet in use.
pub proof fn lemma_approval_frees_farmer(
    s: CoopState,
    claim_id: Seq<u8>,
    amount: i128,
    next_claim: Seq<u8>,
    next_loss: i128,
    next_evidence: Seq<u8>,
)
    requires
        s.valid(),
        s.approve_and_disburse(claim_id, amount) is Ok,
    ensures
        ({
            let f = s.claims[claim_id].farmer_id;
            let t = s.approve_and_disburse(claim_id, amount)->Ok_0;
            &&& !t.farmers[f].has_active_claim
            &&& !t.has_pending_claim(f)
            &&& !t.claims.contains_key(next_claim) ==> t.file_claim(
                f,
                next_claim,
                next_loss,
                next_evidence,
            ) is Ok
        }),
{
    let f = s.claims[claim_id].farmer_id;
    let t = s.approve_and_disburse(claim_id, amount)->Ok_0;
    lemma_approve_keeps_valid(s, claim_id, amount);
    if t.has_pending_claim(f) {
        let c = choose|c: Seq<u8>| #[trigger]
            t.claims.contains_key(c) && t.claims[c].is_pending() && t.claims[c].farmer_id == f;
        assert(c != claim_id);
        assert(s.claims.contains_key(c) && s.claims.contains_key(claim_id));
    }
}

/// Rejection frees the farmer: once a pending claim is rejected, its farmer
/// has no active claim and no pending claim left, and can file a corrected
/// claim under any claim id not yet in use.
pub proof fn lemma_rejection_frees_farmer(
    s: CoopState,
    claim_id: Seq<u8>,
    next_claim: Seq<u8>,
    next_loss: i128,
    next_evidence: Seq<u8>,
)
    requires
        s.valid(),
        s.reject_claim(claim_id) is Ok,
    ensures
        ({
            let f = s.claims[claim_id].farmer_id;
            let t = s.reject_claim(claim_id)->Ok_0;
            &&& !t.farmers[f].has_active_claim
            &&& !t.has_pending_claim(f)
            &&& !t.claims.contains_key(next_claim) ==> t.file_claim(
                f,
                next_claim,
                next_loss,
                next_evidence,
            ) is Ok
        }),
{
    let f = s.claims[claim_id].farmer_id;
    let t = s.reject_claim(claim_id)->Ok_0;
    lemma_reject_keeps_valid(s, claim_id);
    if t.has_pending_claim(f) {
        let c = choose|c: Seq<u8>| #[trigger]
            t.claims.contains_key(c) && t.claims[c].is_pending() && t.claims[c].farmer_id == f;
        assert(c != claim_id);
        assert(s.claims.contains_key(c) && s.claims.contains_key(claim_id));
    }
}

/// A filed claim's id is never taken over: filing under a claim id that is
/// already in use, pending or resolved, is refused with `ClaimAlreadyExists`
/// (for a registered farmer without an active claim) and the stored claim
/// stays as it was.
pub proof fn lemma_claim_ids_are_unique(
    s: CoopState,
    farmer_id: Seq<u8>,
    claim_id: Seq<u8>,
    loss_amount: i128,
    evidence_ref: Seq<u8>,
)
    requires
        s.claims.contains_key(claim_id),
    ensures
        s.file_claim(farmer_id, claim_id, loss_amount, evidence_ref) is Err,
        s.farmers.contains_key(farmer_id) && !s.farmers[farmer_id].has_active_claim
            ==> s.file_claim(farmer_id, claim_id, loss_amount, evidence_ref) == Err::<
            CoopState,
            Error,
        >(Error::ClaimAlreadyExists),
{
}

/// In a consistent state a farmer is flagged as having an active claim
/// exactly when it has one pending claim, and never more than one.
pub proof fn lemma_flag_matches_one_pending_claim(s: CoopState, farmer_id: Seq<u8>)
    requires
        s.valid(),
        s.farmers.contains_key(farmer_id),
    ensures
        s.farmers[farmer_id].has_active_claim <==> s.has_pending_claim(farmer_id),
        forall|c1: Seq<u8>, c2: Seq<u8>|
            #[trigger] s.claims.contains_key(c1) && #[trigger] s.claims.contains_key(c2)
                && s.claims[c1].is_pending() && s.claims[c2].is_pending() && s.claims[c1].farmer_id
                == farmer_id && s.claims[c2].farmer_id == farmer_id ==> c1 == c2,
{
    if s.has_pending_claim(farmer_id) {
        let c = choose|c: Seq<u8>| #[trigger]
            s.claims.contains_key(c) && s.claims[c].is_pending() && s.claims[c].farmer_id
                == farmer_id;
        assert(s.claims.contains_key(c));
    }
}

/// Every request keeps the state consistent.
pub proof fn lemma_step_keeps_valid(s: CoopState, req: RequestView)
    requires
        s.valid(),
    ensures
        s.step(req).valid(),
{
    match req {
        RequestView::Initialize { admin } => lemma_initialize_keeps_valid(s, admin),
        RequestView::RegisterFarmer { farmer_id, wallet, cooperative_id } => lemma_register_keeps_valid(
            s,
            farmer_id,
            wallet,
            cooperative_id,
        ),
        RequestView::DepositToPool { donor, amount } => lemma_deposit_keeps_valid(s, amount as int),
        RequestView::FileClaim { farmer_id, claim_id, loss_amount, evidence_ref } => lemma_file_claim_keeps_valid(
            s,
            farmer_id,
            claim_id,
            loss_amount,
            evidence_ref,
        ),
        RequestView::ApproveAndDisburse { claim_id, approved_amount } => lemma_approve_keeps_valid(
            s,
            claim_id,
            approved_amount,
        ),
        RequestView::RejectClaim { claim_id } => lemma_reject_keeps_valid(s, claim_id),
    }
}

/// Any sequence of requests keeps a consistent state consistent.
pub proof fn lemma_run_keeps_valid(s: CoopState, reqs: Seq<RequestView>)
    requires
        s.valid(),
    ensures
        s.run(reqs).valid(),
    decreases reqs.len(),
{
    if reqs.len() > 0 {
        lemma_run_keeps_valid(s, reqs.drop_last());
        lemma_step_keeps_valid(s.run(reqs.drop_last()), reqs.last());
    }
}

/// Every state that a freshly deployed contract can reach is consistent,
/// and in it approving or rejecting a claim never fails for want of the
/// claim's farmer.
pub proof fn lemma_reachable_states(reqs: Seq<RequestView>, claim_id: Seq<u8>, amount: i128)
    ensures
        CoopState::empty().run(reqs).valid(),
        CoopState::empty().run(reqs).approve_and_disburse(claim_id, amount) != Err::<
            CoopState,
            Error,
        >(Error::FarmerNotFound),
        CoopState::empty().run(reqs).reject_claim(claim_id) != Err::<CoopState, Error>(
            Error::FarmerNotFound,
        ),
{
    lemma_run_keeps_valid(CoopState::empty(), reqs);
    let s = CoopState::empty().run(reqs);
    if s.claims.contains_key(claim_id) {
        assert(s.farmers.contains_key(s.claims[claim_id].farmer_id));
    }
}

/// Only deposits, payouts and (re)initialisation move the pool: enrolling
/// farmers, filing claims and rejecting claims leave it as it was.
pub proof fn lemma_pool_moves_only_with_money(
    s: CoopState,
    farmer_id: Seq<u8>,
    wallet: Seq<u8>,
    cooperative_id: Seq<u8>,
    claim_id: Seq<u8>,
    loss_amount: i128,
    evidence_ref: Seq<u8>,
)
    ensures
        s.register_farmer(farmer_id, wallet, cooperative_id) matches Ok(t) ==> t.pool_balance
            == s.pool_balance,
        s.file_claim(farmer_id, claim_id, loss_amount, evidence_ref) matches Ok(t)
            ==> t.pool_balance == s.pool_balance,
        s.reject_claim(claim_id) matches Ok(t) ==> t.pool_balance == s.pool_balance,
{
}

/// Initialising records the given admin and empties the pool; the
/// registered farmers and the filed claims stay exactly as they were.
pub proof fn lemma_initialize_effect(s: CoopState, admin: Seq<u8>)
    ensures
        s.initialize(admin).admin == Some(admin),
        s.initialize(admin).pool_balance == 0,
        s.initialize(admin).farmers == s.farmers,
        s.initialize(admin).claims == s.claims,
{
}

/// A deposit adds the amount to the pool and changes nothing else.
pub proof fn lemma_deposit_effect(s: CoopState, amount: int)
    ensures
        s.deposit_to_pool(amount).pool_balance == s.pool_balance + amount,
        s.deposit_to_pool(amount).admin == s.admin,
        s.deposit_to_pool(amount).farmers == s.farmers,
        s.deposit_to_pool(amount).claims == s.claims,
{
}

/// Enrolment succeeds exactly for a farmer id not yet registered (else
/// `FarmerAlreadyRegistered`); the new farmer is stored with the given
/// wallet and cooperative, unflagged, and nothing else changes.
pub proof fn lemma_register_effect(
    s: CoopState,
    farmer_id: Seq<u8>,
    wallet: Seq<u8>,
    cooperative_id: Seq<u8>,
)
    ensures
        s.register_farmer(farmer_id, wallet, cooperative_id) is Ok <==> !s.farmers.contains_key(
            farmer_id,
        ),
        s.register_farmer(farmer_id, wallet, cooperative_id) matches Err(e) ==> e
            == Error::FarmerAlreadyRegistered,
        s.register_farmer(farmer_id, wallet, cooperative_id) matches Ok(t) ==> {
            &&& t.farmers.contains_key(farmer_id)
            &&& t.farmers[farmer_id].wallet == wallet
            &&& t.farmers[farmer_id].cooperative_id == cooperative_id
            &&& !t.farmers[farmer_id].has_active_claim
            &&& forall|g: Seq<u8>|
                g != farmer_id ==> (#[trigger] t.farmers.contains_key(g) == s.farmers.contains_key(g)
                    && (s.farmers.contains_key(g) ==> t.farmers[g] == s.farmers[g]))
            &&& t.claims == s.claims
            &&& t.pool_balance == s.pool_balance
            &&& t.admin == s.admin
        },
{
}

/// Filing succeeds exactly for a registered farmer without an active claim
/// and an unused claim id. The new claim holds the farmer, the declared
/// loss and the evidence reference as given, nothing approved, status
/// pending; the farmer is flagged and keeps its wallet and cooperative;
/// every other claim and farmer, the pool and the admin stay as they were.
pub proof fn lemma_file_claim_effect(
    s: CoopState,
    farmer_id: Seq<u8>,
    claim_id: Seq<u8>,
    loss_amount: i128,
    evidence_ref: Seq<u8>,
)
    ensures
        s.file_claim(farmer_id, claim_id, loss_amount, evidence_ref) is Ok <==> {
            &&& s.farmers.contains_key(farmer_id)
            &&& !s.farmers[farmer_id].has_active_claim
            &&& !s.claims.contains_key(claim_id)
        },
        s.file_claim(farmer_id, claim_id, loss_amount, evidence_ref) matches Ok(t) ==> {
            &&& t.claims.contains_key(claim_id)
            &&& t.claims[claim_id].farmer_id == farmer_id
            &&& t.claims[claim_id].loss_amount == loss_amount
            &&& t.claims[claim_id].approved_amount == 0
            &&& t.claims[claim_id].status == 0
            &&& t.claims[claim_id].evidence_ref == evidence_ref
            &&& t.farmers.contains_key(farmer_id)
            &&& t.farmers[farmer_id].has_active_claim
            &&& t.farmers[farmer_id].wallet == s.farmers[farmer_id].wallet
            &&& t.farmers[farmer_id].cooperative_id == s.farmers[farmer_id].cooperative_id
            &&& forall|k: Seq<u8>|
                k != claim_id ==> (#[trigger] t.claims.contains_key(k) == s.claims.contains_key(k)
                    && (s.claims.contains_key(k) ==> t.claims[k] == s.claims[k]))
            &&& forall|g: Seq<u8>|
                g != farmer_id ==> (#[trigger] t.farmers.contains_key(g) == s.farmers.contains_key(g)
                    && (s.farmers.contains_key(g) ==> t.farmers[g] == s.farmers[g]))
            &&& t.farmers.dom() == s.farmers.dom()
            &&& t.pool_balance == s.pool_balance
            &&& t.admin == s.admin
        },
{
    if let Ok(t) = s.file_claim(farmer_id, claim_id, loss_amount, evidence_ref) {
        assert(t.farmers.dom() =~= s.farmers.dom());
    }
}

/// Approval succeeds exactly for an existing pending claim whose farmer is
/// registered and whose amount the pool covers. The pool is debited by the
/// amount; the claim becomes approved for that amount, keeping its farmer,
/// loss and evidence; its farmer is unflagged and keeps its wallet; the
/// payout goes to the wallet stored for the claim's farmer.
pub proof fn lemma_approve_effect(s: CoopState, claim_id: Seq<u8>, amount: i128)
    ensures
        s.approve_and_disburse(claim_id, amount) is Ok <==> {
            &&& s.claims.contains_key(claim_id)
            &&& s.claims[claim_id].status == 0
            &&& amount <= s.pool_balance
            &&& s.farmers.contains_key(s.claims[claim_id].farmer_id)
        },
        s.approve_and_disburse(claim_id, amount) is Ok ==> s.payout_wallet(claim_id)
            == s.farmers[s.claims[claim_id].farmer_id].wallet,
        s.approve_and_disburse(claim_id, amount) matches Ok(t) ==> {
            let f = s.claims[claim_id].farmer_id;
            &&& t.pool_balance == s.pool_balance - amount
            &&& t.claims[claim_id].status == 1
            &&& t.claims[claim_id].approved_amount == amount
            &&& t.claims[claim_id].farmer_id == f
            &&& t.claims[claim_id].loss_amount == s.claims[claim_id].loss_amount
            &&& t.claims[claim_id].evidence_ref == s.claims[claim_id].evidence_ref
            &&& !t.farmers[f].has_active_claim
            &&& t.farmers[f].wallet == s.farmers[f].wallet
            &&& t.farmers[f].cooperative_id == s.farmers[f].cooperative_id
            &&& forall|k: Seq<u8>|
                k != claim_id ==> (#[trigger] t.claims.contains_key(k) == s.claims.contains_key(k)
                    && (s.claims.contains_key(k) ==> t.claims[k] == s.claims[k]))
            &&& forall|g: Seq<u8>|
                g != f ==> (#[trigger] t.farmers.contains_key(g) == s.farmers.contains_key(g) && (
                s.farmers.contains_key(g) ==> t.farmers[g] == s.farmers[g]))
            &&& t.admin == s.admin
        },
{
}

/// Rejection succeeds exactly for an existing pending claim whose farmer is
/// registered, whatever the pool holds. The claim becomes rejected and
/// keeps everything else; its farmer is unflagged; the pool and every other
/// claim stay as they were.
pub proof fn lemma_reject_effect(s: CoopState, claim_id: Seq<u8>)
    ensures
        s.reject_claim(claim_id) is Ok <==> {
            &&& s.claims.contains_key(claim_id)
            &&& s.claims[claim_id].status == 0
            &&& s.farmers.contains_key(s.claims[claim_id].farmer_id)
        },
        s.reject_claim(claim_id) matches Ok(t) ==> {
            let f = s.claims[claim_id].farmer_id;
            &&& t.claims[claim_id].status == 2
            &&& t.claims[claim_id].approved_amount == s.claims[claim_id].approved_amount
            &&& t.claims[claim_id].farmer_id == f
            &&& t.claims[claim_id].loss_amount == s.claims[claim_id].loss_amount
            &&& t.claims[claim_id].evidence_ref == s.claims[claim_id].evidence_ref
            &&& !t.farmers[f].has_active_claim
            &&& t.farmers[f].wallet == s.farmers[f].wallet
            &&& t.farmers[f].cooperative_id == s.farmers[f].cooperative_id
            &&& forall|k: Seq<u8>|
                k != claim_id ==> (#[trigger] t.claims.contains_key(k) == s.claims.contains_key(k)
                    && (s.claims.contains_key(k) ==> t.claims[k] == s.claims[k]))
            &&& forall|g: Seq<u8>|
                g != f ==> (#[trigger] t.farmers.contains_key(g) == s.farmers.contains_key(g) && (
                s.farmers.contains_key(g) ==> t.farmers[g] == s.farmers[g]))
            &&& t.pool_balance == s.pool_balance
            &&& t.admin == s.admin
        },
{
}

} // verus!
