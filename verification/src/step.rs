//! The per-step verification state machine.
//!
//! One step consumes the previous step's committed values, one header
//! transition, and produces the values this step commits. A step is a
//! pure function of its inputs; there is no state inside the core
//! between invocations.
//!
//! Two collaborators are black boxes to the step: the recursive proof
//! check (asserts that a valid prior proof exists for the previous
//! committed values) and the consensus-level header verification. The
//! step is therefore split in two phases. `prepare_step` performs every
//! check that is a pure function of the inputs and either commits
//! directly, aborts, or hands back exactly the data the two black-box
//! checks need; `finish_continuation` folds their outcomes into the
//! committed values. A caller invokes the black boxes only when
//! `prepare_step` asks for them, so a step that short-circuits never
//! consults either.

use vstd::prelude::*;

use crate::bytes::{bytes_eq, copy_bytes};
use crate::codec::{Buffer, DecodeError};
use crate::header::{Header, Transition, TransitionView};
use crate::keys::{digest_bytes, sha256_of, vkey_digest, VerifyingKeyId};
use crate::values::{
    dec_public_values, enc_public_values, encodable_public_values, lemma_public_values_round_trip,
    PublicValues, PublicValuesView,
};

verus! {

/// What remains to be checked after every pure continuation check has
/// passed: the recursive proof check over (`vkey`, `prev_values_digest`)
/// and the header verification. The other fields are the values the
/// step will commit once those checks come back.
pub struct PendingStep {
    pub vkey: VerifyingKeyId,
    pub vkey_hash: Vec<u8>,
    pub genesis_hash: Vec<u8>,
    pub prev_values_digest: Vec<u8>,
    pub head_hash: Vec<u8>,
}

/// The mathematical model of a pending step.
#[verifier::ext_equal]
pub struct PendingStepView {
    pub vkey: Seq<u32>,
    pub vkey_hash: Seq<u8>,
    pub genesis_hash: Seq<u8>,
    pub prev_values_digest: Seq<u8>,
    pub head_hash: Seq<u8>,
}

impl View for PendingStep {
    type V = PendingStepView;

    open spec fn view(&self) -> PendingStepView {
        PendingStepView {
            vkey: self.vkey.words@,
            vkey_hash: self.vkey_hash@,
            genesis_hash: self.genesis_hash@,
            prev_values_digest: self.prev_values_digest@,
            head_hash: self.head_hash@,
        }
    }
}

/// What the pure phase of a step decides.
pub enum StepPlan {
    /// The previous committed values do not decode: the step aborts
    /// without committing any output.
    Abort(DecodeError),
    /// The step's outcome is already determined: commit these values.
    Commit(PublicValues),
    /// Every pure check passed: run the recursive proof check and the
    /// header verification, then commit through `finish_continuation`.
    Verify(PendingStep),
}

/// The mathematical model of a step plan.
#[verifier::ext_equal]
pub enum StepPlanView {
    Abort(DecodeError),
    Commit(PublicValuesView),
    Verify(PendingStepView),
}

impl View for StepPlan {
    type V = StepPlanView;

    open spec fn view(&self) -> StepPlanView {
        match self {
            StepPlan::Abort(e) => StepPlanView::Abort(*e),
            StepPlan::Commit(pv) => StepPlanView::Commit(pv@),
            StepPlan::Verify(p) => StepPlanView::Verify(p@),
        }
    }
}

/// How a continuation step ends once the black-box outcomes are in.
pub enum StepOutcome {
    /// The recursive proof check rejected the prior proof. The input
    /// itself is malformed, not merely the chain invalid: the step
    /// aborts and commits nothing.
    Fatal,
    /// The step commits these values.
    Commit(PublicValues),
}

/// The mathematical model of a step outcome.
#[verifier::ext_equal]
pub enum StepOutcomeView {
    Fatal,
    Commit(PublicValuesView),
}

impl View for StepOutcome {
    type V = StepOutcomeView;

    open spec fn view(&self) -> StepOutcomeView {
        match self {
            StepOutcome::Fatal => StepOutcomeView::Fatal,
            StepOutcome::Commit(pv) => StepOutcomeView::Commit(pv@),
        }
    }
}

/// The values a genesis step commits: the chain starts exactly when the
/// head header is the genesis header.
pub open spec fn genesis_values(
    ws: Seq<u32>,
    genesis_hash: Seq<u8>,
    head_hash: Seq<u8>,
) -> PublicValuesView {
    PublicValuesView {
        vkey_hash: vkey_digest(ws),
        genesis_hash: genesis_hash,
        head_hash: head_hash,
        ok: head_hash == genesis_hash,
    }
}

/// The values a step commits when a pure continuation check failed: the
/// chain is invalid from here on.
pub open spec fn failed_values(
    ws: Seq<u32>,
    genesis_hash: Seq<u8>,
    head_hash: Seq<u8>,
) -> PublicValuesView {
    PublicValuesView {
        vkey_hash: vkey_digest(ws),
        genesis_hash: genesis_hash,
        head_hash: head_hash,
        ok: false,
    }
}

/// The four continuity checks a continuation step makes against the
/// previous step's committed values: same verifying key, same genesis,
/// the prior header is exactly the head the previous step committed,
/// and the previous step itself succeeded.
pub open spec fn continuation_checks_pass(
    ws: Seq<u32>,
    prev: PublicValuesView,
    genesis_hash: Seq<u8>,
    prior_hash: Seq<u8>,
) -> bool {
    &&& prev.vkey_hash == vkey_digest(ws)
    &&& prev.genesis_hash == genesis_hash
    &&& prev.head_hash == prior_hash
    &&& prev.ok
}

/// The pending work handed out when every pure check passed.
pub open spec fn pending_of(
    ws: Seq<u32>,
    prev_bytes: Seq<u8>,
    genesis_hash: Seq<u8>,
    head_hash: Seq<u8>,
) -> PendingStepView {
    PendingStepView {
        vkey: ws,
        vkey_hash: vkey_digest(ws),
        genesis_hash: genesis_hash,
        prev_values_digest: sha256_of(prev_bytes),
        head_hash: head_hash,
    }
}

/// What the pure phase of a step decides, for every input.
pub open spec fn spec_step_plan(
    ws: Seq<u32>,
    prev_bytes: Seq<u8>,
    genesis_hash: Seq<u8>,
    transition: TransitionView,
    head_hash: Seq<u8>,
) -> StepPlanView {
    match transition {
        TransitionView::Genesis => StepPlanView::Commit(
            genesis_values(ws, genesis_hash, head_hash),
        ),
        TransitionView::Continuation(prior_hash) => match dec_public_values(prev_bytes, 0) {
            Err(e) => StepPlanView::Abort(e),
            Ok((prev, _)) => if continuation_checks_pass(ws, prev, genesis_hash, prior_hash) {
                StepPlanView::Verify(pending_of(ws, prev_bytes, genesis_hash, head_hash))
            } else {
                StepPlanView::Commit(failed_values(ws, genesis_hash, head_hash))
            },
        },
    }
}

/// The values a continuation step commits once the header verification
/// verdict is in.
pub open spec fn continuation_values(p: PendingStepView, verdict: bool) -> PublicValuesView {
    PublicValuesView {
        vkey_hash: p.vkey_hash,
        genesis_hash: p.genesis_hash,
        head_hash: p.head_hash,
        ok: verdict,
    }
}

/// How a continuation step ends for every pair of black-box outcomes: a
/// rejected prior proof is fatal; otherwise the header verdict becomes
/// the committed result.
pub open spec fn spec_finish(
    p: PendingStepView,
    proof_accepted: bool,
    verdict: bool,
) -> StepOutcomeView {
    if proof_accepted {
        StepOutcomeView::Commit(continuation_values(p, verdict))
    } else {
        StepOutcomeView::Fatal
    }
}

/// The pure phase of one step, over the inputs in their tape order: the
/// verifying key, the previous step's committed bytes, the genesis
/// digest, the transition, and the head header.
///
/// On a genesis transition the previous bytes are ignored and the step
/// commits directly. On a continuation the previous values are decoded
/// — a decode failure aborts the step — and the four continuity checks
/// run; if any fails the step commits a failed record without ever
/// asking for the black-box checks, and if all pass the plan carries
/// exactly the data those checks need.
pub fn prepare_step(
    vkey: &VerifyingKeyId,
    prev_values: &Vec<u8>,
    genesis_hash: &Vec<u8>,
    transition: &Transition,
    head: &Header,
) -> (r: StepPlan)
    ensures
        r@ == spec_step_plan(vkey.words@, prev_values@, genesis_hash@, transition@, head.hash@),
{
    let vkh = vkey.digest();
    match transition {
        Transition::Genesis => {
            let ok = bytes_eq(&head.hash, genesis_hash);
            StepPlan::Commit(
                PublicValues {
                    vkey_hash: vkh,
                    genesis_hash: copy_bytes(genesis_hash),
                    head_hash: copy_bytes(&head.hash),
                    ok,
                },
            )
        },
        Transition::Continuation(prior) => {
            let mut buf = Buffer::from(prev_values.as_slice());
            match PublicValues::decode(&mut buf) {
                Err(e) => StepPlan::Abort(e),
                Ok(prev) => {
                    let vkey_ok = bytes_eq(&prev.vkey_hash, &vkh);
                    let genesis_ok = bytes_eq(&prev.genesis_hash, genesis_hash);
                    let continuity_ok = bytes_eq(&prev.head_hash, &prior.hash);
                    if vkey_ok && genesis_ok && continuity_ok && prev.ok {
                        StepPlan::Verify(
                            PendingStep {
                                vkey: *vkey,
                                vkey_hash: vkh,
                                genesis_hash: copy_bytes(genesis_hash),
                                prev_values_digest: digest_bytes(prev_values),
                                head_hash: copy_bytes(&head.hash),
                            },
                        )
                    } else {
                        StepPlan::Commit(
                            PublicValues {
                                vkey_hash: vkh,
                                genesis_hash: copy_bytes(genesis_hash),
                                head_hash: copy_bytes(&head.hash),
                                ok: false,
                            },
                        )
                    }
                },
            }
        },
    }
}

/// Folds the two black-box outcomes into the step's end: `proof_accepted`
/// is whether the recursive proof check accepted the prior proof, and
/// `verdict` is the header verification's outcome.
pub fn finish_continuation(pending: PendingStep, proof_accepted: bool, verdict: bool) -> (r:
    StepOutcome)
    ensures
        r@ == spec_finish(pending@, proof_accepted, verdict),
{
    if proof_accepted {
        StepOutcome::Commit(
            PublicValues {
                vkey_hash: pending.vkey_hash,
                genesis_hash: pending.genesis_hash,
                head_hash: pending.head_hash,
                ok: verdict,
            },
        )
    } else {
        StepOutcome::Fatal
    }
}

/// Genesis acceptance: a head header whose digest equals the genesis
/// digest makes the genesis step commit a successful record whose head
/// is that digest.
pub proof fn lemma_genesis_acceptance(
    ws: Seq<u32>,
    prev_bytes: Seq<u8>,
    genesis_hash: Seq<u8>,
    head_hash: Seq<u8>,
)
    requires
        head_hash == genesis_hash,
    ensures
        spec_step_plan(ws, prev_bytes, genesis_hash, TransitionView::Genesis, head_hash)
            == StepPlanView::Commit(
            PublicValuesView {
                vkey_hash: vkey_digest(ws),
                genesis_hash: genesis_hash,
                head_hash: head_hash,
                ok: true,
            },
        ),
{
}

/// Genesis rejection: a head header whose digest differs from the
/// genesis digest makes the genesis step commit a failed record.
pub proof fn lemma_genesis_rejection(
    ws: Seq<u32>,
    prev_bytes: Seq<u8>,
    genesis_hash: Seq<u8>,
    head_hash: Seq<u8>,
)
    requires
        head_hash != genesis_hash,
    ensures
        spec_step_plan(ws, prev_bytes, genesis_hash, TransitionView::Genesis, head_hash)
            == StepPlanView::Commit(
            PublicValuesView {
                vkey_hash: vkey_digest(ws),
                genesis_hash: genesis_hash,
                head_hash: head_hash,
                ok: false,
            },
        ),
{
}

/// Continuity enforcement: when the prior header's digest is not the
/// head the previous step committed, the step commits a failed record
/// at once — the plan never asks for the header verification or the
/// recursive proof check.
pub proof fn lemma_continuity_enforcement(
    ws: Seq<u32>,
    prev_bytes: Seq<u8>,
    genesis_hash: Seq<u8>,
    prev: PublicValuesView,
    end: int,
    prior_hash: Seq<u8>,
    head_hash: Seq<u8>,
)
    requires
        dec_public_values(prev_bytes, 0) == Ok::<(PublicValuesView, int), DecodeError>(
            (prev, end),
        ),
        prev.head_hash != prior_hash,
    ensures
        spec_step_plan(
            ws,
            prev_bytes,
            genesis_hash,
            TransitionView::Continuation(prior_hash),
            head_hash,
        ) == StepPlanView::Commit(failed_values(ws, genesis_hash, head_hash)),
{
}

/// Propagation of prior failure: once a step has committed a failed
/// record, every continuation over it commits a failed record too,
/// whatever the current transition would verify to.
pub proof fn lemma_prior_failure_propagates(
    ws: Seq<u32>,
    prev_bytes: Seq<u8>,
    genesis_hash: Seq<u8>,
    prev: PublicValuesView,
    end: int,
    prior_hash: Seq<u8>,
    head_hash: Seq<u8>,
)
    requires
        dec_public_values(prev_bytes, 0) == Ok::<(PublicValuesView, int), DecodeError>(
            (prev, end),
        ),
        !prev.ok,
    ensures
        spec_step_plan(
            ws,
            prev_bytes,
            genesis_hash,
            TransitionView::Continuation(prior_hash),
            head_hash,
        ) == StepPlanView::Commit(failed_values(ws, genesis_hash, head_hash)),
{
}

/// Verifying-key tamper detection: a continuation invoked with a key
/// whose digest is not the one the previous step committed commits a
/// failed record at once — the recursive proof check is never asked
/// for.
pub proof fn lemma_vkey_tamper_detected(
    ws: Seq<u32>,
    prev_bytes: Seq<u8>,
    genesis_hash: Seq<u8>,
    prev: PublicValuesView,
    end: int,
    prior_hash: Seq<u8>,
    head_hash: Seq<u8>,
)
    requires
        dec_public_values(prev_bytes, 0) == Ok::<(PublicValuesView, int), DecodeError>(
            (prev, end),
        ),
        prev.vkey_hash != vkey_digest(ws),
    ensures
        spec_step_plan(
            ws,
            prev_bytes,
            genesis_hash,
            TransitionView::Continuation(prior_hash),
            head_hash,
        ) == StepPlanView::Commit(failed_values(ws, genesis_hash, head_hash)),
{
}

/// The happy path of one continuation step: over a previous record that
/// decodes and passes all four continuity checks, the plan asks for the
/// two black-box checks, and an accepted proof together with a
/// successful verdict commits a successful record whose head is the new
/// header's digest.
pub proof fn lemma_happy_continuation(
    ws: Seq<u32>,
    prev_bytes: Seq<u8>,
    genesis_hash: Seq<u8>,
    prev: PublicValuesView,
    end: int,
    prior_hash: Seq<u8>,
    head_hash: Seq<u8>,
)
    requires
        dec_public_values(prev_bytes, 0) == Ok::<(PublicValuesView, int), DecodeError>(
            (prev, end),
        ),
        continuation_checks_pass(ws, prev, genesis_hash, prior_hash),
    ensures
        spec_step_plan(
            ws,
            prev_bytes,
            genesis_hash,
            TransitionView::Continuation(prior_hash),
            head_hash,
        ) == StepPlanView::Verify(pending_of(ws, prev_bytes, genesis_hash, head_hash)),
        spec_finish(pending_of(ws, prev_bytes, genesis_hash, head_hash), true, true)
            == StepOutcomeView::Commit(
            PublicValuesView {
                vkey_hash: vkey_digest(ws),
                genesis_hash: genesis_hash,
                head_hash: head_hash,
                ok: true,
            },
        ),
{
}

/// Chaining: the record one step commits, once encoded, feeds the next
/// step. When that record is successful and the next step uses the same
/// verifying key, the same genesis, and the committed head as its prior
/// header, every continuity check passes and the next step's plan asks
/// for the two black-box checks — whatever bytes trail the record.
pub proof fn lemma_committed_record_chains(
    ws: Seq<u32>,
    committed: PublicValuesView,
    rest: Seq<u8>,
    head_hash: Seq<u8>,
)
    requires
        encodable_public_values(committed),
        committed.vkey_hash == vkey_digest(ws),
        committed.ok,
    ensures
        spec_step_plan(
            ws,
            enc_public_values(committed) + rest,
            committed.genesis_hash,
            TransitionView::Continuation(committed.head_hash),
            head_hash,
        ) == StepPlanView::Verify(
            pending_of(ws, enc_public_values(committed) + rest, committed.genesis_hash, head_hash),
        ),
{
    lemma_public_values_round_trip(committed, rest);
}

} // verus!
