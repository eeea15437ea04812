use vstd::prelude::*;

use crate::claims::SubscribeEventPayload;
use crate::subscription::{Subscription, SubscriptionStatus};

verus! {

/// Why a subscription request was not accepted. Persistence and enqueue
/// failures are told apart so that a caller can decide whether to retry.
#[derive(Debug, Clone, Copy, PartialEq, Eq, Structural)]
pub enum IntakeError {
    InvalidEmail,
    UnknownCampaign,
    StoreUnavailable,
    QueueUnavailable,
}

/// Where a subscription request stands between two outside calls.
#[derive(Debug, Clone, Copy, PartialEq, Eq, Structural)]
pub enum IntakePhase {
    AwaitCampaign,
    AwaitPut,
    AwaitEnqueue,
    AwaitDelete,
    Finished,
}

/// What the caller must do next on behalf of a subscription request.
#[derive(Debug, PartialEq, Eq)]
pub enum IntakeAction {
    /// Report whether the campaign exists.
    LookupCampaign { campaign_id: String },
    /// Store the new record.
    PutSubscription { record: Subscription },
    /// Put a confirmation job on the queue.
    EnqueueJob { job: SubscribeEventPayload },
    /// Remove the record stored before a failed enqueue, so that no pending
    /// subscription is left without a confirmation job.
    DeleteSubscription { subscription_id: String },
    /// Answer the request: the new subscription id, or an error.
    Respond { outcome: Result<String, IntakeError> },
}

/// State of one subscription request.
#[derive(Debug, Clone, PartialEq, Eq)]
pub struct IntakeSession {
    pub record: Subscription,
    pub phase: IntakePhase,
}

/// The confirmation job that refers to `record`.
pub open spec fn job_for(record: Subscription) -> SubscribeEventPayload {
    SubscribeEventPayload {
        subscription_id: record.subscription_id,
        campaign_id: record.campaign_id,
        email: record.email,
    }
}

/// Creates a fresh subscription id through `cuid::cuid2`. The id is random;
/// the crate builds it as a letter followed by a hash, so it is never empty.
#[verifier::external_body]
fn new_subscription_id() -> (r: String)
    ensures
        r@.len() > 0,
{
    cuid::cuid2()
}

impl IntakeSession {
    pub open spec fn start_spec(
        campaign_id: String,
        email: String,
        source_ip: String,
        email_valid: bool,
        subscription_id: String,
    ) -> Result<(IntakeSession, IntakeAction), IntakeError> {
        if !email_valid {
            Err(IntakeError::InvalidEmail)
        } else {
            Ok(
                (
                    IntakeSession {
                        record: Subscription {
                            subscription_id,
                            campaign_id,
                            email,
                            source_ip,
                            status: SubscriptionStatus::Pending,
                            confirmed_at: None,
                        },
                        phase: IntakePhase::AwaitCampaign,
                    },
                    IntakeAction::LookupCampaign { campaign_id },
                ),
            )
        }
    }

    pub open spec fn on_campaign_spec(self, found: Result<bool, ()>) -> (
        IntakeSession,
        IntakeAction,
    ) {
        match found {
            Ok(true) => (
                IntakeSession { phase: IntakePhase::AwaitPut, ..self },
                IntakeAction::PutSubscription { record: self.record },
            ),
            Ok(false) => (
                IntakeSession { phase: IntakePhase::Finished, ..self },
                IntakeAction::Respond { outcome: Err(IntakeError::UnknownCampaign) },
            ),
            Err(_) => (
                IntakeSession { phase: IntakePhase::Finished, ..self },
                IntakeAction::Respond { outcome: Err(IntakeError::StoreUnavailable) },
            ),
        }
    }

    pub open spec fn on_put_spec(self, stored: bool) -> (IntakeSession, IntakeAction) {
        if stored {
            (
                IntakeSession { phase: IntakePhase::AwaitEnqueue, ..self },
                IntakeAction::EnqueueJob { job: job_for(self.record) },
            )
        } else {
            (
                IntakeSession { phase: IntakePhase::Finished, ..self },
                IntakeAction::Respond { outcome: Err(IntakeError::StoreUnavailable) },
            )
        }
    }

    pub open spec fn on_enqueue_spec(self, enqueued: bool) -> (IntakeSession, IntakeAction) {
        if enqueued {
            (
                IntakeSession { phase: IntakePhase::Finished, ..self },
                IntakeAction::Respond { outcome: Ok(self.record.subscription_id) },
            )
        } else {
            (
                IntakeSession { phase: IntakePhase::AwaitDelete, ..self },
                IntakeAction::DeleteSubscription {
                    subscription_id: self.record.subscription_id,
                },
            )
        }
    }

    pub open spec fn on_deleted_spec(self) -> (IntakeSession, IntakeAction) {
        (
            IntakeSession { phase: IntakePhase::Finished, ..self },
            IntakeAction::Respond { outcome: Err(IntakeError::QueueUnavailable) },
        )
    }

    /// Starts a request with a fresh subscription id. `email_valid` is the
    /// verdict of the address syntax check; a malformed address ends the
    /// request at once, before any outside call.
    pub fn start(campaign_id: String, email: String, source_ip: String, email_valid: bool) -> (r:
        Result<(IntakeSession, IntakeAction), IntakeError>)
        ensures
            !email_valid ==> r == Err::<(IntakeSession, IntakeAction), IntakeError>(
                IntakeError::InvalidEmail,
            ),
            email_valid ==> exists|id: String|
                id@.len() > 0 && r == Self::start_spec(
                    campaign_id,
                    email,
                    source_ip,
                    email_valid,
                    id,
                ),
    {
        if !email_valid {
            return Err(IntakeError::InvalidEmail);
        }
        let id = new_subscription_id();
        Self::start_with_id(campaign_id, email, source_ip, email_valid, id)
    }

    /// Starts a request whose new subscription will have id `subscription_id`.
    pub fn start_with_id(
        campaign_id: String,
        email: String,
        source_ip: String,
        email_valid: bool,
        subscription_id: String,
    ) -> (r: Result<(IntakeSession, IntakeAction), IntakeError>)
        ensures
            r == Self::start_spec(campaign_id, email, source_ip, email_valid, subscription_id),
    {
        if !email_valid {
            return Err(IntakeError::InvalidEmail);
        }
        let lookup = campaign_id.clone();
        let record = Subscription::pending(subscription_id, campaign_id, email, source_ip);
        Ok(
            (
                IntakeSession { record, phase: IntakePhase::AwaitCampaign },
                IntakeAction::LookupCampaign { campaign_id: lookup },
            ),
        )
    }

    /// Takes the campaign lookup: `Ok(found)`, or `Err(())` when the store
    /// could not be reached.
    pub fn on_campaign(&mut self, found: Result<bool, ()>) -> (r: IntakeAction)
        requires
            old(self).phase == IntakePhase::AwaitCampaign,
        ensures
            (*final(self), r) == old(self).on_campaign_spec(found),
    {
        match found {
            Ok(true) => {
                self.phase = IntakePhase::AwaitPut;
                IntakeAction::PutSubscription { record: self.record.duplicate() }
            },
            Ok(false) => {
                self.phase = IntakePhase::Finished;
                IntakeAction::Respond { outcome: Err(IntakeError::UnknownCampaign) }
            },
            Err(_) => {
                self.phase = IntakePhase::Finished;
                IntakeAction::Respond { outcome: Err(IntakeError::StoreUnavailable) }
            },
        }
    }

    /// Takes whether the record was stored.
    pub fn on_put(&mut self, stored: bool) -> (r: IntakeAction)
        requires
            old(self).phase == IntakePhase::AwaitPut,
        ensures
            (*final(self), r) == old(self).on_put_spec(stored),
    {
        if stored {
            self.phase = IntakePhase::AwaitEnqueue;
            IntakeAction::EnqueueJob {
                job: SubscribeEventPayload {
                    subscription_id: self.record.subscription_id.clone(),
                    campaign_id: self.record.campaign_id.clone(),
                    email: self.record.email.clone(),
                },
            }
        } else {
            self.phase = IntakePhase::Finished;
            IntakeAction::Respond { outcome: Err(IntakeError::StoreUnavailable) }
        }
    }

    /// Takes whether the job was enqueued. After a failed enqueue the stored
    /// record is deleted before the request is answered.
    pub fn on_enqueue(&mut self, enqueued: bool) -> (r: IntakeAction)
        requires
            old(self).phase == IntakePhase::AwaitEnqueue,
        ensures
            (*final(self), r) == old(self).on_enqueue_spec(enqueued),
    {
        if enqueued {
            self.phase = IntakePhase::Finished;
            IntakeAction::Respond { outcome: Ok(self.record.subscription_id.clone()) }
        } else {
            self.phase = IntakePhase::AwaitDelete;
            IntakeAction::DeleteSubscription {
                subscription_id: self.record.subscription_id.clone(),
            }
        }
    }

    /// The compensating delete has been attempted; the request fails with
    /// the enqueue error.
    pub fn on_deleted(&mut self) -> (r: IntakeAction)
        requires
            old(self).phase == IntakePhase::AwaitDelete,
        ensures
            (*final(self), r) == old(self).on_deleted_spec(),
    {
        self.phase = IntakePhase::Finished;
        IntakeAction::Respond { outcome: Err(IntakeError::QueueUnavailable) }
    }
}

/// The actions of a request whose outside calls all succeed, in order.
pub open spec fn intake_success_actions(
    campaign_id: String,
    email: String,
    source_ip: String,
    subscription_id: String,
) -> Seq<IntakeAction> {
    match IntakeSession::start_spec(campaign_id, email, source_ip, true, subscription_id) {
        Ok((s0, a0)) => {
            let (s1, a1) = s0.on_campaign_spec(Ok(true));
            let (s2, a2) = s1.on_put_spec(true);
            let (_, a3) = s2.on_enqueue_spec(true);
            seq![a0, a1, a2, a3]
        },
        Err(_) => Seq::empty(),
    }
}

/// A request with a well-formed address for an existing campaign, with no
/// failure along the way, stores one pending subscription, enqueues exactly
/// one job that refers to it, and answers with its id.
pub proof fn lemma_intake_success(
    campaign_id: String,
    email: String,
    source_ip: String,
    subscription_id: String,
)
    ensures
        ({
            let acts = intake_success_actions(campaign_id, email, source_ip, subscription_id);
            let record = Subscription {
                subscription_id,
                campaign_id,
                email,
                source_ip,
                status: SubscriptionStatus::Pending,
                confirmed_at: None,
            };
            &&& acts == seq![
                IntakeAction::LookupCampaign { campaign_id },
                IntakeAction::PutSubscription { record },
                IntakeAction::EnqueueJob { job: job_for(record) },
                IntakeAction::Respond { outcome: Ok(subscription_id) },
            ]
            &&& record.wf()
            &&& acts.filter(|a: IntakeAction| a is EnqueueJob).len() == 1
        }),
{
    let acts = intake_success_actions(campaign_id, email, source_ip, subscription_id);
    reveal_with_fuel(Seq::filter, 5);
    assert(acts.drop_last().drop_last().drop_last().drop_last() =~= Seq::<IntakeAction>::empty());
    assert(acts.drop_last().drop_last().drop_last() =~= seq![acts[0]]);
    assert(acts.drop_last().drop_last() =~= seq![acts[0], acts[1]]);
    assert(acts.drop_last() =~= seq![acts[0], acts[1], acts[2]]);
}

/// A request with a malformed address is refused before any outside call:
/// no record is stored and no job is enqueued.
pub proof fn lemma_invalid_email_no_writes(
    campaign_id: String,
    email: String,
    source_ip: String,
    subscription_id: String,
)
    ensures
        IntakeSession::start_spec(campaign_id, email, source_ip, false, subscription_id) == Err::<
            (IntakeSession, IntakeAction),
            IntakeError,
        >(IntakeError::InvalidEmail),
{
}

} // verus!
