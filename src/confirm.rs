use vstd::prelude::*;

use crate::claims::SubscribeConfirmationTokenClaims;
use crate::subscription::{Subscription, SubscriptionStatus};

verus! {

/// Seconds for which the presigned reward link stays valid.
pub const REWARD_LINK_LIFETIME_SECS: u64 = 60;

/// Why a confirmation request was not served. Every token failure (bad
/// signature, wrong algorithm, malformed, expired, not yet valid) is the same
/// `InvalidToken`, so a caller learns nothing of which check failed.
#[derive(Debug, Clone, Copy, PartialEq, Eq, Structural)]
pub enum ConfirmError {
    InvalidToken,
    InvalidCampaign,
    Unavailable,
}

/// Checks a token whose signature has already been checked: `decoded` is
/// `None` when the token was missing, malformed or badly signed.
pub open spec fn check_token_spec(
    decoded: Option<SubscribeConfirmationTokenClaims>,
    now: u64,
) -> Result<SubscribeConfirmationTokenClaims, ConfirmError> {
    match decoded {
        Some(c) => if c.valid_at(now) {
            Ok(c)
        } else {
            Err(ConfirmError::InvalidToken)
        },
        None => Err(ConfirmError::InvalidToken),
    }
}

/// Accepts the decoded claims exactly when they are present and valid at
/// `now`; anything else is `InvalidToken`.
pub fn check_token(decoded: Option<SubscribeConfirmationTokenClaims>, now: u64) -> (r: Result<
    SubscribeConfirmationTokenClaims,
    ConfirmError,
>)
    ensures
        r == check_token_spec(decoded, now),
{
    match decoded {
        Some(c) => if c.is_valid_at(now) {
            Ok(c)
        } else {
            Err(ConfirmError::InvalidToken)
        },
        None => Err(ConfirmError::InvalidToken),
    }
}

/// Where a confirmation stands between two outside calls.
#[derive(Debug, Clone, Copy, PartialEq, Eq, Structural)]
pub enum ConfirmPhase {
    AwaitCampaign,
    AwaitConfirm,
    AwaitPublish,
    AwaitPresign,
    Finished,
}

/// What the caller must do next on behalf of a confirmation.
#[derive(Debug, PartialEq, Eq)]
pub enum ConfirmAction {
    /// Look the campaign up and report its reward key, if it exists.
    LookupCampaign { campaign_id: String },
    /// Atomically set the subscription to confirmed at `now` if it is still
    /// pending, and report whether it changed.
    ConfirmSubscription { subscription_id: String, now: u64 },
    /// Emit the "subscription confirmed" event.
    PublishConfirmed { subscription_id: String, campaign_id: String },
    /// Presign a download link for the reward, valid for `expires_in_secs`.
    PresignReward { reward_key: String, expires_in_secs: u64 },
    /// Answer the request: a redirect to the link, or an error.
    Respond { outcome: Result<String, ConfirmError> },
}

/// State of one confirmation request.
#[derive(Debug, Clone, PartialEq, Eq)]
pub struct ConfirmSession {
    pub claims: SubscribeConfirmationTokenClaims,
    pub now: u64,
    /// Key of the reward artifact, once the campaign has been found.
    pub reward_key: Option<String>,
    pub phase: ConfirmPhase,
}

pub open spec fn respond(outcome: Result<String, ConfirmError>) -> ConfirmAction {
    ConfirmAction::Respond { outcome }
}

impl ConfirmSession {
    pub open spec fn start_spec(
        decoded: Option<SubscribeConfirmationTokenClaims>,
        now: u64,
    ) -> Result<(ConfirmSession, ConfirmAction), ConfirmError> {
        match check_token_spec(decoded, now) {
            Ok(c) => Ok(
                (
                    ConfirmSession {
                        claims: c,
                        now,
                        reward_key: None,
                        phase: ConfirmPhase::AwaitCampaign,
                    },
                    ConfirmAction::LookupCampaign { campaign_id: c.campaign_id },
                ),
            ),
            Err(e) => Err(e),
        }
    }

    pub open spec fn on_campaign_spec(self, lookup: Result<Option<String>, ()>) -> (
        ConfirmSession,
        ConfirmAction,
    ) {
        match lookup {
            Ok(Some(key)) => (
                ConfirmSession { reward_key: Some(key), phase: ConfirmPhase::AwaitConfirm, ..self },
                ConfirmAction::ConfirmSubscription {
                    subscription_id: self.claims.subscription_id,
                    now: self.now,
                },
            ),
            Ok(None) => (
                ConfirmSession { phase: ConfirmPhase::Finished, ..self },
                respond(Err(ConfirmError::InvalidCampaign)),
            ),
            Err(_) => (
                ConfirmSession { phase: ConfirmPhase::Finished, ..self },
                respond(Err(ConfirmError::Unavailable)),
            ),
        }
    }

    pub open spec fn presign_action(self) -> ConfirmAction {
        ConfirmAction::PresignReward {
            reward_key: self.reward_key.unwrap(),
            expires_in_secs: REWARD_LINK_LIFETIME_SECS,
        }
    }

    pub open spec fn on_confirm_spec(self, changed: Result<bool, ()>) -> (
        ConfirmSession,
        ConfirmAction,
    ) {
        match changed {
            Ok(true) => (
                ConfirmSession { phase: ConfirmPhase::AwaitPublish, ..self },
                ConfirmAction::PublishConfirmed {
                    subscription_id: self.claims.subscription_id,
                    campaign_id: self.claims.campaign_id,
                },
            ),
            Ok(false) => (
                ConfirmSession { phase: ConfirmPhase::AwaitPresign, ..self },
                self.presign_action(),
            ),
            Err(_) => (
                ConfirmSession { phase: ConfirmPhase::Finished, ..self },
                respond(Err(ConfirmError::Unavailable)),
            ),
        }
    }

    pub open spec fn on_published_spec(self) -> (ConfirmSession, ConfirmAction) {
        (ConfirmSession { phase: ConfirmPhase::AwaitPresign, ..self }, self.presign_action())
    }

    pub open spec fn on_presigned_spec(self, link: Result<String, ()>) -> (
        ConfirmSession,
        ConfirmAction,
    ) {
        (
            ConfirmSession { phase: ConfirmPhase::Finished, ..self },
            match link {
                Ok(url) => respond(Ok(url)),
                Err(_) => respond(Err(ConfirmError::Unavailable)),
            },
        )
    }

    /// Validates the token at `now`; on success the next step is the
    /// campaign lookup named in the claims.
    pub fn start(decoded: Option<SubscribeConfirmationTokenClaims>, now: u64) -> (r: Result<
        (ConfirmSession, ConfirmAction),
        ConfirmError,
    >)
        ensures
            r == Self::start_spec(decoded, now),
    {
        match check_token(decoded, now) {
            Ok(c) => {
                let campaign_id = c.campaign_id.clone();
                Ok(
                    (
                        ConfirmSession {
                            claims: c,
                            now,
                            reward_key: None,
                            phase: ConfirmPhase::AwaitCampaign,
                        },
                        ConfirmAction::LookupCampaign { campaign_id },
                    ),
                )
            },
            Err(e) => Err(e),
        }
    }

    /// Takes the campaign lookup: `Ok(Some(reward_key))`, `Ok(None)` for an
    /// unknown campaign, or `Err(())` when the store could not be reached.
    pub fn on_campaign(&mut self, lookup: Result<Option<String>, ()>) -> (r: ConfirmAction)
        requires
            old(self).phase == ConfirmPhase::AwaitCampaign,
        ensures
            (*final(self), r) == old(self).on_campaign_spec(lookup),
    {
        match lookup {
            Ok(Some(key)) => {
                self.reward_key = Some(key);
                self.phase = ConfirmPhase::AwaitConfirm;
                ConfirmAction::ConfirmSubscription {
                    subscription_id: self.claims.subscription_id.clone(),
                    now: self.now,
                }
            },
            Ok(None) => {
                self.phase = ConfirmPhase::Finished;
                ConfirmAction::Respond { outcome: Err(ConfirmError::InvalidCampaign) }
            },
            Err(_) => {
                self.phase = ConfirmPhase::Finished;
                ConfirmAction::Respond { outcome: Err(ConfirmError::Unavailable) }
            },
        }
    }

    /// Takes the result of the conditional write: `Ok(true)` when it changed
    /// the record, `Ok(false)` when it was already confirmed. The event is
    /// published only after a write that changed the record.
    pub fn on_confirm(&mut self, changed: Result<bool, ()>) -> (r: ConfirmAction)
        requires
            old(self).phase == ConfirmPhase::AwaitConfirm,
            old(self).reward_key.is_some(),
        ensures
            (*final(self), r) == old(self).on_confirm_spec(changed),
    {
        match changed {
            Ok(true) => {
                self.phase = ConfirmPhase::AwaitPublish;
                ConfirmAction::PublishConfirmed {
                    subscription_id: self.claims.subscription_id.clone(),
                    campaign_id: self.claims.campaign_id.clone(),
                }
            },
            Ok(false) => {
                self.phase = ConfirmPhase::AwaitPresign;
                ConfirmAction::PresignReward {
                    reward_key: self.reward_key.clone().unwrap(),
                    expires_in_secs: REWARD_LINK_LIFETIME_SECS,
                }
            },
            Err(_) => {
                self.phase = ConfirmPhase::Finished;
                ConfirmAction::Respond { outcome: Err(ConfirmError::Unavailable) }
            },
        }
    }

    /// The event was published; the reward link comes next.
    pub fn on_published(&mut self) -> (r: ConfirmAction)
        requires
            old(self).phase == ConfirmPhase::AwaitPublish,
            old(self).reward_key.is_some(),
        ensures
            (*final(self), r) == old(self).on_published_spec(),
    {
        self.phase = ConfirmPhase::AwaitPresign;
        ConfirmAction::PresignReward {
            reward_key: self.reward_key.clone().unwrap(),
            expires_in_secs: REWARD_LINK_LIFETIME_SECS,
        }
    }

    /// Takes the presigned link, or `Err(())` when presigning failed.
    pub fn on_presigned(&mut self, link: Result<String, ()>) -> (r: ConfirmAction)
        requires
            old(self).phase == ConfirmPhase::AwaitPresign,
        ensures
            (*final(self), r) == old(self).on_presigned_spec(link),
    {
        self.phase = ConfirmPhase::Finished;
        match link {
            Ok(url) => ConfirmAction::Respond { outcome: Ok(url) },
            Err(_) => ConfirmAction::Respond { outcome: Err(ConfirmError::Unavailable) },
        }
    }
}

/// The response carried by a `Respond` action.
pub open spec fn outcome_of(a: ConfirmAction) -> Option<Result<String, ConfirmError>> {
    match a {
        ConfirmAction::Respond { outcome } => Some(outcome),
        _ => None,
    }
}

/// One confirmation request served from start to finish with every outside
/// call succeeding: the campaign has reward `reward_key`, the conditional
/// write acts on `record` (the subscription the token names), and presigning
/// yields `link`. Gives the record afterwards, whether the confirmed event
/// was published, and the response.
pub open spec fn serve_spec(
    decoded: Option<SubscribeConfirmationTokenClaims>,
    now: u64,
    reward_key: String,
    record: Subscription,
    link: String,
) -> (Subscription, bool, Option<Result<String, ConfirmError>>) {
    match ConfirmSession::start_spec(decoded, now) {
        Err(e) => (record, false, Some(Err(e))),
        Ok((s0, _)) => {
            let (s1, _) = s0.on_campaign_spec(Ok(Some(reward_key)));
            let (after, changed) = record.confirmed_spec(now);
            let (s2, _) = s1.on_confirm_spec(Ok(changed));
            let s3 = if changed {
                s2.on_published_spec().0
            } else {
                s2
            };
            (after, changed, outcome_of(s3.on_presigned_spec(Ok(link)).1))
        },
    }
}

/// Claims minted at `now` for `ttl` seconds (with `now + ttl` in range) pass
/// the verifier's token check exactly at the times in `[now, now + ttl)`.
pub proof fn lemma_token_window(
    claims: SubscribeConfirmationTokenClaims,
    now: u64,
    ttl: u64,
    t: u64,
)
    requires
        now + ttl <= u64::MAX,
        claims.nbf == now,
        claims.exp == crate::claims::saturating_sum(now, ttl),
    ensures
        check_token_spec(Some(claims), t) is Ok <==> (now <= t && t < now + ttl),
        ConfirmSession::start_spec(Some(claims), t) is Ok <==> (now <= t && t < now + ttl),
{
}

/// A token that fails its signature check (`None`) is answered exactly as a
/// well-signed token outside its validity window: the same error, and no
/// step beyond it.
pub proof fn lemma_tampered_like_expired(claims: SubscribeConfirmationTokenClaims, now: u64)
    requires
        !claims.valid_at(now),
    ensures
        check_token_spec(None, now) == check_token_spec(Some(claims), now),
        ConfirmSession::start_spec(None, now) == ConfirmSession::start_spec(Some(claims), now),
        check_token_spec(None, now) == Err::<SubscribeConfirmationTokenClaims, ConfirmError>(
            ConfirmError::InvalidToken,
        ),
{
}

/// Serving the same valid token twice: the first request leaves the record
/// confirmed (publishing the event only if it was pending), the second
/// changes nothing and publishes nothing, and both answer with a redirect.
pub proof fn lemma_confirm_twice(
    claims: SubscribeConfirmationTokenClaims,
    now1: u64,
    now2: u64,
    reward_key: String,
    record: Subscription,
    link1: String,
    link2: String,
)
    requires
        claims.valid_at(now1),
        claims.valid_at(now2),
        record.subscription_id == claims.subscription_id,
        record.wf(),
    ensures
        ({
            let first = serve_spec(Some(claims), now1, reward_key, record, link1);
            let second = serve_spec(Some(claims), now2, reward_key, first.0, link2);
            &&& first.0.status == SubscriptionStatus::Confirmed
            &&& first.0.wf()
            &&& first.1 == (record.status == SubscriptionStatus::Pending)
            &&& first.2 == Some(Ok::<String, ConfirmError>(link1))
            &&& second.0 == first.0
            &&& !second.1
            &&& second.2 == Some(Ok::<String, ConfirmError>(link2))
        }),
{
}

/// Serves the requests `reqs` in order, each a decoded token and the time it
/// arrives, against one subscription record, every outside call succeeding.
/// Gives the final record and how many times the confirmed event was
/// published.
pub open spec fn serve_all(
    record: Subscription,
    reqs: Seq<(Option<SubscribeConfirmationTokenClaims>, u64)>,
    reward_key: String,
    link: String,
) -> (Subscription, nat)
    decreases reqs.len(),
{
    if reqs.len() == 0 {
        (record, 0)
    } else {
        let r = serve_spec(reqs[0].0, reqs[0].1, reward_key, record, link);
        let rest = serve_all(r.0, reqs.drop_first(), reward_key, link);
        (rest.0, rest.1 + if r.1 {
            1nat
        } else {
            0nat
        })
    }
}

/// However many tokens were minted for a subscription (one per delivery of
/// its job) and however often they are used, the confirmed event is
/// published at most once, and never for a subscription confirmed already.
pub proof fn lemma_published_at_most_once(
    record: Subscription,
    reqs: Seq<(Option<SubscribeConfirmationTokenClaims>, u64)>,
    reward_key: String,
    link: String,
)
    ensures
        serve_all(record, reqs, reward_key, link).1 <= 1,
        record.status == SubscriptionStatus::Confirmed ==> serve_all(
            record,
            reqs,
            reward_key,
            link,
        ).1 == 0,
        record.status == SubscriptionStatus::Confirmed ==> serve_all(
            record,
            reqs,
            reward_key,
            link,
        ).0 == record,
    decreases reqs.len(),
{
    if reqs.len() > 0 {
        let r = serve_spec(reqs[0].0, reqs[0].1, reward_key, record, link);
        lemma_published_at_most_once(r.0, reqs.drop_first(), reward_key, link);
    }
}

} // verus!
