use vstd::prelude::*;

verus! {

/// Lifecycle state of a subscription: it starts `Pending` and may become
/// `Confirmed` once.
#[derive(Debug, Clone, Copy, PartialEq, Eq, Structural)]
pub enum SubscriptionStatus {
    Pending,
    Confirmed,
}

/// A subscription record as kept by the subscription store.
#[derive(Debug, Clone, PartialEq, Eq)]
pub struct Subscription {
    pub subscription_id: String,
    pub campaign_id: String,
    pub email: String,
    pub source_ip: String,
    pub status: SubscriptionStatus,
    /// Seconds since the Unix epoch at which the subscription was confirmed.
    pub confirmed_at: Option<u64>,
}

impl Subscription {
    /// Well-formed: a timestamp is present exactly when the subscription is
    /// confirmed.
    pub open spec fn wf(&self) -> bool {
        (self.status == SubscriptionStatus::Confirmed) == self.confirmed_at.is_some()
    }

    /// A fresh, pending subscription.
    pub fn pending(
        subscription_id: String,
        campaign_id: String,
        email: String,
        source_ip: String,
    ) -> (r: Self)
        ensures
            r.subscription_id == subscription_id,
            r.campaign_id == campaign_id,
            r.email == email,
            r.source_ip == source_ip,
            r.status == SubscriptionStatus::Pending,
            r.confirmed_at == None::<u64>,
            r.wf(),
    {
        Subscription {
            subscription_id,
            campaign_id,
            email,
            source_ip,
            status: SubscriptionStatus::Pending,
            confirmed_at: None,
        }
    }

    /// A field-by-field copy of the record.
    pub fn duplicate(&self) -> (r: Self)
        ensures
            r == *self,
    {
        Subscription {
            subscription_id: self.subscription_id.clone(),
            campaign_id: self.campaign_id.clone(),
            email: self.email.clone(),
            source_ip: self.source_ip.clone(),
            status: self.status,
            confirmed_at: self.confirmed_at,
        }
    }

    /// Whether the subscription has been confirmed.
    pub fn is_confirmed(&self) -> (r: bool)
        ensures
            r == (self.status == SubscriptionStatus::Confirmed),
    {
        self.status == SubscriptionStatus::Confirmed
    }

    /// The record after a conditional confirmation at `now`, and whether the
    /// condition (still pending) held.
    pub open spec fn confirmed_spec(self, now: u64) -> (Self, bool) {
        if self.status == SubscriptionStatus::Pending {
            (Subscription { status: SubscriptionStatus::Confirmed, confirmed_at: Some(now), ..self }, true)
        } else {
            (self, false)
        }
    }

    /// Conditional transition from pending to confirmed at `now`. Returns
    /// `true` when this call changed the record; a record that was already
    /// confirmed is left as it is and `false` comes back.
    pub fn confirm(&mut self, now: u64) -> (changed: bool)
        ensures
            (*final(self), changed) == old(self).confirmed_spec(now),
            old(self).wf() ==> final(self).wf(),
    {
        if self.status == SubscriptionStatus::Pending {
            self.status = SubscriptionStatus::Confirmed;
            self.confirmed_at = Some(now);
            true
        } else {
            false
        }
    }
}

/// Confirming twice: the first confirmation of a pending record changes it to
/// confirmed, and the second leaves it unchanged and reports no change.
pub proof fn lemma_confirm_idempotent(s: Subscription, now1: u64, now2: u64)
    requires
        s.wf(),
    ensures
        s.confirmed_spec(now1).0.status == SubscriptionStatus::Confirmed,
        s.confirmed_spec(now1).0.wf(),
        s.confirmed_spec(now1).0.confirmed_spec(now2).0 == s.confirmed_spec(now1).0,
        !s.confirmed_spec(now1).0.confirmed_spec(now2).1,
        s.status == SubscriptionStatus::Pending ==> s.confirmed_spec(now1).1,
{
}

/// The state after a sequence of confirmation attempts at the given times.
pub open spec fn confirm_all(s: Subscription, times: Seq<u64>) -> Subscription
    decreases times.len(),
{
    if times.len() == 0 {
        s
    } else {
        confirm_all(s.confirmed_spec(times[0]).0, times.drop_first())
    }
}

/// How many of a sequence of confirmation attempts changed the record.
pub open spec fn transitions(s: Subscription, times: Seq<u64>) -> nat
    decreases times.len(),
{
    if times.len() == 0 {
        0
    } else {
        (if s.confirmed_spec(times[0]).1 { 1nat } else { 0nat }) + transitions(
            s.confirmed_spec(times[0]).0,
            times.drop_first(),
        )
    }
}

/// However many confirmation attempts reach a subscription, at most one of
/// them changes it, and a confirmed one is never changed.
pub proof fn lemma_confirmed_at_most_once(s: Subscription, times: Seq<u64>)
    ensures
        transitions(s, times) <= 1,
        s.status == SubscriptionStatus::Confirmed ==> transitions(s, times) == 0
            && confirm_all(s, times) == s,
    decreases times.len(),
{
    if times.len() > 0 {
        let next = s.confirmed_spec(times[0]).0;
        lemma_confirmed_at_most_once(next, times.drop_first());
    }
}

} // verus!
