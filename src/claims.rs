use vstd::prelude::*;

verus! {

/// Body of a confirmation job: which subscription to confirm, for which
/// campaign, and where to send the confirmation email.
#[derive(Debug, Clone, PartialEq, Eq)]
pub struct SubscribeEventPayload {
    pub subscription_id: String,
    pub campaign_id: String,
    pub email: String,
}

/// Claims carried by a signed confirmation token. All times are seconds since
/// the Unix epoch.
#[derive(Debug, Clone, PartialEq, Eq)]
pub struct SubscribeConfirmationTokenClaims {
    pub subscription_id: String,
    pub campaign_id: String,
    pub email: String,
    pub nbf: u64,
    pub iat: u64,
    pub exp: u64,
}

/// `a + b`, or `u64::MAX` where the sum does not fit.
pub open spec fn saturating_sum(a: u64, b: u64) -> u64 {
    if a + b <= u64::MAX {
        (a + b) as u64
    } else {
        u64::MAX
    }
}

/// Reads the system clock through `std::time::SystemTime::now`, as whole
/// seconds since the Unix epoch (0 for a clock set before the epoch). Nothing
/// is promised of the value.
#[verifier::external_body]
fn unix_time_now() -> (r: u64) {
    std::time::SystemTime::now()
        .duration_since(std::time::UNIX_EPOCH)
        .map(|d| d.as_secs())
        .unwrap_or(0)
}

impl SubscribeConfirmationTokenClaims {
    /// Mints claims valid from the current time for `expire_in_seconds`.
    pub fn new(
        subscription_id: String,
        campaign_id: String,
        email: String,
        expire_in_seconds: u64,
    ) -> (r: Self)
        ensures
            r.subscription_id == subscription_id,
            r.campaign_id == campaign_id,
            r.email == email,
            r.iat == r.nbf,
            r.exp == saturating_sum(r.nbf, expire_in_seconds),
    {
        let now = unix_time_now();
        Self::issued_at(subscription_id, campaign_id, email, now, expire_in_seconds)
    }

    /// Mints claims issued at `now`, valid from `now` for `expire_in_seconds`
    /// (the expiry saturates at `u64::MAX`).
    pub fn issued_at(
        subscription_id: String,
        campaign_id: String,
        email: String,
        now: u64,
        expire_in_seconds: u64,
    ) -> (r: Self)
        ensures
            r.subscription_id == subscription_id,
            r.campaign_id == campaign_id,
            r.email == email,
            r.nbf == now,
            r.iat == now,
            r.exp == saturating_sum(now, expire_in_seconds),
    {
        Self {
            subscription_id,
            campaign_id,
            email,
            nbf: now,
            iat: now,
            exp: now.saturating_add(expire_in_seconds),
        }
    }

    /// The claims admit an action at time `now`: `nbf <= now < exp`.
    pub open spec fn valid_at(&self, now: u64) -> bool {
        self.nbf <= now && now < self.exp
    }

    /// Whether the claims admit an action at time `now`.
    pub fn is_valid_at(&self, now: u64) -> (r: bool)
        ensures
            r == self.valid_at(now),
    {
        self.nbf <= now && now < self.exp
    }

    /// The job that these claims were minted for.
    pub fn payload(&self) -> (r: SubscribeEventPayload)
        ensures
            r.subscription_id == self.subscription_id,
            r.campaign_id == self.campaign_id,
            r.email == self.email,
    {
        SubscribeEventPayload {
            subscription_id: self.subscription_id.clone(),
            campaign_id: self.campaign_id.clone(),
            email: self.email.clone(),
        }
    }
}

} // verus!
