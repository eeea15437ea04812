use vstd::prelude::*;
use vstd::string::*;

use crate::claims::{saturating_sum, SubscribeConfirmationTokenClaims, SubscribeEventPayload};
use crate::subscription::SubscriptionStatus;

verus! {

/// Subject line of the confirmation email.
pub open spec fn subject_text() -> Seq<char> {
    "Please confirm your subscription"@
}

/// The confirmation link: `{endpoint}?token={token}`.
pub open spec fn confirmation_url_spec(endpoint: Seq<char>, token: Seq<char>) -> Seq<char> {
    endpoint + "?token="@ + token
}

/// Plain-text body of the confirmation email for link `url`.
pub open spec fn text_body_spec(url: Seq<char>) -> Seq<char> {
    "Click here to confirm your subscription: "@ + url
}

/// HTML body of the confirmation email for link `url`.
pub open spec fn html_body_spec(url: Seq<char>) -> Seq<char> {
    "Click <a href=\""@ + url + "\">here</a> to confirm your subscription"@
}

/// The confirmation email for one job.
#[derive(Debug, Clone, PartialEq, Eq)]
pub struct ConfirmationEmail {
    pub to_address: String,
    pub subject: String,
    pub text_body: String,
    pub html_body: String,
}

/// Builds the confirmation link for a signed token.
pub fn confirmation_url(endpoint: &str, token: &str) -> (r: String)
    ensures
        r@ == confirmation_url_spec(endpoint@, token@),
{
    let mut url = String::from_str(endpoint);
    url.append("?token=");
    url.append(token);
    url
}

/// Builds the confirmation email sent to `to_address`, whose link carries
/// `token`.
pub fn confirmation_email(to_address: &str, endpoint: &str, token: &str) -> (r:
    ConfirmationEmail)
    ensures
        r.to_address@ == to_address@,
        r.subject@ == subject_text(),
        r.text_body@ == text_body_spec(confirmation_url_spec(endpoint@, token@)),
        r.html_body@ == html_body_spec(confirmation_url_spec(endpoint@, token@)),
{
    let url = confirmation_url(endpoint, token);
    let mut text_body = String::from_str("Click here to confirm your subscription: ");
    text_body.append(url.as_str());
    let mut html_body = String::from_str("Click <a href=\"");
    html_body.append(url.as_str());
    html_body.append("\">here</a> to confirm your subscription");
    ConfirmationEmail {
        to_address: String::from_str(to_address),
        subject: String::from_str("Please confirm your subscription"),
        text_body,
        html_body,
    }
}

/// What to do with one delivered confirmation job.
#[derive(Debug, PartialEq, Eq)]
pub enum JobPlan {
    /// Nothing to send: the subscription is confirmed already, or gone.
    /// The job is acknowledged.
    Skip,
    /// Sign these claims and send the confirmation email.
    Send { claims: SubscribeConfirmationTokenClaims },
    /// The job could not be handled now and is reported as failed.
    Fail,
}

/// Decides what to do with a job, given the status lookup of its
/// subscription (`Err(())` when the store could not be reached), at time
/// `now`, for tokens valid `lifetime_secs` seconds.
pub open spec fn plan_job_spec(
    job: SubscribeEventPayload,
    status: Result<Option<SubscriptionStatus>, ()>,
    now: u64,
    lifetime_secs: u64,
) -> JobPlan {
    match status {
        Ok(Some(SubscriptionStatus::Pending)) => JobPlan::Send {
            claims: SubscribeConfirmationTokenClaims {
                subscription_id: job.subscription_id,
                campaign_id: job.campaign_id,
                email: job.email,
                nbf: now,
                iat: now,
                exp: saturating_sum(now, lifetime_secs),
            },
        },
        Ok(_) => JobPlan::Skip,
        Err(_) => JobPlan::Fail,
    }
}

/// Plans one job. A redelivered job for a subscription that is confirmed by
/// now is skipped; for a pending one a fresh token is minted, which is safe
/// because tokens are independent of each other.
pub fn plan_job(
    job: SubscribeEventPayload,
    status: Result<Option<SubscriptionStatus>, ()>,
    now: u64,
    lifetime_secs: u64,
) -> (r: JobPlan)
    ensures
        r == plan_job_spec(job, status, now, lifetime_secs),
{
    match status {
        Ok(Some(SubscriptionStatus::Pending)) => JobPlan::Send {
            claims: SubscribeConfirmationTokenClaims::issued_at(
                job.subscription_id,
                job.campaign_id,
                job.email,
                now,
                lifetime_secs,
            ),
        },
        Ok(_) => JobPlan::Skip,
        Err(_) => JobPlan::Fail,
    }
}

/// How the handling of one job in a batch ended.
#[derive(Debug, Clone, Copy, PartialEq, Eq, Structural)]
pub enum JobOutcome {
    Sent,
    Skipped,
    Failed,
}

/// The outcome of one job, with the id of the queue message that carried it.
#[derive(Debug, Clone, PartialEq, Eq)]
pub struct JobReport {
    pub message_id: String,
    pub outcome: JobOutcome,
}

/// The message ids of the failed jobs, in batch order.
pub open spec fn failed_ids(reports: Seq<JobReport>) -> Seq<Seq<char>>
    decreases reports.len(),
{
    if reports.len() == 0 {
        Seq::empty()
    } else {
        let rest = failed_ids(reports.drop_last());
        if reports.last().outcome == JobOutcome::Failed {
            rest.push(reports.last().message_id@)
        } else {
            rest
        }
    }
}

/// The ids of the messages to report as failed, so that only they are
/// delivered again.
pub fn batch_item_failures(reports: &Vec<JobReport>) -> (r: Vec<String>)
    ensures
        r@.map_values(|s: String| s@) == failed_ids(reports@),
{
    let mut failed: Vec<String> = Vec::new();
    let mut i: usize = 0;
    while i < reports.len()
        invariant
            i <= reports@.len(),
            failed@.map_values(|s: String| s@) == failed_ids(reports@.subrange(0, i as int)),
        decreases reports@.len() - i,
    {
        let report = &reports[i];
        assert(reports@.subrange(0, i as int + 1).drop_last() =~= reports@.subrange(0, i as int));
        if report.outcome == JobOutcome::Failed {
            failed.push(report.message_id.clone());
            assert(failed@.map_values(|s: String| s@) =~= failed_ids(
                reports@.subrange(0, i as int + 1),
            ));
        }
        i = i + 1;
    }
    assert(reports@.subrange(0, reports@.len() as int) =~= reports@);
    failed
}

} // verus!
