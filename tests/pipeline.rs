use jsonwebtoken::{decode, encode, Algorithm, DecodingKey, EncodingKey, Header, Validation};
use subscription_core::claims::{SubscribeConfirmationTokenClaims, SubscribeEventPayload};
use subscription_core::confirm::{check_token, ConfirmAction, ConfirmError, ConfirmPhase, ConfirmSession, REWARD_LINK_LIFETIME_SECS};
use subscription_core::dispatch::{
    batch_item_failures, confirmation_email, confirmation_url, plan_job, JobOutcome, JobPlan,
    JobReport,
};
use subscription_core::form::create_form;
use subscription_core::intake::{IntakeAction, IntakeError, IntakePhase, IntakeSession};
use subscription_core::sam_env::{env_fields, resource_belongs_to, sam_env_source, select_resource, SamEnvError, TemplateResource};
use subscription_core::subscription::{Subscription, SubscriptionStatus};
use subscription_core::CONFIRMATION_TOKEN_LIFETIME_SECS;

const SECRET: &[u8] = b"test-signing-secret";

fn claims(nbf: u64, exp: u64) -> SubscribeConfirmationTokenClaims {
    SubscribeConfirmationTokenClaims {
        subscription_id: "sub1".to_string(),
        campaign_id: "camp1".to_string(),
        email: "a@b.com".to_string(),
        nbf,
        iat: nbf,
        exp,
    }
}

fn sign(c: &SubscribeConfirmationTokenClaims) -> String {
    let mut m = serde_json::Map::new();
    m.insert("subscription_id".to_string(), serde_json::Value::from(c.subscription_id.clone()));
    m.insert("campaign_id".to_string(), serde_json::Value::from(c.campaign_id.clone()));
    m.insert("email".to_string(), serde_json::Value::from(c.email.clone()));
    m.insert("nbf".to_string(), serde_json::Value::from(c.nbf));
    m.insert("iat".to_string(), serde_json::Value::from(c.iat));
    m.insert("exp".to_string(), serde_json::Value::from(c.exp));
    encode(&Header::default(), &serde_json::Value::Object(m), &EncodingKey::from_secret(SECRET))
        .unwrap()
}

/// Checks the signature only; the time window is the library's to check.
fn verify_signature(token: &str) -> Option<SubscribeConfirmationTokenClaims> {
    let mut validation = Validation::new(Algorithm::HS256);
    validation.validate_exp = false;
    validation.validate_nbf = false;
    validation.required_spec_claims.clear();
    let data =
        decode::<serde_json::Value>(token, &DecodingKey::from_secret(SECRET), &validation).ok()?;
    let v = data.claims;
    Some(SubscribeConfirmationTokenClaims {
        subscription_id: v.get("subscription_id")?.as_str()?.to_string(),
        campaign_id: v.get("campaign_id")?.as_str()?.to_string(),
        email: v.get("email")?.as_str()?.to_string(),
        nbf: v.get("nbf")?.as_u64()?,
        iat: v.get("iat")?.as_u64()?,
        exp: v.get("exp")?.as_u64()?,
    })
}

fn pending(id: &str) -> Subscription {
    Subscription::pending(id.to_string(), "camp1".to_string(), "a@b.com".to_string(), "1.2.3.4".to_string())
}

/// Runs the verifier on a decoded token against `record`, playing the store.
fn serve(
    decoded: Option<SubscribeConfirmationTokenClaims>,
    now: u64,
    campaign: Option<&str>,
    record: &mut Subscription,
    published: &mut u32,
) -> Result<String, ConfirmError> {
    let (mut session, mut action) = ConfirmSession::start(decoded, now)?;
    loop {
        action = match action {
            ConfirmAction::LookupCampaign { campaign_id } => {
                assert_eq!(campaign_id, "camp1");
                session.on_campaign(Ok(campaign.map(|k| k.to_string())))
            }
            ConfirmAction::ConfirmSubscription { subscription_id, now } => {
                assert_eq!(subscription_id, record.subscription_id);
                let changed = record.confirm(now);
                session.on_confirm(Ok(changed))
            }
            ConfirmAction::PublishConfirmed { .. } => {
                *published += 1;
                session.on_published()
            }
            ConfirmAction::PresignReward { reward_key, expires_in_secs } => {
                assert!(expires_in_secs <= 60);
                session.on_presigned(Ok(format!("https://bucket/{reward_key}?X-Amz-Expires={expires_in_secs}")))
            }
            ConfirmAction::Respond { outcome } => {
                assert_eq!(session.phase, ConfirmPhase::Finished);
                return outcome;
            }
        }
    }
}

#[test]
fn end_to_end_subscribe_dispatch_confirm() {
    // Intake
    let (mut intake, action) = IntakeSession::start_with_id(
        "camp1".to_string(),
        "a@b.com".to_string(),
        "1.2.3.4".to_string(),
        true,
        "sub1".to_string(),
    )
    .unwrap();
    assert_eq!(action, IntakeAction::LookupCampaign { campaign_id: "camp1".to_string() });
    let record = match intake.on_campaign(Ok(true)) {
        IntakeAction::PutSubscription { record } => record,
        other => panic!("unexpected {:?}", other),
    };
    assert_eq!(record.status, SubscriptionStatus::Pending);
    assert_eq!(record.subscription_id, "sub1");
    let job = match intake.on_put(true) {
        IntakeAction::EnqueueJob { job } => job,
        other => panic!("unexpected {:?}", other),
    };
    assert_eq!(job.subscription_id, record.subscription_id);
    assert_eq!(
        intake.on_enqueue(true),
        IntakeAction::Respond { outcome: Ok("sub1".to_string()) }
    );
    assert_eq!(intake.phase, IntakePhase::Finished);

    // Dispatcher
    let now: u64 = 1_700_000_000;
    let claims = match plan_job(job, Ok(Some(record.status)), now, CONFIRMATION_TOKEN_LIFETIME_SECS) {
        JobPlan::Send { claims } => claims,
        other => panic!("unexpected {:?}", other),
    };
    assert_eq!(claims.nbf, now);
    assert_eq!(claims.exp, now + 86400);
    let token = sign(&claims);
    let mail = confirmation_email("a@b.com", "https://x.test/confirm", &token);
    assert_eq!(mail.to_address, "a@b.com");
    let link = format!("https://x.test/confirm?token={token}");
    assert!(mail.text_body.ends_with(&link));
    let received = link.split("?token=").nth(1).unwrap();

    // Verifier
    let mut store = record;
    let mut published = 0;
    let out = serve(verify_signature(received), now + 10, Some("reward.pdf"), &mut store, &mut published);
    assert_eq!(out, Ok("https://bucket/reward.pdf?X-Amz-Expires=60".to_string()));
    assert_eq!(store.status, SubscriptionStatus::Confirmed);
    assert_eq!(store.confirmed_at, Some(now + 10));
    assert_eq!(published, 1);
    assert!(REWARD_LINK_LIFETIME_SECS <= 60);
}

#[test]
fn verifier_twice_is_idempotent() {
    let token = sign(&claims(100, 200));
    let mut record = pending("sub1");
    let mut published = 0;
    let first = serve(verify_signature(&token), 150, Some("r"), &mut record, &mut published);
    assert!(first.is_ok());
    assert_eq!(record.status, SubscriptionStatus::Confirmed);
    let after_first = record.clone();
    let second = serve(verify_signature(&token), 160, Some("r"), &mut record, &mut published);
    assert!(second.is_ok());
    assert_eq!(record, after_first);
    assert_eq!(record.confirmed_at, Some(150));
    assert_eq!(published, 1);
}

#[test]
fn token_window_bounds() {
    let c = claims(100, 200);
    assert!(check_token(Some(c.clone()), 99).is_err());
    assert!(check_token(Some(c.clone()), 100).is_ok());
    assert!(check_token(Some(c.clone()), 199).is_ok());
    assert_eq!(check_token(Some(c.clone()), 200), Err(ConfirmError::InvalidToken));
    assert_eq!(check_token(None, 150), Err(ConfirmError::InvalidToken));
}

#[test]
fn tampered_token_rejected_like_expired() {
    let token = sign(&claims(100, 200));
    let mut bytes = token.into_bytes();
    let last = bytes.len() - 2;
    bytes[last] = if bytes[last] == b'A' { b'B' } else { b'A' };
    let tampered = String::from_utf8(bytes).unwrap();
    let decoded = verify_signature(&tampered);
    assert!(decoded.is_none());
    let mut record = pending("sub1");
    let mut published = 0;
    let tampered_out = serve(decoded, 150, Some("r"), &mut record, &mut published);
    let expired_token = sign(&claims(100, 200));
    let expired_out = serve(verify_signature(&expired_token), 250, Some("r"), &mut record, &mut published);
    assert_eq!(tampered_out, Err(ConfirmError::InvalidToken));
    assert_eq!(tampered_out, expired_out);
    assert_eq!(record.status, SubscriptionStatus::Pending);
    assert_eq!(published, 0);
}

#[test]
fn verifier_unknown_campaign() {
    let mut record = pending("sub1");
    let mut published = 0;
    let out = serve(Some(claims(100, 200)), 150, None, &mut record, &mut published);
    assert_eq!(out, Err(ConfirmError::InvalidCampaign));
    assert_eq!(record.status, SubscriptionStatus::Pending);
}

#[test]
fn verifier_store_failures() {
    let (mut s, _) = ConfirmSession::start(Some(claims(100, 200)), 150).unwrap();
    assert_eq!(s.on_campaign(Err(())), ConfirmAction::Respond { outcome: Err(ConfirmError::Unavailable) });
    let (mut s, _) = ConfirmSession::start(Some(claims(100, 200)), 150).unwrap();
    s.on_campaign(Ok(Some("k".to_string())));
    assert_eq!(s.on_confirm(Err(())), ConfirmAction::Respond { outcome: Err(ConfirmError::Unavailable) });
    let (mut s, _) = ConfirmSession::start(Some(claims(100, 200)), 150).unwrap();
    s.on_campaign(Ok(Some("k".to_string())));
    assert_eq!(
        s.on_confirm(Ok(false)),
        ConfirmAction::PresignReward { reward_key: "k".to_string(), expires_in_secs: 60 }
    );
    assert_eq!(s.on_presigned(Err(())), ConfirmAction::Respond { outcome: Err(ConfirmError::Unavailable) });
}

#[test]
fn dispatcher_redelivery_confirms_once() {
    let job = SubscribeEventPayload {
        subscription_id: "sub1".to_string(),
        campaign_id: "camp1".to_string(),
        email: "a@b.com".to_string(),
    };
    let mut record = pending("sub1");
    let mut published = 0;
    let mut tokens = Vec::new();
    for now in [1000u64, 1001u64] {
        if let JobPlan::Send { claims } = plan_job(job.clone(), Ok(Some(record.status)), now, 3600) {
            tokens.push(sign(&claims));
        }
    }
    assert_eq!(tokens.len(), 2);
    let mut ok = 0;
    for t in &tokens {
        if serve(verify_signature(t), 1500, Some("r"), &mut record, &mut published).is_ok() {
            ok += 1;
        }
    }
    assert_eq!(ok, 2);
    assert_eq!(published, 1);
    assert_eq!(plan_job(job.clone(), Ok(Some(record.status)), 2000, 3600), JobPlan::Skip);
    assert_eq!(plan_job(job.clone(), Ok(None), 2000, 3600), JobPlan::Skip);
    assert_eq!(plan_job(job, Err(()), 2000, 3600), JobPlan::Fail);
}

#[test]
fn intake_invalid_email_has_no_actions() {
    let r = IntakeSession::start("camp1".to_string(), "not-an-email".to_string(), "ip".to_string(), false);
    assert_eq!(r.unwrap_err(), IntakeError::InvalidEmail);
}

#[test]
fn intake_generates_fresh_ids() {
    let (a, _) = IntakeSession::start("camp1".to_string(), "a@b.com".to_string(), "ip".to_string(), true).unwrap();
    let (b, _) = IntakeSession::start("camp1".to_string(), "a@b.com".to_string(), "ip".to_string(), true).unwrap();
    assert!(!a.record.subscription_id.is_empty());
    assert_ne!(a.record.subscription_id, b.record.subscription_id);
    assert_eq!(a.record.status, SubscriptionStatus::Pending);
    assert_eq!(a.phase, IntakePhase::AwaitCampaign);
}

#[test]
fn intake_unknown_campaign_and_store_failures() {
    let start = || {
        IntakeSession::start_with_id("c".to_string(), "a@b.com".to_string(), "ip".to_string(), true, "s".to_string())
            .unwrap()
            .0
    };
    let mut s = start();
    assert_eq!(s.on_campaign(Ok(false)), IntakeAction::Respond { outcome: Err(IntakeError::UnknownCampaign) });
    let mut s2 = start();
    assert_eq!(s2.on_campaign(Err(())), IntakeAction::Respond { outcome: Err(IntakeError::StoreUnavailable) });
    let mut s3 = start();
    s3.on_campaign(Ok(true));
    assert_eq!(s3.on_put(false), IntakeAction::Respond { outcome: Err(IntakeError::StoreUnavailable) });
    assert_eq!(s3.phase, IntakePhase::Finished);
}

#[test]
fn intake_enqueue_failure_compensates() {
    let (mut s, _) =
        IntakeSession::start_with_id("c".to_string(), "a@b.com".to_string(), "ip".to_string(), true, "s9".to_string())
            .unwrap();
    s.on_campaign(Ok(true));
    s.on_put(true);
    assert_eq!(s.on_enqueue(false), IntakeAction::DeleteSubscription { subscription_id: "s9".to_string() });
    assert_eq!(s.phase, IntakePhase::AwaitDelete);
    assert_eq!(s.on_deleted(), IntakeAction::Respond { outcome: Err(IntakeError::QueueUnavailable) });
}

#[test]
fn claims_new_uses_clock() {
    let c = SubscribeConfirmationTokenClaims::new("s".to_string(), "c".to_string(), "e".to_string(), 86400);
    assert!(c.nbf > 1_600_000_000);
    assert_eq!(c.iat, c.nbf);
    assert_eq!(c.exp, c.nbf + 86400);
    assert!(c.is_valid_at(c.nbf));
    assert!(!c.is_valid_at(c.exp));
}

#[test]
fn claims_expiry_saturates() {
    let c = SubscribeConfirmationTokenClaims::issued_at("s".to_string(), "c".to_string(), "e".to_string(), u64::MAX - 1, 10);
    assert_eq!(c.exp, u64::MAX);
    let p = c.payload();
    assert_eq!(p.subscription_id, "s");
    assert_eq!(p.campaign_id, "c");
    assert_eq!(p.email, "e");
}

#[test]
fn confirm_transition() {
    let mut s = pending("x");
    assert!(!s.is_confirmed());
    assert!(s.confirm(42));
    assert!(s.is_confirmed());
    assert_eq!(s.confirmed_at, Some(42));
    assert!(!s.confirm(43));
    assert_eq!(s.confirmed_at, Some(42));
    assert_eq!(s.duplicate(), s);
}

#[test]
fn email_texts() {
    assert_eq!(confirmation_url("https://e/c", "abc"), "https://e/c?token=abc");
    assert_eq!(confirmation_url("", ""), "?token=");
    let m = confirmation_email("u@v.w", "https://e/c", "tok");
    assert_eq!(m.subject, "Please confirm your subscription");
    assert_eq!(m.text_body, "Click here to confirm your subscription: https://e/c?token=tok");
    assert_eq!(m.html_body, "Click <a href=\"https://e/c?token=tok\">here</a> to confirm your subscription");
}

#[test]
fn batch_failures_reported() {
    let r = |id: &str, outcome: JobOutcome| JobReport { message_id: id.to_string(), outcome };
    let reports = vec![
        r("m1", JobOutcome::Sent),
        r("m2", JobOutcome::Failed),
        r("m3", JobOutcome::Skipped),
        r("m4", JobOutcome::Failed),
    ];
    assert_eq!(batch_item_failures(&reports), vec!["m2".to_string(), "m4".to_string()]);
    assert!(batch_item_failures(&Vec::new()).is_empty());
}

#[test]
fn form_page() {
    let page = create_form("https://h/p");
    assert!(page.contains("<form action=\"https://h/p\" method=\"post\">"));
    assert!(page.contains("<title>Subscribe to our newsletter</title>"));
    assert!(page.trim_end().ends_with("</html>"));
}

fn resource(uri: Option<&str>, vars: Option<&[&str]>) -> TemplateResource {
    TemplateResource {
        code_uri: uri.map(|u| u.to_string()),
        env_var_names: vars.map(|v| v.iter().map(|s| s.to_string()).collect()),
    }
}

#[test]
fn sam_env_generates_struct() {
    let resources = vec![
        resource(Some("lambdas/subscribe"), Some(&["A"])),
        resource(Some("lambdas/confirm_subscription"), Some(&["CAMPAIGNS_TABLE", "Token_Secret"])),
        resource(None, None),
    ];
    let out = sam_env_source(Some(resources), "confirm_subscription", "SamEnv").unwrap();
    assert_eq!(
        out,
        "\nuse envconfig::Envconfig;\n\n#[derive(Debug, Envconfig)]\npub struct SamEnv {\n    \
         \n#[envconfig(from = \"CAMPAIGNS_TABLE\")]\ncampaigns_table: String,\n\
         \n#[envconfig(from = \"Token_Secret\")]\ntoken_secret: String,\n}"
    );
}

#[test]
fn sam_env_without_variables() {
    let resources = vec![resource(Some("x/pkg"), None)];
    let out = sam_env_source(Some(resources), "pkg", "E").unwrap();
    assert_eq!(out, "\nuse envconfig::Envconfig;\n\n#[derive(Debug, Envconfig)]\npub struct E {\n    \n}");
}

#[test]
fn sam_env_errors() {
    assert_eq!(sam_env_source(None, "pkg", "E"), Err(SamEnvError::MissingResources));
    let none = vec![resource(Some("x/other"), None), resource(Some("xpkg"), None)];
    assert_eq!(sam_env_source(Some(none), "pkg", "E"), Err(SamEnvError::ResourceCount(0)));
    let two = vec![resource(Some("a/pkg"), None), resource(Some("b/pkg"), None)];
    assert_eq!(sam_env_source(Some(two), "pkg", "E"), Err(SamEnvError::ResourceCount(2)));
}

#[test]
fn sam_env_selects_resource() {
    let rs = vec![resource(Some("a/one"), None), resource(Some("a/two"), None)];
    assert_eq!(select_resource(&rs, "two"), Ok(1));
    assert!(resource_belongs_to(&rs[0], "one"));
    assert!(!resource_belongs_to(&rs[0], "ne"));
    assert_eq!(env_fields(&vec!["AbC".to_string()]), "\n#[envconfig(from = \"AbC\")]\nabc: String,");
}
