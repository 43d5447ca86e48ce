use ai_policy::engine::AiPolicy;
use ai_policy::types::AIDecision;
use ai_policy::types::Notification;
use ai_policy::types::PolicyError;
use ai_policy::types::Role;
use ai_policy::types::SecurityAudit;

fn b(s: &str) -> Vec<u8> {
    s.as_bytes().to_vec()
}

fn decision(confidence: u64, risk: u64) -> AIDecision {
    AIDecision {
        action_hash: b("act:1"),
        confidence_score: confidence,
        risk_assessment: risk,
        ai_model_version: b("GPZ-94-v1.0"),
        timestamp: 12,
    }
}

fn audit(hash: &str, score: u64) -> SecurityAudit {
    SecurityAudit {
        contract_hash: b(hash),
        vulnerability_score: score,
        ai_analysis: b("analysis"),
        recommendations: b("recommendations"),
        auditor: b("aud1"),
        timestamp: 77,
    }
}

fn engine() -> AiPolicy {
    AiPolicy::init(b("owner"), b("oracle"))
}

#[test]
fn init_defaults() {
    let s = engine();
    let (model, threshold, decisions, audits) = s.get_ai_metrics();
    assert_eq!(model, b("GPZ-94-v1.0"));
    assert_eq!(threshold, 8000);
    assert_eq!(decisions, 0);
    assert_eq!(audits, 0);
    let (confidence, risk) = s.get_security_thresholds();
    assert_eq!(confidence, 8000);
    assert_eq!(risk, 3000);
    assert!(!s.has_role(&b("owner"), &b("admin")));
}

#[test]
fn role_tags_are_canonical() {
    assert_eq!(Role::Admin.tag(), b("admin"));
    assert_eq!(Role::Trader.tag(), b("trader"));
    assert_eq!(Role::Auditor.tag(), b("auditor"));
    assert_eq!(Role::Oracle.tag(), b("oracle"));
    assert_eq!(Role::AIAgent.tag(), b("ai_agent"));
}

#[test]
fn grant_then_revoke() {
    let mut s = engine();
    assert_eq!(s.grant_role(&b("owner"), b("u1"), b("trader")), Ok(()));
    assert!(s.has_role(&b("u1"), &b("trader")));
    assert_eq!(s.revoke_role(&b("owner"), &b("u1"), &b("trader")), Ok(()));
    assert!(!s.has_role(&b("u1"), &b("trader")));
}

#[test]
fn oracle_may_grant_and_revoke() {
    let mut s = engine();
    assert_eq!(s.grant_role(&b("oracle"), b("u1"), b("trader")), Ok(()));
    assert!(s.has_role(&b("u1"), &b("trader")));
    assert_eq!(s.revoke_role(&b("oracle"), &b("u1"), &b("trader")), Ok(()));
    assert!(!s.has_role(&b("u1"), &b("trader")));
}

#[test]
fn grant_and_revoke_reject_other_callers() {
    let mut s = engine();
    assert_eq!(
        s.grant_role(&b("stranger"), b("u1"), b("trader")),
        Err(PolicyError::Unauthorized)
    );
    assert!(!s.has_role(&b("u1"), &b("trader")));
    assert_eq!(s.grant_role(&b("owner"), b("u1"), b("trader")), Ok(()));
    assert_eq!(
        s.revoke_role(&b("stranger"), &b("u1"), &b("trader")),
        Err(PolicyError::Unauthorized)
    );
    assert!(s.has_role(&b("u1"), &b("trader")));
}

#[test]
fn grant_and_revoke_are_idempotent() {
    let mut s = engine();
    assert_eq!(s.grant_role(&b("owner"), b("u1"), b("trader")), Ok(()));
    assert_eq!(s.grant_role(&b("owner"), b("u1"), b("trader")), Ok(()));
    assert!(s.has_role(&b("u1"), &b("trader")));
    // a single revoke removes the role entirely: the second grant was a no-op
    assert_eq!(s.revoke_role(&b("owner"), &b("u1"), &b("trader")), Ok(()));
    assert!(!s.has_role(&b("u1"), &b("trader")));
    // revoking an unheld role is a no-op, not an error
    assert_eq!(s.revoke_role(&b("owner"), &b("u1"), &b("trader")), Ok(()));
    assert!(!s.has_role(&b("u1"), &b("trader")));
}

#[test]
fn grant_with_ai_low_confidence_mutates_nothing() {
    let mut s = engine();
    // the Admin minimum is 9500, so confidence 9000 is rejected
    let r = s.grant_role_with_ai(&b("owner"), b("u1"), Role::Admin, decision(9000, 100));
    assert!(matches!(r, Err(PolicyError::InsufficientConfidence)));
    assert!(!s.has_role(&b("u1"), &b("admin")));
    assert!(s.get_user_ai_history(&b("u1")).is_empty());
}

#[test]
fn grant_with_ai_success_grants_records_and_notifies() {
    let mut s = engine();
    let r = s.grant_role_with_ai(&b("oracle"), b("u1"), Role::Admin, decision(9500, 3000));
    match r {
        Ok(Notification::RoleGrantedAi { user, role, confidence }) => {
            assert_eq!(user, b("u1"));
            assert_eq!(role, b("admin"));
            assert_eq!(confidence, 9500);
        }
        other => panic!("unexpected result: {:?}", other),
    }
    assert!(s.has_role(&b("u1"), &b("admin")));
    let history = s.get_user_ai_history(&b("u1"));
    assert_eq!(history.len(), 1);
    assert_eq!(history[0].confidence_score, 9500);
    assert_eq!(history[0].risk_assessment, 3000);
    assert_eq!(history[0].action_hash, b("act:1"));
    // the grant path records nothing in the global trail
    let (_, _, decisions, _) = s.get_ai_metrics();
    assert_eq!(decisions, 0);
}

#[test]
fn grant_with_ai_per_role_minimums() {
    let mut s = engine();
    let o = b("owner");
    assert!(matches!(
        s.grant_role_with_ai(&o, b("u1"), Role::Oracle, decision(8999, 0)),
        Err(PolicyError::InsufficientConfidence)
    ));
    assert!(s.grant_role_with_ai(&o, b("u1"), Role::Oracle, decision(9000, 0)).is_ok());
    assert!(matches!(
        s.grant_role_with_ai(&o, b("u2"), Role::AIAgent, decision(8499, 0)),
        Err(PolicyError::InsufficientConfidence)
    ));
    assert!(s.grant_role_with_ai(&o, b("u2"), Role::AIAgent, decision(8500, 0)).is_ok());
    assert!(matches!(
        s.grant_role_with_ai(&o, b("u3"), Role::Trader, decision(6999, 0)),
        Err(PolicyError::InsufficientConfidence)
    ));
    assert!(s.grant_role_with_ai(&o, b("u3"), Role::Trader, decision(7000, 0)).is_ok());
    assert!(matches!(
        s.grant_role_with_ai(&o, b("u4"), Role::Auditor, decision(6999, 0)),
        Err(PolicyError::InsufficientConfidence)
    ));
    assert!(s.grant_role_with_ai(&o, b("u4"), Role::Auditor, decision(7000, 0)).is_ok());
    assert!(s.has_role(&b("u1"), &b("oracle")));
    assert!(s.has_role(&b("u2"), &b("ai_agent")));
    assert!(s.has_role(&b("u3"), &b("trader")));
    assert!(s.has_role(&b("u4"), &b("auditor")));
}

#[test]
fn grant_with_ai_excessive_risk() {
    let mut s = engine();
    let r = s.grant_role_with_ai(&b("owner"), b("u1"), Role::Trader, decision(9999, 3001));
    assert!(matches!(r, Err(PolicyError::ExcessiveRisk)));
    assert!(!s.has_role(&b("u1"), &b("trader")));
    assert!(s.get_user_ai_history(&b("u1")).is_empty());
}

#[test]
fn grant_with_ai_unauthorized_caller() {
    let mut s = engine();
    let r = s.grant_role_with_ai(&b("u9"), b("u1"), Role::Trader, decision(10000, 0));
    assert!(matches!(r, Err(PolicyError::Unauthorized)));
    assert!(!s.has_role(&b("u1"), &b("trader")));
}

#[test]
fn plain_grant_then_execute_action() {
    let mut s = engine();
    assert_eq!(s.grant_role(&b("owner"), b("u1"), b("trader")), Ok(()));
    assert!(s.has_role(&b("u1"), &b("trader")));
    let r = s.execute_action(&b("u1"), &b("trader"), b("buy:10"));
    match r {
        Ok(Notification::ActionExecuted { caller, role, action }) => {
            assert_eq!(caller, b("u1"));
            assert_eq!(role, b("trader"));
            assert_eq!(action, b("buy:10"));
        }
        other => panic!("unexpected result: {:?}", other),
    }
    // the same caller lacks the admin role: rejected, nothing emitted
    let r2 = s.execute_action(&b("u1"), &b("admin"), b("x"));
    assert!(matches!(r2, Err(PolicyError::MissingRole)));
}

#[test]
fn execute_with_ai_validation_success() {
    let mut s = engine();
    assert_eq!(s.grant_role(&b("owner"), b("u1"), b("trader")), Ok(()));
    let r = s.execute_with_ai_validation(&b("u1"), b("buy:10"), &b("trader"), decision(8000, 3000));
    match r {
        Ok(Notification::ActionExecutedAi { user, action, confidence }) => {
            assert_eq!(user, b("u1"));
            assert_eq!(action, b("buy:10"));
            assert_eq!(confidence, 8000);
        }
        other => panic!("unexpected result: {:?}", other),
    }
    let (_, _, decisions, _) = s.get_ai_metrics();
    assert_eq!(decisions, 1);
    // the global trail is separate from per-user histories
    assert!(s.get_user_ai_history(&b("u1")).is_empty());
}

#[test]
fn execute_with_ai_validation_excessive_risk_despite_max_confidence() {
    let mut s = engine();
    assert_eq!(s.grant_role(&b("owner"), b("u1"), b("trader")), Ok(()));
    // maxRiskThreshold is 3000 at initialization
    let r = s.execute_with_ai_validation(&b("u1"), b("a"), &b("trader"), decision(10000, 3500));
    assert!(matches!(r, Err(PolicyError::ExcessiveRisk)));
    let (_, _, decisions, _) = s.get_ai_metrics();
    assert_eq!(decisions, 0);
}

#[test]
fn execute_with_ai_validation_low_confidence() {
    let mut s = engine();
    assert_eq!(s.grant_role(&b("owner"), b("u1"), b("trader")), Ok(()));
    let r = s.execute_with_ai_validation(&b("u1"), b("a"), &b("trader"), decision(7999, 0));
    assert!(matches!(r, Err(PolicyError::InsufficientConfidence)));
    let (_, _, decisions, _) = s.get_ai_metrics();
    assert_eq!(decisions, 0);
}

#[test]
fn execute_with_ai_validation_role_checked_first() {
    let mut s = engine();
    // good scores, but the caller holds no role: the role check comes first
    let r = s.execute_with_ai_validation(&b("u1"), b("a"), &b("trader"), decision(10000, 0));
    assert!(matches!(r, Err(PolicyError::MissingRole)));
}

#[test]
fn high_severity_audit_emits_alert_and_submission() {
    let mut s = engine();
    assert_eq!(s.grant_role(&b("owner"), b("aud1"), b("auditor")), Ok(()));
    let r = s.submit_security_audit(&b("aud1"), audit("c1", 8200));
    let ns = r.expect("auditor submission must be accepted");
    assert_eq!(ns.len(), 2);
    match &ns[0] {
        Notification::SecurityAlert { contract_hash, vulnerability_score } => {
            assert_eq!(contract_hash, &b("c1"));
            assert_eq!(*vulnerability_score, 8200);
        }
        other => panic!("unexpected notification: {:?}", other),
    }
    match &ns[1] {
        Notification::AuditSubmitted { contract_hash, vulnerability_score } => {
            assert_eq!(contract_hash, &b("c1"));
            assert_eq!(*vulnerability_score, 8200);
        }
        other => panic!("unexpected notification: {:?}", other),
    }
    let (_, _, _, audits) = s.get_ai_metrics();
    assert_eq!(audits, 1);
}

#[test]
fn low_severity_audit_emits_only_submission() {
    let mut s = engine();
    assert_eq!(s.grant_role(&b("owner"), b("aud1"), b("auditor")), Ok(()));
    let ns = s.submit_security_audit(&b("aud1"), audit("c1", 4000)).unwrap();
    assert_eq!(ns.len(), 1);
    match &ns[0] {
        Notification::AuditSubmitted { contract_hash, vulnerability_score } => {
            assert_eq!(contract_hash, &b("c1"));
            assert_eq!(*vulnerability_score, 4000);
        }
        other => panic!("unexpected notification: {:?}", other),
    }
}

#[test]
fn audit_alert_threshold_boundary() {
    let mut s = engine();
    assert_eq!(s.grant_role(&b("owner"), b("aud1"), b("auditor")), Ok(()));
    // exactly 7000 is not above the alert bound
    let ns = s.submit_security_audit(&b("aud1"), audit("c1", 7000)).unwrap();
    assert_eq!(ns.len(), 1);
    let ns2 = s.submit_security_audit(&b("aud1"), audit("c1", 7001)).unwrap();
    assert_eq!(ns2.len(), 2);
}

#[test]
fn audit_submission_requires_auditor_role() {
    let mut s = engine();
    let r = s.submit_security_audit(&b("u1"), audit("c1", 9000));
    assert!(matches!(r, Err(PolicyError::MissingRole)));
    let (_, _, _, audits) = s.get_ai_metrics();
    assert_eq!(audits, 0);
}

#[test]
fn recommendations_filter_by_exact_fingerprint_in_order() {
    let mut s = engine();
    assert_eq!(s.grant_role(&b("owner"), b("aud1"), b("auditor")), Ok(()));
    s.submit_security_audit(&b("aud1"), audit("c1", 100)).unwrap();
    s.submit_security_audit(&b("aud1"), audit("c2", 200)).unwrap();
    s.submit_security_audit(&b("aud1"), audit("c1", 300)).unwrap();
    let r = s.get_ai_recommendations(&b("c1"));
    assert_eq!(r.len(), 2);
    assert_eq!(r[0].vulnerability_score, 100);
    assert_eq!(r[1].vulnerability_score, 300);
    assert_eq!(r[0].contract_hash, b("c1"));
    assert_eq!(r[1].contract_hash, b("c1"));
    // a prefix is not a match
    assert!(s.get_ai_recommendations(&b("c")).is_empty());
    assert!(s.get_ai_recommendations(&b("c3")).is_empty());
}

#[test]
fn user_history_in_append_order_per_identity() {
    let mut s = engine();
    let o = b("owner");
    let mut d1 = decision(9500, 0);
    d1.timestamp = 1;
    let mut d2 = decision(9600, 0);
    d2.timestamp = 2;
    let mut d3 = decision(9700, 0);
    d3.timestamp = 3;
    s.grant_role_with_ai(&o, b("u1"), Role::Admin, d1).unwrap();
    s.grant_role_with_ai(&o, b("u2"), Role::Admin, d2).unwrap();
    s.grant_role_with_ai(&o, b("u1"), Role::Trader, d3).unwrap();
    let h1 = s.get_user_ai_history(&b("u1"));
    assert_eq!(h1.len(), 2);
    assert_eq!(h1[0].timestamp, 1);
    assert_eq!(h1[1].timestamp, 3);
    let h2 = s.get_user_ai_history(&b("u2"));
    assert_eq!(h2.len(), 1);
    assert_eq!(h2[0].timestamp, 2);
    assert!(s.get_user_ai_history(&b("u3")).is_empty());
}

#[test]
fn update_ai_model_success() {
    let mut s = engine();
    let r = s.update_ai_model(&b("oracle"), b("GPZ-94-v2.0"), 9000, 2000);
    match r {
        Ok(Notification::AiModelUpdated { model_version, confidence_threshold, risk_threshold }) => {
            assert_eq!(model_version, b("GPZ-94-v2.0"));
            assert_eq!(confidence_threshold, 9000);
            assert_eq!(risk_threshold, 2000);
        }
        other => panic!("unexpected result: {:?}", other),
    }
    let (model, threshold, _, _) = s.get_ai_metrics();
    assert_eq!(model, b("GPZ-94-v2.0"));
    assert_eq!(threshold, 9000);
    let (confidence, risk) = s.get_security_thresholds();
    assert_eq!(confidence, 9000);
    assert_eq!(risk, 2000);
}

#[test]
fn update_ai_model_invalid_range_leaves_parameters_unchanged() {
    let mut s = engine();
    let r = s.update_ai_model(&b("owner"), b("GPZ-94-v2.0"), 4999, 3000);
    assert!(matches!(r, Err(PolicyError::InvalidRange)));
    let (model, threshold, _, _) = s.get_ai_metrics();
    assert_eq!(model, b("GPZ-94-v1.0"));
    assert_eq!(threshold, 8000);
    let (_, risk) = s.get_security_thresholds();
    assert_eq!(risk, 3000);
}

#[test]
fn update_ai_model_range_boundaries() {
    let mut s = engine();
    let o = b("owner");
    assert!(s.update_ai_model(&o, b("m"), 5000, 1000).is_ok());
    assert!(s.update_ai_model(&o, b("m"), 10000, 5000).is_ok());
    assert!(matches!(
        s.update_ai_model(&o, b("m"), 10001, 3000),
        Err(PolicyError::InvalidRange)
    ));
    assert!(matches!(
        s.update_ai_model(&o, b("m"), 8000, 999),
        Err(PolicyError::InvalidRange)
    ));
    assert!(matches!(
        s.update_ai_model(&o, b("m"), 8000, 5001),
        Err(PolicyError::InvalidRange)
    ));
    assert!(matches!(
        s.update_ai_model(&b("u1"), b("m"), 8000, 3000),
        Err(PolicyError::Unauthorized)
    ));
}

#[test]
fn set_oracle_owner_only() {
    let mut s = engine();
    // the current oracle may not rotate the oracle identity
    assert_eq!(
        s.set_oracle(&b("oracle"), b("oracle2")),
        Err(PolicyError::Unauthorized)
    );
    // the old oracle still holds the privilege until rotated
    assert_eq!(s.grant_role(&b("oracle"), b("u1"), b("trader")), Ok(()));
    assert_eq!(s.set_oracle(&b("owner"), b("oracle2")), Ok(()));
    // after rotation the old oracle is rejected and the new one accepted
    assert_eq!(
        s.grant_role(&b("oracle"), b("u2"), b("trader")),
        Err(PolicyError::Unauthorized)
    );
    assert_eq!(s.grant_role(&b("oracle2"), b("u2"), b("trader")), Ok(()));
}

#[test]
fn require_helpers_report_exactly() {
    let mut s = engine();
    assert_eq!(s.require_owner_or_oracle(&b("owner")), Ok(()));
    assert_eq!(s.require_owner_or_oracle(&b("oracle")), Ok(()));
    assert_eq!(
        s.require_owner_or_oracle(&b("u1")),
        Err(PolicyError::Unauthorized)
    );
    assert_eq!(
        s.require_role(&b("u1"), &b("trader")),
        Err(PolicyError::MissingRole)
    );
    assert_eq!(s.grant_role(&b("owner"), b("u1"), b("trader")), Ok(()));
    assert_eq!(s.require_role(&b("u1"), &b("trader")), Ok(()));
}
