//! The policy engine: authorization checks, threshold validation,
//! role management, gated action execution, security-audit ingestion and
//! adaptive parameter updates. Every validation happens before any write,
//! so a rejected operation leaves the whole state exactly as it was.

use vstd::prelude::*;
use crate::audit::AuditLog;
use crate::audit::audits_for;
use crate::audit::history_of;
use crate::bytes::bytes_clone;
use crate::bytes::bytes_eq;
use crate::params::ParameterStore;
use crate::params::thresholds_valid;
use crate::roles::RoleStore;
use crate::types::AIDecision;
use crate::types::Notification;
use crate::types::NotificationView;
use crate::types::PolicyError;
use crate::types::Role;
use crate::types::SecurityAudit;
use crate::types::min_confidence_spec;
use crate::types::role_tag_spec;

verus! {

/// A submitted audit with a vulnerability score above this fixed bound
/// additionally raises a security alert. The bound is deliberately
/// independent of the configurable thresholds.
pub const VULNERABILITY_ALERT_THRESHOLD: u64 = 7000;

/// The policy engine's whole state: the policy parameters, the role
/// relation and the audit trail. The engine is the only mutation path into
/// all three.
pub struct AiPolicy {
    pub params: ParameterStore,
    pub roles: RoleStore,
    pub log: AuditLog,
}

/// The error an attestation-gated role grant reports when one of its
/// checks fails, in check order: authorization, then the role-specific
/// confidence minimum, then the risk ceiling.
pub open spec fn grant_ai_expected_err(
    s: AiPolicy,
    caller: Seq<u8>,
    role: Role,
    confidence: u64,
    risk: u64,
) -> PolicyError {
    if !s.is_owner_or_oracle(caller) {
        PolicyError::Unauthorized
    } else if confidence < min_confidence_spec(role) {
        PolicyError::InsufficientConfidence
    } else {
        PolicyError::ExcessiveRisk
    }
}

/// The error an attestation-gated execution reports when one of its checks
/// fails, in check order: the role requirement strictly first, then the
/// global confidence threshold, then the risk ceiling.
pub open spec fn execute_ai_expected_err(
    s: AiPolicy,
    caller: Seq<u8>,
    required_role: Seq<u8>,
    confidence: u64,
    risk: u64,
) -> PolicyError {
    if !s.roles.spec_has_role(caller, required_role) {
        PolicyError::MissingRole
    } else if confidence < s.params.security_threshold {
        PolicyError::InsufficientConfidence
    } else {
        PolicyError::ExcessiveRisk
    }
}

impl AiPolicy {
    /// The engine's invariant: the role relation is duplicate-free and the
    /// stored thresholds lie within their bounds.
    pub open spec fn wf(self) -> bool {
        self.roles.wf() && self.params.wf()
    }

    /// Whether `caller` is the stored owner or the stored oracle.
    pub open spec fn is_owner_or_oracle(self, caller: Seq<u8>) -> bool {
        caller == self.params.owner@ || caller == self.params.oracle@
    }

    /// Create the engine: the creating caller becomes the owner, the given
    /// identity becomes the oracle, the model version is the default tag,
    /// the confidence threshold is 8000 and the risk threshold 3000. No
    /// role is held and every trail is empty.
    pub fn init(caller: Vec<u8>, oracle: Vec<u8>) -> (s: AiPolicy)
        ensures
            s.wf(),
            s.params.owner@ == caller@,
            s.params.oracle@ == oracle@,
            s.params.ai_model_version@ == crate::params::default_model_tag(),
            s.params.security_threshold == 8000,
            s.params.max_risk_threshold == 3000,
            s.roles.role_set() == Set::<(Seq<u8>, Seq<u8>)>::empty(),
            forall|u: Seq<u8>, t: Seq<u8>| !s.roles.spec_has_role(u, t),
            s.log.global_trail@.len() == 0,
            s.log.user_decisions@.len() == 0,
            s.log.security_audits@.len() == 0,
    {
        AiPolicy {
            params: ParameterStore::new(caller, oracle),
            roles: RoleStore::new(),
            log: AuditLog::new(),
        }
    }

    /// Accept exactly the owner and the oracle; reject everyone else with
    /// `Unauthorized`. Never mutates state.
    pub fn require_owner_or_oracle(&self, caller: &Vec<u8>) -> (r: Result<(), PolicyError>)
        ensures
            r is Ok <==> self.is_owner_or_oracle(caller@),
            r matches Err(e) ==> e == PolicyError::Unauthorized,
    {
        if bytes_eq(caller, &self.params.owner) || bytes_eq(caller, &self.params.oracle) {
            Ok(())
        } else {
            Err(PolicyError::Unauthorized)
        }
    }

    /// Accept exactly the callers holding `role`; reject everyone else
    /// with `MissingRole`. Never mutates state.
    pub fn require_role(&self, caller: &Vec<u8>, role: &Vec<u8>) -> (r: Result<(), PolicyError>)
        ensures
            r is Ok <==> self.roles.spec_has_role(caller@, role@),
            r matches Err(e) ==> e == PolicyError::MissingRole,
    {
        if self.roles.has_role(caller, role) {
            Ok(())
        } else {
            Err(PolicyError::MissingRole)
        }
    }

    /// Grant `role` to `user`, idempotently, if the caller is the owner or
    /// the oracle. The plain form records nothing and emits nothing.
    pub fn grant_role(&mut self, caller: &Vec<u8>, user: Vec<u8>, role: Vec<u8>) -> (r: Result<
        (),
        PolicyError,
    >)
        requires
            old(self).wf(),
        ensures
            final(self).wf(),
            r is Ok <==> old(self).is_owner_or_oracle(caller@),
            match r {
                Ok(()) => final(self).roles.role_set() == old(self).roles.role_set().insert(
                    (user@, role@),
                ) && final(self).roles.spec_has_role(user@, role@) && (old(self).roles.spec_has_role(user@, role@) ==> final(self).roles == old(self).roles)
                    && final(self).params == old(self).params && final(self).log == old(self).log,
                Err(e) => e == PolicyError::Unauthorized && *final(self) == *old(self),
            },
    {
        match self.require_owner_or_oracle(caller) {
            Err(e) => Err(e),
            Ok(()) => {
                self.roles.grant(user, role);
                Ok(())
            },
        }
    }

    /// Grant `role` to `user` through an attestation. The caller must be
    /// the owner or the oracle; the attestation's confidence must reach the
    /// role-specific minimum and its risk must not exceed the configured
    /// ceiling. On success the canonical tag is granted, the attestation is
    /// appended to the user's history, and a role-granted notification is
    /// returned. A failed check mutates nothing.
    pub fn grant_role_with_ai(
        &mut self,
        caller: &Vec<u8>,
        user: Vec<u8>,
        role: Role,
        ai_decision: AIDecision,
    ) -> (r: Result<Notification, PolicyError>)
        requires
            old(self).wf(),
        ensures
            final(self).wf(),
            r is Ok <==> (old(self).is_owner_or_oracle(caller@)
                && ai_decision.confidence_score >= min_confidence_spec(role)
                && ai_decision.risk_assessment <= old(self).params.max_risk_threshold),
            match r {
                Ok(n) => final(self).roles.role_set() == old(self).roles.role_set().insert(
                    (user@, role_tag_spec(role)),
                ) && history_of(final(self).log.user_decisions@, user@) == history_of(
                    old(self).log.user_decisions@,
                    user@,
                ).push(ai_decision.deep_view()) && (forall|u: Seq<u8>|
                    u != user@ ==> #[trigger] history_of(final(self).log.user_decisions@, u)
                        == history_of(old(self).log.user_decisions@, u)) && final(self).log.global_trail == old(self).log.global_trail && final(self).log.security_audits
                    == old(self).log.security_audits && final(self).params == old(self).params
                    && n.deep_view() == (NotificationView::RoleGrantedAi {
                    user: user@,
                    role: role_tag_spec(role),
                    confidence: ai_decision.confidence_score,
                }),
                Err(e) => *final(self) == *old(self) && e == grant_ai_expected_err(
                    *old(self),
                    caller@,
                    role,
                    ai_decision.confidence_score,
                    ai_decision.risk_assessment,
                ),
            },
    {
        if let Err(e) = self.require_owner_or_oracle(caller) {
            return Err(e);
        }
        if ai_decision.confidence_score < role.min_confidence() {
            return Err(PolicyError::InsufficientConfidence);
        }
        if ai_decision.risk_assessment > self.params.max_risk_threshold {
            return Err(PolicyError::ExcessiveRisk);
        }
        let confidence = ai_decision.confidence_score;
        let tag = role.tag();
        let user_for_history = bytes_clone(&user);
        let notification_user = bytes_clone(&user);
        let notification_tag = bytes_clone(&tag);
        self.roles.grant(user, tag);
        self.log.push_user_decision(user_for_history, ai_decision);
        Ok(
            Notification::RoleGrantedAi {
                user: notification_user,
                role: notification_tag,
                confidence,
            },
        )
    }

    /// Revoke `role` from `user`, idempotently, if the caller is the owner
    /// or the oracle.
    pub fn revoke_role(&mut self, caller: &Vec<u8>, user: &Vec<u8>, role: &Vec<u8>) -> (r: Result<
        (),
        PolicyError,
    >)
        requires
            old(self).wf(),
        ensures
            final(self).wf(),
            r is Ok <==> old(self).is_owner_or_oracle(caller@),
            match r {
                Ok(()) => final(self).roles.role_set() == old(self).roles.role_set().remove(
                    (user@, role@),
                ) && !final(self).roles.spec_has_role(user@, role@) && (!old(self).roles.spec_has_role(user@, role@) ==> final(self).roles == old(self).roles)
                    && final(self).params == old(self).params && final(self).log == old(self).log,
                Err(e) => e == PolicyError::Unauthorized && *final(self) == *old(self),
            },
    {
        match self.require_owner_or_oracle(caller) {
            Err(e) => Err(e),
            Ok(()) => {
                self.roles.revoke(user, role);
                Ok(())
            },
        }
    }

    /// Execute a plain gated action: the caller must hold the required
    /// role; the engine then only emits the action-executed notification.
    /// No attestation is involved and no state changes.
    pub fn execute_action(&self, caller: &Vec<u8>, role_required: &Vec<u8>, action: Vec<u8>) -> (r:
        Result<Notification, PolicyError>)
        ensures
            r is Ok <==> self.roles.spec_has_role(caller@, role_required@),
            match r {
                Ok(n) => n.deep_view() == (NotificationView::ActionExecuted {
                    caller: caller@,
                    role: role_required@,
                    action: action@,
                }),
                Err(e) => e == PolicyError::MissingRole,
            },
    {
        if let Err(e) = self.require_role(caller, role_required) {
            return Err(e);
        }
        Ok(
            Notification::ActionExecuted {
                caller: bytes_clone(caller),
                role: bytes_clone(role_required),
                action,
            },
        )
    }

    /// Execute an attestation-gated action. The role check comes strictly
    /// first; then the attestation's confidence must reach the global
    /// security threshold and its risk must not exceed the configured
    /// ceiling. On success the attestation is appended to the global trail
    /// and the action-executed notification is returned. A failed check
    /// mutates nothing.
    pub fn execute_with_ai_validation(
        &mut self,
        caller: &Vec<u8>,
        action: Vec<u8>,
        required_role: &Vec<u8>,
        ai_decision: AIDecision,
    ) -> (r: Result<Notification, PolicyError>)
        requires
            old(self).wf(),
        ensures
            final(self).wf(),
            r is Ok <==> (old(self).roles.spec_has_role(caller@, required_role@)
                && ai_decision.confidence_score >= old(self).params.security_threshold
                && ai_decision.risk_assessment <= old(self).params.max_risk_threshold),
            match r {
                Ok(n) => final(self).log.global_trail.deep_view() == old(self).log.global_trail.deep_view().push(ai_decision.deep_view()) && final(self).log.user_decisions == old(self).log.user_decisions && final(self).log.security_audits == old(self).log.security_audits && final(self).roles == old(self).roles && final(self).params == old(self).params && n.deep_view() == (
                NotificationView::ActionExecutedAi {
                    user: caller@,
                    action: action@,
                    confidence: ai_decision.confidence_score,
                }),
                Err(e) => *final(self) == *old(self) && e == execute_ai_expected_err(
                    *old(self),
                    caller@,
                    required_role@,
                    ai_decision.confidence_score,
                    ai_decision.risk_assessment,
                ),
            },
    {
        if let Err(e) = self.require_role(caller, required_role) {
            return Err(e);
        }
        if ai_decision.confidence_score < self.params.security_threshold {
            return Err(PolicyError::InsufficientConfidence);
        }
        if ai_decision.risk_assessment > self.params.max_risk_threshold {
            return Err(PolicyError::ExcessiveRisk);
        }
        let confidence = ai_decision.confidence_score;
        self.log.push_global(ai_decision);
        Ok(
            Notification::ActionExecutedAi {
                user: bytes_clone(caller),
                action,
                confidence,
            },
        )
    }

    /// Record a security audit. Only a caller holding the auditor role may
    /// submit. The audit is always appended, whatever its score; a score
    /// above [`VULNERABILITY_ALERT_THRESHOLD`] additionally raises a
    /// security alert ahead of the unconditional audit-submitted
    /// notification.
    pub fn submit_security_audit(&mut self, caller: &Vec<u8>, audit: SecurityAudit) -> (r: Result<
        Vec<Notification>,
        PolicyError,
    >)
        requires
            old(self).wf(),
        ensures
            final(self).wf(),
            r is Ok <==> old(self).roles.spec_has_role(caller@, role_tag_spec(Role::Auditor)),
            match r {
                Ok(ns) => final(self).log.security_audits.deep_view() == old(self).log.security_audits.deep_view().push(audit.deep_view()) && final(self).log.global_trail == old(self).log.global_trail && final(self).log.user_decisions
                    == old(self).log.user_decisions && final(self).roles == old(self).roles
                    && final(self).params == old(self).params && (audit.vulnerability_score
                    > VULNERABILITY_ALERT_THRESHOLD ==> ns.deep_view() == seq![
                    NotificationView::SecurityAlert {
                        contract_hash: audit.contract_hash@,
                        vulnerability_score: audit.vulnerability_score,
                    },
                    NotificationView::AuditSubmitted {
                        contract_hash: audit.contract_hash@,
                        vulnerability_score: audit.vulnerability_score,
                    },
                ]) && (audit.vulnerability_score <= VULNERABILITY_ALERT_THRESHOLD
                    ==> ns.deep_view() == seq![
                    NotificationView::AuditSubmitted {
                        contract_hash: audit.contract_hash@,
                        vulnerability_score: audit.vulnerability_score,
                    },
                ]),
                Err(e) => e == PolicyError::MissingRole && *final(self) == *old(self),
            },
    {
        let auditor_tag = Role::Auditor.tag();
        if let Err(e) = self.require_role(caller, &auditor_tag) {
            return Err(e);
        }
        let score = audit.vulnerability_score;
        let hash_for_alert = bytes_clone(&audit.contract_hash);
        let hash_for_submitted = bytes_clone(&audit.contract_hash);
        let mut notifications: Vec<Notification> = Vec::new();
        if score > VULNERABILITY_ALERT_THRESHOLD {
            notifications.push(
                Notification::SecurityAlert {
                    contract_hash: hash_for_alert,
                    vulnerability_score: score,
                },
            );
        }
        notifications.push(
            Notification::AuditSubmitted {
                contract_hash: hash_for_submitted,
                vulnerability_score: score,
            },
        );
        self.log.push_audit(audit);
        proof {
            if score > VULNERABILITY_ALERT_THRESHOLD {
                assert(notifications.deep_view() =~= seq![
                    NotificationView::SecurityAlert {
                        contract_hash: audit.contract_hash@,
                        vulnerability_score: score,
                    },
                    NotificationView::AuditSubmitted {
                        contract_hash: audit.contract_hash@,
                        vulnerability_score: score,
                    },
                ]);
            } else {
                assert(notifications.deep_view() =~= seq![
                    NotificationView::AuditSubmitted {
                        contract_hash: audit.contract_hash@,
                        vulnerability_score: score,
                    },
                ]);
            }
        }
        Ok(notifications)
    }

    /// Every stored audit whose target fingerprint equals `contract_hash`
    /// exactly, in append order. A view: no precondition, no side effect.
    pub fn get_ai_recommendations(&self, contract_hash: &Vec<u8>) -> (r: Vec<SecurityAudit>)
        ensures
            r.deep_view() == audits_for(self.log.security_audits@, contract_hash@),
    {
        self.log.recommendations_for(contract_hash)
    }

    /// Update the model version tag and both thresholds, if the caller is
    /// the owner or the oracle and the thresholds lie within their bounds.
    /// Range validation is the parameter store's; a rejected pair leaves
    /// every parameter, the model tag included, unchanged.
    pub fn update_ai_model(
        &mut self,
        caller: &Vec<u8>,
        model_version: Vec<u8>,
        new_threshold: u64,
        new_risk_threshold: u64,
    ) -> (r: Result<Notification, PolicyError>)
        requires
            old(self).wf(),
        ensures
            final(self).wf(),
            r is Ok <==> (old(self).is_owner_or_oracle(caller@) && thresholds_valid(
                new_threshold,
                new_risk_threshold,
            )),
            match r {
                Ok(n) => final(self).params.ai_model_version@ == model_version@ && final(self).params.security_threshold == new_threshold && final(self).params.max_risk_threshold == new_risk_threshold && final(self).params.owner
                    == old(self).params.owner && final(self).params.oracle == old(self).params.oracle && final(self).roles == old(self).roles && final(self).log == old(self).log && n.deep_view() == (NotificationView::AiModelUpdated {
                    model_version: model_version@,
                    confidence_threshold: new_threshold,
                    risk_threshold: new_risk_threshold,
                }),
                Err(e) => *final(self) == *old(self) && e == (if !old(self).is_owner_or_oracle(
                    caller@,
                ) {
                    PolicyError::Unauthorized
                } else {
                    PolicyError::InvalidRange
                }),
            },
    {
        if let Err(e) = self.require_owner_or_oracle(caller) {
            return Err(e);
        }
        if let Err(e) = self.params.set_thresholds(new_threshold, new_risk_threshold) {
            return Err(e);
        }
        let notification_tag = bytes_clone(&model_version);
        self.params.ai_model_version = model_version;
        Ok(
            Notification::AiModelUpdated {
                model_version: notification_tag,
                confidence_threshold: new_threshold,
                risk_threshold: new_risk_threshold,
            },
        )
    }

    /// Rotate the oracle identity. Only the owner may do this: the current
    /// oracle itself is rejected like any other non-owner caller.
    pub fn set_oracle(&mut self, caller: &Vec<u8>, new_oracle: Vec<u8>) -> (r: Result<
        (),
        PolicyError,
    >)
        requires
            old(self).wf(),
        ensures
            final(self).wf(),
            r is Ok <==> caller@ == old(self).params.owner@,
            match r {
                Ok(()) => final(self).params.oracle@ == new_oracle@ && final(self).params.owner
                    == old(self).params.owner && final(self).params.ai_model_version == old(self).params.ai_model_version && final(self).params.security_threshold == old(self).params.security_threshold && final(self).params.max_risk_threshold == old(self).params.max_risk_threshold && final(self).roles == old(self).roles && final(self).log == old(self).log,
                Err(e) => e == PolicyError::Unauthorized && *final(self) == *old(self),
            },
    {
        if !bytes_eq(caller, &self.params.owner) {
            return Err(PolicyError::Unauthorized);
        }
        self.params.oracle = new_oracle;
        Ok(())
    }

    /// Whether `user` currently holds the role tag `role`. A view.
    pub fn has_role(&self, user: &Vec<u8>, role: &Vec<u8>) -> (r: bool)
        ensures
            r == self.roles.spec_has_role(user@, role@),
    {
        self.roles.has_role(user, role)
    }

    /// The model version tag, the global confidence threshold, the number
    /// of globally recorded attestations and the number of stored security
    /// audits. A view.
    pub fn get_ai_metrics(&self) -> (r: (Vec<u8>, u64, u64, u64))
        ensures
            r.0@ == self.params.ai_model_version@,
            r.1 == self.params.security_threshold,
            r.2 as nat == self.log.global_trail@.len(),
            r.3 as nat == self.log.security_audits@.len(),
    {
        let model_version = bytes_clone(&self.params.ai_model_version);
        let threshold = self.params.security_threshold;
        let total_decisions = self.log.global_trail.len() as u64;
        let total_audits = self.log.security_audits.len() as u64;
        (model_version, threshold, total_decisions, total_audits)
    }

    /// The global confidence threshold and the maximum risk threshold. A
    /// view.
    pub fn get_security_thresholds(&self) -> (r: (u64, u64))
        ensures
            r.0 == self.params.security_threshold,
            r.1 == self.params.max_risk_threshold,
    {
        (self.params.security_threshold, self.params.max_risk_threshold)
    }

    /// The attestations recorded for `user`, in append order. A view.
    pub fn get_user_ai_history(&self, user: &Vec<u8>) -> (r: Vec<AIDecision>)
        ensures
            r.deep_view() == history_of(self.log.user_decisions@, user@),
    {
        self.log.history_for(user)
    }
}

} // verus!
