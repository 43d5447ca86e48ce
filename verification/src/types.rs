//! Core data types of the policy engine: roles, oracle-supplied decision
//! attestations, security audits, errors and notifications.

use vstd::prelude::*;

verus! {

/// The closed enumeration of roles the engine can grant through the
/// structured, attestation-gated path. Each role has a canonical textual
/// tag used as the storage key (see [`role_tag_spec`] and [`Role::tag`]);
/// the tag mapping is stable because stored roles are compared by text.
#[derive(Clone, Copy, PartialEq, Eq, Structural, Debug)]
pub enum Role {
    Admin,
    Trader,
    Auditor,
    Oracle,
    AIAgent,
}

/// The canonical byte-string tag of each role, in ASCII:
/// `Admin` is "admin", `Trader` is "trader", `Auditor` is "auditor",
/// `Oracle` is "oracle", `AIAgent` is "ai_agent".
pub open spec fn role_tag_spec(role: Role) -> Seq<u8> {
    match role {
        Role::Admin => seq![97u8, 100u8, 109u8, 105u8, 110u8],
        Role::Trader => seq![116u8, 114u8, 97u8, 100u8, 101u8, 114u8],
        Role::Auditor => seq![97u8, 117u8, 100u8, 105u8, 116u8, 111u8, 114u8],
        Role::Oracle => seq![111u8, 114u8, 97u8, 99u8, 108u8, 101u8],
        Role::AIAgent => seq![97u8, 105u8, 95u8, 97u8, 103u8, 101u8, 110u8, 116u8],
    }
}

/// The role-specific minimum confidence a decision attestation must carry
/// before the role may be granted through the attestation-gated path.
/// This table is fixed and independent of the configurable global threshold.
pub open spec fn min_confidence_spec(role: Role) -> u64 {
    match role {
        Role::Admin => 9500u64,
        Role::Oracle => 9000u64,
        Role::AIAgent => 8500u64,
        Role::Trader => 7000u64,
        Role::Auditor => 7000u64,
    }
}

impl Role {
    /// The canonical byte-string tag of this role.
    pub fn tag(&self) -> (r: Vec<u8>)
        ensures
            r@ == role_tag_spec(*self),
    {
        let mut v: Vec<u8> = Vec::new();
        match self {
            Role::Admin => {
                v.push(97u8);
                v.push(100u8);
                v.push(109u8);
                v.push(105u8);
                v.push(110u8);
            },
            Role::Trader => {
                v.push(116u8);
                v.push(114u8);
                v.push(97u8);
                v.push(100u8);
                v.push(101u8);
                v.push(114u8);
            },
            Role::Auditor => {
                v.push(97u8);
                v.push(117u8);
                v.push(100u8);
                v.push(105u8);
                v.push(116u8);
                v.push(111u8);
                v.push(114u8);
            },
            Role::Oracle => {
                v.push(111u8);
                v.push(114u8);
                v.push(97u8);
                v.push(99u8);
                v.push(108u8);
                v.push(101u8);
            },
            Role::AIAgent => {
                v.push(97u8);
                v.push(105u8);
                v.push(95u8);
                v.push(97u8);
                v.push(103u8);
                v.push(101u8);
                v.push(110u8);
                v.push(116u8);
            },
        }
        assert(v@ =~= role_tag_spec(*self));
        v
    }

    /// The role-specific minimum confidence for the attestation-gated grant.
    pub fn min_confidence(&self) -> (r: u64)
        ensures
            r == min_confidence_spec(*self),
    {
        match self {
            Role::Admin => 9500u64,
            Role::Oracle => 9000u64,
            Role::AIAgent => 8500u64,
            Role::Trader => 7000u64,
            Role::Auditor => 7000u64,
        }
    }
}

/// An immutable decision attestation produced off-system by the oracle.
/// Confidence and risk scores are integers in [0, 10000], read as
/// hundredths of a percent. The engine only validates and stores these
/// values; it never computes them.
#[derive(Clone, Debug)]
pub struct AIDecision {
    pub action_hash: Vec<u8>,
    pub confidence_score: u64,
    pub risk_assessment: u64,
    pub ai_model_version: Vec<u8>,
    pub timestamp: u64,
}

/// The mathematical value of an [`AIDecision`].
pub struct AIDecisionView {
    pub action_hash: Seq<u8>,
    pub confidence_score: u64,
    pub risk_assessment: u64,
    pub ai_model_version: Seq<u8>,
    pub timestamp: u64,
}

impl DeepView for AIDecision {
    type V = AIDecisionView;

    open spec fn deep_view(&self) -> AIDecisionView {
        AIDecisionView {
            action_hash: self.action_hash@,
            confidence_score: self.confidence_score,
            risk_assessment: self.risk_assessment,
            ai_model_version: self.ai_model_version@,
            timestamp: self.timestamp,
        }
    }
}

/// An immutable, auditor-submitted vulnerability assessment.
/// The vulnerability score is an integer in [0, 10000].
#[derive(Clone, Debug)]
pub struct SecurityAudit {
    pub contract_hash: Vec<u8>,
    pub vulnerability_score: u64,
    pub ai_analysis: Vec<u8>,
    pub recommendations: Vec<u8>,
    pub auditor: Vec<u8>,
    pub timestamp: u64,
}

/// The mathematical value of a [`SecurityAudit`].
pub struct SecurityAuditView {
    pub contract_hash: Seq<u8>,
    pub vulnerability_score: u64,
    pub ai_analysis: Seq<u8>,
    pub recommendations: Seq<u8>,
    pub auditor: Seq<u8>,
    pub timestamp: u64,
}

impl DeepView for SecurityAudit {
    type V = SecurityAuditView;

    open spec fn deep_view(&self) -> SecurityAuditView {
        SecurityAuditView {
            contract_hash: self.contract_hash@,
            vulnerability_score: self.vulnerability_score,
            ai_analysis: self.ai_analysis@,
            recommendations: self.recommendations@,
            auditor: self.auditor@,
            timestamp: self.timestamp,
        }
    }
}

/// Why an operation was rejected. Every failed precondition aborts the
/// whole operation with no state mutation.
#[derive(Clone, Copy, PartialEq, Eq, Structural, Debug)]
pub enum PolicyError {
    /// The caller is neither the owner nor the oracle where one of the two
    /// is required, or is not the owner where only the owner is accepted.
    Unauthorized,
    /// The caller does not hold the required role tag.
    MissingRole,
    /// The attestation's confidence score is below the applicable minimum.
    InsufficientConfidence,
    /// The attestation's risk score is above the maximum risk threshold.
    ExcessiveRisk,
    /// A threshold update lies outside the allowed bounds.
    InvalidRange,
}

/// A structured notification the engine decides to emit. Delivery is the
/// host's concern; the engine only determines which notifications fire and
/// with what payload.
#[derive(Clone, Debug)]
pub enum Notification {
    ActionExecuted { caller: Vec<u8>, role: Vec<u8>, action: Vec<u8> },
    RoleGrantedAi { user: Vec<u8>, role: Vec<u8>, confidence: u64 },
    ActionExecutedAi { user: Vec<u8>, action: Vec<u8>, confidence: u64 },
    SecurityAlert { contract_hash: Vec<u8>, vulnerability_score: u64 },
    AuditSubmitted { contract_hash: Vec<u8>, vulnerability_score: u64 },
    AiModelUpdated { model_version: Vec<u8>, confidence_threshold: u64, risk_threshold: u64 },
}

/// The mathematical value of a [`Notification`].
pub enum NotificationView {
    ActionExecuted { caller: Seq<u8>, role: Seq<u8>, action: Seq<u8> },
    RoleGrantedAi { user: Seq<u8>, role: Seq<u8>, confidence: u64 },
    ActionExecutedAi { user: Seq<u8>, action: Seq<u8>, confidence: u64 },
    SecurityAlert { contract_hash: Seq<u8>, vulnerability_score: u64 },
    AuditSubmitted { contract_hash: Seq<u8>, vulnerability_score: u64 },
    AiModelUpdated { model_version: Seq<u8>, confidence_threshold: u64, risk_threshold: u64 },
}

impl DeepView for Notification {
    type V = NotificationView;

    open spec fn deep_view(&self) -> NotificationView {
        match *self {
            Notification::ActionExecuted { ref caller, ref role, ref action } => (
            NotificationView::ActionExecuted {
                caller: caller@,
                role: role@,
                action: action@,
            }),
            Notification::RoleGrantedAi { ref user, ref role, confidence } => (
            NotificationView::RoleGrantedAi { user: user@, role: role@, confidence }),
            Notification::ActionExecutedAi { ref user, ref action, confidence } => (
            NotificationView::ActionExecutedAi { user: user@, action: action@, confidence }),
            Notification::SecurityAlert { ref contract_hash, vulnerability_score } => (
            NotificationView::SecurityAlert { contract_hash: contract_hash@, vulnerability_score }),
            Notification::AuditSubmitted { ref contract_hash, vulnerability_score } => (
            NotificationView::AuditSubmitted {
                contract_hash: contract_hash@,
                vulnerability_score,
            }),
            Notification::AiModelUpdated {
                ref model_version,
                confidence_threshold,
                risk_threshold,
            } => (NotificationView::AiModelUpdated {
                model_version: model_version@,
                confidence_threshold,
                risk_threshold,
            }),
        }
    }
}

} // verus!
