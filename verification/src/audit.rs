//! The append-only audit trail: a global sequence of accepted decision
//! attestations, a per-identity sequence of attestations, and the list of
//! submitted security audits. Nothing recorded here is ever mutated or
//! removed.

use vstd::prelude::*;
use crate::bytes::bytes_clone;
use crate::bytes::bytes_eq;
use crate::types::AIDecision;
use crate::types::AIDecisionView;
use crate::types::SecurityAudit;
use crate::types::SecurityAuditView;

verus! {

/// One per-identity history entry: the subject and the attestation
/// recorded for it.
#[derive(Clone, Debug)]
pub struct UserDecision {
    pub user: Vec<u8>,
    pub decision: AIDecision,
}

/// The attestations recorded for `user`, in append order.
pub open spec fn history_of(s: Seq<UserDecision>, user: Seq<u8>) -> Seq<AIDecisionView>
    decreases s.len(),
{
    if s.len() == 0 {
        Seq::empty()
    } else {
        let rest = history_of(s.drop_last(), user);
        if s.last().user@ == user {
            rest.push(s.last().decision.deep_view())
        } else {
            rest
        }
    }
}

/// The audits whose target fingerprint equals `hash` exactly, in append
/// order.
pub open spec fn audits_for(s: Seq<SecurityAudit>, hash: Seq<u8>) -> Seq<SecurityAuditView>
    decreases s.len(),
{
    if s.len() == 0 {
        Seq::empty()
    } else {
        let rest = audits_for(s.drop_last(), hash);
        if s.last().contract_hash@ == hash {
            rest.push(s.last().deep_view())
        } else {
            rest
        }
    }
}

/// The append-only record of decisions and security audits.
pub struct AuditLog {
    pub global_trail: Vec<AIDecision>,
    pub user_decisions: Vec<UserDecision>,
    pub security_audits: Vec<SecurityAudit>,
}

/// Copy an attestation.
pub fn clone_decision(d: &AIDecision) -> (r: AIDecision)
    ensures
        r.deep_view() == d.deep_view(),
{
    AIDecision {
        action_hash: bytes_clone(&d.action_hash),
        confidence_score: d.confidence_score,
        risk_assessment: d.risk_assessment,
        ai_model_version: bytes_clone(&d.ai_model_version),
        timestamp: d.timestamp,
    }
}

/// Copy a security audit.
pub fn clone_audit(a: &SecurityAudit) -> (r: SecurityAudit)
    ensures
        r.deep_view() == a.deep_view(),
{
    SecurityAudit {
        contract_hash: bytes_clone(&a.contract_hash),
        vulnerability_score: a.vulnerability_score,
        ai_analysis: bytes_clone(&a.ai_analysis),
        recommendations: bytes_clone(&a.recommendations),
        auditor: bytes_clone(&a.auditor),
        timestamp: a.timestamp,
    }
}

impl AuditLog {
    /// An empty log.
    pub fn new() -> (s: AuditLog)
        ensures
            s.global_trail@.len() == 0,
            s.user_decisions@.len() == 0,
            s.security_audits@.len() == 0,
    {
        AuditLog { global_trail: Vec::new(), user_decisions: Vec::new(), security_audits: Vec::new() }
    }

    /// Append an attestation to the global trail.
    pub fn push_global(&mut self, decision: AIDecision)
        ensures
            final(self).global_trail.deep_view() == old(self).global_trail.deep_view().push(
                decision.deep_view(),
            ),
            final(self).user_decisions == old(self).user_decisions,
            final(self).security_audits == old(self).security_audits,
    {
        self.global_trail.push(decision);
        proof {
            assert(self.global_trail.deep_view() =~= old(self).global_trail.deep_view().push(decision.deep_view()));
        }
    }

    /// Append an attestation to `user`'s history. Every other identity's
    /// history is untouched.
    pub fn push_user_decision(&mut self, user: Vec<u8>, decision: AIDecision)
        ensures
            history_of(final(self).user_decisions@, user@) == history_of(
                old(self).user_decisions@,
                user@,
            ).push(decision.deep_view()),
            forall|u: Seq<u8>|
                u != user@ ==> #[trigger] history_of(final(self).user_decisions@, u) == history_of(
                    old(self).user_decisions@,
                    u,
                ),
            final(self).global_trail == old(self).global_trail,
            final(self).security_audits == old(self).security_audits,
    {
        let ghost uview = user@;
        let ghost dview = decision.deep_view();
        let ghost prev = self.user_decisions@;
        self.user_decisions.push(UserDecision { user, decision });
        proof {
            let s = self.user_decisions@;
            assert(s.drop_last() =~= prev);
            assert(s.last().user@ == uview);
            assert(s.last().decision.deep_view() == dview);
            assert forall|u: Seq<u8>| u != uview implies #[trigger] history_of(s, u) == history_of(
                prev,
                u,
            ) by {
                assert(s.len() > 0);
            }
        }
    }

    /// Append a security audit.
    pub fn push_audit(&mut self, audit: SecurityAudit)
        ensures
            final(self).security_audits.deep_view() == old(self).security_audits.deep_view().push(
                audit.deep_view(),
            ),
            final(self).security_audits@ == old(self).security_audits@.push(audit),
            final(self).global_trail == old(self).global_trail,
            final(self).user_decisions == old(self).user_decisions,
    {
        self.security_audits.push(audit);
        proof {
            assert(self.security_audits.deep_view() =~= old(self).security_audits.deep_view().push(audit.deep_view()));
        }
    }

    /// The attestations recorded for `user`, in append order.
    pub fn history_for(&self, user: &Vec<u8>) -> (r: Vec<AIDecision>)
        ensures
            r.deep_view() == history_of(self.user_decisions@, user@),
    {
        let n = self.user_decisions.len();
        let mut r: Vec<AIDecision> = Vec::new();
        let mut i: usize = 0;
        while i < n
            invariant
                n == self.user_decisions@.len(),
                i <= n,
                r.deep_view() == history_of(self.user_decisions@.take(i as int), user@),
            decreases n - i,
        {
            let ghost taken = self.user_decisions@.take(i as int);
            let ghost taken_next = self.user_decisions@.take(i as int + 1);
            proof {
                assert(taken_next.drop_last() =~= taken);
                assert(taken_next.last() == self.user_decisions@[i as int]);
            }
            let e = &self.user_decisions[i];
            if bytes_eq(&e.user, user) {
                let d = clone_decision(&e.decision);
                let ghost rprev = r.deep_view();
                r.push(d);
                proof {
                    assert(r.deep_view() =~= rprev.push(d.deep_view()));
                }
            }
            i += 1;
        }
        proof {
            assert(self.user_decisions@.take(n as int) =~= self.user_decisions@);
        }
        r
    }

    /// The audits whose target fingerprint equals `hash` exactly, in
    /// append order.
    pub fn recommendations_for(&self, hash: &Vec<u8>) -> (r: Vec<SecurityAudit>)
        ensures
            r.deep_view() == audits_for(self.security_audits@, hash@),
    {
        let n = self.security_audits.len();
        let mut r: Vec<SecurityAudit> = Vec::new();
        let mut i: usize = 0;
        while i < n
            invariant
                n == self.security_audits@.len(),
                i <= n,
                r.deep_view() == audits_for(self.security_audits@.take(i as int), hash@),
            decreases n - i,
        {
            let ghost taken = self.security_audits@.take(i as int);
            let ghost taken_next = self.security_audits@.take(i as int + 1);
            proof {
                assert(taken_next.drop_last() =~= taken);
                assert(taken_next.last() == self.security_audits@[i as int]);
            }
            let a = &self.security_audits[i];
            if bytes_eq(&a.contract_hash, hash) {
                let c = clone_audit(a);
                let ghost rprev = r.deep_view();
                r.push(c);
                proof {
                    assert(r.deep_view() =~= rprev.push(c.deep_view()));
                }
            }
            i += 1;
        }
        proof {
            assert(self.security_audits@.take(n as int) =~= self.security_audits@);
        }
        r
    }
}

} // verus!
