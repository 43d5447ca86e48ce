//! Mutable policy parameters: owner and oracle identities, the model
//! version tag, and the two configurable thresholds. Threshold updates are
//! validated on every write and are atomic: either both thresholds change
//! or neither does.

use vstd::prelude::*;
use crate::types::PolicyError;

verus! {

/// The default model version tag set at initialization, "GPZ-94-v1.0" in
/// ASCII.
pub open spec fn default_model_tag() -> Seq<u8> {
    seq![71u8, 80u8, 90u8, 45u8, 57u8, 52u8, 45u8, 118u8, 49u8, 46u8, 48u8]
}

/// The mutable policy parameter singleton.
pub struct ParameterStore {
    pub owner: Vec<u8>,
    pub oracle: Vec<u8>,
    pub ai_model_version: Vec<u8>,
    pub security_threshold: u64,
    pub max_risk_threshold: u64,
}

/// The bounds every threshold update must satisfy: confidence in
/// [5000, 10000] and risk in [1000, 5000].
pub open spec fn thresholds_valid(confidence: u64, risk: u64) -> bool {
    5000 <= confidence <= 10000 && 1000 <= risk <= 5000
}

impl ParameterStore {
    /// The stored thresholds lie within their allowed bounds.
    pub open spec fn wf(self) -> bool {
        thresholds_valid(self.security_threshold, self.max_risk_threshold)
    }

    /// Initial parameters: the given owner and oracle, the default model
    /// tag, a confidence threshold of 8000 and a risk threshold of 3000.
    pub fn new(owner: Vec<u8>, oracle: Vec<u8>) -> (s: ParameterStore)
        ensures
            s.wf(),
            s.owner@ == owner@,
            s.oracle@ == oracle@,
            s.ai_model_version@ == default_model_tag(),
            s.security_threshold == 8000,
            s.max_risk_threshold == 3000,
    {
        let mut tag: Vec<u8> = Vec::new();
        tag.push(71u8);
        tag.push(80u8);
        tag.push(90u8);
        tag.push(45u8);
        tag.push(57u8);
        tag.push(52u8);
        tag.push(45u8);
        tag.push(118u8);
        tag.push(49u8);
        tag.push(46u8);
        tag.push(48u8);
        assert(tag@ =~= default_model_tag());
        ParameterStore {
            owner,
            oracle,
            ai_model_version: tag,
            security_threshold: 8000,
            max_risk_threshold: 3000,
        }
    }

    /// Update both thresholds, or reject the pair with `InvalidRange` and
    /// change nothing.
    pub fn set_thresholds(&mut self, confidence: u64, risk: u64) -> (r: Result<(), PolicyError>)
        ensures
            r is Ok <==> thresholds_valid(confidence, risk),
            match r {
                Ok(()) => *final(self) == (ParameterStore {
                    security_threshold: confidence,
                    max_risk_threshold: risk,
                    ..*old(self)
                }),
                Err(e) => e == PolicyError::InvalidRange && *final(self) == *old(self),
            },
            old(self).wf() ==> final(self).wf(),
    {
        if confidence < 5000 || confidence > 10000 {
            return Err(PolicyError::InvalidRange);
        }
        if risk < 1000 || risk > 5000 {
            return Err(PolicyError::InvalidRange);
        }
        self.security_threshold = confidence;
        self.max_risk_threshold = risk;
        Ok(())
    }
}

} // verus!
