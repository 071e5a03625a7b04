//! The dispute escalation lifecycle: open, challenge window, escalation
//! window, and resolution (by decision or by exceeding the maximum duration).

use vstd::prelude::*;
use crate::text::{decimal, decimal_text, joined};
use crate::time_policy::{DISPUTE_ESCALATION_WINDOW, EVIDENCE_CHALLENGE_WINDOW, MAX_DISPUTE_DURATION};
use crate::windows::{is_window_active, spec_deadline};

verus! {

/// Stage of a dispute.
#[derive(Clone, Copy, Debug, PartialEq, Eq, Structural)]
pub enum DisputeStage {
    Open,
    ChallengeWindowActive,
    EscalationWindowActive,
    MaxDurationExceeded,
    Resolved,
}

/// Model of one dispute.
#[derive(Clone, Debug)]
pub struct DisputeModel {
    pub dispute_id: u32,
    pub escrow_id: u64,
    pub stage: DisputeStage,
    pub initiated_at: u64,
    pub challenge_evidence_at: Option<u64>,
    pub escalated_at: Option<u64>,
    pub resolved_at: Option<u64>,
    pub release_to_seller: Option<bool>,
}

impl DisputeModel {
    /// The earliest moment at which the dispute may enter its escalation window
    /// (saturated at `u64::MAX`).
    pub open spec fn earliest_escalation(self) -> u64 {
        spec_deadline(self.initiated_at, DISPUTE_ESCALATION_WINDOW)
    }

    /// The moment from which the dispute has exceeded its maximum duration
    /// (saturated at `u64::MAX`).
    pub open spec fn expiry(self) -> u64 {
        spec_deadline(self.initiated_at, MAX_DISPUTE_DURATION)
    }

    /// When a decided dispute counts as resolved: at escalation if it was
    /// escalated, else at the challenged evidence, else when it was opened.
    pub open spec fn decision_time(self) -> u64 {
        match self.escalated_at {
            Some(t) => t,
            None => match self.challenge_evidence_at {
                Some(t) => t,
                None => self.initiated_at,
            },
        }
    }

    /// The dispute after entering its challenge window.
    pub open spec fn challenged(self) -> DisputeModel {
        DisputeModel { stage: DisputeStage::ChallengeWindowActive, ..self }
    }

    /// The dispute after entering its escalation window at `now`.
    pub open spec fn escalated(self, now: u64) -> DisputeModel {
        DisputeModel {
            stage: DisputeStage::EscalationWindowActive,
            escalated_at: Some(now),
            ..self
        }
    }

    /// The dispute after being decided for (`true`) or against the seller.
    pub open spec fn decided(self, release_to_seller: bool) -> DisputeModel {
        DisputeModel {
            stage: DisputeStage::Resolved,
            resolved_at: Some(self.decision_time()),
            release_to_seller: Some(release_to_seller),
            ..self
        }
    }

    /// The dispute after being closed at `now` for exceeding its maximum duration.
    pub open spec fn expired(self, now: u64) -> DisputeModel {
        DisputeModel { stage: DisputeStage::MaxDurationExceeded, resolved_at: Some(now), ..self }
    }

    /// A new, open dispute on escrow `escrow_id`, opened at time zero, with nothing on record.
    pub open spec fn opened(dispute_id: u32, escrow_id: u64) -> DisputeModel {
        DisputeModel {
            dispute_id,
            escrow_id,
            stage: DisputeStage::Open,
            initiated_at: 0,
            challenge_evidence_at: None,
            escalated_at: None,
            resolved_at: None,
            release_to_seller: None,
        }
    }

    /// A new, open dispute on escrow `escrow_id`, opened at time zero.
    pub fn new(dispute_id: u32, escrow_id: u64) -> (r: Self)
        ensures
            r == DisputeModel::opened(dispute_id, escrow_id),
            r == (DisputeModel {
                dispute_id,
                escrow_id,
                stage: DisputeStage::Open,
                initiated_at: 0,
                challenge_evidence_at: None,
                escalated_at: None,
                resolved_at: None,
                release_to_seller: None,
            }),
    {
        DisputeModel {
            dispute_id,
            escrow_id,
            stage: DisputeStage::Open,
            initiated_at: 0,
            challenge_evidence_at: None,
            escalated_at: None,
            resolved_at: None,
            release_to_seller: None,
        }
    }

    /// Enter the evidence challenge window, which must still be active at `now`.
    pub fn try_enter_challenge_window(&mut self, now: u64) -> (r: Result<(), String>)
        ensures
            old(self).stage != DisputeStage::Open ==> *final(self) == *old(self) && (r matches Err(
                m,
            ) && m@ == "dispute not in Open state"@),
            old(self).stage == DisputeStage::Open && now >= spec_deadline(
                old(self).initiated_at,
                EVIDENCE_CHALLENGE_WINDOW,
            ) ==> *final(self) == *old(self) && (r matches Err(m) && m@
                == "challenge window already elapsed"@),
            old(self).stage == DisputeStage::Open && now < spec_deadline(
                old(self).initiated_at,
                EVIDENCE_CHALLENGE_WINDOW,
            ) ==> r is Ok && *final(self) == old(self).challenged(),
    {
        if self.stage != DisputeStage::Open {
            return Err(String::from_str("dispute not in Open state"));
        }
        if !is_window_active(now, self.initiated_at, EVIDENCE_CHALLENGE_WINDOW) {
            return Err(String::from_str("challenge window already elapsed"));
        }
        self.stage = DisputeStage::ChallengeWindowActive;
        Ok(())
    }

    /// Enter the escalation window, which opens `DISPUTE_ESCALATION_WINDOW`
    /// seconds after the dispute was opened.
    pub fn try_enter_escalation_window(&mut self, now: u64) -> (r: Result<(), String>)
        ensures
            old(self).stage != DisputeStage::ChallengeWindowActive ==> *final(self) == *old(self)
                && (r matches Err(m) && m@ == "dispute not in ChallengeWindowActive state"@),
            old(self).stage == DisputeStage::ChallengeWindowActive && now < old(
                self,
            ).earliest_escalation() ==> *final(self) == *old(self) && (r matches Err(m) && m@
                == "escalation window not yet open (earliest: "@ + decimal(
                old(self).earliest_escalation() as nat,
            ) + ")"@),
            old(self).stage == DisputeStage::ChallengeWindowActive && now >= old(
                self,
            ).earliest_escalation() ==> r is Ok && *final(self) == old(self).escalated(now),
    {
        if self.stage != DisputeStage::ChallengeWindowActive {
            return Err(String::from_str("dispute not in ChallengeWindowActive state"));
        }
        let min_escalation: u64 = self.initiated_at.saturating_add(DISPUTE_ESCALATION_WINDOW);
        if now < min_escalation {
            let mut message = joined(
                "escalation window not yet open (earliest: ",
                decimal_text(min_escalation).as_str(),
            );
            message.append(")");
            return Err(message);
        }
        self.stage = DisputeStage::EscalationWindowActive;
        self.escalated_at = Some(now);
        Ok(())
    }

    /// Resolve the dispute by decision, for or against the seller.
    pub fn try_resolve(&mut self, release_to_seller: bool) -> (r: Result<(), String>)
        ensures
            old(self).stage == DisputeStage::Resolved ==> *final(self) == *old(self) && (r matches Err(
                m,
            ) && m@ == "dispute already resolved"@),
            old(self).stage != DisputeStage::Resolved ==> r is Ok && *final(self) == old(self).decided(release_to_seller),
    {
        if self.stage == DisputeStage::Resolved {
            return Err(String::from_str("dispute already resolved"));
        }
        self.stage = DisputeStage::Resolved;
        self.resolved_at = Some(
            self.escalated_at.unwrap_or(self.challenge_evidence_at.unwrap_or(self.initiated_at)),
        );
        self.release_to_seller = Some(release_to_seller);
        Ok(())
    }

    /// Close the dispute once it has exceeded its maximum duration.
    pub fn try_force_resolve_if_expired(&mut self, now: u64) -> (r: Result<(), String>)
        ensures
            old(self).stage == DisputeStage::Resolved ==> *final(self) == *old(self) && (r matches Err(
                m,
            ) && m@ == "dispute already resolved"@),
            old(self).stage != DisputeStage::Resolved && now >= old(self).expiry() ==> r is Ok
                && *final(self) == old(self).expired(now),
            old(self).stage != DisputeStage::Resolved && now < old(self).expiry() ==> *final(self)
                == *old(self) && (r matches Err(m) && m@ == "max dispute duration not yet exceeded"@),
    {
        if self.stage == DisputeStage::Resolved {
            return Err(String::from_str("dispute already resolved"));
        }
        let max_duration: u64 = self.initiated_at.saturating_add(MAX_DISPUTE_DURATION);
        if now >= max_duration {
            self.stage = DisputeStage::MaxDurationExceeded;
            self.resolved_at = Some(now);
            Ok(())
        } else {
            Err(String::from_str("max dispute duration not yet exceeded"))
        }
    }
}

} // verus!
