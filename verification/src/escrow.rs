//! The escrow order lifecycle.

use vstd::prelude::*;
use crate::address::Address;
use crate::text::{debug_quoted, decimal, decimal_text, joined, quoted_text};
use crate::time_policy::{MAX_DISPUTE_DURATION, UNFUNDED_CANCEL_TIMEOUT};
use crate::windows::{is_window_closed, spec_deadline, spec_floor_sub};

verus! {

/// Lifecycle status of an escrow order.
#[derive(Clone, Copy, Debug, PartialEq, Eq, Structural)]
pub enum EscrowStatus {
    Active,
    Released,
    Refunded,
    Disputed,
    Resolved,
    ReleasePending,
    RefundPending,
    DisputePending,
    SettlementPending,
}

impl EscrowStatus {
    /// The variant's name, as `{:?}` prints it.
    pub open spec fn name_text(self) -> Seq<char> {
        match self {
            EscrowStatus::Active => "Active"@,
            EscrowStatus::Released => "Released"@,
            EscrowStatus::Refunded => "Refunded"@,
            EscrowStatus::Disputed => "Disputed"@,
            EscrowStatus::Resolved => "Resolved"@,
            EscrowStatus::ReleasePending => "ReleasePending"@,
            EscrowStatus::RefundPending => "RefundPending"@,
            EscrowStatus::DisputePending => "DisputePending"@,
            EscrowStatus::SettlementPending => "SettlementPending"@,
        }
    }

    /// The variant's name, as `{:?}` prints it.
    pub fn name(&self) -> (r: &'static str)
        ensures
            r@ == self.name_text(),
    {
        match self {
            EscrowStatus::Active => "Active",
            EscrowStatus::Released => "Released",
            EscrowStatus::Refunded => "Refunded",
            EscrowStatus::Disputed => "Disputed",
            EscrowStatus::Resolved => "Resolved",
            EscrowStatus::ReleasePending => "ReleasePending",
            EscrowStatus::RefundPending => "RefundPending",
            EscrowStatus::DisputePending => "DisputePending",
            EscrowStatus::SettlementPending => "SettlementPending",
        }
    }
}

/// Error for invalid escrow transitions.
#[derive(Clone, Debug, PartialEq, Eq)]
pub enum EscrowTransitionError {
    InvalidCurrentState(String),
    ReleaseWindowNotElapsed { created_at: u64, release_window: u64, now: u64 },
    NotInDispute,
    AlreadyResolved,
    InvalidTerminalState(String),
    SettlementAlreadyFinalized,
    EscrowNotFound,
}

/// `{:?}` text of an `InvalidCurrentState` error carrying `message`.
pub open spec fn invalid_state_text(message: Seq<char>) -> Seq<char> {
    "InvalidCurrentState("@ + debug_quoted(message) + ")"@
}

/// `{:?}` text of a `ReleaseWindowNotElapsed` error with these fields.
pub open spec fn window_not_elapsed_text(created_at: u64, release_window: u64, now: u64) -> Seq<char> {
    "ReleaseWindowNotElapsed { created_at: "@ + decimal(created_at as nat) + ", release_window: "@
        + decimal(release_window as nat) + ", now: "@ + decimal(now as nat) + " }"@
}

impl EscrowTransitionError {
    /// The error as `{:?}` prints it.
    pub open spec fn debug_text(self) -> Seq<char> {
        match self {
            EscrowTransitionError::InvalidCurrentState(m) => invalid_state_text(m@),
            EscrowTransitionError::ReleaseWindowNotElapsed { created_at, release_window, now } =>
                window_not_elapsed_text(created_at, release_window, now),
            EscrowTransitionError::NotInDispute => "NotInDispute"@,
            EscrowTransitionError::AlreadyResolved => "AlreadyResolved"@,
            EscrowTransitionError::InvalidTerminalState(m) =>
                "InvalidTerminalState("@ + debug_quoted(m@) + ")"@,
            EscrowTransitionError::SettlementAlreadyFinalized => "SettlementAlreadyFinalized"@,
            EscrowTransitionError::EscrowNotFound => "EscrowNotFound"@,
        }
    }

    /// The error as `{:?}` prints it.
    pub fn debug_string(&self) -> (r: String)
        ensures
            r@ == self.debug_text(),
    {
        match self {
            EscrowTransitionError::InvalidCurrentState(m) => {
                let mut r = String::from_str("InvalidCurrentState(");
                r.append(quoted_text(m).as_str());
                r.append(")");
                r
            },
            EscrowTransitionError::ReleaseWindowNotElapsed { created_at, release_window, now } => {
                let mut r = String::from_str("ReleaseWindowNotElapsed { created_at: ");
                r.append(decimal_text(*created_at).as_str());
                r.append(", release_window: ");
                r.append(decimal_text(*release_window).as_str());
                r.append(", now: ");
                r.append(decimal_text(*now).as_str());
                r.append(" }");
                r
            },
            EscrowTransitionError::NotInDispute => String::from_str("NotInDispute"),
            EscrowTransitionError::AlreadyResolved => String::from_str("AlreadyResolved"),
            EscrowTransitionError::InvalidTerminalState(m) => {
                let mut r = String::from_str("InvalidTerminalState(");
                r.append(quoted_text(m).as_str());
                r.append(")");
                r
            },
            EscrowTransitionError::SettlementAlreadyFinalized => String::from_str(
                "SettlementAlreadyFinalized",
            ),
            EscrowTransitionError::EscrowNotFound => String::from_str("EscrowNotFound"),
        }
    }
}

/// Model for a single escrow order.
#[derive(Clone, Debug)]
pub struct EscrowModel {
    pub id: u64,
    pub buyer: Address,
    pub seller: Address,
    pub token: Address,
    pub amount: i128,
    pub status: EscrowStatus,
    pub release_window: u32,
    pub created_at: u32,
    pub funded: bool,
    pub funding_deadline: Option<u64>,
    pub dispute_reason: Option<String>,
    pub dispute_initiated_at: Option<u64>,
}

/// Statuses from which an escrow has been paid out, refunded or settled.
pub open spec fn is_paid_out(s: EscrowStatus) -> bool {
    s == EscrowStatus::Released || s == EscrowStatus::Refunded || s == EscrowStatus::Resolved
}

impl EscrowModel {
    /// The same escrow in status `s`.
    pub open spec fn with_status(self, s: EscrowStatus) -> EscrowModel {
        EscrowModel { status: s, ..self }
    }

    /// The release window (measured from creation) has closed at `now`.
    pub open spec fn release_window_closed(self, now: u64) -> bool {
        now >= spec_deadline(self.created_at as u64, self.release_window as u64)
    }

    /// `try_release(now)` succeeds.
    pub open spec fn can_release(self, now: u64) -> bool {
        &&& self.release_window_closed(now)
        &&& (self.status == EscrowStatus::Active || self.status == EscrowStatus::ReleasePending)
    }

    /// `{:?}` text of the error with which `try_release(now)` fails.
    pub open spec fn release_rejection(self, now: u64) -> Seq<char> {
        if !self.release_window_closed(now) {
            window_not_elapsed_text(self.created_at as u64, self.release_window as u64, now)
        } else if self.status == EscrowStatus::Disputed {
            "NotInDispute"@
        } else if is_paid_out(self.status) {
            "AlreadyResolved"@
        } else {
            invalid_state_text("cannot release from "@ + self.status.name_text())
        }
    }

    /// The escrow after a dispute was opened at `now` for `reason`.
    pub open spec fn disputed(self, now: u64, reason: String) -> EscrowModel {
        EscrowModel {
            status: EscrowStatus::Disputed,
            dispute_reason: Some(reason),
            dispute_initiated_at: Some(now),
            ..self
        }
    }

    /// `{:?}` text of the error with which `try_initiate_dispute` fails.
    pub open spec fn dispute_rejection(self) -> Seq<char> {
        invalid_state_text("cannot dispute from "@ + self.status.name_text())
    }

    /// Without admin authority, the dispute's own window still blocks resolution at `now`.
    pub open spec fn dispute_window_blocks(self, now: u64, admin_authorized: bool) -> bool {
        &&& !admin_authorized
        &&& self.dispute_initiated_at is Some
        &&& now < spec_deadline(self.dispute_initiated_at->0, MAX_DISPUTE_DURATION)
    }

    /// `try_resolve_dispute` succeeds.
    pub open spec fn can_resolve_dispute(self, now: u64, admin_authorized: bool) -> bool {
        self.status == EscrowStatus::Disputed && !self.dispute_window_blocks(now, admin_authorized)
    }

    /// `{:?}` text of the error with which `try_resolve_dispute` fails.
    pub open spec fn resolve_rejection(self, now: u64, admin_authorized: bool) -> Seq<char> {
        if self.status != EscrowStatus::Disputed {
            invalid_state_text("cannot resolve from "@ + self.status.name_text())
        } else {
            invalid_state_text("dispute window still active"@)
        }
    }

    /// `try_cancel(now)` succeeds: the escrow is unfunded and its funding deadline has passed.
    pub open spec fn can_cancel(self, now: u64) -> bool {
        !self.funded && now >= spec_deadline(self.created_at as u64, UNFUNDED_CANCEL_TIMEOUT)
    }

    /// The escrow after an unfunded cancellation.
    pub open spec fn cancelled(self) -> EscrowModel {
        EscrowModel { status: EscrowStatus::Refunded, funding_deadline: None, ..self }
    }

    /// `{:?}` text of the error with which `try_cancel(now)` fails.
    pub open spec fn cancel_rejection(self, now: u64) -> Seq<char> {
        if self.funded {
            invalid_state_text("cannot cancel a funded escrow"@)
        } else {
            invalid_state_text("funding deadline not yet elapsed"@)
        }
    }

    /// The escrow after its release window was set to `new_window` at `now`.
    pub open spec fn window_extended(self, new_window: u32, now: u64) -> EscrowModel {
        EscrowModel {
            release_window: new_window,
            funding_deadline: match self.funding_deadline {
                Some(d) => if now < d {
                    Some(
                        spec_deadline(
                            spec_floor_sub(
                                spec_deadline(now, new_window as u64),
                                new_window as u64,
                            ),
                            UNFUNDED_CANCEL_TIMEOUT,
                        ),
                    )
                } else {
                    Some(d)
                },
                None => None,
            },
            ..self
        }
    }

    /// A new, funded, active escrow created at `created_at`, whose funding
    /// deadline is `UNFUNDED_CANCEL_TIMEOUT` after its creation.
    pub open spec fn opened(
        id: u64,
        buyer: Address,
        seller: Address,
        token: Address,
        amount: i128,
        release_window: u32,
        created_at: u32,
    ) -> EscrowModel {
        EscrowModel {
            id,
            buyer,
            seller,
            token,
            amount,
            status: EscrowStatus::Active,
            release_window,
            created_at,
            funded: true,
            funding_deadline: Some((created_at + UNFUNDED_CANCEL_TIMEOUT) as u64),
            dispute_reason: None,
            dispute_initiated_at: None,
        }
    }

    /// A new, funded, active escrow created at `created_at`.
    pub fn new(
        id: u64,
        buyer: Address,
        seller: Address,
        token: Address,
        amount: i128,
        release_window: u32,
        created_at: u32,
    ) -> (r: Self)
        ensures
            r == EscrowModel::opened(id, buyer, seller, token, amount, release_window, created_at),
    {
        EscrowModel {
            id,
            buyer,
            seller,
            token,
            amount,
            status: EscrowStatus::Active,
            release_window,
            created_at,
            funded: true,
            funding_deadline: Some(created_at as u64 + UNFUNDED_CANCEL_TIMEOUT),
            dispute_reason: None,
            dispute_initiated_at: None,
        }
    }

    /// Attempt to release the escrow. Only allowed after release_window has elapsed.
    pub fn try_release(&mut self, now: u64) -> (r: Result<(), EscrowTransitionError>)
        ensures
            old(self).can_release(now) ==> r is Ok && *final(self) == old(self).with_status(
                EscrowStatus::Released,
            ),
            !old(self).can_release(now) ==> r is Err && *final(self) == *old(self),
            !old(self).release_window_closed(now) ==> r == Err::<(), EscrowTransitionError>(
                EscrowTransitionError::ReleaseWindowNotElapsed {
                    created_at: old(self).created_at as u64,
                    release_window: old(self).release_window as u64,
                    now,
                },
            ),
            old(self).release_window_closed(now) && old(self).status == EscrowStatus::Disputed
                ==> r == Err::<(), EscrowTransitionError>(EscrowTransitionError::NotInDispute),
            old(self).release_window_closed(now) && is_paid_out(old(self).status) ==> r == Err::<
                (),
                EscrowTransitionError,
            >(EscrowTransitionError::AlreadyResolved),
            old(self).release_window_closed(now) && !old(self).can_release(now) && old(self).status
                != EscrowStatus::Disputed && !is_paid_out(old(self).status) ==> (r matches Err(
                EscrowTransitionError::InvalidCurrentState(m),
            ) && m@ == "cannot release from "@ + old(self).status.name_text()),
            r matches Err(e) ==> e.debug_text() == old(self).release_rejection(now),
            r is Ok ==> (now >= old(self).created_at + old(self).release_window || now == u64::MAX)
                && final(self).status == EscrowStatus::Released,
            now < old(self).created_at + old(self).release_window && now < u64::MAX ==> *final(self)
                == *old(self) && r == Err::<(), EscrowTransitionError>(
                EscrowTransitionError::ReleaseWindowNotElapsed {
                    created_at: old(self).created_at as u64,
                    release_window: old(self).release_window as u64,
                    now,
                },
            ),
    {
        if !is_window_closed(now, self.created_at as u64, self.release_window as u64) {
            return Err(
                EscrowTransitionError::ReleaseWindowNotElapsed {
                    created_at: self.created_at as u64,
                    release_window: self.release_window as u64,
                    now,
                },
            );
        }
        match self.status {
            EscrowStatus::Active | EscrowStatus::ReleasePending => {
                self.status = EscrowStatus::Released;
                Ok(())
            },
            EscrowStatus::Disputed => Err(EscrowTransitionError::NotInDispute),
            EscrowStatus::Released | EscrowStatus::Refunded | EscrowStatus::Resolved => {
                Err(EscrowTransitionError::AlreadyResolved)
            },
            _ => Err(
                EscrowTransitionError::InvalidCurrentState(
                    joined("cannot release from ", self.status.name()),
                ),
            ),
        }
    }

    /// Initiate a dispute on an Active escrow.
    pub fn try_initiate_dispute(&mut self, now: u64, reason: String) -> (r: Result<
        (),
        EscrowTransitionError,
    >)
        ensures
            old(self).status == EscrowStatus::Active ==> r is Ok && *final(self) == old(
                self,
            ).disputed(now, reason),
            old(self).status != EscrowStatus::Active ==> *final(self) == *old(self) && (r matches Err(
                EscrowTransitionError::InvalidCurrentState(m),
            ) && m@ == "cannot dispute from "@ + old(self).status.name_text()),
            r matches Err(e) ==> e.debug_text() == old(self).dispute_rejection(),
    {
        match self.status {
            EscrowStatus::Active => {},
            _ => {
                return Err(
                    EscrowTransitionError::InvalidCurrentState(
                        joined("cannot dispute from ", self.status.name()),
                    ),
                );
            },
        }
        self.status = EscrowStatus::Disputed;
        self.dispute_reason = Some(reason);
        self.dispute_initiated_at = Some(now);
        Ok(())
    }

    /// Resolve a disputed escrow (arbitrator decision).
    pub fn try_resolve_dispute(&mut self, now: u64, admin_authorized: bool, release_to_seller: bool) -> (r:
        Result<(), EscrowTransitionError>)
        ensures
            old(self).can_resolve_dispute(now, admin_authorized) ==> r is Ok && *final(self) == old(
                self,
            ).with_status(EscrowStatus::Resolved),
            !old(self).can_resolve_dispute(now, admin_authorized) ==> *final(self) == *old(self)
                && (r matches Err(EscrowTransitionError::InvalidCurrentState(m)) && m@ == (if old(
                self,
            ).status != EscrowStatus::Disputed {
                "cannot resolve from "@ + old(self).status.name_text()
            } else {
                "dispute window still active"@
            })),
            r matches Err(e) ==> e.debug_text() == old(self).resolve_rejection(now, admin_authorized),
    {
        match self.status {
            EscrowStatus::Disputed => {},
            _ => {
                return Err(
                    EscrowTransitionError::InvalidCurrentState(
                        joined("cannot resolve from ", self.status.name()),
                    ),
                );
            },
        }
        if !admin_authorized {
            if let Some(start) = self.dispute_initiated_at {
                if !is_window_closed(now, start, MAX_DISPUTE_DURATION) {
                    return Err(
                        EscrowTransitionError::InvalidCurrentState(
                            String::from_str("dispute window still active"),
                        ),
                    );
                }
            }
        }
        self.status = EscrowStatus::Resolved;
        Ok(())
    }

    /// Cancel an unfunded escrow (before funding deadline).
    pub fn try_cancel(&mut self, now: u64) -> (r: Result<(), EscrowTransitionError>)
        ensures
            old(self).can_cancel(now) ==> r is Ok && *final(self) == old(self).cancelled(),
            !old(self).can_cancel(now) ==> *final(self) == *old(self) && (r matches Err(
                EscrowTransitionError::InvalidCurrentState(m),
            ) && m@ == (if old(self).funded {
                "cannot cancel a funded escrow"@
            } else {
                "funding deadline not yet elapsed"@
            })),
            r matches Err(e) ==> e.debug_text() == old(self).cancel_rejection(now),
    {
        if !self.funded {
            if is_window_closed(now, self.created_at as u64, UNFUNDED_CANCEL_TIMEOUT) {
                self.status = EscrowStatus::Refunded;
                self.funding_deadline = None;
                Ok(())
            } else {
                Err(
                    EscrowTransitionError::InvalidCurrentState(
                        String::from_str("funding deadline not yet elapsed"),
                    ),
                )
            }
        } else {
            Err(
                EscrowTransitionError::InvalidCurrentState(
                    String::from_str("cannot cancel a funded escrow"),
                ),
            )
        }
    }

    /// Extend the release window (admin action).
    pub fn try_extend_release_window(&mut self, new_window: u32, now: u64) -> (r: Result<
        (),
        EscrowTransitionError,
    >)
        ensures
            r is Ok,
            *final(self) == old(self).window_extended(new_window, now),
    {
        self.release_window = new_window;
        if self.funding_deadline.is_some() {
            let current_deadline: u64 = self.funding_deadline.unwrap();
            if now < current_deadline {
                self.funding_deadline = Some(
                    now.saturating_add(new_window as u64).saturating_sub(
                        self.release_window as u64,
                    ).saturating_add(UNFUNDED_CANCEL_TIMEOUT),
                );
            }
        }
        Ok(())
    }
}

} // verus!
