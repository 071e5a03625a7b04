//! The aggregate model state: every escrow, dispute, recurring escrow, stake
//! and profile, with the running conservation totals.

use vstd::prelude::*;
use crate::address::Address;
use crate::conservation::{fits_i128, ConservationInvariants};
use crate::dispute::DisputeModel;
use crate::escrow::EscrowModel;
use crate::profile::OnboardingProfileModel;
use crate::recurring::RecurringEscrowModel;
use crate::seqs::{first_where, lemma_first_where_absent, lemma_first_where_found};
use crate::stake::StakeModel;
use crate::terminal::{
    escrow_terminal, is_escrow_terminal, is_profile_terminal, is_recurring_terminal,
    is_stake_terminal, recurring_terminal,
};
use crate::profile::ProfileStatusModel;
use crate::stake::StakeStatus;

verus! {

/// Escrows with id `id`.
pub open spec fn escrow_with_id(id: u64) -> spec_fn(EscrowModel) -> bool {
    |e: EscrowModel| e.id == id
}

/// Disputes with id `id`.
pub open spec fn dispute_with_id(id: u32) -> spec_fn(DisputeModel) -> bool {
    |d: DisputeModel| d.dispute_id == id
}

/// Recurring escrows with id `id`.
pub open spec fn recurring_with_id(id: u64) -> spec_fn(RecurringEscrowModel) -> bool {
    |r: RecurringEscrowModel| r.id == id
}

/// Stakes of the artisan with address `artisan` in the token with address `token`.
pub open spec fn stake_of(artisan: Seq<char>, token: Seq<char>) -> spec_fn(StakeModel) -> bool {
    |s: StakeModel| s.artisan@ == artisan && s.token@ == token
}

/// Profiles of the user with address `address`.
pub open spec fn profile_of(address: Seq<char>) -> spec_fn(OnboardingProfileModel) -> bool {
    |p: OnboardingProfileModel| p.address@ == address
}

/// Aggregate state of the model.
#[derive(Clone, Debug)]
pub struct ModelState {
    pub escrows: Vec<EscrowModel>,
    pub disputes: Vec<DisputeModel>,
    pub recurring: Vec<RecurringEscrowModel>,
    pub stakes: Vec<StakeModel>,
    pub profiles: Vec<OnboardingProfileModel>,
    pub invariants: ConservationInvariants,
    pub total_minted: i128,
}

impl ModelState {
    /// `new` holds the same escrows as `self`.
    pub open spec fn keeps_escrows(self, new: ModelState) -> bool {
        new.escrows@ == self.escrows@
    }

    /// `new` holds the same disputes as `self`.
    pub open spec fn keeps_disputes(self, new: ModelState) -> bool {
        new.disputes@ == self.disputes@
    }

    /// `new` holds the same recurring escrows as `self`.
    pub open spec fn keeps_recurring(self, new: ModelState) -> bool {
        new.recurring@ == self.recurring@
    }

    /// `new` holds the same stakes as `self`.
    pub open spec fn keeps_stakes(self, new: ModelState) -> bool {
        new.stakes@ == self.stakes@
    }

    /// `new` holds the same profiles as `self`.
    pub open spec fn keeps_profiles(self, new: ModelState) -> bool {
        new.profiles@ == self.profiles@
    }

    /// `new` has the same totals and minted supply as `self`.
    pub open spec fn keeps_books(self, new: ModelState) -> bool {
        new.invariants == self.invariants && new.total_minted == self.total_minted
    }

    /// `new` equals `self` in every respect.
    pub open spec fn unchanged(self, new: ModelState) -> bool {
        &&& self.keeps_escrows(new)
        &&& self.keeps_disputes(new)
        &&& self.keeps_recurring(new)
        &&& self.keeps_stakes(new)
        &&& self.keeps_profiles(new)
        &&& self.keeps_books(new)
    }

    /// `new` is `self` with `escrow` registered and its amount counted into the escrow total.
    pub open spec fn escrow_added(self, new: ModelState, escrow: EscrowModel) -> bool {
        &&& new.escrows@ == self.escrows@.push(escrow)
        &&& new.invariants == (ConservationInvariants {
            total_escrow_amount: (self.invariants.total_escrow_amount + escrow.amount) as i128,
            ..self.invariants
        })
        &&& new.total_minted == self.total_minted
        &&& self.keeps_disputes(new)
        &&& self.keeps_recurring(new)
        &&& self.keeps_stakes(new)
        &&& self.keeps_profiles(new)
    }

    /// `new` is `self` without its first escrow with id `id` (if any), whose
    /// amount is taken out of the escrow total.
    pub open spec fn escrow_removed(self, new: ModelState, id: u64) -> bool {
        &&& match first_where(self.escrows@, escrow_with_id(id)) {
            Some(i) => {
                &&& new.escrows@ == self.escrows@.remove(i)
                &&& new.invariants == (ConservationInvariants {
                    total_escrow_amount: (self.invariants.total_escrow_amount
                        - self.escrows@[i].amount) as i128,
                    ..self.invariants
                })
                &&& new.total_minted == self.total_minted
            },
            None => self.unchanged(new),
        }
        &&& self.keeps_disputes(new)
        &&& self.keeps_recurring(new)
        &&& self.keeps_stakes(new)
        &&& self.keeps_profiles(new)
    }

    /// `new` is `self` with `recurring` registered and its total counted into the recurring total.
    pub open spec fn recurring_added(self, new: ModelState, recurring: RecurringEscrowModel) -> bool {
        &&& new.recurring@ == self.recurring@.push(recurring)
        &&& new.invariants == (ConservationInvariants {
            total_recurring: (self.invariants.total_recurring + recurring.total_amount) as i128,
            ..self.invariants
        })
        &&& new.total_minted == self.total_minted
        &&& self.keeps_escrows(new)
        &&& self.keeps_disputes(new)
        &&& self.keeps_stakes(new)
        &&& self.keeps_profiles(new)
    }

    /// `new` is `self` without its first recurring escrow with id `id` (if any),
    /// whose total is taken out of the recurring total.
    pub open spec fn recurring_removed(self, new: ModelState, id: u64) -> bool {
        &&& match first_where(self.recurring@, recurring_with_id(id)) {
            Some(i) => {
                &&& new.recurring@ == self.recurring@.remove(i)
                &&& new.invariants == (ConservationInvariants {
                    total_recurring: (self.invariants.total_recurring
                        - self.recurring@[i].total_amount) as i128,
                    ..self.invariants
                })
                &&& new.total_minted == self.total_minted
            },
            None => self.unchanged(new),
        }
        &&& self.keeps_escrows(new)
        &&& self.keeps_disputes(new)
        &&& self.keeps_stakes(new)
        &&& self.keeps_profiles(new)
    }

    /// An empty state with `total_minted` tokens in circulation.
    pub fn new(total_minted: i128) -> (r: Self)
        ensures
            r.escrows@ == Seq::<EscrowModel>::empty(),
            r.disputes@ == Seq::<DisputeModel>::empty(),
            r.recurring@ == Seq::<RecurringEscrowModel>::empty(),
            r.stakes@ == Seq::<StakeModel>::empty(),
            r.profiles@ == Seq::<OnboardingProfileModel>::empty(),
            r.invariants == (ConservationInvariants {
                total_escrow_amount: 0,
                total_staked: 0,
                total_recurring: 0,
                total_fees: 0,
            }),
            r.total_minted == total_minted,
    {
        ModelState {
            escrows: Vec::new(),
            disputes: Vec::new(),
            recurring: Vec::new(),
            stakes: Vec::new(),
            profiles: Vec::new(),
            invariants: ConservationInvariants::new(),
            total_minted,
        }
    }

    /// Position of the first escrow with id `id`.
    pub(crate) fn find_escrow(&self, id: u64) -> (r: Option<usize>)
        ensures
            match r {
                Some(i) => first_where(self.escrows@, escrow_with_id(id)) == Some(i as int),
                None => first_where(self.escrows@, escrow_with_id(id)) is None,
            },
    {
        let mut i: usize = 0;
        while i < self.escrows.len()
            invariant
                i <= self.escrows.len(),
                forall|j: int| 0 <= j < i ==> !(escrow_with_id(id))(#[trigger] self.escrows@[j]),
            decreases self.escrows.len() - i,
        {
            if self.escrows[i].id == id {
                proof {
                    lemma_first_where_found(self.escrows@, escrow_with_id(id), i as int);
                }
                return Some(i);
            }
            i += 1;
        }
        proof {
            lemma_first_where_absent(self.escrows@, escrow_with_id(id));
        }
        None
    }

    /// Position of the first dispute with id `id`.
    pub(crate) fn find_dispute(&self, id: u32) -> (r: Option<usize>)
        ensures
            match r {
                Some(i) => first_where(self.disputes@, dispute_with_id(id)) == Some(i as int),
                None => first_where(self.disputes@, dispute_with_id(id)) is None,
            },
    {
        let mut i: usize = 0;
        while i < self.disputes.len()
            invariant
                i <= self.disputes.len(),
                forall|j: int|
                    0 <= j < i ==> !(dispute_with_id(id))(#[trigger] self.disputes@[j]),
            decreases self.disputes.len() - i,
        {
            if self.disputes[i].dispute_id == id {
                proof {
                    lemma_first_where_found(self.disputes@, dispute_with_id(id), i as int);
                }
                return Some(i);
            }
            i += 1;
        }
        proof {
            lemma_first_where_absent(self.disputes@, dispute_with_id(id));
        }
        None
    }

    /// Position of the first recurring escrow with id `id`.
    pub(crate) fn find_recurring(&self, id: u64) -> (r: Option<usize>)
        ensures
            match r {
                Some(i) => first_where(self.recurring@, recurring_with_id(id)) == Some(i as int),
                None => first_where(self.recurring@, recurring_with_id(id)) is None,
            },
    {
        let mut i: usize = 0;
        while i < self.recurring.len()
            invariant
                i <= self.recurring.len(),
                forall|j: int|
                    0 <= j < i ==> !(recurring_with_id(id))(#[trigger] self.recurring@[j]),
            decreases self.recurring.len() - i,
        {
            if self.recurring[i].id == id {
                proof {
                    lemma_first_where_found(self.recurring@, recurring_with_id(id), i as int);
                }
                return Some(i);
            }
            i += 1;
        }
        proof {
            lemma_first_where_absent(self.recurring@, recurring_with_id(id));
        }
        None
    }

    /// Position of the first stake of `artisan` in `token`.
    pub(crate) fn find_stake(&self, artisan: &Address, token: &Address) -> (r: Option<usize>)
        ensures
            match r {
                Some(i) => first_where(self.stakes@, stake_of(artisan@, token@)) == Some(i as int),
                None => first_where(self.stakes@, stake_of(artisan@, token@)) is None,
            },
    {
        let mut i: usize = 0;
        while i < self.stakes.len()
            invariant
                i <= self.stakes.len(),
                forall|j: int|
                    0 <= j < i ==> !(stake_of(artisan@, token@))(#[trigger] self.stakes@[j]),
            decreases self.stakes.len() - i,
        {
            if self.stakes[i].artisan.same_as(artisan) && self.stakes[i].token.same_as(token) {
                proof {
                    lemma_first_where_found(self.stakes@, stake_of(artisan@, token@), i as int);
                }
                return Some(i);
            }
            i += 1;
        }
        proof {
            lemma_first_where_absent(self.stakes@, stake_of(artisan@, token@));
        }
        None
    }

    /// Position of the first profile of `address`.
    pub(crate) fn find_profile(&self, address: &Address) -> (r: Option<usize>)
        ensures
            match r {
                Some(i) => first_where(self.profiles@, profile_of(address@)) == Some(i as int),
                None => first_where(self.profiles@, profile_of(address@)) is None,
            },
    {
        let mut i: usize = 0;
        while i < self.profiles.len()
            invariant
                i <= self.profiles.len(),
                forall|j: int|
                    0 <= j < i ==> !(profile_of(address@))(#[trigger] self.profiles@[j]),
            decreases self.profiles.len() - i,
        {
            if self.profiles[i].address.same_as(address) {
                proof {
                    lemma_first_where_found(self.profiles@, profile_of(address@), i as int);
                }
                return Some(i);
            }
            i += 1;
        }
        proof {
            lemma_first_where_absent(self.profiles@, profile_of(address@));
        }
        None
    }
    /// Register `escrow` and count its amount into the escrow total.
    pub fn add_escrow(&mut self, escrow: EscrowModel)
        requires
            fits_i128(old(self).invariants.total_escrow_amount + escrow.amount),
        ensures
            old(self).escrow_added(*final(self), escrow),
    {
        let amount: i128 = escrow.amount;
        self.escrows.push(escrow);
        self.invariants.add_escrow(amount);
    }

    /// Drop the first escrow with id `id`, taking its amount out of the escrow total.
    pub fn remove_escrow(&mut self, escrow_id: u64)
        requires
            match first_where(old(self).escrows@, escrow_with_id(escrow_id)) {
                Some(i) => fits_i128(
                    old(self).invariants.total_escrow_amount - old(self).escrows@[i].amount,
                ),
                None => true,
            },
        ensures
            old(self).escrow_removed(*final(self), escrow_id),
    {
        if let Some(pos) = self.find_escrow(escrow_id) {
            let amount: i128 = self.escrows[pos].amount;
            self.invariants.remove_escrow(amount);
            self.escrows.remove(pos);
        }
    }

    /// Register `dispute`.
    pub fn add_dispute(&mut self, dispute: DisputeModel)
        ensures
            final(self).disputes@ == old(self).disputes@.push(dispute),
            old(self).keeps_escrows(*final(self)),
            old(self).keeps_recurring(*final(self)),
            old(self).keeps_stakes(*final(self)),
            old(self).keeps_profiles(*final(self)),
            old(self).keeps_books(*final(self)),
    {
        self.disputes.push(dispute);
    }

    /// Drop the first dispute with id `dispute_id`.
    pub fn remove_dispute(&mut self, dispute_id: u32)
        ensures
            match first_where(old(self).disputes@, dispute_with_id(dispute_id)) {
                Some(i) => final(self).disputes@ == old(self).disputes@.remove(i),
                None => final(self).disputes@ == old(self).disputes@,
            },
            old(self).keeps_escrows(*final(self)),
            old(self).keeps_recurring(*final(self)),
            old(self).keeps_stakes(*final(self)),
            old(self).keeps_profiles(*final(self)),
            old(self).keeps_books(*final(self)),
    {
        if let Some(pos) = self.find_dispute(dispute_id) {
            self.disputes.remove(pos);
        }
    }

    /// Register `recurring` and count its total into the recurring total.
    pub fn add_recurring(&mut self, recurring: RecurringEscrowModel)
        requires
            fits_i128(old(self).invariants.total_recurring + recurring.total_amount),
        ensures
            old(self).recurring_added(*final(self), recurring),
    {
        let amount: i128 = recurring.total_amount;
        self.recurring.push(recurring);
        self.invariants.add_recurring(amount);
    }

    /// Drop the first recurring escrow with id `recurring_id`, taking its total
    /// out of the recurring total.
    pub fn remove_recurring(&mut self, recurring_id: u64)
        requires
            match first_where(old(self).recurring@, recurring_with_id(recurring_id)) {
                Some(i) => fits_i128(
                    old(self).invariants.total_recurring - old(self).recurring@[i].total_amount,
                ),
                None => true,
            },
        ensures
            old(self).recurring_removed(*final(self), recurring_id),
    {
        if let Some(pos) = self.find_recurring(recurring_id) {
            let amount: i128 = self.recurring[pos].total_amount;
            self.invariants.remove_recurring(amount);
            self.recurring.remove(pos);
        }
    }

    /// Register `stake` and count its staked amount into the staked total.
    pub fn add_stake(&mut self, stake: StakeModel)
        requires
            fits_i128(old(self).invariants.total_staked + stake.staked_amount),
        ensures
            final(self).stakes@ == old(self).stakes@.push(stake),
            final(self).invariants == (ConservationInvariants {
                total_staked: (old(self).invariants.total_staked + stake.staked_amount) as i128,
                ..old(self).invariants
            }),
            final(self).total_minted == old(self).total_minted,
            old(self).keeps_escrows(*final(self)),
            old(self).keeps_disputes(*final(self)),
            old(self).keeps_recurring(*final(self)),
            old(self).keeps_profiles(*final(self)),
    {
        let amount: i128 = stake.staked_amount;
        self.stakes.push(stake);
        self.invariants.add_staked(amount);
    }

    /// Drop the first stake of `artisan` in `token`, taking its staked amount
    /// out of the staked total.
    pub fn remove_stake(&mut self, artisan: &Address, token: &Address)
        requires
            match first_where(old(self).stakes@, stake_of(artisan@, token@)) {
                Some(i) => fits_i128(
                    old(self).invariants.total_staked - old(self).stakes@[i].staked_amount,
                ),
                None => true,
            },
        ensures
            match first_where(old(self).stakes@, stake_of(artisan@, token@)) {
                Some(i) => {
                    &&& final(self).stakes@ == old(self).stakes@.remove(i)
                    &&& final(self).invariants == (ConservationInvariants {
                        total_staked: (old(self).invariants.total_staked - old(
                            self,
                        ).stakes@[i].staked_amount) as i128,
                        ..old(self).invariants
                    })
                    &&& final(self).total_minted == old(self).total_minted
                },
                None => old(self).unchanged(*final(self)),
            },
            old(self).keeps_escrows(*final(self)),
            old(self).keeps_disputes(*final(self)),
            old(self).keeps_recurring(*final(self)),
            old(self).keeps_profiles(*final(self)),
    {
        if let Some(pos) = self.find_stake(artisan, token) {
            let amount: i128 = self.stakes[pos].staked_amount;
            self.invariants.remove_staked(amount);
            self.stakes.remove(pos);
        }
    }

    /// Register `profile`.
    pub fn add_profile(&mut self, profile: OnboardingProfileModel)
        ensures
            final(self).profiles@ == old(self).profiles@.push(profile),
            old(self).keeps_escrows(*final(self)),
            old(self).keeps_disputes(*final(self)),
            old(self).keeps_recurring(*final(self)),
            old(self).keeps_stakes(*final(self)),
            old(self).keeps_books(*final(self)),
    {
        self.profiles.push(profile);
    }

    /// Drop the first profile of `address`.
    pub fn remove_profile(&mut self, address: &Address)
        ensures
            match first_where(old(self).profiles@, profile_of(address@)) {
                Some(i) => final(self).profiles@ == old(self).profiles@.remove(i),
                None => final(self).profiles@ == old(self).profiles@,
            },
            old(self).keeps_escrows(*final(self)),
            old(self).keeps_disputes(*final(self)),
            old(self).keeps_recurring(*final(self)),
            old(self).keeps_stakes(*final(self)),
            old(self).keeps_books(*final(self)),
    {
        if let Some(pos) = self.find_profile(address) {
            self.profiles.remove(pos);
        }
    }

    /// Whether everything owed is covered by the minted supply.
    pub fn check_all_invariants(&self) -> (r: bool)
        requires
            self.invariants.sums_fit(),
        ensures
            r == (self.invariants.obligations() <= self.total_minted),
    {
        self.invariants.check_invariant(self.total_minted)
    }

    /// Whether some escrow is in a terminal status.
    pub fn has_terminal_escrows(&self) -> (r: bool)
        ensures
            r == exists|i: int|
                0 <= i < self.escrows@.len() && escrow_terminal(#[trigger] self.escrows@[i].status),
    {
        let mut i: usize = 0;
        while i < self.escrows.len()
            invariant
                i <= self.escrows.len(),
                forall|j: int| 0 <= j < i ==> !escrow_terminal(#[trigger] self.escrows@[j].status),
            decreases self.escrows.len() - i,
        {
            if is_escrow_terminal(self.escrows[i].status) {
                return true;
            }
            i += 1;
        }
        false
    }

    /// Whether some stake is in a terminal status.
    pub fn has_terminal_stakes(&self) -> (r: bool)
        ensures
            r == exists|i: int|
                0 <= i < self.stakes@.len() && #[trigger] self.stakes@[i].status
                    == StakeStatus::Unstaked,
    {
        let mut i: usize = 0;
        while i < self.stakes.len()
            invariant
                i <= self.stakes.len(),
                forall|j: int|
                    0 <= j < i ==> #[trigger] self.stakes@[j].status != StakeStatus::Unstaked,
            decreases self.stakes.len() - i,
        {
            if is_stake_terminal(self.stakes[i].status) {
                return true;
            }
            i += 1;
        }
        false
    }

    /// Whether some recurring escrow is finished.
    pub fn has_terminal_recurring(&self) -> (r: bool)
        ensures
            r == exists|i: int|
                0 <= i < self.recurring@.len() && recurring_terminal(
                    #[trigger] self.recurring@[i].is_active,
                    self.recurring@[i].current_cycle,
                    self.recurring@[i].duration,
                ),
    {
        let mut i: usize = 0;
        while i < self.recurring.len()
            invariant
                i <= self.recurring.len(),
                forall|j: int|
                    0 <= j < i ==> !recurring_terminal(
                        #[trigger] self.recurring@[j].is_active,
                        self.recurring@[j].current_cycle,
                        self.recurring@[j].duration,
                    ),
            decreases self.recurring.len() - i,
        {
            let r = &self.recurring[i];
            if is_recurring_terminal(r.is_active, r.current_cycle, r.duration) {
                return true;
            }
            i += 1;
        }
        false
    }

    /// Whether some profile is deactivated.
    pub fn has_terminal_profiles(&self) -> (r: bool)
        ensures
            r == exists|i: int|
                0 <= i < self.profiles@.len() && #[trigger] self.profiles@[i].status
                    == ProfileStatusModel::Deactivated,
    {
        let mut i: usize = 0;
        while i < self.profiles.len()
            invariant
                i <= self.profiles.len(),
                forall|j: int|
                    0 <= j < i ==> #[trigger] self.profiles@[j].status
                        != ProfileStatusModel::Deactivated,
            decreases self.profiles.len() - i,
        {
            if is_profile_terminal(self.profiles[i].status) {
                return true;
            }
            i += 1;
        }
        false
    }
}

} // verus!
