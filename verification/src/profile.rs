//! Onboarding profiles: role assignment, deactivation and verification.
//! Every successful change bumps the profile's `state_version` by one.

use vstd::prelude::*;
use crate::address::Address;

verus! {

/// Status of a profile.
#[derive(Clone, Copy, Debug, PartialEq, Eq, Structural)]
pub enum ProfileStatusModel {
    Active,
    Deactivated,
    UnderReview,
    Flagged,
}

/// Role of a user; `NoRole` until onboarded.
#[derive(Clone, Copy, Debug, PartialEq, Eq, Structural)]
pub enum UserRoleModel {
    NoRole,
    Buyer,
    Artisan,
    Admin,
    Moderator,
}

/// Model of one user's onboarding profile.
#[derive(Clone, Debug)]
pub struct OnboardingProfileModel {
    pub address: Address,
    pub role: UserRoleModel,
    pub status: ProfileStatusModel,
    pub username: String,
    pub registered_at: u64,
    pub is_verified: bool,
    pub state_version: u32,
    pub successful_trades: u32,
    pub disputed_trades: u32,
    pub portfolio_cid: Option<String>,
}

/// The moment at which a profile model is registered.
pub const REGISTRATION_EPOCH: u64 = 1_711_368_000;

impl OnboardingProfileModel {
    /// The profile's version after one more change.
    pub open spec fn next_version(self) -> u32 {
        (self.state_version + 1) as u32
    }

    /// `try_update_role(new_role)` succeeds: a role is only given after onboarding.
    pub open spec fn can_update_role(self, new_role: UserRoleModel) -> bool {
        !(self.role == UserRoleModel::NoRole && new_role != UserRoleModel::NoRole)
    }

    /// The profile with role `role`, one version later.
    pub open spec fn with_role(self, role: UserRoleModel) -> OnboardingProfileModel {
        OnboardingProfileModel { role, state_version: self.next_version(), ..self }
    }

    /// The profile in status `status`, one version later.
    pub open spec fn with_status(self, status: ProfileStatusModel) -> OnboardingProfileModel {
        OnboardingProfileModel { status, state_version: self.next_version(), ..self }
    }

    /// The profile with verification flag `verified`, one version later.
    pub open spec fn with_verified(self, verified: bool) -> OnboardingProfileModel {
        OnboardingProfileModel { is_verified: verified, state_version: self.next_version(), ..self }
    }

    /// A fresh, active, unverified profile without a role, at version 1.
    pub open spec fn fresh(address: Address, username: String) -> OnboardingProfileModel {
        OnboardingProfileModel {
            address,
            role: UserRoleModel::NoRole,
            status: ProfileStatusModel::Active,
            username,
            registered_at: REGISTRATION_EPOCH,
            is_verified: false,
            state_version: 1,
            successful_trades: 0,
            disputed_trades: 0,
            portfolio_cid: None,
        }
    }

    /// A fresh, active, unverified profile without a role, at version 1.
    pub fn new(address: Address, username: String) -> (r: Self)
        ensures
            r == OnboardingProfileModel::fresh(address, username),
    {
        OnboardingProfileModel {
            address,
            role: UserRoleModel::NoRole,
            status: ProfileStatusModel::Active,
            username,
            registered_at: REGISTRATION_EPOCH,
            is_verified: false,
            state_version: 1,
            successful_trades: 0,
            disputed_trades: 0,
            portfolio_cid: None,
        }
    }

    /// Give a user without a role its first role.
    pub fn try_onboard(&mut self, role: UserRoleModel) -> (r: Result<(), String>)
        requires
            old(self).role == UserRoleModel::NoRole ==> old(self).state_version < u32::MAX,
        ensures
            old(self).role != UserRoleModel::NoRole ==> *final(self) == *old(self) && (r matches Err(m)
                && m@ == "user already onboarded"@),
            old(self).role == UserRoleModel::NoRole ==> r is Ok && *final(self) == old(
                self,
            ).with_role(role),
    {
        if self.role != UserRoleModel::NoRole {
            return Err(String::from_str("user already onboarded"));
        }
        self.role = role;
        self.state_version = self.state_version + 1;
        Ok(())
    }

    /// Change the role of an onboarded user (or keep a user without one at `NoRole`).
    pub fn try_update_role(&mut self, new_role: UserRoleModel) -> (r: Result<(), String>)
        requires
            !(old(self).role == UserRoleModel::NoRole && new_role != UserRoleModel::NoRole) ==> old(
                self,
            ).state_version < u32::MAX,
        ensures
            old(self).role == UserRoleModel::NoRole && new_role != UserRoleModel::NoRole ==> *final(self)
                == *old(self) && (r matches Err(m) && m@ == "must onboard first"@),
            old(self).can_update_role(new_role) ==> r is Ok && *final(self) == old(self).with_role(
                new_role,
            ),
    {
        if self.role == UserRoleModel::NoRole && new_role != UserRoleModel::NoRole {
            return Err(String::from_str("must onboard first"));
        }
        self.role = new_role;
        self.state_version = self.state_version + 1;
        Ok(())
    }

    /// Deactivate the profile.
    pub fn try_deactivate(&mut self) -> (r: Result<(), String>)
        requires
            old(self).status != ProfileStatusModel::Deactivated ==> old(self).state_version
                < u32::MAX,
        ensures
            old(self).status == ProfileStatusModel::Deactivated ==> *final(self) == *old(self) && (
            r matches Err(m) && m@ == "profile already deactivated"@),
            old(self).status != ProfileStatusModel::Deactivated ==> r is Ok && *final(self) == old(
                self,
            ).with_status(ProfileStatusModel::Deactivated),
    {
        if self.status == ProfileStatusModel::Deactivated {
            return Err(String::from_str("profile already deactivated"));
        }
        self.status = ProfileStatusModel::Deactivated;
        self.state_version = self.state_version + 1;
        Ok(())
    }

    /// Reactivate the profile, unless its username has been taken meanwhile.
    pub fn try_reactivate(&mut self, username_taken: bool) -> (r: Result<(), String>)
        requires
            !username_taken ==> old(self).state_version < u32::MAX,
        ensures
            username_taken ==> *final(self) == *old(self) && (r matches Err(m) && m@
                == "username already taken"@),
            !username_taken ==> r is Ok && *final(self) == old(self).with_status(
                ProfileStatusModel::Active,
            ),
    {
        if !username_taken {
            self.status = ProfileStatusModel::Active;
            self.state_version = self.state_version + 1;
            Ok(())
        } else {
            Err(String::from_str("username already taken"))
        }
    }

    /// Set the verification flag.
    pub fn try_set_verified(&mut self, verified: bool)
        requires
            old(self).state_version < u32::MAX,
        ensures
            *final(self) == old(self).with_verified(verified),
            final(self).is_verified == verified,
            final(self).state_version == old(self).state_version + 1,
    {
        self.is_verified = verified;
        self.state_version = self.state_version + 1;
    }
}

} // verus!
