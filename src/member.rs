use vstd::prelude::*;

use crate::error::MultisigError;
use crate::key::Key;
use crate::permissions::Permissions;

verus! {

/// The smaller of a requested weight and the group's cap.
pub open spec fn capped(weight: u32, max_weight: u32) -> u32 {
    if weight <= max_weight {
        weight
    } else {
        max_weight
    }
}

fn cap_weight(weight: u32, max_weight: u32) -> (r: u32)
    ensures
        r == capped(weight, max_weight),
{
    if weight <= max_weight {
        weight
    } else {
        max_weight
    }
}

/// An identity's standing in a group: its capabilities and voting weight.
#[derive(Debug, Clone, Copy)]
pub struct GroupMember {
    pub user: Key,
    pub group: Key,
    pub permissions: Permissions,
    pub weight: u32,
    pub account_bump: u8,
}

/// An identity's standing on one governed asset of a group.
#[derive(Debug, Clone, Copy)]
pub struct AssetMember {
    pub user: Key,
    pub group: Key,
    pub asset: Key,
    pub permissions: Permissions,
    pub weight: u32,
    pub account_bump: u8,
}

impl GroupMember {
    /// Refuses reserved permission bits; the weight is capped at `max_weight`.
    pub fn new(
        user: Key,
        group: Key,
        permissions: Permissions,
        weight: u32,
        account_bump: u8,
        max_weight: u32,
    ) -> (r: Result<GroupMember, MultisigError>)
        ensures
            r is Ok <==> permissions.valid(),
            r is Err ==> r == Err::<GroupMember, MultisigError>(MultisigError::InvalidPermissions),
            r matches Ok(m) ==> m == (GroupMember {
                user,
                group,
                permissions,
                weight: capped(weight, max_weight),
                account_bump,
            }),
    {
        permissions.validate()?;
        Ok(GroupMember { user, group, permissions, weight: cap_weight(weight, max_weight), account_bump })
    }

    pub fn get_user(&self) -> (r: &Key)
        ensures
            *r == self.user,
    {
        &self.user
    }

    pub fn get_group(&self) -> (r: &Key)
        ensures
            *r == self.group,
    {
        &self.group
    }

    pub fn get_permissions(&self) -> (r: Permissions)
        ensures
            r == self.permissions,
    {
        self.permissions
    }

    pub fn get_weight(&self) -> (r: u32)
        ensures
            r == self.weight,
    {
        self.weight
    }

    pub fn get_account_bump(&self) -> (r: u8)
        ensures
            r == self.account_bump,
    {
        self.account_bump
    }

    pub fn set_user(&mut self, user: Key)
        ensures
            *final(self) == (GroupMember { user, ..*old(self) }),
    {
        self.user = user;
    }

    pub fn set_permissions(&mut self, permissions: Permissions)
        ensures
            *final(self) == (GroupMember { permissions, ..*old(self) }),
    {
        self.permissions = permissions;
    }

    pub fn set_weight(&mut self, weight: u32, max_weight: u32)
        ensures
            *final(self) == (GroupMember { weight: capped(weight, max_weight), ..*old(self) }),
    {
        self.weight = cap_weight(weight, max_weight);
    }

    pub fn has_propose(&self) -> (r: bool)
        ensures
            r == self.permissions.can_propose(),
    {
        self.permissions.has_propose()
    }

    pub fn set_propose(&mut self, enable: bool)
        ensures
            final(self).permissions.can_propose() == enable,
            final(self).permissions.can_add_asset() == old(self).permissions.can_add_asset(),
            final(self).permissions.valid() == old(self).permissions.valid(),
            final(self).weight == old(self).weight,
            final(self).user == old(self).user,
            final(self).group == old(self).group,
    {
        self.permissions.set_propose(enable);
    }

    pub fn has_add_asset(&self) -> (r: bool)
        ensures
            r == self.permissions.can_add_asset(),
    {
        self.permissions.has_add_asset()
    }

    pub fn set_add_asset(&mut self, enable: bool)
        ensures
            final(self).permissions.can_add_asset() == enable,
            final(self).permissions.can_propose() == old(self).permissions.can_propose(),
            final(self).permissions.valid() == old(self).permissions.valid(),
            final(self).weight == old(self).weight,
            final(self).user == old(self).user,
            final(self).group == old(self).group,
    {
        self.permissions.set_add_asset(enable);
    }
}

impl AssetMember {
    /// Refuses reserved permission bits; the weight is capped at `max_weight`.
    pub fn new(
        user: Key,
        group: Key,
        asset: Key,
        permissions: Permissions,
        weight: u32,
        account_bump: u8,
        max_weight: u32,
    ) -> (r: Result<AssetMember, MultisigError>)
        ensures
            r is Ok <==> permissions.valid(),
            r is Err ==> r == Err::<AssetMember, MultisigError>(MultisigError::InvalidPermissions),
            r matches Ok(m) ==> m == (AssetMember {
                user,
                group,
                asset,
                permissions,
                weight: capped(weight, max_weight),
                account_bump,
            }),
    {
        permissions.validate()?;
        Ok(
            AssetMember {
                user,
                group,
                asset,
                permissions,
                weight: cap_weight(weight, max_weight),
                account_bump,
            },
        )
    }

    pub fn get_user(&self) -> (r: &Key)
        ensures
            *r == self.user,
    {
        &self.user
    }

    pub fn get_group(&self) -> (r: &Key)
        ensures
            *r == self.group,
    {
        &self.group
    }

    pub fn get_asset(&self) -> (r: &Key)
        ensures
            *r == self.asset,
    {
        &self.asset
    }

    pub fn get_permissions(&self) -> (r: Permissions)
        ensures
            r == self.permissions,
    {
        self.permissions
    }

    pub fn get_weight(&self) -> (r: u32)
        ensures
            r == self.weight,
    {
        self.weight
    }

    pub fn get_account_bump(&self) -> (r: u8)
        ensures
            r == self.account_bump,
    {
        self.account_bump
    }

    pub fn set_user(&mut self, user: Key)
        ensures
            *final(self) == (AssetMember { user, ..*old(self) }),
    {
        self.user = user;
    }

    pub fn set_asset(&mut self, asset: Key)
        ensures
            *final(self) == (AssetMember { asset, ..*old(self) }),
    {
        self.asset = asset;
    }

    pub fn set_permissions(&mut self, permissions: Permissions)
        ensures
            *final(self) == (AssetMember { permissions, ..*old(self) }),
    {
        self.permissions = permissions;
    }

    pub fn set_weight(&mut self, weight: u32, max_weight: u32)
        ensures
            *final(self) == (AssetMember { weight: capped(weight, max_weight), ..*old(self) }),
    {
        self.weight = cap_weight(weight, max_weight);
    }

    pub fn has_propose(&self) -> (r: bool)
        ensures
            r == self.permissions.can_propose(),
    {
        self.permissions.has_propose()
    }

    pub fn set_propose(&mut self, enable: bool)
        ensures
            final(self).permissions.can_propose() == enable,
            final(self).permissions.can_add_asset() == old(self).permissions.can_add_asset(),
            final(self).permissions.valid() == old(self).permissions.valid(),
            final(self).weight == old(self).weight,
            final(self).user == old(self).user,
            final(self).asset == old(self).asset,
    {
        self.permissions.set_propose(enable);
    }

    pub fn has_add_asset(&self) -> (r: bool)
        ensures
            r == self.permissions.can_add_asset(),
    {
        self.permissions.has_add_asset()
    }

    pub fn set_add_asset(&mut self, enable: bool)
        ensures
            final(self).permissions.can_add_asset() == enable,
            final(self).permissions.can_propose() == old(self).permissions.can_propose(),
            final(self).permissions.valid() == old(self).permissions.valid(),
            final(self).weight == old(self).weight,
            final(self).user == old(self).user,
            final(self).asset == old(self).asset,
    {
        self.permissions.set_add_asset(enable);
    }
}

} // verus!
