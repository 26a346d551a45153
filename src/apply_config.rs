use vstd::prelude::*;

use crate::asset::Asset;
use crate::error::MultisigError;
use crate::group::Group;
use crate::key::Key;
use crate::member::{capped, AssetMember, GroupMember};
use crate::permissions::Permissions;
use crate::proposal::{ConfigChange, ConfigProposal, ConfigType, ProposalState, ProposalTarget};

verus! {

/// Why a configuration proposal may not be applied now, if it may not: it
/// must have passed, be past its timelock and not be stale.
pub open spec fn apply_error(group: Group, group_key: Key, proposal: ConfigProposal, proposer: Key, now: i64) -> Option<MultisigError> {
    if proposer@ != proposal.proposer@ {
        Some(MultisigError::InvalidProposer)
    } else if proposal.group@ != group_key@ {
        Some(MultisigError::UnexpectedGroup)
    } else if proposal.state != ProposalState::Passed {
        Some(MultisigError::ProposalNotPassed)
    } else if now <= proposal.valid_from_timestamp {
        Some(MultisigError::ProposalStillTimelocked)
    } else if proposal.proposal_index < group.proposal_index_after_stale {
        Some(MultisigError::ProposalStale)
    } else {
        None
    }
}

/// The group once a configuration change is applied: every proposal made so
/// far is stale.
pub open spec fn advanced(g: Group) -> Group {
    Group { proposal_index_after_stale: g.next_proposal_index, ..g }
}

/// The group after setting `ct`.
pub open spec fn group_config_applied(g: Group, ct: ConfigType) -> Result<Group, MultisigError> {
    match ct {
        ConfigType::AddMember(t) => if t.valid() { Ok(Group { add_threshold: t, ..g }) } else { Err(MultisigError::InvalidThreshold) },
        ConfigType::NotAddMember(t) => if t.valid() { Ok(Group { not_add_threshold: t, ..g }) } else { Err(MultisigError::InvalidThreshold) },
        ConfigType::RemoveMember(t) => if t.valid() { Ok(Group { remove_threshold: t, ..g }) } else { Err(MultisigError::InvalidThreshold) },
        ConfigType::NotRemoveMember(t) => if t.valid() { Ok(Group { not_remove_threshold: t, ..g }) } else { Err(MultisigError::InvalidThreshold) },
        ConfigType::ChangeConfig(t) => if t.valid() { Ok(Group { change_config_threshold: t, ..g }) } else { Err(MultisigError::InvalidThreshold) },
        ConfigType::NotChangeConfig(t) => if t.valid() { Ok(Group { not_change_config_threshold: t, ..g }) } else { Err(MultisigError::InvalidThreshold) },
        ConfigType::MinimumMemberCount(c) => if c <= g.member_count { Ok(Group { minimum_member_count: c, ..g }) } else { Err(MultisigError::InvalidMemberCount) },
        ConfigType::MinimumVoteCount(c) => if c < g.member_count { Ok(Group { minimum_vote_count: c, ..g }) } else { Err(MultisigError::InvalidMemberCount) },
        ConfigType::Use(_) => Err(MultisigError::UnexpectedConfigChange),
        ConfigType::NotUse(_) => Err(MultisigError::UnexpectedConfigChange),
    }
}

/// The asset after setting `ct`; a counter-threshold is normalized against
/// its action threshold.
pub open spec fn asset_config_applied(a: Asset, ct: ConfigType) -> Result<Asset, MultisigError> {
    match ct {
        ConfigType::Use(t) => if t.valid() {
            Ok(Asset { use_threshold: t, not_use_threshold: t.normalized(a.not_use_threshold), ..a })
        } else {
            Err(MultisigError::InvalidThreshold)
        },
        ConfigType::NotUse(t) => if t.valid() {
            Ok(Asset { not_use_threshold: a.use_threshold.normalized(t), ..a })
        } else {
            Err(MultisigError::InvalidThreshold)
        },
        ConfigType::AddMember(t) => if t.valid() {
            Ok(Asset { add_threshold: t, not_add_threshold: t.normalized(a.not_add_threshold), ..a })
        } else {
            Err(MultisigError::InvalidThreshold)
        },
        ConfigType::NotAddMember(t) => if t.valid() {
            Ok(Asset { not_add_threshold: a.add_threshold.normalized(t), ..a })
        } else {
            Err(MultisigError::InvalidThreshold)
        },
        ConfigType::RemoveMember(t) => if t.valid() {
            Ok(Asset { remove_threshold: t, not_remove_threshold: t.normalized(a.not_remove_threshold), ..a })
        } else {
            Err(MultisigError::InvalidThreshold)
        },
        ConfigType::NotRemoveMember(t) => if t.valid() {
            Ok(Asset { not_remove_threshold: a.remove_threshold.normalized(t), ..a })
        } else {
            Err(MultisigError::InvalidThreshold)
        },
        ConfigType::ChangeConfig(t) => if t.valid() {
            Ok(Asset { change_config_threshold: t, not_change_config_threshold: t.normalized(a.not_change_config_threshold), ..a })
        } else {
            Err(MultisigError::InvalidThreshold)
        },
        ConfigType::NotChangeConfig(t) => if t.valid() {
            Ok(Asset { not_change_config_threshold: a.change_config_threshold.normalized(t), ..a })
        } else {
            Err(MultisigError::InvalidThreshold)
        },
        ConfigType::MinimumMemberCount(c) => if 0 < c <= a.member_count {
            Ok(Asset { minimum_member_count: c, ..a })
        } else {
            Err(MultisigError::InvalidMemberCount)
        },
        ConfigType::MinimumVoteCount(c) => if 0 < c < a.member_count {
            Ok(Asset { minimum_vote_count: c, ..a })
        } else {
            Err(MultisigError::InvalidThreshold)
        },
    }
}

/// Checks that a configuration proposal may be applied now.
pub fn config_apply_checks(group: &Group, group_key: &Key, proposal: &ConfigProposal, proposer: &Key, now: i64) -> (r: Result<(), MultisigError>)
    ensures
        r is Ok <==> apply_error(*group, *group_key, *proposal, *proposer, now) is None,
        r is Err ==> r == Err::<(), MultisigError>(apply_error(*group, *group_key, *proposal, *proposer, now)->Some_0),
{
    if !proposer.equals(&proposal.proposer) {
        return Err(MultisigError::InvalidProposer);
    }
    if !proposal.group.equals(group_key) {
        return Err(MultisigError::UnexpectedGroup);
    }
    if proposal.state != ProposalState::Passed {
        return Err(MultisigError::ProposalNotPassed);
    }
    if now <= proposal.valid_from_timestamp {
        return Err(MultisigError::ProposalStillTimelocked);
    }
    if !group.is_current(proposal.proposal_index) {
        return Err(MultisigError::ProposalStale);
    }
    Ok(())
}

fn apply_group_config(group: &mut Group, ct: &ConfigType) -> (r: Result<(), MultisigError>)
    requires
        old(group).wf(),
    ensures
        match group_config_applied(*old(group), *ct) {
            Ok(g) => r is Ok && *final(group) == g && g.wf(),
            Err(e) => r == Err::<(), MultisigError>(e) && *final(group) == *old(group),
        },
{
    match ct {
        ConfigType::AddMember(t) => group.set_add_threshold(*t),
        ConfigType::NotAddMember(t) => group.set_not_add_threshold(*t),
        ConfigType::RemoveMember(t) => group.set_remove_threshold(*t),
        ConfigType::NotRemoveMember(t) => group.set_not_remove_threshold(*t),
        ConfigType::ChangeConfig(t) => group.set_change_config_threshold(*t),
        ConfigType::NotChangeConfig(t) => group.set_not_change_config_threshold(*t),
        ConfigType::MinimumMemberCount(c) => group.set_minimum_member_count(*c),
        ConfigType::MinimumVoteCount(c) => group.set_minimum_vote_count(*c),
        ConfigType::Use(_) => Err(MultisigError::UnexpectedConfigChange),
        ConfigType::NotUse(_) => Err(MultisigError::UnexpectedConfigChange),
    }
}

fn apply_asset_config(asset: &mut Asset, ct: &ConfigType) -> (r: Result<(), MultisigError>)
    requires
        old(asset).wf(),
    ensures
        match asset_config_applied(*old(asset), *ct) {
            Ok(a) => r is Ok && *final(asset) == a && a.wf(),
            Err(e) => r == Err::<(), MultisigError>(e) && *final(asset) == *old(asset),
        },
{
    match ct {
        ConfigType::Use(t) => asset.set_use_threshold(*t),
        ConfigType::NotUse(t) => asset.set_not_use_threshold(*t),
        ConfigType::AddMember(t) => asset.set_add_threshold(*t),
        ConfigType::NotAddMember(t) => asset.set_not_add_threshold(*t),
        ConfigType::RemoveMember(t) => asset.set_remove_threshold(*t),
        ConfigType::NotRemoveMember(t) => asset.set_not_remove_threshold(*t),
        ConfigType::ChangeConfig(t) => asset.set_change_config_threshold(*t),
        ConfigType::NotChangeConfig(t) => asset.set_not_change_config_threshold(*t),
        ConfigType::MinimumMemberCount(c) => asset.set_minimum_member_count(*c),
        ConfigType::MinimumVoteCount(c) => asset.set_minimum_vote_count(*c),
    }
}

/// Why a passed proposal cannot add `new_member` to the group, if it cannot.
pub open spec fn add_group_member_error(group: Group, group_key: Key, proposal: ConfigProposal, proposer: Key, new_member: Key, now: i64) -> Option<MultisigError> {
    match apply_error(group, group_key, proposal, proposer, now) {
        Some(e) => Some(e),
        None => match proposal.config_change {
            ConfigChange::AddGroupMember { member, weight, permissions } => if member@ != new_member@ {
                Some(MultisigError::InvalidMember)
            } else if !(Permissions { permissions }).valid() {
                Some(MultisigError::InvalidPermissions)
            } else if group.member_count == u32::MAX {
                Some(MultisigError::TooManyMembers)
            } else {
                None
            },
            _ => Some(MultisigError::InvalidConfigChange),
        },
    }
}

/// Applies a passed proposal that adds `new_member` to the group.
pub fn add_group_member_handler(
    group: &mut Group,
    group_key: &Key,
    proposal: &ConfigProposal,
    proposer: &Key,
    new_member: &Key,
    member_bump: u8,
    now: i64,
) -> (r: Result<GroupMember, MultisigError>)
    requires
        old(group).wf(),
    ensures
        final(group).wf(),
        match add_group_member_error(*old(group), *group_key, *proposal, *proposer, *new_member, now) {
            Some(e) => r == Err::<GroupMember, MultisigError>(e) && *final(group) == *old(group),
            None => r matches Ok(m) && (proposal.config_change matches ConfigChange::AddGroupMember { weight, permissions, .. } && m == (GroupMember {
                user: *new_member,
                group: *group_key,
                permissions: Permissions { permissions },
                weight: capped(weight, old(group).max_member_weight),
                account_bump: member_bump,
            })) && *final(group) == advanced(Group { member_count: (old(group).member_count + 1) as u32, ..*old(group) }),
        },
{
    config_apply_checks(group, group_key, proposal, proposer, now)?;
    match &proposal.config_change {
        ConfigChange::AddGroupMember { member, weight, permissions } => {
            if !member.equals(new_member) {
                return Err(MultisigError::InvalidMember);
            }
            let m = GroupMember::new(
                *new_member,
                *group_key,
                Permissions { permissions: *permissions },
                *weight,
                member_bump,
                group.max_member_weight,
            )?;
            group.increment_member_count()?;
            group.update_stale_proposal_index();
            Ok(m)
        },
        _ => Err(MultisigError::InvalidConfigChange),
    }
}

/// Why a passed proposal cannot add `new_member` to `asset`, if it cannot.
pub open spec fn add_asset_member_error(
    group: Group,
    group_key: Key,
    asset: Asset,
    proposal: ConfigProposal,
    proposer: Key,
    group_member: GroupMember,
    new_member: Key,
    now: i64,
) -> Option<MultisigError> {
    match apply_error(group, group_key, proposal, proposer, now) {
        Some(e) => Some(e),
        None => match proposal.config_change {
            ConfigChange::AddAssetMember { member, weight, permissions, asset_address } => if asset_address@ != asset.asset_address@ {
                Some(MultisigError::InvalidAsset)
            } else if member@ != new_member@ || group_member.user@ != new_member@ || group_member.group@ != group_key@ {
                Some(MultisigError::InvalidMember)
            } else if !(Permissions { permissions }).valid() {
                Some(MultisigError::InvalidPermissions)
            } else if asset.member_count == u32::MAX {
                Some(MultisigError::ArithmeticOverflow)
            } else {
                None
            },
            _ => Some(MultisigError::InvalidConfigChange),
        },
    }
}

/// Applies a passed proposal that lets the group member `new_member` govern `asset`.
pub fn add_asset_member_handler(
    group: &mut Group,
    group_key: &Key,
    asset: &mut Asset,
    proposal: &ConfigProposal,
    proposer: &Key,
    group_member: &GroupMember,
    new_member: &Key,
    member_bump: u8,
    now: i64,
) -> (r: Result<AssetMember, MultisigError>)
    requires
        old(group).wf(),
    ensures
        final(group).wf(),
        match add_asset_member_error(*old(group), *group_key, *old(asset), *proposal, *proposer, *group_member, *new_member, now) {
            Some(e) => r == Err::<AssetMember, MultisigError>(e) && *final(group) == *old(group) && *final(asset) == *old(asset),
            None => r matches Ok(m) && (proposal.config_change matches ConfigChange::AddAssetMember { weight, permissions, .. } && m == (AssetMember {
                user: *new_member,
                group: *group_key,
                asset: old(asset).asset_address,
                permissions: Permissions { permissions },
                weight: capped(weight, old(group).max_member_weight),
                account_bump: member_bump,
            })) && *final(asset) == (Asset { member_count: (old(asset).member_count + 1) as u32, ..*old(asset) })
                && *final(group) == advanced(*old(group)),
        },
{
    config_apply_checks(group, group_key, proposal, proposer, now)?;
    match &proposal.config_change {
        ConfigChange::AddAssetMember { member, weight, permissions, asset_address } => {
            if !asset_address.equals(&asset.asset_address) {
                return Err(MultisigError::InvalidAsset);
            }
            if !member.equals(new_member) || !group_member.user.equals(new_member) || !group_member.group.equals(group_key) {
                return Err(MultisigError::InvalidMember);
            }
            let m = AssetMember::new(
                *new_member,
                *group_key,
                asset.asset_address,
                Permissions { permissions: *permissions },
                *weight,
                member_bump,
                group.max_member_weight,
            )?;
            asset.increment_member_count()?;
            group.update_stale_proposal_index();
            Ok(m)
        },
        _ => Err(MultisigError::InvalidConfigChange),
    }
}

/// Why a passed proposal cannot remove `member_account` from the group, if it cannot.
pub open spec fn remove_group_member_error(
    group: Group,
    group_key: Key,
    proposal: ConfigProposal,
    proposer: Key,
    rent_collector: Key,
    member_account: GroupMember,
    now: i64,
) -> Option<MultisigError> {
    if rent_collector@ != group.rent_collector@ {
        Some(MultisigError::UnexpectedRentCollector)
    } else {
        match apply_error(group, group_key, proposal, proposer, now) {
            Some(e) => Some(e),
            None => match proposal.config_change {
                ConfigChange::RemoveGroupMember { member } => if member@ != member_account.user@ || member_account.group@ != group_key@ {
                    Some(MultisigError::InvalidMember)
                } else if !(group.member_count > 0 && Group::counts_ok(
                    (group.member_count - 1) as u32,
                    group.minimum_vote_count,
                    group.minimum_member_count,
                )) {
                    Some(MultisigError::InvalidMemberCount)
                } else {
                    None
                },
                _ => Some(MultisigError::InvalidConfigChange),
            },
        }
    }
}

/// Applies a passed proposal that removes `member_account` from the group;
/// the member floor and the vote floor still hold afterwards.
pub fn remove_group_member_handler(
    group: &mut Group,
    group_key: &Key,
    proposal: &ConfigProposal,
    proposer: &Key,
    rent_collector: &Key,
    member_account: &GroupMember,
    now: i64,
) -> (r: Result<(), MultisigError>)
    requires
        old(group).wf(),
    ensures
        final(group).wf(),
        match remove_group_member_error(*old(group), *group_key, *proposal, *proposer, *rent_collector, *member_account, now) {
            Some(e) => r == Err::<(), MultisigError>(e) && *final(group) == *old(group),
            None => r is Ok && *final(group) == advanced(Group { member_count: (old(group).member_count - 1) as u32, ..*old(group) }),
        },
{
    if !rent_collector.equals(&group.rent_collector) {
        return Err(MultisigError::UnexpectedRentCollector);
    }
    config_apply_checks(group, group_key, proposal, proposer, now)?;
    match &proposal.config_change {
        ConfigChange::RemoveGroupMember { member } => {
            if !member.equals(&member_account.user) || !member_account.group.equals(group_key) {
                return Err(MultisigError::InvalidMember);
            }
            group.decrement_member_count()?;
            group.update_stale_proposal_index();
            Ok(())
        },
        _ => Err(MultisigError::InvalidConfigChange),
    }
}

/// Why a passed proposal cannot remove `asset_member` from `asset`, if it cannot.
pub open spec fn remove_asset_member_error(
    group: Group,
    group_key: Key,
    asset: Asset,
    proposal: ConfigProposal,
    proposer: Key,
    rent_collector: Key,
    asset_member: AssetMember,
    now: i64,
) -> Option<MultisigError> {
    if rent_collector@ != group.rent_collector@ {
        Some(MultisigError::UnexpectedRentCollector)
    } else {
        match apply_error(group, group_key, proposal, proposer, now) {
            Some(e) => Some(e),
            None => match proposal.config_change {
                ConfigChange::RemoveAssetMember { member, asset_address } => if asset_address@ != asset.asset_address@
                    || asset_member.asset@ != asset_address@ {
                    Some(MultisigError::InvalidAsset)
                } else if asset_member.user@ != member@ {
                    Some(MultisigError::InvalidMember)
                } else if !(asset.member_count > 0 && (Asset { member_count: (asset.member_count - 1) as u32, ..asset }).counts_ok()) {
                    Some(MultisigError::InvalidMemberCount)
                } else {
                    None
                },
                _ => Some(MultisigError::InvalidConfigChange),
            },
        }
    }
}

/// Applies a passed proposal that removes `asset_member` from `asset`.
pub fn remove_asset_member_handler(
    group: &mut Group,
    group_key: &Key,
    asset: &mut Asset,
    proposal: &ConfigProposal,
    proposer: &Key,
    rent_collector: &Key,
    asset_member: &AssetMember,
    now: i64,
) -> (r: Result<(), MultisigError>)
    requires
        old(group).wf(),
    ensures
        final(group).wf(),
        match remove_asset_member_error(*old(group), *group_key, *old(asset), *proposal, *proposer, *rent_collector, *asset_member, now) {
            Some(e) => r == Err::<(), MultisigError>(e) && *final(group) == *old(group) && *final(asset) == *old(asset),
            None => r is Ok && *final(asset) == (Asset { member_count: (old(asset).member_count - 1) as u32, ..*old(asset) })
                && *final(group) == advanced(*old(group)),
        },
{
    if !rent_collector.equals(&group.rent_collector) {
        return Err(MultisigError::UnexpectedRentCollector);
    }
    config_apply_checks(group, group_key, proposal, proposer, now)?;
    match &proposal.config_change {
        ConfigChange::RemoveAssetMember { member, asset_address } => {
            if !asset_address.equals(&asset.asset_address) || !asset_member.asset.equals(asset_address) {
                return Err(MultisigError::InvalidAsset);
            }
            if !asset_member.user.equals(member) {
                return Err(MultisigError::InvalidMember);
            }
            asset.decrement_member_count()?;
            group.update_stale_proposal_index();
            Ok(())
        },
        _ => Err(MultisigError::InvalidConfigChange),
    }
}

/// Why a passed proposal cannot change the group's configuration, if it cannot.
pub open spec fn change_group_config_error(group: Group, group_key: Key, proposal: ConfigProposal, proposer: Key, now: i64) -> Option<MultisigError> {
    match apply_error(group, group_key, proposal, proposer, now) {
        Some(e) => Some(e),
        None => match proposal.config_change {
            ConfigChange::ChangeGroupConfig { config_type } => match group_config_applied(group, config_type) {
                Err(e) => Some(e),
                Ok(_) => None,
            },
            _ => Some(MultisigError::InvalidConfigChange),
        },
    }
}

/// Applies a passed proposal that changes one setting of the group.
pub fn change_group_config_handler(
    group: &mut Group,
    group_key: &Key,
    proposal: &ConfigProposal,
    proposer: &Key,
    now: i64,
) -> (r: Result<(), MultisigError>)
    requires
        old(group).wf(),
    ensures
        final(group).wf(),
        match change_group_config_error(*old(group), *group_key, *proposal, *proposer, now) {
            Some(e) => r == Err::<(), MultisigError>(e) && *final(group) == *old(group),
            None => r is Ok && (proposal.config_change matches ConfigChange::ChangeGroupConfig { config_type }
                && (group_config_applied(*old(group), config_type) matches Ok(g) && *final(group) == advanced(g))),
        },
{
    config_apply_checks(group, group_key, proposal, proposer, now)?;
    match &proposal.config_change {
        ConfigChange::ChangeGroupConfig { config_type } => {
            apply_group_config(group, config_type)?;
            group.update_stale_proposal_index();
            Ok(())
        },
        _ => Err(MultisigError::InvalidConfigChange),
    }
}

/// Why a passed proposal cannot change `asset`'s configuration, if it cannot.
pub open spec fn change_asset_config_error(group: Group, group_key: Key, asset: Asset, proposal: ConfigProposal, proposer: Key, now: i64) -> Option<MultisigError> {
    match apply_error(group, group_key, proposal, proposer, now) {
        Some(e) => Some(e),
        None => match proposal.config_change {
            ConfigChange::ChangeAssetConfig { config_type, .. } => match proposal.target {
                ProposalTarget::Group => Some(MultisigError::InvalidConfigChange),
                ProposalTarget::Asset(k) => if k@ != asset.asset_address@ {
                    Some(MultisigError::InvalidAsset)
                } else {
                    match asset_config_applied(asset, config_type) {
                        Err(e) => Some(e),
                        Ok(_) => None,
                    }
                },
            },
            _ => Some(MultisigError::InvalidConfigChange),
        },
    }
}

/// Applies a passed proposal that changes one setting of `asset`.
pub fn change_asset_config_handler(
    group: &mut Group,
    group_key: &Key,
    asset: &mut Asset,
    proposal: &ConfigProposal,
    proposer: &Key,
    now: i64,
) -> (r: Result<(), MultisigError>)
    requires
        old(group).wf(),
        old(asset).wf(),
    ensures
        final(group).wf(),
        final(asset).wf(),
        match change_asset_config_error(*old(group), *group_key, *old(asset), *proposal, *proposer, now) {
            Some(e) => r == Err::<(), MultisigError>(e) && *final(group) == *old(group) && *final(asset) == *old(asset),
            None => r is Ok && *final(group) == advanced(*old(group)) && (proposal.config_change matches ConfigChange::ChangeAssetConfig { config_type, .. }
                && (asset_config_applied(*old(asset), config_type) matches Ok(a) && *final(asset) == a)),
        },
{
    config_apply_checks(group, group_key, proposal, proposer, now)?;
    match &proposal.config_change {
        ConfigChange::ChangeAssetConfig { config_type, .. } => {
            let k = match &proposal.target {
                ProposalTarget::Asset(k) => k,
                ProposalTarget::Group => return Err(MultisigError::InvalidConfigChange),
            };
            if !k.equals(&asset.asset_address) {
                return Err(MultisigError::InvalidAsset);
            }
            apply_asset_config(asset, config_type)?;
            group.update_stale_proposal_index();
            Ok(())
        },
        _ => Err(MultisigError::InvalidConfigChange),
    }
}

} // verus!
