use vstd::prelude::*;

use crate::error::MultisigError;
use crate::group::Group;
use crate::key::Key;
use crate::member::{capped, GroupMember};
use crate::permissions::Permissions;
use crate::threshold::FractionalThreshold;

verus! {

/// Members that a group is created with.
pub const INITIAL_MEMBER_COUNT: u32 = 5;

pub struct CreateGroupInstructionArgs {
    pub group_seed: Key,
    pub rent_collector: Key,
    pub add_threshold: FractionalThreshold,
    pub not_add_threshold: FractionalThreshold,
    pub remove_threshold: FractionalThreshold,
    pub not_remove_threshold: FractionalThreshold,
    pub change_config_threshold: FractionalThreshold,
    pub not_change_config_threshold: FractionalThreshold,
    pub minimum_member_count: u32,
    pub minimum_vote_count: u32,
    pub max_member_weight: u32,
    pub member_weights: [u32; 5],
    pub member_permissions: [Permissions; 5],
    pub default_timelock_offset: u32,
    pub expiry_offset: u32,
}

impl CreateGroupInstructionArgs {
    pub open spec fn thresholds_valid(&self) -> bool {
        &&& self.add_threshold.valid()
        &&& self.not_add_threshold.valid()
        &&& self.remove_threshold.valid()
        &&& self.not_remove_threshold.valid()
        &&& self.change_config_threshold.valid()
        &&& self.not_change_config_threshold.valid()
    }

    /// Why the group cannot be created, if it cannot.
    pub open spec fn creation_error(&self) -> Option<MultisigError> {
        if !self.thresholds_valid() {
            Some(MultisigError::InvalidThreshold)
        } else if !Group::counts_ok(INITIAL_MEMBER_COUNT, self.minimum_vote_count, self.minimum_member_count) {
            Some(MultisigError::InvalidMemberCount)
        } else if exists|i: int| 0 <= i < 5 && !(#[trigger] self.member_permissions@[i]).valid() {
            Some(MultisigError::InvalidPermissions)
        } else {
            None
        }
    }
}

/// Creates a group with its five initial members; `members[i]` gets weight
/// `member_weights[i]`, capped at the group's maximum, and `member_permissions[i]`.
pub fn create_group_handler(
    args: CreateGroupInstructionArgs,
    group_key: &Key,
    members: [Key; 5],
    group_bump: u8,
    member_bumps: [u8; 5],
) -> (r: Result<(Group, Vec<GroupMember>), MultisigError>)
    ensures
        match args.creation_error() {
            Some(e) => r == Err::<(Group, Vec<GroupMember>), MultisigError>(e),
            None => r matches Ok((g, ms)) && {
                &&& g.wf()
                &&& g == (Group {
                    group_seed: args.group_seed,
                    rent_collector: args.rent_collector,
                    add_threshold: args.add_threshold,
                    not_add_threshold: args.not_add_threshold,
                    remove_threshold: args.remove_threshold,
                    not_remove_threshold: args.not_remove_threshold,
                    change_config_threshold: args.change_config_threshold,
                    not_change_config_threshold: args.not_change_config_threshold,
                    minimum_member_count: args.minimum_member_count,
                    minimum_vote_count: args.minimum_vote_count,
                    max_member_weight: args.max_member_weight,
                    next_proposal_index: 0,
                    proposal_index_after_stale: 0,
                    member_count: INITIAL_MEMBER_COUNT,
                    default_timelock_offset: args.default_timelock_offset,
                    default_expiry_offset: args.expiry_offset,
                    account_bump: group_bump,
                })
                &&& ms@.len() == 5
                &&& forall|i: int| 0 <= i < 5 ==> #[trigger] ms@[i] == (GroupMember {
                    user: members@[i],
                    group: *group_key,
                    permissions: args.member_permissions@[i],
                    weight: capped(args.member_weights@[i], args.max_member_weight),
                    account_bump: member_bumps@[i],
                })
            },
        },
{
    let group = Group::new(
        args.group_seed,
        args.rent_collector,
        args.add_threshold,
        args.not_add_threshold,
        args.remove_threshold,
        args.not_remove_threshold,
        args.change_config_threshold,
        args.not_change_config_threshold,
        args.minimum_member_count,
        args.minimum_vote_count,
        args.max_member_weight,
        INITIAL_MEMBER_COUNT,
        args.default_timelock_offset,
        args.expiry_offset,
        group_bump,
    )?;
    let mut created: Vec<GroupMember> = Vec::new();
    let mut i: usize = 0;
    while i < 5
        invariant
            i <= 5,
            args.thresholds_valid(),
            Group::counts_ok(INITIAL_MEMBER_COUNT, args.minimum_vote_count, args.minimum_member_count),
            forall|k: int| 0 <= k < i ==> (#[trigger] args.member_permissions@[k]).valid(),
            created@.len() == i,
            forall|k: int| 0 <= k < i ==> #[trigger] created@[k] == (GroupMember {
                user: members@[k],
                group: *group_key,
                permissions: args.member_permissions@[k],
                weight: capped(args.member_weights@[k], args.max_member_weight),
                account_bump: member_bumps@[k],
            }),
        decreases 5 - i,
    {
        let m = match GroupMember::new(
            members[i],
            *group_key,
            args.member_permissions[i],
            args.member_weights[i],
            member_bumps[i],
            args.max_member_weight,
        ) {
            Ok(m) => m,
            Err(e) => {
                assert(!args.member_permissions@[i as int].valid());
                return Err(e);
            },
        };
        created.push(m);
        i = i + 1;
    }
    Ok((group, created))
}

} // verus!
