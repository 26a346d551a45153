use vstd::prelude::*;

use crate::asset::Asset;
use crate::bundle::{NormalProposal, ProposalAsset, ProposalAssetThresholdState, MAX_ASSET_USE};
use crate::error::MultisigError;
use crate::group::Group;
use crate::key::{bytes_lt, Key};
use crate::member::GroupMember;
use crate::proposal::{ConfigChange, ConfigProposal, ProposalState, ProposalTarget};

verus! {

pub struct CreateConfigProposalInstructionArgs {
    pub proposal_seed: Key,
    pub timelock_offset: u32,
    pub expiry_offset: u32,
    pub config_change: ConfigChange,
}

pub struct CreateNormalProposalInstructionArgs {
    pub proposal_seed: Key,
    pub asset_keys: Vec<Key>,
    pub asset_indices: Vec<u8>,
    pub authority_bumps: Vec<u8>,
    pub timelock_offset: u32,
    pub expiry_offset: u32,
    pub instruction_hash: [u8; 32],
}

/// Each key comes strictly after the one before it.
pub open spec fn strictly_sorted(keys: Seq<Key>) -> bool {
    forall|i: int| 1 <= i < keys.len() ==> bytes_lt(#[trigger] keys[i - 1]@, keys[i]@)
}

/// Why `member` may not propose in the group `group_key` as `proposer`, if it may not.
pub open spec fn proposer_error(member: GroupMember, proposer: Key, group_key: Key) -> Option<MultisigError> {
    if member.user@ != proposer@ || member.group@ != group_key@ {
        Some(MultisigError::InvalidProposer)
    } else if !member.permissions.can_propose() {
        Some(MultisigError::InsufficientPermissions)
    } else {
        None
    }
}

fn proposer_check(member: &GroupMember, proposer: &Key, group_key: &Key) -> (r: Result<(), MultisigError>)
    ensures
        r is Ok <==> proposer_error(*member, *proposer, *group_key) is None,
        r is Err ==> r == Err::<(), MultisigError>(proposer_error(*member, *proposer, *group_key)->Some_0),
{
    if !member.user.equals(proposer) || !member.group.equals(group_key) {
        return Err(MultisigError::InvalidProposer);
    }
    if !member.has_propose() {
        return Err(MultisigError::InsufficientPermissions);
    }
    Ok(())
}

/// Opens a configuration proposal on the group, or on `asset` for an asset
/// change, under the group's next proposal index.
pub fn create_config_proposal_handler(
    group: &mut Group,
    group_key: &Key,
    proposer: &Key,
    proposer_member: &GroupMember,
    asset: Option<&Asset>,
    args: CreateConfigProposalInstructionArgs,
    proposal_bump: u8,
    now: i64,
) -> (r: Result<ConfigProposal, MultisigError>)
    requires
        old(group).wf(),
    ensures
        final(group).wf(),
        proposer_error(*proposer_member, *proposer, *group_key) matches Some(e) ==> r == Err::<ConfigProposal, MultisigError>(e),
        proposer_error(*proposer_member, *proposer, *group_key) is None && args.config_change.spec_is_asset_change() && asset is None
            ==> r == Err::<ConfigProposal, MultisigError>(MultisigError::AssetNotProvided),
        r is Err ==> *final(group) == *old(group),
        r matches Ok(p) ==> {
            &&& proposer_error(*proposer_member, *proposer, *group_key) is None
            &&& p == (ConfigProposal {
                group: *group_key,
                proposer: *proposer,
                proposal_seed: args.proposal_seed,
                target: if args.config_change.spec_is_asset_change() {
                    ProposalTarget::Asset(asset->Some_0.asset_address)
                } else {
                    ProposalTarget::Group
                },
                propose_timestamp: now,
                valid_from_timestamp: (now + args.timelock_offset) as i64,
                expiration_timestamp: (now + args.expiry_offset) as i64,
                proposal_index: old(group).next_proposal_index,
                state: ProposalState::Open,
                vote_count: 0,
                for_weight: 0,
                against_weight: 0,
                config_change: args.config_change,
                account_bump: proposal_bump,
            })
            &&& *final(group) == (Group { next_proposal_index: (old(group).next_proposal_index + 1) as u64, ..*old(group) })
        },
        (proposer_error(*proposer_member, *proposer, *group_key) is None && (args.config_change.spec_is_asset_change() ==> asset is Some)
            && old(group).next_proposal_index < u64::MAX && now + args.timelock_offset <= i64::MAX
            && now + args.expiry_offset <= i64::MAX) ==> r is Ok,
{
    proposer_check(proposer_member, proposer, group_key)?;
    let target = if args.config_change.is_group_change() {
        ProposalTarget::Group
    } else {
        match asset {
            Some(a) => ProposalTarget::Asset(a.asset_address),
            None => return Err(MultisigError::AssetNotProvided),
        }
    };
    if group.next_proposal_index == u64::MAX {
        return Err(MultisigError::ArithmeticOverflow);
    }
    let proposal = ConfigProposal::new(
        *proposer,
        args.proposal_seed,
        *group_key,
        proposal_bump,
        group.next_proposal_index,
        args.timelock_offset,
        args.expiry_offset,
        target,
        args.config_change,
        now,
    )?;
    group.get_and_increment_proposal_index()?;
    Ok(proposal)
}

/// Why the asset lists of a bundled proposal are refused, if they are.
pub open spec fn asset_list_error(keys: Seq<Key>, indices: Seq<u8>, bumps: Seq<u8>) -> Option<MultisigError> {
    if keys.len() > MAX_ASSET_USE {
        Some(MultisigError::TooManyAssets)
    } else if keys.len() != indices.len() || indices.len() != bumps.len() {
        Some(MultisigError::LengthMismatch)
    } else if !strictly_sorted(keys) {
        Some(MultisigError::AssetsNotSortedOrDuplicate)
    } else {
        None
    }
}

/// Checks the proposer and the asset lists of a bundled proposal.
pub fn create_normal_proposal_checks(
    proposer: &Key,
    proposer_member: &GroupMember,
    group_key: &Key,
    args: &CreateNormalProposalInstructionArgs,
) -> (r: Result<(), MultisigError>)
    ensures
        proposer_error(*proposer_member, *proposer, *group_key) matches Some(e) ==> r == Err::<(), MultisigError>(e),
        proposer_error(*proposer_member, *proposer, *group_key) is None ==> match asset_list_error(args.asset_keys@, args.asset_indices@, args.authority_bumps@) {
            Some(e) => r == Err::<(), MultisigError>(e),
            None => r is Ok,
        },
{
    proposer_check(proposer_member, proposer, group_key)?;
    let n = args.asset_keys.len();
    if n > MAX_ASSET_USE {
        return Err(MultisigError::TooManyAssets);
    }
    if n != args.asset_indices.len() || args.asset_indices.len() != args.authority_bumps.len() {
        return Err(MultisigError::LengthMismatch);
    }
    let mut i: usize = 1;
    while i < n
        invariant
            1 <= i,
            n == args.asset_keys@.len(),
            n <= MAX_ASSET_USE,
            n == args.asset_indices@.len(),
            n == args.authority_bumps@.len(),
            proposer_error(*proposer_member, *proposer, *group_key) is None,
            forall|j: int| 1 <= j < i && j < n ==> bytes_lt(#[trigger] args.asset_keys@[j - 1]@, args.asset_keys@[j]@),
        decreases n - i,
    {
        if !args.asset_keys[i - 1].precedes(&args.asset_keys[i]) {
            assert(!bytes_lt(args.asset_keys@[i - 1]@, args.asset_keys@[i as int]@));
            return Err(MultisigError::AssetsNotSortedOrDuplicate);
        }
        i = i + 1;
    }
    Ok(())
}

/// The asset entries that a bundled proposal starts with.
pub open spec fn fresh_assets(keys: Seq<Key>, indices: Seq<u8>, bumps: Seq<u8>) -> Seq<ProposalAsset> {
    Seq::new(keys.len(), |i: int| ProposalAsset {
        index: indices[i],
        authority_bump: bumps[i],
        asset: keys[i],
        use_vote_weight: 0,
        not_use_vote_weight: 0,
        vote_count: 0,
        threshold_state: ProposalAssetThresholdState::NoThresholdReached,
    })
}

/// Opens a bundled proposal under the group's next proposal index, with one
/// undecided entry per asset.
pub fn create_normal_proposal_handler(
    group: &mut Group,
    group_key: &Key,
    proposer: &Key,
    proposer_member: &GroupMember,
    args: CreateNormalProposalInstructionArgs,
    proposal_bump: u8,
    now: i64,
) -> (r: Result<NormalProposal, MultisigError>)
    requires
        old(group).wf(),
    ensures
        final(group).wf(),
        proposer_error(*proposer_member, *proposer, *group_key) matches Some(e) ==> r == Err::<NormalProposal, MultisigError>(e),
        proposer_error(*proposer_member, *proposer, *group_key) is None ==> (asset_list_error(args.asset_keys@, args.asset_indices@, args.authority_bumps@) matches Some(e)
            ==> r == Err::<NormalProposal, MultisigError>(e)),
        r is Err ==> *final(group) == *old(group),
        r matches Ok(p) ==> {
            &&& proposer_error(*proposer_member, *proposer, *group_key) is None
            &&& asset_list_error(args.asset_keys@, args.asset_indices@, args.authority_bumps@) is None
            &&& p.wf()
            &&& p.proposer == *proposer
            &&& p.proposal_seed == args.proposal_seed
            &&& p.group == *group_key
            &&& p.assets@ == fresh_assets(args.asset_keys@, args.asset_indices@, args.authority_bumps@)
            &&& p.passed_assets_count == 0
            &&& p.propose_timestamp == now
            &&& p.valid_from_timestamp == now + args.timelock_offset
            &&& p.expiration_timestamp == now + args.expiry_offset
            &&& p.state == ProposalState::Open
            &&& p.account_bump == proposal_bump
            &&& p.proposal_index == old(group).next_proposal_index
            &&& p.instruction_hash == args.instruction_hash
            &&& *final(group) == (Group { next_proposal_index: (old(group).next_proposal_index + 1) as u64, ..*old(group) })
        },
        (proposer_error(*proposer_member, *proposer, *group_key) is None
            && asset_list_error(args.asset_keys@, args.asset_indices@, args.authority_bumps@) is None
            && old(group).next_proposal_index < u64::MAX && now + args.timelock_offset <= i64::MAX
            && now + args.expiry_offset <= i64::MAX) ==> r is Ok,
{
    create_normal_proposal_checks(proposer, proposer_member, group_key, &args)?;
    let n = args.asset_keys.len();
    let mut assets: Vec<ProposalAsset> = Vec::new();
    let mut i: usize = 0;
    while i < n
        invariant
            n == args.asset_keys@.len(),
            n == args.asset_indices@.len(),
            n == args.authority_bumps@.len(),
            i <= n,
            assets@ == fresh_assets(args.asset_keys@, args.asset_indices@, args.authority_bumps@).subrange(0, i as int),
        decreases n - i,
    {
        assets.push(ProposalAsset::new(args.asset_indices[i], args.authority_bumps[i], args.asset_keys[i]));
        i = i + 1;
        assert(assets@ =~= fresh_assets(args.asset_keys@, args.asset_indices@, args.authority_bumps@).subrange(0, i as int));
    }
    assert(assets@ =~= fresh_assets(args.asset_keys@, args.asset_indices@, args.authority_bumps@));
    if group.next_proposal_index == u64::MAX {
        return Err(MultisigError::ArithmeticOverflow);
    }
    let proposal = NormalProposal::new(
        *proposer,
        args.proposal_seed,
        *group_key,
        assets,
        proposal_bump,
        group.next_proposal_index,
        args.instruction_hash,
        args.timelock_offset,
        args.expiry_offset,
        now,
    )?;
    group.get_and_increment_proposal_index()?;
    Ok(proposal)
}

} // verus!
