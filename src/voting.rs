use vstd::prelude::*;

use crate::asset::Asset;
use crate::bundle::{NormalProposal, ProposalAsset, ProposalAssetThresholdState};
use crate::error::MultisigError;
use crate::group::Group;
use crate::key::Key;
use crate::member::{AssetMember, GroupMember};
use crate::proposal::{ConfigProposal, ProposalState, ProposalTarget};
use crate::vote::{VoteChoice, VoteRecord};

verus! {

pub struct VoteOnConfigProposalInstructionArgs {
    pub vote: VoteChoice,
}

pub struct VoteOnNormalProposalInstructionArgs {
    pub voting_asset_index: u8,
    pub vote: VoteChoice,
}

pub open spec fn previous_choice(record: Option<VoteRecord>) -> Option<VoteChoice> {
    match record {
        Some(rec) => Some(rec.vote_choice),
        None => None,
    }
}

/// The record that stands after a counted ballot.
pub open spec fn recorded(
    record: Option<VoteRecord>,
    voter: Key,
    proposal: Key,
    asset_index: Option<u8>,
    bump: u8,
    vote: VoteChoice,
) -> VoteRecord {
    match record {
        Some(rec) => VoteRecord { vote_choice: vote, ..rec },
        None => VoteRecord { voter, proposal, asset_index, account_bump: bump, vote_choice: vote },
    }
}

/// Why a standing record cannot be this voter's ballot on this proposal (and asset).
pub open spec fn record_error(record: Option<VoteRecord>, voter: Key, proposal: Key, asset_index: Option<u8>) -> Option<MultisigError> {
    match record {
        None => None,
        Some(rec) => if rec.voter@ != voter@ {
            Some(MultisigError::UnauthorizedVoter)
        } else if rec.proposal@ != proposal@ {
            Some(MultisigError::UnexpectedProposal)
        } else if rec.asset_index != asset_index {
            Some(MultisigError::InvalidAssetIndex)
        } else {
            None
        },
    }
}

/// Why the voter may not vote on an asset-targeted proposal, if it may not.
pub open spec fn target_error(p: ConfigProposal, asset: Option<Asset>, asset_member: Option<AssetMember>, voter: Key) -> Option<MultisigError> {
    match p.target {
        ProposalTarget::Group => None,
        ProposalTarget::Asset(k) => match asset {
            None => Some(MultisigError::AssetNotProvided),
            Some(a) => if k@ != a.asset_address@ {
                Some(MultisigError::UnexpectedAsset)
            } else {
                match asset_member {
                    None => Some(MultisigError::AssetMemberNotProvided),
                    Some(m) => if m.asset@ != a.asset_address@ {
                        Some(MultisigError::InvalidAssetMember)
                    } else if m.user@ != voter@ {
                        Some(MultisigError::UnauthorizedVoter)
                    } else {
                        None
                    },
                }
            },
        },
    }
}

/// One ballot on a configuration proposal: the result, the proposal after it
/// and the voter's record after it.
pub open spec fn config_vote(
    p: ConfigProposal,
    proposal_key: Key,
    group_key: Key,
    group: Group,
    asset: Option<Asset>,
    group_member: GroupMember,
    asset_member: Option<AssetMember>,
    record: Option<VoteRecord>,
    bump: u8,
    voter: Key,
    vote: VoteChoice,
    now: i64,
) -> (Result<(), MultisigError>, ConfigProposal, Option<VoteRecord>) {
    let previous = previous_choice(record);
    if p.state != ProposalState::Open {
        (Err(MultisigError::ProposalNotOpen), p, record)
    } else if now > p.expiration_timestamp {
        (Err(MultisigError::ProposalExpired), ConfigProposal { state: ProposalState::Expired, ..p }, record)
    } else if group_member.user@ != voter@ || group_member.group@ != group_key@ {
        (Err(MultisigError::UnauthorizedVoter), p, record)
    } else if p.group@ != group_key@ {
        (Err(MultisigError::UnexpectedGroup), p, record)
    } else if p.proposal_index < group.proposal_index_after_stale {
        (Err(MultisigError::ProposalStale), p, record)
    } else if record_error(record, voter, proposal_key, None) is Some {
        (Err(record_error(record, voter, proposal_key, None)->Some_0), p, record)
    } else if previous == Some(vote) {
        (Ok(()), p, record)
    } else if target_error(p, asset, asset_member, voter) is Some {
        (Err(target_error(p, asset, asset_member, voter)->Some_0), p, record)
    } else {
        match p.tallied(previous, vote, group_member.weight) {
            None => (Err(MultisigError::ArithmeticOverflow), p, record),
            Some(t) => match t.settled(vote, Some(group), asset) {
                Err(e) => (Err(e), p, record),
                Ok(s) => (Ok(()), s, Some(recorded(record, voter, proposal_key, None, bump, vote))),
            },
        }
    }
}

fn record_check(record: &Option<VoteRecord>, voter: &Key, proposal: &Key, asset_index: Option<u8>) -> (r: Result<(), MultisigError>)
    ensures
        r is Ok <==> record_error(*record, *voter, *proposal, asset_index) is None,
        r is Err ==> r == Err::<(), MultisigError>(record_error(*record, *voter, *proposal, asset_index)->Some_0),
{
    match record {
        None => Ok(()),
        Some(rec) => {
            if !rec.voter.equals(voter) {
                return Err(MultisigError::UnauthorizedVoter);
            }
            if !rec.proposal.equals(proposal) {
                return Err(MultisigError::UnexpectedProposal);
            }
            if rec.asset_index != asset_index {
                return Err(MultisigError::InvalidAssetIndex);
            }
            Ok(())
        },
    }
}

fn target_check(p: &ConfigProposal, asset: Option<&Asset>, asset_member: Option<&AssetMember>, voter: &Key) -> (r: Result<(), MultisigError>)
    ensures
        ({
            let a = match asset { Some(a) => Some(*a), None => None };
            let m = match asset_member { Some(m) => Some(*m), None => None };
            &&& r is Ok <==> target_error(*p, a, m, *voter) is None
            &&& r is Err ==> r == Err::<(), MultisigError>(target_error(*p, a, m, *voter)->Some_0)
        }),
{
    match &p.target {
        ProposalTarget::Group => Ok(()),
        ProposalTarget::Asset(k) => {
            let a = match asset {
                Some(a) => a,
                None => return Err(MultisigError::AssetNotProvided),
            };
            if !k.equals(&a.asset_address) {
                return Err(MultisigError::UnexpectedAsset);
            }
            let m = match asset_member {
                Some(m) => m,
                None => return Err(MultisigError::AssetMemberNotProvided),
            };
            if !m.asset.equals(&a.asset_address) {
                return Err(MultisigError::InvalidAssetMember);
            }
            if !m.user.equals(voter) {
                return Err(MultisigError::UnauthorizedVoter);
            }
            Ok(())
        },
    }
}

/// Casts, or changes, `voter`'s ballot on a configuration proposal. An
/// expired proposal is marked Expired and the ballot refused; every other
/// refusal leaves the proposal and the record as they were.
pub fn vote_on_config_proposal_handler(
    proposal: &mut ConfigProposal,
    proposal_key: &Key,
    group_key: &Key,
    group: &Group,
    asset: Option<&Asset>,
    group_member: &GroupMember,
    asset_member: Option<&AssetMember>,
    vote_record: &mut Option<VoteRecord>,
    vote_record_bump: u8,
    voter: &Key,
    args: VoteOnConfigProposalInstructionArgs,
    now: i64,
) -> (r: Result<(), MultisigError>)
    ensures
        ({
            let a = match asset { Some(a) => Some(*a), None => None };
            let m = match asset_member { Some(m) => Some(*m), None => None };
            (r, *final(proposal), *final(vote_record)) == config_vote(
                *old(proposal),
                *proposal_key,
                *group_key,
                *group,
                a,
                *group_member,
                m,
                *old(vote_record),
                vote_record_bump,
                *voter,
                args.vote,
                now,
            )
        }),
{
    let vote = args.vote;
    if proposal.state != ProposalState::Open {
        return Err(MultisigError::ProposalNotOpen);
    }
    if now > proposal.expiration_timestamp {
        proposal.state = ProposalState::Expired;
        return Err(MultisigError::ProposalExpired);
    }
    if !group_member.user.equals(voter) || !group_member.group.equals(group_key) {
        return Err(MultisigError::UnauthorizedVoter);
    }
    if !proposal.group.equals(group_key) {
        return Err(MultisigError::UnexpectedGroup);
    }
    if !group.is_current(proposal.proposal_index) {
        return Err(MultisigError::ProposalStale);
    }
    record_check(vote_record, voter, proposal_key, None)?;
    let previous = match vote_record {
        Some(rec) => Some(rec.vote_choice),
        None => None,
    };
    if previous == Some(vote) {
        return Ok(());
    }
    target_check(proposal, asset, asset_member, voter)?;
    let mut p = *proposal;
    p.record_ballot(previous, vote, group_member.weight)?;
    match vote {
        VoteChoice::For => {
            p.check_and_mark_passed(Some(group), asset)?;
        },
        VoteChoice::Against => {
            p.check_and_mark_failed(Some(group), asset)?;
        },
    }
    *proposal = p;
    let rec = match vote_record {
        Some(rec) => VoteRecord { vote_choice: vote, ..*rec },
        None => VoteRecord::new(*voter, *proposal_key, None, vote_record_bump, vote),
    };
    *vote_record = Some(rec);
    Ok(())
}

/// The bundle after asset `index` took a tally `t`: the threshold check that a
/// ballot for `vote` runs, as (assets, passed count, state).
pub open spec fn bundle_settled(
    p: NormalProposal,
    index: int,
    t: ProposalAsset,
    vote: VoteChoice,
    a: Asset,
) -> Result<(Seq<ProposalAsset>, u8, ProposalState), MultisigError> {
    let tallied = p.assets@.update(index, t);
    match vote {
        VoteChoice::For => match t.pass_outcome(a) {
            Err(e) => Err(e),
            Ok(false) => Ok((tallied, p.passed_assets_count, p.state)),
            Ok(true) => Ok((
                tallied.update(index, ProposalAsset { threshold_state: ProposalAssetThresholdState::UseThresholdReached, ..t }),
                (p.passed_assets_count + 1) as u8,
                if p.passed_assets_count + 1 == p.assets@.len() { ProposalState::Passed } else { p.state },
            )),
        },
        VoteChoice::Against => match t.fail_outcome(a) {
            Err(e) => Err(e),
            Ok(false) => Ok((tallied, p.passed_assets_count, p.state)),
            Ok(true) => Ok((
                tallied.update(index, ProposalAsset { threshold_state: ProposalAssetThresholdState::NotUseThresholdReached, ..t }),
                p.passed_assets_count,
                ProposalState::Failed,
            )),
        },
    }
}

/// One ballot on one asset of a bundled proposal: the result, the bundle
/// after it as (assets, passed count, state), and the voter's record after it.
pub open spec fn normal_vote(
    p: NormalProposal,
    proposal_key: Key,
    group_key: Key,
    group: Group,
    asset: Asset,
    asset_member: AssetMember,
    record: Option<VoteRecord>,
    bump: u8,
    voter: Key,
    index: u8,
    vote: VoteChoice,
    now: i64,
) -> (Result<(), MultisigError>, Seq<ProposalAsset>, u8, ProposalState, Option<VoteRecord>) {
    let unchanged = (p.assets@, p.passed_assets_count, p.state, record);
    let previous = previous_choice(record);
    if p.state != ProposalState::Open {
        (Err(MultisigError::ProposalNotOpen), p.assets@, p.passed_assets_count, p.state, record)
    } else if now > p.expiration_timestamp {
        (Err(MultisigError::ProposalExpired), p.assets@, p.passed_assets_count, ProposalState::Expired, record)
    } else if p.group@ != group_key@ {
        (Err(MultisigError::UnexpectedGroup), p.assets@, p.passed_assets_count, p.state, record)
    } else if p.proposal_index < group.proposal_index_after_stale {
        (Err(MultisigError::ProposalStale), p.assets@, p.passed_assets_count, p.state, record)
    } else if index >= p.assets@.len() {
        (Err(MultisigError::InvalidAssetIndex), p.assets@, p.passed_assets_count, p.state, record)
    } else if p.assets@[index as int].asset@ != asset.asset_address@ {
        (Err(MultisigError::InvalidAsset), p.assets@, p.passed_assets_count, p.state, record)
    } else if asset_member.asset@ != asset.asset_address@ || asset_member.group@ != group_key@ {
        (Err(MultisigError::InvalidAssetMember), p.assets@, p.passed_assets_count, p.state, record)
    } else if asset_member.user@ != voter@ {
        (Err(MultisigError::UnauthorizedVoter), p.assets@, p.passed_assets_count, p.state, record)
    } else if record_error(record, voter, proposal_key, Some(index)) is Some {
        (Err(record_error(record, voter, proposal_key, Some(index))->Some_0), p.assets@, p.passed_assets_count, p.state, record)
    } else if previous == Some(vote) {
        (Ok(()), p.assets@, p.passed_assets_count, p.state, record)
    } else {
        match p.assets@[index as int].tallied(previous, vote, asset_member.weight) {
            None => (Err(MultisigError::ArithmeticOverflow), p.assets@, p.passed_assets_count, p.state, record),
            Some(t) => match bundle_settled(p, index as int, t, vote, asset) {
                Err(e) => (Err(e), p.assets@, p.passed_assets_count, p.state, record),
                Ok((assets, passed, state)) => (
                    Ok(()),
                    assets,
                    passed,
                    state,
                    Some(recorded(record, voter, proposal_key, Some(index), bump, vote)),
                ),
            },
        }
    }
}

/// Casts, or changes, `voter`'s ballot on one asset of a bundled proposal.
/// An expired proposal is marked Expired and the ballot refused; every other
/// refusal leaves the proposal and the record as they were.
pub fn vote_on_normal_proposal_handler(
    proposal: &mut NormalProposal,
    proposal_key: &Key,
    group_key: &Key,
    group: &Group,
    asset: &Asset,
    asset_member: &AssetMember,
    vote_record: &mut Option<VoteRecord>,
    vote_record_bump: u8,
    voter: &Key,
    args: VoteOnNormalProposalInstructionArgs,
    now: i64,
) -> (r: Result<(), MultisigError>)
    requires
        old(proposal).wf(),
    ensures
        ({
            let (res, assets, passed, state, rec) = normal_vote(
                *old(proposal),
                *proposal_key,
                *group_key,
                *group,
                *asset,
                *asset_member,
                *old(vote_record),
                vote_record_bump,
                *voter,
                args.voting_asset_index,
                args.vote,
                now,
            );
            &&& r == res
            &&& final(proposal).assets@ == assets
            &&& final(proposal).passed_assets_count == passed
            &&& final(proposal).state == state
            &&& *final(vote_record) == rec
        }),
        final(proposal).same_header(old(proposal)),
        final(proposal).wf(),
{
    let vote = args.vote;
    let index = args.voting_asset_index;
    if proposal.state != ProposalState::Open {
        return Err(MultisigError::ProposalNotOpen);
    }
    if now > proposal.expiration_timestamp {
        proposal.set_state(ProposalState::Expired)?;
        return Err(MultisigError::ProposalExpired);
    }
    if !proposal.group.equals(group_key) {
        return Err(MultisigError::UnexpectedGroup);
    }
    if !group.is_current(proposal.proposal_index) {
        return Err(MultisigError::ProposalStale);
    }
    let i = index as usize;
    if i >= proposal.assets.len() {
        return Err(MultisigError::InvalidAssetIndex);
    }
    if !proposal.assets[i].asset.equals(&asset.asset_address) {
        return Err(MultisigError::InvalidAsset);
    }
    if !asset_member.asset.equals(&asset.asset_address) || !asset_member.group.equals(group_key) {
        return Err(MultisigError::InvalidAssetMember);
    }
    if !asset_member.user.equals(voter) {
        return Err(MultisigError::UnauthorizedVoter);
    }
    record_check(vote_record, voter, proposal_key, Some(index))?;
    let previous = match vote_record {
        Some(rec) => Some(rec.vote_choice),
        None => None,
    };
    if previous == Some(vote) {
        return Ok(());
    }
    let before = proposal.assets[i];
    let mut t = before;
    t.record_ballot(previous, vote, asset_member.weight)?;
    proof {
        assert(t.threshold_state == before.threshold_state);
        crate::bundle::lemma_count_use_update(proposal.assets@, i as int, t);
        let s2 = proposal.assets@.update(i as int, t);
        if crate::bundle::all_use(s2) {
            assert forall|j: int| 0 <= j < proposal.assets@.len() implies #[trigger] crate::bundle::is_use(proposal.assets@[j]) by {
                assert(crate::bundle::is_use(s2[j]));
            }
        }
        if crate::bundle::all_use(proposal.assets@) {
            assert forall|j: int| 0 <= j < s2.len() implies #[trigger] crate::bundle::is_use(s2[j]) by {
                assert(crate::bundle::is_use(proposal.assets@[j]));
            }
        }
        assert forall|j: int| 0 <= j < s2.len() implies (crate::bundle::is_use(#[trigger] s2[j])
            == crate::bundle::is_use(proposal.assets@[j]) && crate::bundle::is_not_use(s2[j])
            == crate::bundle::is_not_use(proposal.assets@[j])) by {}
        if crate::bundle::any_not_use(s2) {
            let j = choose|j: int| 0 <= j < s2.len() && #[trigger] crate::bundle::is_not_use(s2[j]);
            assert(crate::bundle::is_not_use(proposal.assets@[j]));
        }
        if crate::bundle::any_not_use(proposal.assets@) {
            let j = choose|j: int| 0 <= j < proposal.assets@.len() && #[trigger] crate::bundle::is_not_use(proposal.assets@[j]);
            assert(crate::bundle::is_not_use(s2[j]));
        }
    }
    proposal.assets.set(i, t);
    let checked = match vote {
        VoteChoice::For => proposal.check_and_mark_asset_passed(i, asset),
        VoteChoice::Against => proposal.check_and_mark_asset_failed(i, asset),
    };
    if let Err(e) = checked {
        proof {
            let s = proposal.assets@.update(i as int, before);
            crate::bundle::lemma_count_use_update(proposal.assets@, i as int, before);
            assert(s =~= old(proposal).assets@);
        }
        proposal.assets.set(i, before);
        return Err(e);
    }
    let rec = match vote_record {
        Some(rec) => VoteRecord { vote_choice: vote, ..*rec },
        None => VoteRecord::new(*voter, *proposal_key, Some(index), vote_record_bump, vote),
    };
    *vote_record = Some(rec);
    Ok(())
}

} // verus!
