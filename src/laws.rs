use vstd::prelude::*;

use crate::apply_config::advanced;
use crate::asset::Asset;
use crate::bundle::{all_use, any_not_use, NormalProposal, ProposalAssetThresholdState};
use crate::group::Group;
use crate::key::Key;
use crate::member::{AssetMember, GroupMember};
use crate::proposal::{ConfigProposal, ProposalState};
use crate::threshold::FractionalThreshold;
use crate::vote::{VoteChoice, VoteRecord};
use crate::voting::{config_vote, normal_vote};

verus! {

/// After normalization the counter-threshold is either at most the action
/// threshold or exactly its complement, and it is still a valid threshold.
pub proof fn law_normalize_other(t: FractionalThreshold, counter: FractionalThreshold)
    requires
        t.valid(),
        counter.valid(),
    ensures
        t.at_least(t.normalized(counter)) || t.normalized(counter) == t.complement(),
        t.normalized(counter).valid(),
{
    if !t.met_by(counter.numerator as int, counter.denominator as int) {
        assert(t.numerator * counter.denominator >= counter.numerator * t.denominator) by (nonlinear_arith)
            requires
                counter.numerator * t.denominator < counter.denominator * t.numerator,
        ;
    }
}

/// The for- and against-weights of a configuration proposal, together, are at
/// most `vote_count` ballots of the heaviest weight.
pub open spec fn tally_within(p: ConfigProposal, max_weight: u32) -> bool {
    p.for_weight + p.against_weight <= p.vote_count * max_weight
}

/// A newly opened configuration proposal has an empty tally.
pub proof fn law_tally_starts_within(p: ConfigProposal, max_weight: u32)
    requires
        p.for_weight == 0,
        p.against_weight == 0,
    ensures
        tally_within(p, max_weight),
{
    assert(p.vote_count * max_weight >= 0) by (nonlinear_arith);
}

/// Each ballot keeps the tally within `vote_count` ballots of the heaviest
/// weight, when the voter's weight is at most that weight and a changed
/// ballot withdraws no more than its own bucket holds.
pub proof fn law_ballot_keeps_tally_within(
    p: ConfigProposal,
    proposal_key: Key,
    group_key: Key,
    group: Group,
    asset: Option<Asset>,
    group_member: GroupMember,
    asset_member: Option<AssetMember>,
    record: Option<VoteRecord>,
    bump: u8,
    voter: Key,
    vote: VoteChoice,
    now: i64,
    max_weight: u32,
)
    requires
        tally_within(p, max_weight),
        group_member.weight <= max_weight,
        record matches Some(rec) ==> (rec.vote_choice == VoteChoice::For ==> p.for_weight >= group_member.weight)
            && (rec.vote_choice == VoteChoice::Against ==> p.against_weight >= group_member.weight),
    ensures
        tally_within(
            config_vote(p, proposal_key, group_key, group, asset, group_member, asset_member, record, bump, voter, vote, now).1,
            max_weight,
        ),
{
    let vc = p.vote_count as int;
    let m = max_weight as int;
    assert((vc + 1) * m == vc * m + m) by (nonlinear_arith);
}

/// With at most `member_count` voters, the tally is at most `member_count`
/// ballots of the heaviest weight.
pub proof fn law_tally_bounded_by_members(p: ConfigProposal, max_weight: u32, member_count: u32)
    requires
        tally_within(p, max_weight),
        p.vote_count <= member_count,
    ensures
        p.for_weight + p.against_weight <= member_count * max_weight,
{
    assert(p.vote_count * max_weight <= member_count * max_weight) by (nonlinear_arith)
        requires
            p.vote_count <= member_count,
    ;
}

/// Casting the standing choice again changes neither weight nor the vote count,
/// nor the record.
pub proof fn law_config_revote_idempotent(
    p: ConfigProposal,
    proposal_key: Key,
    group_key: Key,
    group: Group,
    asset: Option<Asset>,
    group_member: GroupMember,
    asset_member: Option<AssetMember>,
    rec: VoteRecord,
    bump: u8,
    voter: Key,
    now: i64,
)
    ensures
        ({
            let (_, q, after) = config_vote(p, proposal_key, group_key, group, asset, group_member, asset_member, Some(rec), bump, voter, rec.vote_choice, now);
            &&& q.for_weight == p.for_weight
            &&& q.against_weight == p.against_weight
            &&& q.vote_count == p.vote_count
            &&& after == Some(rec)
        }),
{
}

/// Casting the standing choice again on an asset of a bundled proposal
/// changes no tally and no record.
pub proof fn law_normal_revote_idempotent(
    p: NormalProposal,
    proposal_key: Key,
    group_key: Key,
    group: Group,
    asset: Asset,
    asset_member: AssetMember,
    rec: VoteRecord,
    bump: u8,
    voter: Key,
    index: u8,
    now: i64,
)
    ensures
        ({
            let (_, assets, passed, _, after) = normal_vote(p, proposal_key, group_key, group, asset, asset_member, Some(rec), bump, voter, index, rec.vote_choice, now);
            &&& assets == p.assets@
            &&& passed == p.passed_assets_count
            &&& after == Some(rec)
        }),
{
}

/// A finished configuration proposal is left as it is by every ballot.
pub proof fn law_config_finished_is_final(
    p: ConfigProposal,
    proposal_key: Key,
    group_key: Key,
    group: Group,
    asset: Option<Asset>,
    group_member: GroupMember,
    asset_member: Option<AssetMember>,
    record: Option<VoteRecord>,
    bump: u8,
    voter: Key,
    vote: VoteChoice,
    now: i64,
)
    requires
        p.state != ProposalState::Open,
    ensures
        config_vote(p, proposal_key, group_key, group, asset, group_member, asset_member, record, bump, voter, vote, now).1 == p,
{
}

/// A finished bundled proposal is left as it is by every ballot, and an asset
/// that reached either threshold keeps it.
pub proof fn law_normal_decided_is_final(
    p: NormalProposal,
    proposal_key: Key,
    group_key: Key,
    group: Group,
    asset: Asset,
    asset_member: AssetMember,
    record: Option<VoteRecord>,
    bump: u8,
    voter: Key,
    index: u8,
    vote: VoteChoice,
    now: i64,
    j: int,
)
    requires
        0 <= j < p.assets@.len(),
    ensures
        ({
            let (_, assets, passed, state, _) = normal_vote(p, proposal_key, group_key, group, asset, asset_member, record, bump, voter, index, vote, now);
            &&& p.state != ProposalState::Open ==> assets == p.assets@ && passed == p.passed_assets_count && state == p.state
            &&& p.assets@[j].threshold_state != ProposalAssetThresholdState::NoThresholdReached
                ==> assets.len() == p.assets@.len() && assets[j].threshold_state == p.assets@[j].threshold_state
        }),
{
}

/// The staleness index only moves up, to the next proposal index at most:
/// applying a change moves it there, and opening a proposal leaves it.
pub proof fn law_staleness_monotone(g: Group)
    requires
        g.wf(),
    ensures
        advanced(g).wf(),
        advanced(g).proposal_index_after_stale >= g.proposal_index_after_stale,
        advanced(g).proposal_index_after_stale == advanced(g).next_proposal_index,
        g.next_proposal_index < u64::MAX ==> (Group { next_proposal_index: (g.next_proposal_index + 1) as u64, ..g }).wf(),
{
}

/// A bundled proposal passes exactly when every one of its assets reached its
/// use threshold, and fails as soon as any one asset reached its not-use threshold.
pub proof fn law_all_or_veto(p: NormalProposal)
    requires
        p.wf(),
        p.assets@.len() > 0,
    ensures
        p.state == ProposalState::Passed <==> all_use(p.assets@),
        any_not_use(p.assets@) ==> p.state == ProposalState::Failed,
{
}

} // verus!
