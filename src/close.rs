use vstd::prelude::*;

use crate::bundle::NormalProposal;
use crate::error::MultisigError;
use crate::group::Group;
use crate::key::Key;
use crate::proposal::{ConfigProposal, ProposalState};
use crate::transaction::ProposalTransaction;
use crate::vote::VoteRecord;

verus! {

/// Why a proposal may not be closed yet, if it may not: an open proposal must
/// be past its deadline, and a passed one must have gone stale.
pub open spec fn closable_error(state: ProposalState, expiration: i64, proposal_index: u64, stale_index: u64, now: i64) -> Option<MultisigError> {
    match state {
        ProposalState::Open => if now > expiration { None } else { Some(MultisigError::ProposalStillActive) },
        ProposalState::Passed => if stale_index > proposal_index { None } else { Some(MultisigError::ProposalStillActive) },
        _ => None,
    }
}

/// Checks that a proposal in `state`, with that deadline and index, may be closed.
pub fn proposal_closable(state: ProposalState, expiration: i64, proposal_index: u64, group: &Group, now: i64) -> (r: Result<(), MultisigError>)
    ensures
        match closable_error(state, expiration, proposal_index, group.proposal_index_after_stale, now) {
            Some(e) => r == Err::<(), MultisigError>(e),
            None => r is Ok,
        },
{
    match state {
        ProposalState::Open => {
            if now > expiration {
                Ok(())
            } else {
                Err(MultisigError::ProposalStillActive)
            }
        },
        ProposalState::Passed => {
            if group.proposal_index_after_stale > proposal_index {
                Ok(())
            } else {
                Err(MultisigError::ProposalStillActive)
            }
        },
        _ => Ok(()),
    }
}

/// Checks that the proposer may close a configuration proposal of the group.
pub fn close_proposal_handler(group: &Group, group_key: &Key, proposal: &ConfigProposal, proposer: &Key, now: i64) -> (r: Result<(), MultisigError>)
    ensures
        proposer@ != proposal.proposer@ ==> r == Err::<(), MultisigError>(MultisigError::InvalidProposer),
        proposer@ == proposal.proposer@ && proposal.group@ != group_key@ ==> r == Err::<(), MultisigError>(MultisigError::UnexpectedGroup),
        proposer@ == proposal.proposer@ && proposal.group@ == group_key@ ==> match closable_error(
            proposal.state,
            proposal.expiration_timestamp,
            proposal.proposal_index,
            group.proposal_index_after_stale,
            now,
        ) {
            Some(e) => r == Err::<(), MultisigError>(e),
            None => r is Ok,
        },
{
    if !proposer.equals(&proposal.proposer) {
        return Err(MultisigError::InvalidProposer);
    }
    if !proposal.group.equals(group_key) {
        return Err(MultisigError::UnexpectedGroup);
    }
    proposal_closable(proposal.state, proposal.expiration_timestamp, proposal.proposal_index, group, now)
}

/// Checks that a vote record may be closed: its proposal is gone, or may be closed.
/// `proposal` is the proposal's (state, deadline, index), `None` once it is closed.
pub fn close_vote_record_checks(group: &Group, proposal: Option<(ProposalState, i64, u64)>, vote_record: &VoteRecord, voter: &Key, now: i64) -> (r: Result<(), MultisigError>)
    ensures
        vote_record.voter@ != voter@ ==> r == Err::<(), MultisigError>(MultisigError::UnauthorizedVoter),
        vote_record.voter@ == voter@ ==> match proposal {
            None => r is Ok,
            Some((state, expiration, index)) => match closable_error(state, expiration, index, group.proposal_index_after_stale, now) {
                Some(e) => r == Err::<(), MultisigError>(e),
                None => r is Ok,
            },
        },
{
    if !vote_record.voter.equals(voter) {
        return Err(MultisigError::UnauthorizedVoter);
    }
    match proposal {
        None => Ok(()),
        Some((state, expiration, index)) => proposal_closable(state, expiration, index, group, now),
    }
}

/// Checks that the voter may close its record on a bundled proposal (`None` once the proposal is closed).
pub fn close_normal_vote_record_handler(group: &Group, proposal: Option<&NormalProposal>, vote_record: &VoteRecord, voter: &Key, now: i64) -> (r: Result<(), MultisigError>)
    ensures
        vote_record.voter@ != voter@ ==> r == Err::<(), MultisigError>(MultisigError::UnauthorizedVoter),
        vote_record.voter@ == voter@ ==> match proposal {
            None => r is Ok,
            Some(p) => match closable_error(p.state, p.expiration_timestamp, p.proposal_index, group.proposal_index_after_stale, now) {
                Some(e) => r == Err::<(), MultisigError>(e),
                None => r is Ok,
            },
        },
{
    let status = match proposal {
        None => None,
        Some(p) => Some((p.state, p.expiration_timestamp, p.proposal_index)),
    };
    close_vote_record_checks(group, status, vote_record, voter, now)
}

/// Checks that the voter may close its record on a configuration proposal (`None` once the proposal is closed).
pub fn close_config_vote_record_handler(group: &Group, proposal: Option<&ConfigProposal>, vote_record: &VoteRecord, voter: &Key, now: i64) -> (r: Result<(), MultisigError>)
    ensures
        vote_record.voter@ != voter@ ==> r == Err::<(), MultisigError>(MultisigError::UnauthorizedVoter),
        vote_record.voter@ == voter@ ==> match proposal {
            None => r is Ok,
            Some(p) => match closable_error(p.state, p.expiration_timestamp, p.proposal_index, group.proposal_index_after_stale, now) {
                Some(e) => r == Err::<(), MultisigError>(e),
                None => r is Ok,
            },
        },
{
    let status = match proposal {
        None => None,
        Some(p) => Some((p.state, p.expiration_timestamp, p.proposal_index)),
    };
    close_vote_record_checks(group, status, vote_record, voter, now)
}

/// Checks that a staged transaction may be closed: its proposal is gone, or
/// may be closed, where a passed one counts as stale by the transaction's index.
pub fn close_proposal_transaction_checks(
    group: &Group,
    proposal: Option<&NormalProposal>,
    transaction: &ProposalTransaction,
    rent_collector: &Key,
    now: i64,
) -> (r: Result<(), MultisigError>)
    ensures
        rent_collector@ != group.rent_collector@ ==> r == Err::<(), MultisigError>(MultisigError::UnexpectedRentCollector),
        rent_collector@ == group.rent_collector@ ==> match proposal {
            None => r is Ok,
            Some(p) => match closable_error(p.state, p.expiration_timestamp, transaction.proposal_index, group.proposal_index_after_stale, now) {
                Some(e) => r == Err::<(), MultisigError>(e),
                None => r is Ok,
            },
        },
{
    if !rent_collector.equals(&group.rent_collector) {
        return Err(MultisigError::UnexpectedRentCollector);
    }
    match proposal {
        None => Ok(()),
        Some(p) => proposal_closable(p.state, p.expiration_timestamp, transaction.proposal_index, group, now),
    }
}

/// Checks that an asset membership whose group membership is gone may be cleaned up.
pub fn clean_up_asset_member_checks(group: &Group, group_member_closed: bool, rent_collector: &Key) -> (r: Result<(), MultisigError>)
    ensures
        rent_collector@ != group.rent_collector@ ==> r == Err::<(), MultisigError>(MultisigError::UnexpectedRentCollector),
        rent_collector@ == group.rent_collector@ && !group_member_closed ==> r == Err::<(), MultisigError>(MultisigError::GroupMemberStillActive),
        r is Ok <==> rent_collector@ == group.rent_collector@ && group_member_closed,
{
    if !rent_collector.equals(&group.rent_collector) {
        return Err(MultisigError::UnexpectedRentCollector);
    }
    if !group_member_closed {
        return Err(MultisigError::GroupMemberStillActive);
    }
    Ok(())
}

} // verus!
