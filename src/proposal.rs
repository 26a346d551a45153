use vstd::prelude::*;

use crate::asset::Asset;
use crate::error::MultisigError;
use crate::group::Group;
use crate::key::Key;
use crate::threshold::FractionalThreshold;
use crate::vote::VoteChoice;

verus! {

#[derive(Debug, Clone, Copy, PartialEq, Eq, Structural)]
pub enum ProposalState {
    /// Voting is open.
    Open,
    /// The proposal reached its passing threshold.
    Passed,
    /// The proposal reached its failing threshold.
    Failed,
    /// The voting window closed first.
    Expired,
}

/// What a configuration proposal governs: the group itself or one asset.
#[derive(Debug, Clone, Copy)]
pub enum ProposalTarget {
    Group,
    Asset(Key),
}

/// The setting that a configuration change replaces.
#[derive(Debug, Clone, Copy)]
pub enum ConfigType {
    AddMember(FractionalThreshold),
    NotAddMember(FractionalThreshold),
    RemoveMember(FractionalThreshold),
    NotRemoveMember(FractionalThreshold),
    Use(FractionalThreshold),
    NotUse(FractionalThreshold),
    MinimumMemberCount(u32),
    MinimumVoteCount(u32),
    ChangeConfig(FractionalThreshold),
    NotChangeConfig(FractionalThreshold),
}

/// The payload of a configuration proposal.
#[derive(Debug, Clone, Copy)]
pub enum ConfigChange {
    AddGroupMember { member: Key, weight: u32, permissions: u8 },
    RemoveGroupMember { member: Key },
    AddAssetMember { member: Key, weight: u32, permissions: u8, asset_address: Key },
    RemoveAssetMember { member: Key, asset_address: Key },
    ChangeGroupConfig { config_type: ConfigType },
    ChangeAssetConfig { asset: Key, config_type: ConfigType },
}

impl ConfigChange {
    pub open spec fn spec_is_asset_change(self) -> bool {
        ||| self is AddAssetMember
        ||| self is RemoveAssetMember
        ||| self is ChangeAssetConfig
    }

    pub fn is_asset_change(&self) -> (r: bool)
        ensures
            r == self.spec_is_asset_change(),
    {
        match self {
            ConfigChange::AddAssetMember { .. } => true,
            ConfigChange::RemoveAssetMember { .. } => true,
            ConfigChange::ChangeAssetConfig { .. } => true,
            _ => false,
        }
    }

    pub fn is_group_change(&self) -> (r: bool)
        ensures
            r == !self.spec_is_asset_change(),
    {
        !self.is_asset_change()
    }
}

/// The (passing, failing) thresholds of the group that decide `change`, if
/// `change` is a group change.
pub open spec fn group_rule(change: ConfigChange, g: Group) -> Option<(FractionalThreshold, FractionalThreshold)> {
    match change {
        ConfigChange::AddGroupMember { .. } => Some((g.add_threshold, g.not_add_threshold)),
        ConfigChange::RemoveGroupMember { .. } => Some((g.remove_threshold, g.not_remove_threshold)),
        ConfigChange::ChangeGroupConfig { .. } => Some((g.change_config_threshold, g.not_change_config_threshold)),
        _ => None,
    }
}

/// The (passing, failing) thresholds of the asset that decide `change`, if
/// `change` is an asset change.
pub open spec fn asset_rule(change: ConfigChange, a: Asset) -> Option<(FractionalThreshold, FractionalThreshold)> {
    match change {
        ConfigChange::AddAssetMember { .. } => Some((a.add_threshold, a.not_add_threshold)),
        ConfigChange::RemoveAssetMember { .. } => Some((a.remove_threshold, a.not_remove_threshold)),
        ConfigChange::ChangeAssetConfig { .. } => Some((a.change_config_threshold, a.not_change_config_threshold)),
        _ => None,
    }
}

fn group_rule_exec(change: &ConfigChange, g: &Group) -> (r: Option<(FractionalThreshold, FractionalThreshold)>)
    ensures
        r == group_rule(*change, *g),
{
    match change {
        ConfigChange::AddGroupMember { .. } => Some((g.add_threshold, g.not_add_threshold)),
        ConfigChange::RemoveGroupMember { .. } => Some((g.remove_threshold, g.not_remove_threshold)),
        ConfigChange::ChangeGroupConfig { .. } => Some((g.change_config_threshold, g.not_change_config_threshold)),
        _ => None,
    }
}

fn asset_rule_exec(change: &ConfigChange, a: &Asset) -> (r: Option<(FractionalThreshold, FractionalThreshold)>)
    ensures
        r == asset_rule(*change, *a),
{
    match change {
        ConfigChange::AddAssetMember { .. } => Some((a.add_threshold, a.not_add_threshold)),
        ConfigChange::RemoveAssetMember { .. } => Some((a.remove_threshold, a.not_remove_threshold)),
        ConfigChange::ChangeAssetConfig { .. } => Some((a.change_config_threshold, a.not_change_config_threshold)),
        _ => None,
    }
}

/// Compares `n / d` against `t`: `Err` where 64 bits do not suffice.
pub open spec fn compare(t: FractionalThreshold, n: u64, d: u64) -> Result<bool, MultisigError> {
    if t.compare_fails(n, d) {
        Err(MultisigError::ArithmeticOverflow)
    } else {
        Ok(t.met_by(n as int, d as int))
    }
}

/// A proposal to change the configuration or membership of a group or asset,
/// decided by one weighted tally.
#[derive(Debug, Clone, Copy)]
pub struct ConfigProposal {
    pub group: Key,
    pub proposer: Key,
    pub proposal_seed: Key,
    pub target: ProposalTarget,
    pub propose_timestamp: i64,
    pub valid_from_timestamp: i64,
    pub expiration_timestamp: i64,
    pub proposal_index: u64,
    pub state: ProposalState,
    pub vote_count: u32,
    pub for_weight: u64,
    pub against_weight: u64,
    pub config_change: ConfigChange,
    pub account_bump: u8,
}

impl ConfigProposal {
    /// The quorum floor and (passing, failing) thresholds that decide this
    /// proposal, given the group and the asset at hand.
    pub open spec fn rule(self, g: Option<Group>, a: Option<Asset>) -> Result<
        (u32, Option<(FractionalThreshold, FractionalThreshold)>),
        MultisigError,
    > {
        match self.target {
            ProposalTarget::Group => match g {
                None => Err(MultisigError::GroupNotProvided),
                Some(g) => Ok((g.minimum_vote_count, group_rule(self.config_change, g))),
            },
            ProposalTarget::Asset(_) => match a {
                None => Err(MultisigError::AssetNotProvided),
                Some(a) => Ok((a.minimum_vote_count, asset_rule(self.config_change, a))),
            },
        }
    }

    /// What the check for passing finds: `Ok(true)` where the proposal passes now.
    pub open spec fn pass_outcome(self, g: Option<Group>, a: Option<Asset>) -> Result<bool, MultisigError> {
        match self.rule(g, a) {
            Err(e) => Err(e),
            Ok((floor, rule)) => if self.vote_count <= floor {
                Ok(false)
            } else if self.for_weight + self.against_weight > u64::MAX {
                Err(MultisigError::ArithmeticOverflow)
            } else {
                match rule {
                    None => Err(MultisigError::UnexpectedConfigChange),
                    Some((pass, _)) => match compare(pass, self.for_weight, (self.for_weight + self.against_weight) as u64) {
                        Err(e) => Err(e),
                        Ok(false) => Ok(false),
                        Ok(true) => if self.state == ProposalState::Open {
                            Ok(true)
                        } else {
                            Err(MultisigError::InvalidStateTransition)
                        },
                    },
                }
            },
        }
    }

    /// What the check for failing finds: `Ok(true)` where the proposal fails now.
    pub open spec fn fail_outcome(self, g: Option<Group>, a: Option<Asset>) -> Result<bool, MultisigError> {
        if self.state != ProposalState::Open {
            Ok(false)
        } else {
            match self.rule(g, a) {
                Err(e) => Err(e),
                Ok((floor, rule)) => if self.vote_count <= floor {
                    Ok(false)
                } else if self.for_weight + self.against_weight > u64::MAX {
                    Err(MultisigError::ArithmeticOverflow)
                } else {
                    match rule {
                        None => Err(MultisigError::UnexpectedConfigChange),
                        Some((_, fail)) => compare(fail, self.against_weight, (self.for_weight + self.against_weight) as u64),
                    }
                },
            }
        }
    }

    /// The tally after a ballot of `weight` for `choice`, where `previous` is
    /// the voter's standing choice, if any; `None` where a sum leaves 64 bits.
    pub open spec fn tallied(self, previous: Option<VoteChoice>, choice: VoteChoice, weight: u32) -> Option<ConfigProposal> {
        let undone = match previous {
            Some(VoteChoice::For) => ConfigProposal {
                for_weight: if self.for_weight >= weight { (self.for_weight - weight) as u64 } else { 0 },
                ..self
            },
            Some(VoteChoice::Against) => ConfigProposal {
                against_weight: if self.against_weight >= weight { (self.against_weight - weight) as u64 } else { 0 },
                ..self
            },
            None => self,
        };
        if previous == Some(choice) {
            Some(self)
        } else if previous is None && self.vote_count == u32::MAX {
            None
        } else {
            let counted = if previous is None {
                ConfigProposal { vote_count: (self.vote_count + 1) as u32, ..undone }
            } else {
                undone
            };
            match choice {
                VoteChoice::For => if counted.for_weight + weight > u64::MAX {
                    None
                } else {
                    Some(ConfigProposal { for_weight: (counted.for_weight + weight) as u64, ..counted })
                },
                VoteChoice::Against => if counted.against_weight + weight > u64::MAX {
                    None
                } else {
                    Some(ConfigProposal { against_weight: (counted.against_weight + weight) as u64, ..counted })
                },
            }
        }
    }

    /// The proposal after the threshold check that a ballot for `choice` runs.
    pub open spec fn settled(self, choice: VoteChoice, g: Option<Group>, a: Option<Asset>) -> Result<ConfigProposal, MultisigError> {
        match choice {
            VoteChoice::For => match self.pass_outcome(g, a) {
                Err(e) => Err(e),
                Ok(true) => Ok(ConfigProposal { state: ProposalState::Passed, ..self }),
                Ok(false) => Ok(self),
            },
            VoteChoice::Against => match self.fail_outcome(g, a) {
                Err(e) => Err(e),
                Ok(true) => Ok(ConfigProposal { state: ProposalState::Failed, ..self }),
                Ok(false) => Ok(self),
            },
        }
    }

    /// Opens a proposal at time `now`; its timelock and deadline are offsets from it.
    pub fn new(
        proposer: Key,
        proposal_seed: Key,
        group: Key,
        account_bump: u8,
        proposal_index: u64,
        timelock_offset: u32,
        expiry_offset: u32,
        target: ProposalTarget,
        config_change: ConfigChange,
        now: i64,
    ) -> (r: Result<ConfigProposal, MultisigError>)
        ensures
            r is Ok <==> now + timelock_offset <= i64::MAX && now + expiry_offset <= i64::MAX,
            r is Err ==> r == Err::<ConfigProposal, MultisigError>(MultisigError::ArithmeticOverflow),
            r matches Ok(p) ==> p == (ConfigProposal {
                group,
                proposer,
                proposal_seed,
                target,
                propose_timestamp: now,
                valid_from_timestamp: (now + timelock_offset) as i64,
                expiration_timestamp: (now + expiry_offset) as i64,
                proposal_index,
                state: ProposalState::Open,
                vote_count: 0,
                for_weight: 0,
                against_weight: 0,
                config_change,
                account_bump,
            }),
    {
        let valid_from_timestamp = match now.checked_add(timelock_offset as i64) {
            Some(t) => t,
            None => return Err(MultisigError::ArithmeticOverflow),
        };
        let expiration_timestamp = match now.checked_add(expiry_offset as i64) {
            Some(t) => t,
            None => return Err(MultisigError::ArithmeticOverflow),
        };
        Ok(
            ConfigProposal {
                group,
                proposer,
                proposal_seed,
                target,
                propose_timestamp: now,
                valid_from_timestamp,
                expiration_timestamp,
                proposal_index,
                state: ProposalState::Open,
                vote_count: 0,
                for_weight: 0,
                against_weight: 0,
                config_change,
                account_bump,
            },
        )
    }

    pub fn get_group(&self) -> (r: &Key)
        ensures
            *r == self.group,
    {
        &self.group
    }

    pub fn get_proposer(&self) -> (r: &Key)
        ensures
            *r == self.proposer,
    {
        &self.proposer
    }

    pub fn get_proposal_seed(&self) -> (r: &Key)
        ensures
            *r == self.proposal_seed,
    {
        &self.proposal_seed
    }

    pub fn get_target(&self) -> (r: &ProposalTarget)
        ensures
            *r == self.target,
    {
        &self.target
    }

    pub fn get_propose_timestamp(&self) -> (r: i64)
        ensures
            r == self.propose_timestamp,
    {
        self.propose_timestamp
    }

    pub fn get_valid_from_timestamp(&self) -> (r: i64)
        ensures
            r == self.valid_from_timestamp,
    {
        self.valid_from_timestamp
    }

    pub fn get_expiration_timestamp(&self) -> (r: i64)
        ensures
            r == self.expiration_timestamp,
    {
        self.expiration_timestamp
    }

    pub fn get_proposal_index(&self) -> (r: u64)
        ensures
            r == self.proposal_index,
    {
        self.proposal_index
    }

    pub fn get_state(&self) -> (r: ProposalState)
        ensures
            r == self.state,
    {
        self.state
    }

    pub fn get_vote_count(&self) -> (r: u32)
        ensures
            r == self.vote_count,
    {
        self.vote_count
    }

    pub fn get_for_weight(&self) -> (r: u64)
        ensures
            r == self.for_weight,
    {
        self.for_weight
    }

    pub fn get_against_weight(&self) -> (r: u64)
        ensures
            r == self.against_weight,
    {
        self.against_weight
    }

    pub fn get_config_change(&self) -> (r: &ConfigChange)
        ensures
            *r == self.config_change,
    {
        &self.config_change
    }

    pub fn get_account_bump(&self) -> (r: u8)
        ensures
            r == self.account_bump,
    {
        self.account_bump
    }

    pub fn add_weight_for(&mut self, weight: u32) -> (r: Result<(), MultisigError>)
        ensures
            r is Ok <==> old(self).for_weight + weight <= u64::MAX,
            r is Ok ==> *final(self) == (ConfigProposal { for_weight: (old(self).for_weight + weight) as u64, ..*old(self) }),
            r is Err ==> *final(self) == *old(self) && r == Err::<(), MultisigError>(MultisigError::ArithmeticOverflow),
    {
        match self.for_weight.checked_add(weight as u64) {
            Some(w) => {
                self.for_weight = w;
                Ok(())
            },
            None => Err(MultisigError::ArithmeticOverflow),
        }
    }

    /// Takes a withdrawn ballot's weight back; stops at zero.
    pub fn sub_weight_for(&mut self, weight: u32)
        ensures
            *final(self) == (ConfigProposal {
                for_weight: if old(self).for_weight >= weight { (old(self).for_weight - weight) as u64 } else { 0 },
                ..*old(self)
            }),
    {
        self.for_weight = self.for_weight.saturating_sub(weight as u64);
    }

    pub fn add_weight_against(&mut self, weight: u32) -> (r: Result<(), MultisigError>)
        ensures
            r is Ok <==> old(self).against_weight + weight <= u64::MAX,
            r is Ok ==> *final(self) == (ConfigProposal { against_weight: (old(self).against_weight + weight) as u64, ..*old(self) }),
            r is Err ==> *final(self) == *old(self) && r == Err::<(), MultisigError>(MultisigError::ArithmeticOverflow),
    {
        match self.against_weight.checked_add(weight as u64) {
            Some(w) => {
                self.against_weight = w;
                Ok(())
            },
            None => Err(MultisigError::ArithmeticOverflow),
        }
    }

    /// Takes a withdrawn ballot's weight back; stops at zero.
    pub fn sub_weight_against(&mut self, weight: u32)
        ensures
            *final(self) == (ConfigProposal {
                against_weight: if old(self).against_weight >= weight { (old(self).against_weight - weight) as u64 } else { 0 },
                ..*old(self)
            }),
    {
        self.against_weight = self.against_weight.saturating_sub(weight as u64);
    }

    /// Moves an open proposal to `new_state`; a finished proposal stays as it is.
    pub fn set_state(&mut self, new_state: ProposalState) -> (r: Result<(), MultisigError>)
        ensures
            r is Ok <==> old(self).state == ProposalState::Open,
            r is Ok ==> *final(self) == (ConfigProposal { state: new_state, ..*old(self) }),
            r is Err ==> *final(self) == *old(self) && r == Err::<(), MultisigError>(MultisigError::InvalidStateTransition),
    {
        match self.state {
            ProposalState::Open => {
                self.state = new_state;
                Ok(())
            },
            _ => Err(MultisigError::InvalidStateTransition),
        }
    }

    /// Records a ballot of `weight` for `choice`. `previous` is the voter's
    /// standing choice: its weight is withdrawn first. A first ballot counts
    /// one more voter; repeating the standing choice changes nothing.
    pub fn record_ballot(&mut self, previous: Option<VoteChoice>, choice: VoteChoice, weight: u32) -> (r: Result<(), MultisigError>)
        ensures
            r is Ok <==> old(self).tallied(previous, choice, weight) is Some,
            r is Ok ==> Some(*final(self)) == old(self).tallied(previous, choice, weight),
            r is Err ==> *final(self) == *old(self) && r == Err::<(), MultisigError>(MultisigError::ArithmeticOverflow),
    {
        if previous == Some(choice) {
            return Ok(());
        }
        let mut p = *self;
        match previous {
            Some(VoteChoice::For) => p.sub_weight_for(weight),
            Some(VoteChoice::Against) => p.sub_weight_against(weight),
            None => {
                p.vote_count = match p.vote_count.checked_add(1) {
                    Some(c) => c,
                    None => return Err(MultisigError::ArithmeticOverflow),
                };
            },
        }
        match choice {
            VoteChoice::For => p.add_weight_for(weight)?,
            VoteChoice::Against => p.add_weight_against(weight)?,
        }
        *self = p;
        Ok(())
    }

    fn rule_exec(&self, g: Option<&Group>, a: Option<&Asset>) -> (r: Result<
        (u32, Option<(FractionalThreshold, FractionalThreshold)>),
        MultisigError,
    >)
        ensures
            r == self.rule(
                match g { Some(g) => Some(*g), None => None },
                match a { Some(a) => Some(*a), None => None },
            ),
    {
        match self.target {
            ProposalTarget::Group => match g {
                None => Err(MultisigError::GroupNotProvided),
                Some(g) => Ok((g.minimum_vote_count, group_rule_exec(&self.config_change, g))),
            },
            ProposalTarget::Asset(_) => match a {
                None => Err(MultisigError::AssetNotProvided),
                Some(a) => Ok((a.minimum_vote_count, asset_rule_exec(&self.config_change, a))),
            },
        }
    }

    /// Marks the proposal Passed where the quorum is met and the for-weight
    /// meets the passing threshold; returns whether it passed now.
    pub fn check_and_mark_passed(&mut self, maybe_group: Option<&Group>, maybe_asset: Option<&Asset>) -> (r: Result<bool, MultisigError>)
        ensures
            ({
                let g = match maybe_group { Some(g) => Some(*g), None => None };
                let a = match maybe_asset { Some(a) => Some(*a), None => None };
                &&& r == old(self).pass_outcome(g, a)
                &&& r == Ok::<bool, MultisigError>(true) ==> *final(self) == (ConfigProposal { state: ProposalState::Passed, ..*old(self) })
                &&& r != Ok::<bool, MultisigError>(true) ==> *final(self) == *old(self)
            }),
    {
        let (floor, rule) = self.rule_exec(maybe_group, maybe_asset)?;
        if self.vote_count <= floor {
            return Ok(false);
        }
        let total = match self.for_weight.checked_add(self.against_weight) {
            Some(t) => t,
            None => return Err(MultisigError::ArithmeticOverflow),
        };
        let (pass, _) = match rule {
            Some(r) => r,
            None => return Err(MultisigError::UnexpectedConfigChange),
        };
        let reached = pass.greater_than_or_equal(self.for_weight, total)?;
        if reached {
            self.set_state(ProposalState::Passed)?;
        }
        Ok(reached)
    }

    /// Marks an open proposal Failed where the quorum is met and the
    /// against-weight meets the failing threshold; returns whether it failed now.
    pub fn check_and_mark_failed(&mut self, maybe_group: Option<&Group>, maybe_asset: Option<&Asset>) -> (r: Result<bool, MultisigError>)
        ensures
            ({
                let g = match maybe_group { Some(g) => Some(*g), None => None };
                let a = match maybe_asset { Some(a) => Some(*a), None => None };
                &&& r == old(self).fail_outcome(g, a)
                &&& r == Ok::<bool, MultisigError>(true) ==> *final(self) == (ConfigProposal { state: ProposalState::Failed, ..*old(self) })
                &&& r != Ok::<bool, MultisigError>(true) ==> *final(self) == *old(self)
            }),
    {
        if self.state != ProposalState::Open {
            return Ok(false);
        }
        let (floor, rule) = self.rule_exec(maybe_group, maybe_asset)?;
        if self.vote_count <= floor {
            return Ok(false);
        }
        let total = match self.for_weight.checked_add(self.against_weight) {
            Some(t) => t,
            None => return Err(MultisigError::ArithmeticOverflow),
        };
        let (_, fail) = match rule {
            Some(r) => r,
            None => return Err(MultisigError::UnexpectedConfigChange),
        };
        let reached = fail.greater_than_or_equal(self.against_weight, total)?;
        if reached {
            self.state = ProposalState::Failed;
        }
        Ok(reached)
    }
}

} // verus!
