use vstd::prelude::*;

use crate::asset::Asset;
use crate::error::MultisigError;
use crate::key::Key;
use crate::proposal::{compare, ProposalState};
use crate::vote::VoteChoice;

verus! {

/// The most assets that one bundled proposal may use.
pub const MAX_ASSET_USE: usize = 10;

/// How far one asset of a bundled proposal has come; it moves at most once.
#[derive(Debug, Clone, Copy, PartialEq, Eq, Structural)]
pub enum ProposalAssetThresholdState {
    NoThresholdReached,
    UseThresholdReached,
    NotUseThresholdReached,
}

/// One governed asset that a bundled proposal uses, with its own tally.
#[derive(Debug, Clone, Copy)]
pub struct ProposalAsset {
    /// Position of the asset among the accounts of the bundled instruction.
    pub index: u8,
    pub authority_bump: u8,
    pub asset: Key,
    pub use_vote_weight: u64,
    pub not_use_vote_weight: u64,
    pub vote_count: u32,
    pub threshold_state: ProposalAssetThresholdState,
}

pub open spec fn is_use(pa: ProposalAsset) -> bool {
    pa.threshold_state == ProposalAssetThresholdState::UseThresholdReached
}

pub open spec fn is_not_use(pa: ProposalAsset) -> bool {
    pa.threshold_state == ProposalAssetThresholdState::NotUseThresholdReached
}

/// How many assets have reached their use threshold.
pub open spec fn count_use(s: Seq<ProposalAsset>) -> nat
    decreases s.len(),
{
    if s.len() == 0 {
        0
    } else {
        count_use(s.drop_last()) + if is_use(s.last()) {
            1nat
        } else {
            0nat
        }
    }
}

pub open spec fn all_use(s: Seq<ProposalAsset>) -> bool {
    forall|i: int| 0 <= i < s.len() ==> #[trigger] is_use(s[i])
}

pub open spec fn any_not_use(s: Seq<ProposalAsset>) -> bool {
    exists|i: int| 0 <= i < s.len() && #[trigger] is_not_use(s[i])
}

pub proof fn lemma_count_use_update(s: Seq<ProposalAsset>, i: int, x: ProposalAsset)
    requires
        0 <= i < s.len(),
    ensures
        count_use(s.update(i, x)) + (if is_use(s[i]) { 1int } else { 0int }) == count_use(s) + (if is_use(x) { 1int } else { 0int }),
    decreases s.len(),
{
    if i == s.len() - 1 {
        assert(s.update(i, x).drop_last() =~= s.drop_last());
    } else {
        assert(s.update(i, x).drop_last() =~= s.drop_last().update(i, x));
        lemma_count_use_update(s.drop_last(), i, x);
    }
}

pub proof fn lemma_count_use_bound(s: Seq<ProposalAsset>)
    ensures
        count_use(s) <= s.len(),
        count_use(s) == s.len() <==> all_use(s),
    decreases s.len(),
{
    if s.len() > 0 {
        lemma_count_use_bound(s.drop_last());
        if all_use(s) {
            assert(is_use(s[s.len() - 1]));
            assert forall|i: int| 0 <= i < s.drop_last().len() implies #[trigger] is_use(s.drop_last()[i]) by {
                assert(is_use(s[i]));
            }
        }
        if count_use(s) == s.len() {
            assert forall|i: int| 0 <= i < s.len() implies #[trigger] is_use(s[i]) by {
                if i < s.len() - 1 {
                    assert(is_use(s.drop_last()[i]));
                }
            }
        }
    }
}

impl ProposalAsset {
    /// The tally after a ballot of `weight` for `choice` (For is use), where
    /// `previous` is the voter's standing choice; `None` where a sum overflows.
    pub open spec fn tallied(self, previous: Option<VoteChoice>, choice: VoteChoice, weight: u32) -> Option<ProposalAsset> {
        let undone = match previous {
            Some(VoteChoice::For) => ProposalAsset {
                use_vote_weight: if self.use_vote_weight >= weight { (self.use_vote_weight - weight) as u64 } else { 0 },
                ..self
            },
            Some(VoteChoice::Against) => ProposalAsset {
                not_use_vote_weight: if self.not_use_vote_weight >= weight { (self.not_use_vote_weight - weight) as u64 } else { 0 },
                ..self
            },
            None => self,
        };
        if previous == Some(choice) {
            Some(self)
        } else if previous is None && self.vote_count == u32::MAX {
            None
        } else {
            let counted = if previous is None {
                ProposalAsset { vote_count: (self.vote_count + 1) as u32, ..undone }
            } else {
                undone
            };
            match choice {
                VoteChoice::For => if counted.use_vote_weight + weight > u64::MAX {
                    None
                } else {
                    Some(ProposalAsset { use_vote_weight: (counted.use_vote_weight + weight) as u64, ..counted })
                },
                VoteChoice::Against => if counted.not_use_vote_weight + weight > u64::MAX {
                    None
                } else {
                    Some(ProposalAsset { not_use_vote_weight: (counted.not_use_vote_weight + weight) as u64, ..counted })
                },
            }
        }
    }

    /// Whether this asset reaches its use threshold now.
    pub open spec fn pass_outcome(self, a: Asset) -> Result<bool, MultisigError> {
        if self.threshold_state != ProposalAssetThresholdState::NoThresholdReached {
            Ok(false)
        } else if self.use_vote_weight + self.not_use_vote_weight > u64::MAX {
            Err(MultisigError::ArithmeticOverflow)
        } else if self.vote_count <= a.minimum_vote_count {
            Ok(false)
        } else {
            compare(a.use_threshold, self.use_vote_weight, (self.use_vote_weight + self.not_use_vote_weight) as u64)
        }
    }

    /// Whether this asset reaches its not-use threshold now.
    pub open spec fn fail_outcome(self, a: Asset) -> Result<bool, MultisigError> {
        if self.threshold_state != ProposalAssetThresholdState::NoThresholdReached {
            Ok(false)
        } else if self.use_vote_weight + self.not_use_vote_weight > u64::MAX {
            Err(MultisigError::ArithmeticOverflow)
        } else if self.vote_count <= a.minimum_vote_count {
            Ok(false)
        } else {
            compare(a.not_use_threshold, self.not_use_vote_weight, (self.use_vote_weight + self.not_use_vote_weight) as u64)
        }
    }

    pub fn new(index: u8, authority_bump: u8, asset: Key) -> (r: ProposalAsset)
        ensures
            r == (ProposalAsset {
                index,
                authority_bump,
                asset,
                use_vote_weight: 0,
                not_use_vote_weight: 0,
                vote_count: 0,
                threshold_state: ProposalAssetThresholdState::NoThresholdReached,
            }),
    {
        ProposalAsset {
            index,
            authority_bump,
            asset,
            use_vote_weight: 0,
            not_use_vote_weight: 0,
            vote_count: 0,
            threshold_state: ProposalAssetThresholdState::NoThresholdReached,
        }
    }

    pub fn get_index(&self) -> (r: u8)
        ensures
            r == self.index,
    {
        self.index
    }

    pub fn get_authority_bump(&self) -> (r: u8)
        ensures
            r == self.authority_bump,
    {
        self.authority_bump
    }

    pub fn get_asset(&self) -> (r: &Key)
        ensures
            *r == self.asset,
    {
        &self.asset
    }

    pub fn get_use_vote_weight(&self) -> (r: u64)
        ensures
            r == self.use_vote_weight,
    {
        self.use_vote_weight
    }

    pub fn get_not_use_vote_weight(&self) -> (r: u64)
        ensures
            r == self.not_use_vote_weight,
    {
        self.not_use_vote_weight
    }

    pub fn get_threshold_state(&self) -> (r: ProposalAssetThresholdState)
        ensures
            r == self.threshold_state,
    {
        self.threshold_state
    }

    pub fn get_vote_count(&self) -> (r: u32)
        ensures
            r == self.vote_count,
    {
        self.vote_count
    }

    pub fn increment_vote_count(&mut self) -> (r: Result<(), MultisigError>)
        ensures
            r is Ok <==> old(self).vote_count < u32::MAX,
            r is Ok ==> *final(self) == (ProposalAsset { vote_count: (old(self).vote_count + 1) as u32, ..*old(self) }),
            r is Err ==> *final(self) == *old(self) && r == Err::<(), MultisigError>(MultisigError::ArithmeticOverflow),
    {
        match self.vote_count.checked_add(1) {
            Some(c) => {
                self.vote_count = c;
                Ok(())
            },
            None => Err(MultisigError::ArithmeticOverflow),
        }
    }

    pub fn decrement_vote_count(&mut self)
        ensures
            *final(self) == (ProposalAsset {
                vote_count: if old(self).vote_count > 0 { (old(self).vote_count - 1) as u32 } else { 0 },
                ..*old(self)
            }),
    {
        self.vote_count = self.vote_count.saturating_sub(1);
    }

    pub fn add_use_vote_weight(&mut self, weight: u32) -> (r: Result<(), MultisigError>)
        ensures
            r is Ok <==> old(self).use_vote_weight + weight <= u64::MAX,
            r is Ok ==> *final(self) == (ProposalAsset { use_vote_weight: (old(self).use_vote_weight + weight) as u64, ..*old(self) }),
            r is Err ==> *final(self) == *old(self) && r == Err::<(), MultisigError>(MultisigError::ArithmeticOverflow),
    {
        match self.use_vote_weight.checked_add(weight as u64) {
            Some(w) => {
                self.use_vote_weight = w;
                Ok(())
            },
            None => Err(MultisigError::ArithmeticOverflow),
        }
    }

    /// Takes a withdrawn ballot's weight back; stops at zero.
    pub fn sub_use_vote_weight(&mut self, weight: u32)
        ensures
            *final(self) == (ProposalAsset {
                use_vote_weight: if old(self).use_vote_weight >= weight { (old(self).use_vote_weight - weight) as u64 } else { 0 },
                ..*old(self)
            }),
    {
        self.use_vote_weight = self.use_vote_weight.saturating_sub(weight as u64);
    }

    pub fn add_not_use_vote_weight(&mut self, weight: u32) -> (r: Result<(), MultisigError>)
        ensures
            r is Ok <==> old(self).not_use_vote_weight + weight <= u64::MAX,
            r is Ok ==> *final(self) == (ProposalAsset { not_use_vote_weight: (old(self).not_use_vote_weight + weight) as u64, ..*old(self) }),
            r is Err ==> *final(self) == *old(self) && r == Err::<(), MultisigError>(MultisigError::ArithmeticOverflow),
    {
        match self.not_use_vote_weight.checked_add(weight as u64) {
            Some(w) => {
                self.not_use_vote_weight = w;
                Ok(())
            },
            None => Err(MultisigError::ArithmeticOverflow),
        }
    }

    /// Takes a withdrawn ballot's weight back; stops at zero.
    pub fn sub_not_use_vote_weight(&mut self, weight: u32)
        ensures
            *final(self) == (ProposalAsset {
                not_use_vote_weight: if old(self).not_use_vote_weight >= weight { (old(self).not_use_vote_weight - weight) as u64 } else { 0 },
                ..*old(self)
            }),
    {
        self.not_use_vote_weight = self.not_use_vote_weight.saturating_sub(weight as u64);
    }

    /// Records a ballot on this asset; see `ConfigProposal::record_ballot`.
    pub fn record_ballot(&mut self, previous: Option<VoteChoice>, choice: VoteChoice, weight: u32) -> (r: Result<(), MultisigError>)
        ensures
            r is Ok <==> old(self).tallied(previous, choice, weight) is Some,
            r is Ok ==> Some(*final(self)) == old(self).tallied(previous, choice, weight),
            r is Err ==> *final(self) == *old(self) && r == Err::<(), MultisigError>(MultisigError::ArithmeticOverflow),
    {
        if previous == Some(choice) {
            return Ok(());
        }
        let mut p = *self;
        match previous {
            Some(VoteChoice::For) => p.sub_use_vote_weight(weight),
            Some(VoteChoice::Against) => p.sub_not_use_vote_weight(weight),
            None => p.increment_vote_count()?,
        }
        match choice {
            VoteChoice::For => p.add_use_vote_weight(weight)?,
            VoteChoice::Against => p.add_not_use_vote_weight(weight)?,
        }
        *self = p;
        Ok(())
    }

    /// Moves an undecided asset to `new_state` where that is one of the two
    /// reached states; a decided asset is refused.
    pub fn set_threshold_state(&mut self, new_state: ProposalAssetThresholdState) -> (r: Result<(), MultisigError>)
        ensures
            r is Ok <==> old(self).threshold_state == ProposalAssetThresholdState::NoThresholdReached,
            r is Ok ==> *final(self) == (ProposalAsset { threshold_state: new_state, ..*old(self) }),
            r is Err ==> *final(self) == *old(self) && r == Err::<(), MultisigError>(MultisigError::StateAlreadyFinalized),
    {
        match self.threshold_state {
            ProposalAssetThresholdState::NoThresholdReached => {
                self.threshold_state = new_state;
                Ok(())
            },
            _ => Err(MultisigError::StateAlreadyFinalized),
        }
    }
}

/// A proposal to run one bundled instruction that uses several governed
/// assets; each asset passes or vetoes on its own tally.
#[derive(Debug, Clone)]
pub struct NormalProposal {
    pub proposer: Key,
    pub proposal_seed: Key,
    pub group: Key,
    pub assets: Vec<ProposalAsset>,
    pub passed_assets_count: u8,
    pub propose_timestamp: i64,
    pub valid_from_timestamp: i64,
    pub expiration_timestamp: i64,
    pub state: ProposalState,
    pub account_bump: u8,
    pub proposal_index: u64,
    /// SHA-256 of the serialized bundled instruction.
    pub instruction_hash: [u8; 32],
}

impl NormalProposal {
    /// The bundle passes exactly when every asset reached its use threshold,
    /// and fails exactly when some asset reached its not-use threshold.
    pub open spec fn wf(&self) -> bool {
        &&& self.assets@.len() <= MAX_ASSET_USE
        &&& self.passed_assets_count == count_use(self.assets@)
        &&& (self.state == ProposalState::Passed <==> (self.assets@.len() > 0 && all_use(self.assets@)))
        &&& (self.state == ProposalState::Failed <==> any_not_use(self.assets@))
    }

    /// Everything but the assets' tallies, the passed count and the state agree.
    pub open spec fn same_header(&self, other: &NormalProposal) -> bool {
        &&& self.proposer == other.proposer
        &&& self.proposal_seed == other.proposal_seed
        &&& self.group == other.group
        &&& self.propose_timestamp == other.propose_timestamp
        &&& self.valid_from_timestamp == other.valid_from_timestamp
        &&& self.expiration_timestamp == other.expiration_timestamp
        &&& self.account_bump == other.account_bump
        &&& self.proposal_index == other.proposal_index
        &&& self.instruction_hash == other.instruction_hash
    }

    /// Opens a bundled proposal at time `now`.
    pub fn new(
        proposer: Key,
        proposal_seed: Key,
        group: Key,
        assets: Vec<ProposalAsset>,
        account_bump: u8,
        proposal_index: u64,
        instruction_hash: [u8; 32],
        timelock_offset: u32,
        expiry_offset: u32,
        now: i64,
    ) -> (r: Result<NormalProposal, MultisigError>)
        ensures
            r is Ok <==> now + timelock_offset <= i64::MAX && now + expiry_offset <= i64::MAX,
            r is Err ==> r == Err::<NormalProposal, MultisigError>(MultisigError::ArithmeticOverflow),
            r matches Ok(p) ==> {
                &&& p.proposer == proposer
                &&& p.proposal_seed == proposal_seed
                &&& p.group == group
                &&& p.assets@ == assets@
                &&& p.passed_assets_count == 0
                &&& p.propose_timestamp == now
                &&& p.valid_from_timestamp == now + timelock_offset
                &&& p.expiration_timestamp == now + expiry_offset
                &&& p.state == ProposalState::Open
                &&& p.account_bump == account_bump
                &&& p.proposal_index == proposal_index
                &&& p.instruction_hash == instruction_hash
                &&& (assets@.len() <= MAX_ASSET_USE && forall|i: int| 0 <= i < assets@.len()
                    ==> #[trigger] assets@[i].threshold_state == ProposalAssetThresholdState::NoThresholdReached)
                    ==> p.wf()
            },
    {
        let valid_from_timestamp = match now.checked_add(timelock_offset as i64) {
            Some(t) => t,
            None => return Err(MultisigError::ArithmeticOverflow),
        };
        let expiration_timestamp = match now.checked_add(expiry_offset as i64) {
            Some(t) => t,
            None => return Err(MultisigError::ArithmeticOverflow),
        };
        let p = NormalProposal {
            proposer,
            proposal_seed,
            group,
            assets,
            passed_assets_count: 0,
            propose_timestamp: now,
            valid_from_timestamp,
            expiration_timestamp,
            state: ProposalState::Open,
            account_bump,
            proposal_index,
            instruction_hash,
        };
        proof {
            if p.assets@.len() <= MAX_ASSET_USE && forall|i: int| 0 <= i < p.assets@.len()
                ==> #[trigger] p.assets@[i].threshold_state == ProposalAssetThresholdState::NoThresholdReached {
                lemma_count_use_bound(p.assets@);
                if count_use(p.assets@) > 0 {
                    lemma_count_zero(p.assets@);
                }
                if p.assets@.len() > 0 {
                    assert(!is_use(p.assets@[0]));
                }
            }
        }
        Ok(p)
    }

    pub fn get_proposer(&self) -> (r: &Key)
        ensures
            *r == self.proposer,
    {
        &self.proposer
    }

    pub fn get_proposal_seed(&self) -> (r: &Key)
        ensures
            *r == self.proposal_seed,
    {
        &self.proposal_seed
    }

    pub fn get_group(&self) -> (r: &Key)
        ensures
            *r == self.group,
    {
        &self.group
    }

    pub fn get_assets(&self) -> (r: &Vec<ProposalAsset>)
        ensures
            r@ == self.assets@,
    {
        &self.assets
    }

    pub fn get_passed_assets_count(&self) -> (r: u8)
        ensures
            r == self.passed_assets_count,
    {
        self.passed_assets_count
    }

    pub fn has_all_assets_passed(&self) -> (r: bool)
        ensures
            r == (self.passed_assets_count as int == self.assets@.len()),
    {
        self.passed_assets_count as usize == self.assets.len()
    }

    pub fn get_propose_timestamp(&self) -> (r: i64)
        ensures
            r == self.propose_timestamp,
    {
        self.propose_timestamp
    }

    pub fn get_valid_from_timestamp(&self) -> (r: i64)
        ensures
            r == self.valid_from_timestamp,
    {
        self.valid_from_timestamp
    }

    pub fn get_expiration_timestamp(&self) -> (r: i64)
        ensures
            r == self.expiration_timestamp,
    {
        self.expiration_timestamp
    }

    pub fn get_account_bump(&self) -> (r: u8)
        ensures
            r == self.account_bump,
    {
        self.account_bump
    }

    pub fn get_proposal_index(&self) -> (r: u64)
        ensures
            r == self.proposal_index,
    {
        self.proposal_index
    }

    pub fn get_instruction_hash(&self) -> (r: &[u8; 32])
        ensures
            *r == self.instruction_hash,
    {
        &self.instruction_hash
    }

    pub fn get_state(&self) -> (r: ProposalState)
        ensures
            r == self.state,
    {
        self.state
    }

    /// Moves an open proposal to `new_state`; a finished proposal stays as it is.
    pub fn set_state(&mut self, new_state: ProposalState) -> (r: Result<(), MultisigError>)
        ensures
            r is Ok <==> old(self).state == ProposalState::Open,
            final(self).state == if r is Ok { new_state } else { old(self).state },
            r is Err ==> r == Err::<(), MultisigError>(MultisigError::InvalidStateTransition),
            final(self).assets@ == old(self).assets@,
            final(self).passed_assets_count == old(self).passed_assets_count,
            final(self).same_header(old(self)),
    {
        match self.state {
            ProposalState::Open => {
                self.state = new_state;
                Ok(())
            },
            _ => Err(MultisigError::InvalidStateTransition),
        }
    }

    /// Marks asset `index` as having reached its use threshold where its
    /// quorum is met and the use weight meets the asset's use threshold; the
    /// proposal passes once every asset has. Returns whether the asset passed now.
    pub fn check_and_mark_asset_passed(&mut self, index: usize, governed_asset: &Asset) -> (r: Result<bool, MultisigError>)
        requires
            old(self).wf(),
            old(self).state == ProposalState::Open,
            index < old(self).assets@.len(),
        ensures
            r == old(self).assets@[index as int].pass_outcome(*governed_asset),
            final(self).same_header(old(self)),
            final(self).wf(),
            r == Ok::<bool, MultisigError>(true) ==> {
                &&& final(self).assets@ == old(self).assets@.update(index as int, ProposalAsset {
                    threshold_state: ProposalAssetThresholdState::UseThresholdReached,
                    ..old(self).assets@[index as int]
                })
                &&& final(self).passed_assets_count == old(self).passed_assets_count + 1
                &&& final(self).state == if final(self).passed_assets_count as int == old(self).assets@.len() {
                    ProposalState::Passed
                } else {
                    ProposalState::Open
                }
            },
            r != Ok::<bool, MultisigError>(true) ==> {
                &&& final(self).assets@ == old(self).assets@
                &&& final(self).passed_assets_count == old(self).passed_assets_count
                &&& final(self).state == old(self).state
            },
    {
        let pa = self.assets[index];
        if pa.threshold_state != ProposalAssetThresholdState::NoThresholdReached {
            return Ok(false);
        }
        let total = match pa.use_vote_weight.checked_add(pa.not_use_vote_weight) {
            Some(t) => t,
            None => return Err(MultisigError::ArithmeticOverflow),
        };
        if pa.vote_count <= governed_asset.minimum_vote_count {
            return Ok(false);
        }
        let reached = governed_asset.use_threshold.greater_than_or_equal(pa.use_vote_weight, total)?;
        if !reached {
            return Ok(false);
        }
        let marked = ProposalAsset { threshold_state: ProposalAssetThresholdState::UseThresholdReached, ..pa };
        proof {
            lemma_count_use_update(self.assets@, index as int, marked);
            lemma_count_use_bound(self.assets@);
            lemma_count_use_bound(self.assets@.update(index as int, marked));
            assert(!any_not_use(self.assets@));
            assert(!any_not_use(self.assets@.update(index as int, marked))) by {
                if any_not_use(self.assets@.update(index as int, marked)) {
                    let j = choose|j: int| 0 <= j < self.assets@.len() && #[trigger] is_not_use(self.assets@.update(index as int, marked)[j]);
                    assert(is_not_use(self.assets@[j]));
                }
            }
        }
        self.assets.set(index, marked);
        self.passed_assets_count = self.passed_assets_count + 1;
        if self.has_all_assets_passed() {
            self.state = ProposalState::Passed;
        }
        Ok(true)
    }

    /// Marks asset `index` as having reached its not-use threshold where its
    /// quorum is met and the not-use weight meets the asset's not-use
    /// threshold; one such asset fails the whole proposal. Returns whether the
    /// asset failed now.
    pub fn check_and_mark_asset_failed(&mut self, index: usize, governed_asset: &Asset) -> (r: Result<bool, MultisigError>)
        requires
            old(self).wf(),
            old(self).state == ProposalState::Open,
            index < old(self).assets@.len(),
        ensures
            r == old(self).assets@[index as int].fail_outcome(*governed_asset),
            final(self).same_header(old(self)),
            final(self).wf(),
            r == Ok::<bool, MultisigError>(true) ==> {
                &&& final(self).assets@ == old(self).assets@.update(index as int, ProposalAsset {
                    threshold_state: ProposalAssetThresholdState::NotUseThresholdReached,
                    ..old(self).assets@[index as int]
                })
                &&& final(self).passed_assets_count == old(self).passed_assets_count
                &&& final(self).state == ProposalState::Failed
            },
            r != Ok::<bool, MultisigError>(true) ==> {
                &&& final(self).assets@ == old(self).assets@
                &&& final(self).passed_assets_count == old(self).passed_assets_count
                &&& final(self).state == old(self).state
            },
    {
        let pa = self.assets[index];
        if pa.threshold_state != ProposalAssetThresholdState::NoThresholdReached {
            return Ok(false);
        }
        let total = match pa.use_vote_weight.checked_add(pa.not_use_vote_weight) {
            Some(t) => t,
            None => return Err(MultisigError::ArithmeticOverflow),
        };
        if pa.vote_count <= governed_asset.minimum_vote_count {
            return Ok(false);
        }
        let reached = governed_asset.not_use_threshold.greater_than_or_equal(pa.not_use_vote_weight, total)?;
        if !reached {
            return Ok(false);
        }
        let marked = ProposalAsset { threshold_state: ProposalAssetThresholdState::NotUseThresholdReached, ..pa };
        proof {
            lemma_count_use_update(self.assets@, index as int, marked);
            let s2 = self.assets@.update(index as int, marked);
            assert(is_not_use(s2[index as int]));
            assert(!all_use(s2)) by {
                assert(!is_use(s2[index as int]));
            }
        }
        self.assets.set(index, marked);
        self.state = ProposalState::Failed;
        Ok(true)
    }
}

/// A sequence in which no asset passed counts none.
proof fn lemma_count_zero(s: Seq<ProposalAsset>)
    requires
        forall|i: int| 0 <= i < s.len() ==> #[trigger] s[i].threshold_state == ProposalAssetThresholdState::NoThresholdReached,
    ensures
        count_use(s) == 0,
    decreases s.len(),
{
    if s.len() > 0 {
        assert(s.last().threshold_state == ProposalAssetThresholdState::NoThresholdReached);
        assert forall|i: int| 0 <= i < s.drop_last().len() implies #[trigger] s.drop_last()[i].threshold_state
            == ProposalAssetThresholdState::NoThresholdReached by {
            assert(s[i].threshold_state == ProposalAssetThresholdState::NoThresholdReached);
        }
        lemma_count_zero(s.drop_last());
    }
}

} // verus!
