use vstd::prelude::*;

use crate::error::MultisigError;
use crate::key::Key;
use crate::threshold::FractionalThreshold;

verus! {

/// The top-level governed entity: its thresholds, its member counts and the
/// two counters that order proposals against configuration changes.
#[derive(Debug, Clone, Copy)]
pub struct Group {
    pub group_seed: Key,
    pub rent_collector: Key,
    pub add_threshold: FractionalThreshold,
    pub not_add_threshold: FractionalThreshold,
    pub remove_threshold: FractionalThreshold,
    pub not_remove_threshold: FractionalThreshold,
    pub change_config_threshold: FractionalThreshold,
    pub not_change_config_threshold: FractionalThreshold,
    pub minimum_member_count: u32,
    pub minimum_vote_count: u32,
    pub max_member_weight: u32,
    /// Index that the next proposal of this group receives.
    pub next_proposal_index: u64,
    /// Proposals with a lower index were made under an outdated configuration.
    pub proposal_index_after_stale: u64,
    pub member_count: u32,
    pub default_timelock_offset: u32,
    pub default_expiry_offset: u32,
    pub account_bump: u8,
}

impl Group {
    /// The member counts that every group keeps.
    pub open spec fn counts_ok(member_count: u32, minimum_vote_count: u32, minimum_member_count: u32) -> bool {
        &&& member_count > minimum_vote_count
        &&& member_count >= minimum_member_count
    }

    pub open spec fn wf(self) -> bool {
        &&& self.add_threshold.valid()
        &&& self.not_add_threshold.valid()
        &&& self.remove_threshold.valid()
        &&& self.not_remove_threshold.valid()
        &&& self.change_config_threshold.valid()
        &&& self.not_change_config_threshold.valid()
        &&& Self::counts_ok(self.member_count, self.minimum_vote_count, self.minimum_member_count)
        &&& self.proposal_index_after_stale <= self.next_proposal_index
    }

    /// Validates the six thresholds, then the member counts.
    pub fn new(
        group_seed: Key,
        rent_collector: Key,
        add_threshold: FractionalThreshold,
        not_add_threshold: FractionalThreshold,
        remove_threshold: FractionalThreshold,
        not_remove_threshold: FractionalThreshold,
        change_config_threshold: FractionalThreshold,
        not_change_config_threshold: FractionalThreshold,
        minimum_member_count: u32,
        minimum_vote_count: u32,
        max_member_weight: u32,
        member_count: u32,
        default_timelock_offset: u32,
        default_expiry_offset: u32,
        account_bump: u8,
    ) -> (r: Result<Group, MultisigError>)
        ensures
            !(add_threshold.valid() && not_add_threshold.valid() && remove_threshold.valid()
                && not_remove_threshold.valid() && change_config_threshold.valid()
                && not_change_config_threshold.valid()) ==> r == Err::<Group, MultisigError>(
                MultisigError::InvalidThreshold,
            ),
            (add_threshold.valid() && not_add_threshold.valid() && remove_threshold.valid()
                && not_remove_threshold.valid() && change_config_threshold.valid()
                && not_change_config_threshold.valid() && !Self::counts_ok(
                member_count,
                minimum_vote_count,
                minimum_member_count,
            )) ==> r == Err::<Group, MultisigError>(MultisigError::InvalidMemberCount),
            r matches Ok(g) ==> g.wf() && g == (Group {
                group_seed,
                rent_collector,
                add_threshold,
                not_add_threshold,
                remove_threshold,
                not_remove_threshold,
                change_config_threshold,
                not_change_config_threshold,
                minimum_member_count,
                minimum_vote_count,
                max_member_weight,
                next_proposal_index: 0,
                proposal_index_after_stale: 0,
                member_count,
                default_timelock_offset,
                default_expiry_offset,
                account_bump,
            }),
            r is Ok <==> (add_threshold.valid() && not_add_threshold.valid() && remove_threshold.valid()
                && not_remove_threshold.valid() && change_config_threshold.valid()
                && not_change_config_threshold.valid() && Self::counts_ok(
                member_count,
                minimum_vote_count,
                minimum_member_count,
            )),
    {
        add_threshold.is_valid()?;
        remove_threshold.is_valid()?;
        change_config_threshold.is_valid()?;
        not_add_threshold.is_valid()?;
        not_remove_threshold.is_valid()?;
        not_change_config_threshold.is_valid()?;
        if member_count == 0 || member_count <= minimum_vote_count || member_count
            < minimum_member_count {
            return Err(MultisigError::InvalidMemberCount);
        }
        Ok(
            Group {
                group_seed,
                rent_collector,
                add_threshold,
                not_add_threshold,
                remove_threshold,
                not_remove_threshold,
                change_config_threshold,
                not_change_config_threshold,
                minimum_member_count,
                minimum_vote_count,
                max_member_weight,
                next_proposal_index: 0,
                proposal_index_after_stale: 0,
                member_count,
                default_timelock_offset,
                default_expiry_offset,
                account_bump,
            },
        )
    }

    pub fn get_group_seed(&self) -> (r: &Key)
        ensures
            *r == self.group_seed,
    {
        &self.group_seed
    }

    pub fn get_rent_collector(&self) -> (r: &Key)
        ensures
            *r == self.rent_collector,
    {
        &self.rent_collector
    }

    pub fn set_rent_collector(&mut self, rent_collector: Key)
        ensures
            *final(self) == (Group { rent_collector, ..*old(self) }),
    {
        self.rent_collector = rent_collector;
    }

    pub fn get_account_bump(&self) -> (r: u8)
        ensures
            r == self.account_bump,
    {
        self.account_bump
    }

    pub fn get_add_threshold(&self) -> (r: FractionalThreshold)
        ensures
            r == self.add_threshold,
    {
        self.add_threshold
    }

    pub fn set_add_threshold(&mut self, threshold: FractionalThreshold) -> (r: Result<(), MultisigError>)
        ensures
            r is Ok <==> threshold.valid(),
            r is Ok ==> *final(self) == (Group { add_threshold: threshold, ..*old(self) }),
            r is Err ==> *final(self) == *old(self) && r == Err::<(), MultisigError>(
                MultisigError::InvalidThreshold,
            ),
    {
        threshold.is_valid()?;
        self.add_threshold = threshold;
        Ok(())
    }

    pub fn get_not_add_threshold(&self) -> (r: FractionalThreshold)
        ensures
            r == self.not_add_threshold,
    {
        self.not_add_threshold
    }

    pub fn set_not_add_threshold(&mut self, threshold: FractionalThreshold) -> (r: Result<(), MultisigError>)
        ensures
            r is Ok <==> threshold.valid(),
            r is Ok ==> *final(self) == (Group { not_add_threshold: threshold, ..*old(self) }),
            r is Err ==> *final(self) == *old(self) && r == Err::<(), MultisigError>(
                MultisigError::InvalidThreshold,
            ),
    {
        threshold.is_valid()?;
        self.not_add_threshold = threshold;
        Ok(())
    }

    pub fn get_remove_threshold(&self) -> (r: FractionalThreshold)
        ensures
            r == self.remove_threshold,
    {
        self.remove_threshold
    }

    pub fn set_remove_threshold(&mut self, threshold: FractionalThreshold) -> (r: Result<(), MultisigError>)
        ensures
            r is Ok <==> threshold.valid(),
            r is Ok ==> *final(self) == (Group { remove_threshold: threshold, ..*old(self) }),
            r is Err ==> *final(self) == *old(self) && r == Err::<(), MultisigError>(
                MultisigError::InvalidThreshold,
            ),
    {
        threshold.is_valid()?;
        self.remove_threshold = threshold;
        Ok(())
    }

    pub fn get_not_remove_threshold(&self) -> (r: FractionalThreshold)
        ensures
            r == self.not_remove_threshold,
    {
        self.not_remove_threshold
    }

    pub fn set_not_remove_threshold(&mut self, threshold: FractionalThreshold) -> (r: Result<(), MultisigError>)
        ensures
            r is Ok <==> threshold.valid(),
            r is Ok ==> *final(self) == (Group { not_remove_threshold: threshold, ..*old(self) }),
            r is Err ==> *final(self) == *old(self) && r == Err::<(), MultisigError>(
                MultisigError::InvalidThreshold,
            ),
    {
        threshold.is_valid()?;
        self.not_remove_threshold = threshold;
        Ok(())
    }

    pub fn get_change_config_threshold(&self) -> (r: FractionalThreshold)
        ensures
            r == self.change_config_threshold,
    {
        self.change_config_threshold
    }

    pub fn set_change_config_threshold(&mut self, threshold: FractionalThreshold) -> (r: Result<(), MultisigError>)
        ensures
            r is Ok <==> threshold.valid(),
            r is Ok ==> *final(self) == (Group { change_config_threshold: threshold, ..*old(self) }),
            r is Err ==> *final(self) == *old(self) && r == Err::<(), MultisigError>(
                MultisigError::InvalidThreshold,
            ),
    {
        threshold.is_valid()?;
        self.change_config_threshold = threshold;
        Ok(())
    }

    pub fn get_not_change_config_threshold(&self) -> (r: FractionalThreshold)
        ensures
            r == self.not_change_config_threshold,
    {
        self.not_change_config_threshold
    }

    pub fn set_not_change_config_threshold(&mut self, threshold: FractionalThreshold) -> (r: Result<(), MultisigError>)
        ensures
            r is Ok <==> threshold.valid(),
            r is Ok ==> *final(self) == (Group { not_change_config_threshold: threshold, ..*old(self) }),
            r is Err ==> *final(self) == *old(self) && r == Err::<(), MultisigError>(
                MultisigError::InvalidThreshold,
            ),
    {
        threshold.is_valid()?;
        self.not_change_config_threshold = threshold;
        Ok(())
    }

    pub fn increment_member_count(&mut self) -> (r: Result<(), MultisigError>)
        ensures
            r is Ok <==> old(self).member_count < u32::MAX,
            r is Ok ==> *final(self) == (Group { member_count: (old(self).member_count + 1) as u32, ..*old(self) }),
            r is Err ==> *final(self) == *old(self) && r == Err::<(), MultisigError>(
                MultisigError::TooManyMembers,
            ),
    {
        match self.member_count.checked_add(1) {
            Some(c) => {
                self.member_count = c;
                Ok(())
            },
            None => Err(MultisigError::TooManyMembers),
        }
    }

    /// Refuses to go below the vote floor plus one or below the member floor.
    pub fn decrement_member_count(&mut self) -> (r: Result<(), MultisigError>)
        ensures
            r is Ok <==> old(self).member_count > 0 && Self::counts_ok(
                (old(self).member_count - 1) as u32,
                old(self).minimum_vote_count,
                old(self).minimum_member_count,
            ),
            r is Ok ==> *final(self) == (Group { member_count: (old(self).member_count - 1) as u32, ..*old(self) }),
            r is Err ==> *final(self) == *old(self) && r == Err::<(), MultisigError>(
                MultisigError::InvalidMemberCount,
            ),
    {
        let new_count = self.member_count.saturating_sub(1);
        if new_count <= self.minimum_vote_count || new_count < self.minimum_member_count {
            return Err(MultisigError::InvalidMemberCount);
        }
        self.member_count = new_count;
        Ok(())
    }

    pub fn get_member_count(&self) -> (r: u32)
        ensures
            r == self.member_count,
    {
        self.member_count
    }

    pub fn set_minimum_vote_count(&mut self, count: u32) -> (r: Result<(), MultisigError>)
        ensures
            r is Ok <==> count < old(self).member_count,
            r is Ok ==> *final(self) == (Group { minimum_vote_count: count, ..*old(self) }),
            r is Err ==> *final(self) == *old(self) && r == Err::<(), MultisigError>(
                MultisigError::InvalidMemberCount,
            ),
    {
        if count >= self.member_count {
            return Err(MultisigError::InvalidMemberCount);
        }
        self.minimum_vote_count = count;
        Ok(())
    }

    pub fn get_minimum_vote_count(&self) -> (r: u32)
        ensures
            r == self.minimum_vote_count,
    {
        self.minimum_vote_count
    }

    pub fn set_minimum_member_count(&mut self, count: u32) -> (r: Result<(), MultisigError>)
        ensures
            r is Ok <==> count <= old(self).member_count,
            r is Ok ==> *final(self) == (Group { minimum_member_count: count, ..*old(self) }),
            r is Err ==> *final(self) == *old(self) && r == Err::<(), MultisigError>(
                MultisigError::InvalidMemberCount,
            ),
    {
        if count > self.member_count {
            return Err(MultisigError::InvalidMemberCount);
        }
        self.minimum_member_count = count;
        Ok(())
    }

    pub fn get_minimum_member_count(&self) -> (r: u32)
        ensures
            r == self.minimum_member_count,
    {
        self.minimum_member_count
    }

    pub fn get_max_member_weight(&self) -> (r: u32)
        ensures
            r == self.max_member_weight,
    {
        self.max_member_weight
    }

    pub fn get_next_proposal_index(&self) -> (r: u64)
        ensures
            r == self.next_proposal_index,
    {
        self.next_proposal_index
    }

    /// Hands out the next proposal index and advances the counter.
    pub fn get_and_increment_proposal_index(&mut self) -> (r: Result<u64, MultisigError>)
        ensures
            r is Ok <==> old(self).next_proposal_index < u64::MAX,
            r matches Ok(i) ==> i == old(self).next_proposal_index && *final(self) == (Group {
                next_proposal_index: (old(self).next_proposal_index + 1) as u64,
                ..*old(self)
            }),
            r is Err ==> *final(self) == *old(self) && r == Err::<u64, MultisigError>(
                MultisigError::ArithmeticOverflow,
            ),
    {
        let current = self.next_proposal_index;
        match current.checked_add(1) {
            Some(n) => {
                self.next_proposal_index = n;
                Ok(current)
            },
            None => Err(MultisigError::ArithmeticOverflow),
        }
    }

    pub fn get_proposal_index_after_stale(&self) -> (r: u64)
        ensures
            r == self.proposal_index_after_stale,
    {
        self.proposal_index_after_stale
    }

    /// Invalidates every proposal made so far; called when a configuration
    /// change is applied.
    pub fn update_stale_proposal_index(&mut self)
        ensures
            *final(self) == (Group { proposal_index_after_stale: old(self).next_proposal_index, ..*old(self) }),
    {
        self.proposal_index_after_stale = self.next_proposal_index;
    }

    /// Whether a proposal with this index was made under the current configuration.
    pub fn is_current(&self, proposal_index: u64) -> (r: bool)
        ensures
            r == (proposal_index >= self.proposal_index_after_stale),
    {
        proposal_index >= self.proposal_index_after_stale
    }
}

} // verus!
