use vstd::prelude::*;

use crate::error::MultisigError;
use crate::key::Key;
use crate::threshold::FractionalThreshold;

verus! {

/// A governed resource of a group, with its own thresholds and membership.
#[derive(Debug, Clone, Copy)]
pub struct Asset {
    pub asset_address: Key,
    pub use_threshold: FractionalThreshold,
    pub not_use_threshold: FractionalThreshold,
    pub add_threshold: FractionalThreshold,
    pub not_add_threshold: FractionalThreshold,
    pub remove_threshold: FractionalThreshold,
    pub not_remove_threshold: FractionalThreshold,
    pub change_config_threshold: FractionalThreshold,
    pub not_change_config_threshold: FractionalThreshold,
    pub member_count: u32,
    pub minimum_member_count: u32,
    pub minimum_vote_count: u32,
    pub account_bump: u8,
    pub authority_bump: u8,
}

impl Asset {
    pub open spec fn thresholds_valid(self) -> bool {
        &&& self.use_threshold.valid()
        &&& self.not_use_threshold.valid()
        &&& self.add_threshold.valid()
        &&& self.not_add_threshold.valid()
        &&& self.remove_threshold.valid()
        &&& self.not_remove_threshold.valid()
        &&& self.change_config_threshold.valid()
        &&& self.not_change_config_threshold.valid()
    }

    pub open spec fn wf(self) -> bool {
        &&& self.thresholds_valid()
        &&& self.minimum_vote_count > 0
        &&& self.minimum_member_count > 0
    }

    /// The member counts that an asset keeps once its members are in place.
    pub open spec fn counts_ok(self) -> bool {
        &&& self.member_count > self.minimum_vote_count
        &&& self.member_count >= self.minimum_member_count
    }

    /// A new asset with no members yet. The thresholds must be valid and both
    /// floors above zero.
    pub fn new(
        asset_address: Key,
        use_threshold: FractionalThreshold,
        not_use_threshold: FractionalThreshold,
        add_threshold: FractionalThreshold,
        not_add_threshold: FractionalThreshold,
        remove_threshold: FractionalThreshold,
        not_remove_threshold: FractionalThreshold,
        change_config_threshold: FractionalThreshold,
        not_change_config_threshold: FractionalThreshold,
        minimum_member_count: u32,
        minimum_vote_count: u32,
        account_bump: u8,
        authority_bump: u8,
    ) -> (r: Result<Asset, MultisigError>)
        ensures
            ({
                let a = Asset {
                    asset_address,
                    use_threshold,
                    not_use_threshold,
                    add_threshold,
                    not_add_threshold,
                    remove_threshold,
                    not_remove_threshold,
                    change_config_threshold,
                    not_change_config_threshold,
                    member_count: 0,
                    minimum_member_count,
                    minimum_vote_count,
                    account_bump,
                    authority_bump,
                };
                &&& r is Ok <==> a.wf()
                &&& r is Ok ==> r == Ok::<Asset, MultisigError>(a)
                &&& !a.thresholds_valid() ==> r == Err::<Asset, MultisigError>(MultisigError::InvalidThreshold)
                &&& a.thresholds_valid() && minimum_vote_count == 0 ==> r == Err::<Asset, MultisigError>(
                    MultisigError::InvalidThreshold,
                )
                &&& a.thresholds_valid() && minimum_vote_count > 0 && minimum_member_count == 0
                    ==> r == Err::<Asset, MultisigError>(MultisigError::InvalidMemberCount)
            }),
    {
        use_threshold.is_valid()?;
        not_use_threshold.is_valid()?;
        add_threshold.is_valid()?;
        not_add_threshold.is_valid()?;
        remove_threshold.is_valid()?;
        not_remove_threshold.is_valid()?;
        change_config_threshold.is_valid()?;
        not_change_config_threshold.is_valid()?;
        if minimum_vote_count == 0 {
            return Err(MultisigError::InvalidThreshold);
        }
        if minimum_member_count == 0 {
            return Err(MultisigError::InvalidMemberCount);
        }
        Ok(
            Asset {
                asset_address,
                use_threshold,
                not_use_threshold,
                add_threshold,
                not_add_threshold,
                remove_threshold,
                not_remove_threshold,
                change_config_threshold,
                not_change_config_threshold,
                member_count: 0,
                minimum_member_count,
                minimum_vote_count,
                account_bump,
                authority_bump,
            },
        )
    }

    pub fn get_asset_address(&self) -> (r: &Key)
        ensures
            *r == self.asset_address,
    {
        &self.asset_address
    }

    pub fn get_use_threshold(&self) -> (r: FractionalThreshold)
        ensures
            r == self.use_threshold,
    {
        self.use_threshold
    }

    pub fn get_not_use_threshold(&self) -> (r: FractionalThreshold)
        ensures
            r == self.not_use_threshold,
    {
        self.not_use_threshold
    }

    pub fn get_add_threshold(&self) -> (r: FractionalThreshold)
        ensures
            r == self.add_threshold,
    {
        self.add_threshold
    }

    pub fn get_not_add_threshold(&self) -> (r: FractionalThreshold)
        ensures
            r == self.not_add_threshold,
    {
        self.not_add_threshold
    }

    pub fn get_remove_threshold(&self) -> (r: FractionalThreshold)
        ensures
            r == self.remove_threshold,
    {
        self.remove_threshold
    }

    pub fn get_not_remove_threshold(&self) -> (r: FractionalThreshold)
        ensures
            r == self.not_remove_threshold,
    {
        self.not_remove_threshold
    }

    pub fn get_change_config_threshold(&self) -> (r: FractionalThreshold)
        ensures
            r == self.change_config_threshold,
    {
        self.change_config_threshold
    }

    pub fn get_not_change_config_threshold(&self) -> (r: FractionalThreshold)
        ensures
            r == self.not_change_config_threshold,
    {
        self.not_change_config_threshold
    }

    /// Sets the use threshold, then normalizes the counter-threshold
    /// of the pair against the action threshold.
    pub fn set_use_threshold(&mut self, threshold: FractionalThreshold) -> (r: Result<(), MultisigError>)
        requires
            old(self).wf(),
        ensures
            r is Ok <==> threshold.valid(),
            r is Ok ==> *final(self) == (Asset {
                use_threshold: threshold,
                not_use_threshold: threshold.normalized(old(self).not_use_threshold),
                ..*old(self)
            }),
            r is Err ==> *final(self) == *old(self) && r == Err::<(), MultisigError>(
                MultisigError::InvalidThreshold,
            ),
            final(self).wf(),
    {
        threshold.is_valid()?;
        let action = threshold;
        let mut counter = self.not_use_threshold;
        action.normalize_other(&mut counter)?;
        self.use_threshold = action;
        self.not_use_threshold = counter;
        Ok(())
    }

    /// Sets the not use threshold, then normalizes the counter-threshold
    /// of the pair against the action threshold.
    pub fn set_not_use_threshold(&mut self, threshold: FractionalThreshold) -> (r: Result<(), MultisigError>)
        requires
            old(self).wf(),
        ensures
            r is Ok <==> threshold.valid(),
            r is Ok ==> *final(self) == (Asset {
                use_threshold: old(self).use_threshold,
                not_use_threshold: old(self).use_threshold.normalized(threshold),
                ..*old(self)
            }),
            r is Err ==> *final(self) == *old(self) && r == Err::<(), MultisigError>(
                MultisigError::InvalidThreshold,
            ),
            final(self).wf(),
    {
        threshold.is_valid()?;
        let action = self.use_threshold;
        let mut counter = threshold;
        action.normalize_other(&mut counter)?;
        self.use_threshold = action;
        self.not_use_threshold = counter;
        Ok(())
    }

    /// Sets the add threshold, then normalizes the counter-threshold
    /// of the pair against the action threshold.
    pub fn set_add_threshold(&mut self, threshold: FractionalThreshold) -> (r: Result<(), MultisigError>)
        requires
            old(self).wf(),
        ensures
            r is Ok <==> threshold.valid(),
            r is Ok ==> *final(self) == (Asset {
                add_threshold: threshold,
                not_add_threshold: threshold.normalized(old(self).not_add_threshold),
                ..*old(self)
            }),
            r is Err ==> *final(self) == *old(self) && r == Err::<(), MultisigError>(
                MultisigError::InvalidThreshold,
            ),
            final(self).wf(),
    {
        threshold.is_valid()?;
        let action = threshold;
        let mut counter = self.not_add_threshold;
        action.normalize_other(&mut counter)?;
        self.add_threshold = action;
        self.not_add_threshold = counter;
        Ok(())
    }

    /// Sets the not add threshold, then normalizes the counter-threshold
    /// of the pair against the action threshold.
    pub fn set_not_add_threshold(&mut self, threshold: FractionalThreshold) -> (r: Result<(), MultisigError>)
        requires
            old(self).wf(),
        ensures
            r is Ok <==> threshold.valid(),
            r is Ok ==> *final(self) == (Asset {
                add_threshold: old(self).add_threshold,
                not_add_threshold: old(self).add_threshold.normalized(threshold),
                ..*old(self)
            }),
            r is Err ==> *final(self) == *old(self) && r == Err::<(), MultisigError>(
                MultisigError::InvalidThreshold,
            ),
            final(self).wf(),
    {
        threshold.is_valid()?;
        let action = self.add_threshold;
        let mut counter = threshold;
        action.normalize_other(&mut counter)?;
        self.add_threshold = action;
        self.not_add_threshold = counter;
        Ok(())
    }

    /// Sets the remove threshold, then normalizes the counter-threshold
    /// of the pair against the action threshold.
    pub fn set_remove_threshold(&mut self, threshold: FractionalThreshold) -> (r: Result<(), MultisigError>)
        requires
            old(self).wf(),
        ensures
            r is Ok <==> threshold.valid(),
            r is Ok ==> *final(self) == (Asset {
                remove_threshold: threshold,
                not_remove_threshold: threshold.normalized(old(self).not_remove_threshold),
                ..*old(self)
            }),
            r is Err ==> *final(self) == *old(self) && r == Err::<(), MultisigError>(
                MultisigError::InvalidThreshold,
            ),
            final(self).wf(),
    {
        threshold.is_valid()?;
        let action = threshold;
        let mut counter = self.not_remove_threshold;
        action.normalize_other(&mut counter)?;
        self.remove_threshold = action;
        self.not_remove_threshold = counter;
        Ok(())
    }

    /// Sets the not remove threshold, then normalizes the counter-threshold
    /// of the pair against the action threshold.
    pub fn set_not_remove_threshold(&mut self, threshold: FractionalThreshold) -> (r: Result<(), MultisigError>)
        requires
            old(self).wf(),
        ensures
            r is Ok <==> threshold.valid(),
            r is Ok ==> *final(self) == (Asset {
                remove_threshold: old(self).remove_threshold,
                not_remove_threshold: old(self).remove_threshold.normalized(threshold),
                ..*old(self)
            }),
            r is Err ==> *final(self) == *old(self) && r == Err::<(), MultisigError>(
                MultisigError::InvalidThreshold,
            ),
            final(self).wf(),
    {
        threshold.is_valid()?;
        let action = self.remove_threshold;
        let mut counter = threshold;
        action.normalize_other(&mut counter)?;
        self.remove_threshold = action;
        self.not_remove_threshold = counter;
        Ok(())
    }

    /// Sets the change config threshold, then normalizes the counter-threshold
    /// of the pair against the action threshold.
    pub fn set_change_config_threshold(&mut self, threshold: FractionalThreshold) -> (r: Result<(), MultisigError>)
        requires
            old(self).wf(),
        ensures
            r is Ok <==> threshold.valid(),
            r is Ok ==> *final(self) == (Asset {
                change_config_threshold: threshold,
                not_change_config_threshold: threshold.normalized(old(self).not_change_config_threshold),
                ..*old(self)
            }),
            r is Err ==> *final(self) == *old(self) && r == Err::<(), MultisigError>(
                MultisigError::InvalidThreshold,
            ),
            final(self).wf(),
    {
        threshold.is_valid()?;
        let action = threshold;
        let mut counter = self.not_change_config_threshold;
        action.normalize_other(&mut counter)?;
        self.change_config_threshold = action;
        self.not_change_config_threshold = counter;
        Ok(())
    }

    /// Sets the not change config threshold, then normalizes the counter-threshold
    /// of the pair against the action threshold.
    pub fn set_not_change_config_threshold(&mut self, threshold: FractionalThreshold) -> (r: Result<(), MultisigError>)
        requires
            old(self).wf(),
        ensures
            r is Ok <==> threshold.valid(),
            r is Ok ==> *final(self) == (Asset {
                change_config_threshold: old(self).change_config_threshold,
                not_change_config_threshold: old(self).change_config_threshold.normalized(threshold),
                ..*old(self)
            }),
            r is Err ==> *final(self) == *old(self) && r == Err::<(), MultisigError>(
                MultisigError::InvalidThreshold,
            ),
            final(self).wf(),
    {
        threshold.is_valid()?;
        let action = self.change_config_threshold;
        let mut counter = threshold;
        action.normalize_other(&mut counter)?;
        self.change_config_threshold = action;
        self.not_change_config_threshold = counter;
        Ok(())
    }

    pub fn get_minimum_member_count(&self) -> (r: u32)
        ensures
            r == self.minimum_member_count,
    {
        self.minimum_member_count
    }

    pub fn get_minimum_vote_count(&self) -> (r: u32)
        ensures
            r == self.minimum_vote_count,
    {
        self.minimum_vote_count
    }

    pub fn get_account_bump(&self) -> (r: u8)
        ensures
            r == self.account_bump,
    {
        self.account_bump
    }

    pub fn get_authority_bump(&self) -> (r: u8)
        ensures
            r == self.authority_bump,
    {
        self.authority_bump
    }

    pub fn increment_member_count(&mut self) -> (r: Result<(), MultisigError>)
        ensures
            r is Ok <==> old(self).member_count < u32::MAX,
            r is Ok ==> *final(self) == (Asset { member_count: (old(self).member_count + 1) as u32, ..*old(self) }),
            r is Err ==> *final(self) == *old(self) && r == Err::<(), MultisigError>(
                MultisigError::ArithmeticOverflow,
            ),
    {
        match self.member_count.checked_add(1) {
            Some(c) => {
                self.member_count = c;
                Ok(())
            },
            None => Err(MultisigError::ArithmeticOverflow),
        }
    }

    /// Refuses to go below the vote floor plus one or below the member floor.
    pub fn decrement_member_count(&mut self) -> (r: Result<(), MultisigError>)
        ensures
            r is Ok <==> old(self).member_count > 0 && (Asset {
                member_count: (old(self).member_count - 1) as u32,
                ..*old(self)
            }).counts_ok(),
            r is Ok ==> *final(self) == (Asset { member_count: (old(self).member_count - 1) as u32, ..*old(self) }),
            r is Err ==> *final(self) == *old(self) && r == Err::<(), MultisigError>(
                MultisigError::InvalidMemberCount,
            ),
    {
        let new_count = self.member_count.saturating_sub(1);
        if new_count <= self.minimum_vote_count || new_count < self.minimum_member_count {
            return Err(MultisigError::InvalidMemberCount);
        }
        self.member_count = new_count;
        Ok(())
    }

    pub fn get_member_count(&self) -> (r: u32)
        ensures
            r == self.member_count,
    {
        self.member_count
    }

    /// The vote floor stays at least one and below the member count.
    pub fn set_minimum_vote_count(&mut self, count: u32) -> (r: Result<(), MultisigError>)
        requires
            old(self).wf(),
        ensures
            r is Ok <==> 0 < count < old(self).member_count,
            r is Ok ==> *final(self) == (Asset { minimum_vote_count: count, ..*old(self) }),
            r is Err ==> *final(self) == *old(self) && r == Err::<(), MultisigError>(
                MultisigError::InvalidThreshold,
            ),
            final(self).wf(),
    {
        if count == 0 || count >= self.member_count {
            return Err(MultisigError::InvalidThreshold);
        }
        self.minimum_vote_count = count;
        Ok(())
    }

    /// The member floor stays at least one and at most the member count.
    pub fn set_minimum_member_count(&mut self, count: u32) -> (r: Result<(), MultisigError>)
        requires
            old(self).wf(),
        ensures
            r is Ok <==> 0 < count <= old(self).member_count,
            r is Ok ==> *final(self) == (Asset { minimum_member_count: count, ..*old(self) }),
            r is Err ==> *final(self) == *old(self) && r == Err::<(), MultisigError>(
                MultisigError::InvalidMemberCount,
            ),
            final(self).wf(),
    {
        if count == 0 || count > self.member_count {
            return Err(MultisigError::InvalidMemberCount);
        }
        self.minimum_member_count = count;
        Ok(())
    }
}

} // verus!
