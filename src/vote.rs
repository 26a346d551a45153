use vstd::prelude::*;

use crate::key::Key;

verus! {

#[derive(Debug, Clone, Copy, PartialEq, Eq, Structural)]
pub enum VoteChoice {
    For,
    Against,
}

/// The standing ballot of one voter on one proposal (and, for a bundled
/// proposal, one of its assets). Its existence marks that the voter has voted.
#[derive(Debug, Clone, Copy)]
pub struct VoteRecord {
    pub voter: Key,
    pub proposal: Key,
    pub asset_index: Option<u8>,
    pub account_bump: u8,
    pub vote_choice: VoteChoice,
}

impl VoteRecord {
    pub fn new(
        voter: Key,
        proposal: Key,
        asset_index: Option<u8>,
        account_bump: u8,
        vote_choice: VoteChoice,
    ) -> (r: VoteRecord)
        ensures
            r == (VoteRecord { voter, proposal, asset_index, account_bump, vote_choice }),
    {
        VoteRecord { voter, proposal, asset_index, account_bump, vote_choice }
    }

    pub fn get_proposal(&self) -> (r: &Key)
        ensures
            *r == self.proposal,
    {
        &self.proposal
    }

    pub fn get_voter(&self) -> (r: &Key)
        ensures
            *r == self.voter,
    {
        &self.voter
    }

    pub fn get_asset_index(&self) -> (r: Option<u8>)
        ensures
            r == self.asset_index,
    {
        self.asset_index
    }

    pub fn get_account_bump(&self) -> (r: u8)
        ensures
            r == self.account_bump,
    {
        self.account_bump
    }

    pub fn get_vote_choice(&self) -> (r: VoteChoice)
        ensures
            r == self.vote_choice,
    {
        self.vote_choice
    }

    pub fn set_vote_choice(&mut self, choice: VoteChoice)
        ensures
            *final(self) == (VoteRecord { vote_choice: choice, ..*old(self) }),
    {
        self.vote_choice = choice;
    }
}

} // verus!
