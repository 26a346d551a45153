//! Weighted, threshold-based multi-party governance: a group of members
//! controls itself and the assets it governs, and every change or use of an
//! asset is ratified by a weighted vote that must meet a fractional threshold.
//!
//! A proposal captures the group's next proposal index when it opens. Applying
//! a configuration change moves the group's staleness index up to the next
//! proposal index, which invalidates every proposal opened before the change.

pub mod add_asset;
pub mod apply_config;
pub mod asset;
pub mod bundle;
pub mod close;
pub mod create_group;
pub mod create_proposal;
pub mod error;
pub mod group;
pub mod key;
pub mod laws;
pub mod member;
pub mod permissions;
pub mod proposal;
pub mod threshold;
pub mod transaction;
pub mod vote;
pub mod voting;

pub use add_asset::{
    add_asset_mint_handler, add_asset_token_handler, AddAssetMintInstructionArgs,
    AddAssetTokenInstructionArgs, MintAuthorities, TokenAccountState,
};
pub use apply_config::{
    add_asset_member_handler, add_group_member_handler, change_asset_config_handler,
    change_group_config_handler, remove_asset_member_handler, remove_group_member_handler,
};
pub use asset::Asset;
pub use bundle::{NormalProposal, ProposalAsset, ProposalAssetThresholdState, MAX_ASSET_USE};
pub use close::{
    clean_up_asset_member_checks, close_config_vote_record_handler, close_normal_vote_record_handler,
    close_proposal_handler, close_proposal_transaction_checks,
};
pub use create_group::{create_group_handler, CreateGroupInstructionArgs};
pub use create_proposal::{
    create_config_proposal_handler, create_normal_proposal_handler,
    CreateConfigProposalInstructionArgs, CreateNormalProposalInstructionArgs,
};
pub use error::MultisigError;
pub use group::Group;
pub use key::Key;
pub use member::{AssetMember, GroupMember};
pub use permissions::Permissions;
pub use proposal::{ConfigChange, ConfigProposal, ConfigType, ProposalState, ProposalTarget};
pub use threshold::FractionalThreshold;
pub use transaction::{
    create_proposal_transaction_from_digest, create_proposal_transaction_handler, decode_instruction,
    execute_proposal_transaction_handler, AssetAuthority, ExecutionGrant, ProposalTransaction,
    SerailizableAccountMeta, SerializableInstruction,
};
pub use vote::{VoteChoice, VoteRecord};
pub use voting::{
    vote_on_config_proposal_handler, vote_on_normal_proposal_handler,
    VoteOnConfigProposalInstructionArgs, VoteOnNormalProposalInstructionArgs,
};
