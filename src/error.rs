use vstd::prelude::*;

verus! {

/// Every way an operation of the library can be refused.
#[derive(Debug, Clone, Copy, PartialEq, Eq, Structural)]
pub enum MultisigError {
    InvalidConfigChange,
    InvalidMember,
    ProposalNotPassed,
    InvalidAsset,
    AssetNotProvided,
    UnexpectedConfigChange,
    TooManyAssets,
    InvalidAssetIndex,
    ProposalNotOpen,
    UnauthorizedVoter,
    InvalidAssetMember,
    UnexpectedGroup,
    UnexpectedAsset,
    GroupNotProvided,
    AssetMemberNotProvided,
    ProposalExpired,
    AssetsNotSortedOrDuplicate,
    InstructionDeserializationFailed,
    InvalidInstructionHash,
    NotEnoughAccountKeys,
    ProposalStale,
    ProposalNotStale,
    ProposalStillTimelocked,
    LengthMismatch,
    InvalidThreshold,
    AuthorityNotProvided,
    InvalidMintMintAuthority,
    InvalidMintFreezeAuthority,
    InvalidTokenOwner,
    InvalidTokenDelegate,
    InvalidCloseAuthority,
    InvalidAccountState,
    InvalidMemberCount,
    StateAlreadyFinalized,
    InvalidStateTransition,
    InvalidProposer,
    InsufficientPermissions,
    InvalidPermissions,
    TooManyMembers,
    GroupMemberStillActive,
    ProposalStillActive,
    UnexpectedRentCollector,
    UnexpectedProposal,
    ArithmeticOverflow,
}

} // verus!
