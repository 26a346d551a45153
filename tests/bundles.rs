use multisig::{
    add_asset_mint_handler, add_asset_token_handler, close_proposal_handler,
    create_normal_proposal_handler, create_proposal_transaction_from_digest,
    create_proposal_transaction_handler, decode_instruction, execute_proposal_transaction_handler,
    vote_on_normal_proposal_handler, AddAssetMintInstructionArgs, Asset, AssetMember,
    ConfigChange, ConfigProposal, CreateNormalProposalInstructionArgs, FractionalThreshold, Group,
    GroupMember, Key, MintAuthorities, MultisigError, NormalProposal, Permissions,
    ProposalAssetThresholdState, ProposalState, ProposalTarget, TokenAccountState, VoteChoice,
    VoteOnNormalProposalInstructionArgs, VoteRecord,
};

const GROUP: [u8; 32] = [3; 32];
const ASSET_A: [u8; 32] = [1; 32];
const ASSET_B: [u8; 32] = [9; 32];

fn half() -> FractionalThreshold {
    FractionalThreshold::new_from_values(1, 2).unwrap()
}

fn third() -> FractionalThreshold {
    FractionalThreshold::new_from_values(1, 3).unwrap()
}

fn member_key(i: usize) -> Key {
    Key::new([10 + i as u8; 32])
}

fn group() -> Group {
    Group::new(
        Key::new([1; 32]),
        Key::new([2; 32]),
        half(),
        third(),
        half(),
        third(),
        half(),
        third(),
        3,
        2,
        100,
        5,
        10,
        1000,
        255,
    )
    .unwrap()
}

fn asset(address: [u8; 32]) -> Asset {
    let mut a = Asset::new(Key::new(address), half(), third(), half(), third(), half(), third(), half(), third(), 1, 1, 2, 3).unwrap();
    for _ in 0..3 {
        a.increment_member_count().unwrap();
    }
    a
}

fn asset_member(i: usize, address: [u8; 32]) -> AssetMember {
    AssetMember::new(member_key(i), Key::new(GROUP), Key::new(address), Permissions::from_flags(false, false), 20, 0, 100).unwrap()
}

fn proposer() -> GroupMember {
    GroupMember::new(member_key(0), Key::new(GROUP), Permissions::from_flags(true, false), 20, 0, 100).unwrap()
}

fn raw_instruction() -> Vec<u8> {
    let mut raw = vec![7u8; 32];
    raw.extend_from_slice(&[2, 0, 0, 0]);
    raw.extend_from_slice(&ASSET_A);
    raw.extend_from_slice(&[1, 0]);
    raw.extend_from_slice(&ASSET_B);
    raw.extend_from_slice(&[0, 1]);
    raw.extend_from_slice(&[3, 0, 0, 0]);
    raw.extend_from_slice(&[4, 5, 6]);
    raw
}

const RAW_DIGEST: [u8; 32] = [
    140, 157, 130, 154, 143, 52, 101, 27, 162, 128, 42, 237, 242, 70, 107, 39, 36, 156, 103, 129, 163, 207,
    252, 48, 228, 126, 102, 64, 1, 27, 117, 132,
];

fn bundle(g: &mut Group, hash: [u8; 32]) -> NormalProposal {
    let args = CreateNormalProposalInstructionArgs {
        proposal_seed: Key::new([42; 32]),
        asset_keys: vec![Key::new(ASSET_A), Key::new(ASSET_B)],
        asset_indices: vec![0, 1],
        authority_bumps: vec![200, 201],
        timelock_offset: 10,
        expiry_offset: 1000,
        instruction_hash: hash,
    };
    create_normal_proposal_handler(g, &Key::new(GROUP), &member_key(0), &proposer(), args, 5, 100).unwrap()
}

fn ballot(
    p: &mut NormalProposal,
    g: &Group,
    a: &Asset,
    index: u8,
    voter: usize,
    record: &mut Option<VoteRecord>,
    vote: VoteChoice,
) -> Result<(), MultisigError> {
    let m = asset_member(voter, a.get_asset_address().bytes);
    vote_on_normal_proposal_handler(
        p,
        &Key::new([50; 32]),
        &Key::new(GROUP),
        g,
        a,
        &m,
        record,
        8,
        &member_key(voter),
        VoteOnNormalProposalInstructionArgs { voting_asset_index: index, vote },
        101,
    )
}

#[test]
fn bundle_passes_once_every_asset_passes() {
    let mut g = group();
    let mut p = bundle(&mut g, RAW_DIGEST);
    let (a, b) = (asset(ASSET_A), asset(ASSET_B));
    let mut r = vec![None; 4];
    ballot(&mut p, &g, &a, 0, 0, &mut r[0], VoteChoice::For).unwrap();
    assert_eq!(p.get_assets()[0].get_threshold_state(), ProposalAssetThresholdState::NoThresholdReached);
    ballot(&mut p, &g, &a, 0, 1, &mut r[1], VoteChoice::For).unwrap();
    assert_eq!(p.get_assets()[0].get_threshold_state(), ProposalAssetThresholdState::UseThresholdReached);
    assert_eq!(p.get_passed_assets_count(), 1);
    assert_eq!(p.get_state(), ProposalState::Open);
    ballot(&mut p, &g, &b, 1, 0, &mut r[2], VoteChoice::For).unwrap();
    ballot(&mut p, &g, &b, 1, 1, &mut r[3], VoteChoice::For).unwrap();
    assert_eq!(p.get_passed_assets_count(), 2);
    assert!(p.has_all_assets_passed());
    assert_eq!(p.get_state(), ProposalState::Passed);
    assert_eq!(p.get_assets()[1].get_use_vote_weight(), 40);
    assert_eq!(r[3].unwrap().get_asset_index(), Some(1));
}

#[test]
fn one_asset_veto_fails_the_bundle() {
    let mut g = group();
    let mut p = bundle(&mut g, RAW_DIGEST);
    let (a, b) = (asset(ASSET_A), asset(ASSET_B));
    let mut r = vec![None; 4];
    ballot(&mut p, &g, &a, 0, 0, &mut r[0], VoteChoice::For).unwrap();
    ballot(&mut p, &g, &a, 0, 1, &mut r[1], VoteChoice::For).unwrap();
    ballot(&mut p, &g, &b, 1, 0, &mut r[2], VoteChoice::Against).unwrap();
    ballot(&mut p, &g, &b, 1, 1, &mut r[3], VoteChoice::Against).unwrap();
    assert_eq!(p.get_assets()[1].get_threshold_state(), ProposalAssetThresholdState::NotUseThresholdReached);
    assert_eq!(p.get_state(), ProposalState::Failed);
    let mut late = None;
    let err = ballot(&mut p, &g, &a, 0, 2, &mut late, VoteChoice::Against).unwrap_err();
    assert_eq!(err, MultisigError::ProposalNotOpen);
    assert_eq!(p.get_assets()[0].get_threshold_state(), ProposalAssetThresholdState::UseThresholdReached);
}

#[test]
fn bundled_vote_checks_index_and_asset() {
    let mut g = group();
    let mut p = bundle(&mut g, RAW_DIGEST);
    let (a, b) = (asset(ASSET_A), asset(ASSET_B));
    let mut r = None;
    assert_eq!(ballot(&mut p, &g, &a, 2, 0, &mut r, VoteChoice::For).unwrap_err(), MultisigError::InvalidAssetIndex);
    assert_eq!(ballot(&mut p, &g, &b, 0, 0, &mut r, VoteChoice::For).unwrap_err(), MultisigError::InvalidAsset);
    assert!(r.is_none());
    ballot(&mut p, &g, &a, 0, 0, &mut r, VoteChoice::For).unwrap();
    ballot(&mut p, &g, &a, 0, 0, &mut r, VoteChoice::Against).unwrap();
    assert_eq!(p.get_assets()[0].get_use_vote_weight(), 0);
    assert_eq!(p.get_assets()[0].get_not_use_vote_weight(), 20);
    assert_eq!(p.get_assets()[0].get_vote_count(), 1);
}

#[test]
fn unsorted_or_oversized_asset_lists_are_refused() {
    let mut g = group();
    let mut args = CreateNormalProposalInstructionArgs {
        proposal_seed: Key::new([42; 32]),
        asset_keys: vec![Key::new(ASSET_B), Key::new(ASSET_A)],
        asset_indices: vec![0, 1],
        authority_bumps: vec![200, 201],
        timelock_offset: 10,
        expiry_offset: 1000,
        instruction_hash: [0; 32],
    };
    let err = create_normal_proposal_handler(&mut g, &Key::new(GROUP), &member_key(0), &proposer(), args, 5, 100).unwrap_err();
    assert_eq!(err, MultisigError::AssetsNotSortedOrDuplicate);
    args = CreateNormalProposalInstructionArgs {
        proposal_seed: Key::new([42; 32]),
        asset_keys: vec![Key::new(ASSET_A), Key::new(ASSET_A)],
        asset_indices: vec![0, 1],
        authority_bumps: vec![200, 201],
        timelock_offset: 10,
        expiry_offset: 1000,
        instruction_hash: [0; 32],
    };
    let err = create_normal_proposal_handler(&mut g, &Key::new(GROUP), &member_key(0), &proposer(), args, 5, 100).unwrap_err();
    assert_eq!(err, MultisigError::AssetsNotSortedOrDuplicate);
    let many: Vec<Key> = (0..11u8).map(|i| Key::new([i; 32])).collect();
    args = CreateNormalProposalInstructionArgs {
        proposal_seed: Key::new([42; 32]),
        asset_keys: many,
        asset_indices: vec![0; 11],
        authority_bumps: vec![0; 11],
        timelock_offset: 10,
        expiry_offset: 1000,
        instruction_hash: [0; 32],
    };
    let err = create_normal_proposal_handler(&mut g, &Key::new(GROUP), &member_key(0), &proposer(), args, 5, 100).unwrap_err();
    assert_eq!(err, MultisigError::TooManyAssets);
    args = CreateNormalProposalInstructionArgs {
        proposal_seed: Key::new([42; 32]),
        asset_keys: vec![Key::new(ASSET_A)],
        asset_indices: vec![0, 1],
        authority_bumps: vec![0],
        timelock_offset: 10,
        expiry_offset: 1000,
        instruction_hash: [0; 32],
    };
    let err = create_normal_proposal_handler(&mut g, &Key::new(GROUP), &member_key(0), &proposer(), args, 5, 100).unwrap_err();
    assert_eq!(err, MultisigError::LengthMismatch);
    assert_eq!(g.get_next_proposal_index(), 0);
}

#[test]
fn decodes_serialized_instruction() {
    let ix = decode_instruction(&raw_instruction()).unwrap();
    assert!(ix.program_id.equals(&Key::new([7; 32])));
    assert_eq!(ix.accounts.len(), 2);
    assert!(ix.accounts[0].key.equals(&Key::new(ASSET_A)));
    assert!(ix.accounts[0].is_writable && !ix.accounts[0].is_signer);
    assert!(!ix.accounts[1].is_writable && ix.accounts[1].is_signer);
    assert_eq!(ix.data, vec![4, 5, 6]);
    assert_eq!(ix.get_size(), raw_instruction().len());
}

#[test]
fn malformed_instructions_are_refused() {
    let mut bad_flag = raw_instruction();
    bad_flag[36 + 32] = 2;
    let mut trailing = raw_instruction();
    trailing.push(0);
    let mut short = raw_instruction();
    short.pop();
    let mut huge_count = raw_instruction();
    huge_count[35] = 1;
    for raw in [bad_flag, trailing, short, huge_count, vec![0; 35]] {
        assert_eq!(decode_instruction(&raw).unwrap_err(), MultisigError::InstructionDeserializationFailed);
    }
}

#[test]
fn staging_checks_the_committed_digest() {
    let mut g = group();
    let p = bundle(&mut g, RAW_DIGEST);
    let t = create_proposal_transaction_handler(&g, &Key::new(GROUP), &p, &raw_instruction(), 6).unwrap();
    assert_eq!(t.asset_indices, vec![0, 1]);
    assert_eq!(t.asset_authority_bumps, vec![200, 201]);
    assert_eq!(t.get_proposal_index(), 0);
    assert_eq!(t.get_valid_from(), 110);

    let mut raw = raw_instruction();
    raw[0] = 8;
    assert_eq!(create_proposal_transaction_handler(&g, &Key::new(GROUP), &p, &raw, 6).unwrap_err(), MultisigError::InvalidInstructionHash);

    let mut g2 = group();
    let mut committed_to_bytes = [0u8; 32];
    committed_to_bytes.copy_from_slice(&raw_instruction()[0..32]);
    let q = bundle(&mut g2, committed_to_bytes);
    assert_eq!(create_proposal_transaction_handler(&g2, &Key::new(GROUP), &q, &raw_instruction(), 6).unwrap_err(), MultisigError::InvalidInstructionHash);
}

#[test]
fn staging_checks_asset_positions() {
    let mut g = group();
    let p = bundle(&mut g, RAW_DIGEST);
    let mut swapped = raw_instruction();
    swapped[36..68].copy_from_slice(&ASSET_B);
    assert_eq!(create_proposal_transaction_from_digest(&g, &Key::new(GROUP), &p, &swapped, RAW_DIGEST, 6).unwrap_err(), MultisigError::UnexpectedAsset);
    let mut closed = p.clone();
    closed.set_state(ProposalState::Failed).unwrap();
    assert_eq!(create_proposal_transaction_from_digest(&g, &Key::new(GROUP), &closed, &raw_instruction(), RAW_DIGEST, 6).unwrap_err(), MultisigError::ProposalNotOpen);
    assert_eq!(create_proposal_transaction_from_digest(&g, &Key::new([4; 32]), &p, &raw_instruction(), RAW_DIGEST, 6).unwrap_err(), MultisigError::UnexpectedGroup);
    let mut moved_on = g;
    moved_on.update_stale_proposal_index();
    assert_eq!(create_proposal_transaction_from_digest(&moved_on, &Key::new(GROUP), &p, &raw_instruction(), RAW_DIGEST, 6).unwrap_err(), MultisigError::ProposalStale);
}

#[test]
fn execution_hands_out_asset_authorities() {
    let mut g = group();
    let mut p = bundle(&mut g, RAW_DIGEST);
    let t = create_proposal_transaction_from_digest(&g, &Key::new(GROUP), &p, &raw_instruction(), RAW_DIGEST, 6).unwrap();
    let collector = Key::new([2; 32]);
    assert_eq!(execute_proposal_transaction_handler(&g, &p, &t, &collector, 200).unwrap_err(), MultisigError::ProposalNotPassed);
    p.set_state(ProposalState::Passed).unwrap();
    assert_eq!(execute_proposal_transaction_handler(&g, &p, &t, &collector, 110).unwrap_err(), MultisigError::ProposalStillTimelocked);
    assert_eq!(execute_proposal_transaction_handler(&g, &p, &t, &Key::new([0; 32]), 200).unwrap_err(), MultisigError::UnexpectedRentCollector);
    let grant = execute_proposal_transaction_handler(&g, &p, &t, &collector, 200).unwrap();
    assert!(grant.group.equals(&Key::new(GROUP)));
    assert_eq!(grant.authorities.len(), 2);
    assert!(grant.authorities[0].asset.equals(&Key::new(ASSET_A)));
    assert_eq!(grant.authorities[0].bump, 200);
    assert!(grant.authorities[1].asset.equals(&Key::new(ASSET_B)));
    assert_eq!(grant.authorities[1].bump, 201);
}

#[test]
fn thresholds_compare_by_cross_multiplication() {
    assert_eq!(half().greater_than_or_equal(60, 60), Ok(true));
    assert_eq!(half().greater_than_or_equal(30, 60), Ok(true));
    assert_eq!(half().greater_than_or_equal(29, 60), Ok(false));
    assert_eq!(third().less_than_or_equal(40, 40), Ok(true));
    assert_eq!(half().greater_than_or_equal(1, 0), Err(MultisigError::ArithmeticOverflow));
    assert_eq!(half().greater_than_or_equal(u64::MAX, u64::MAX), Err(MultisigError::ArithmeticOverflow));
    assert_eq!(FractionalThreshold::from_unchecked(1, 0).greater_than_or_equal(1, 1), Err(MultisigError::ArithmeticOverflow));
    assert_eq!(FractionalThreshold::new_from_values(2, 2).unwrap_err(), MultisigError::InvalidThreshold);
    assert_eq!(FractionalThreshold::new_from_values(3, 2).unwrap_err(), MultisigError::InvalidThreshold);
    assert_eq!(FractionalThreshold::new_from_values(0, 2).unwrap_err(), MultisigError::InvalidThreshold);
    assert_eq!(FractionalThreshold::new_from_values(1, 0).unwrap_err(), MultisigError::InvalidThreshold);
    let t = FractionalThreshold::new_from_values(2, 5).unwrap();
    assert_eq!((t.numerator(), t.denominator()), (2, 5));
    assert!(t.is_valid().is_ok());
}

#[test]
fn normalization_replaces_a_reachable_counter_threshold() {
    let mut counter = FractionalThreshold::new_from_values(2, 3).unwrap();
    half().normalize_other(&mut counter).unwrap();
    assert_eq!((counter.numerator(), counter.denominator()), (1, 2));
    let mut counter = FractionalThreshold::new_from_values(1, 3).unwrap();
    half().normalize_other(&mut counter).unwrap();
    assert_eq!((counter.numerator(), counter.denominator()), (1, 3));
    let mut counter = FractionalThreshold::new_from_values(1, 4).unwrap();
    FractionalThreshold::new_from_values(1, 4).unwrap().normalize_other(&mut counter).unwrap();
    assert_eq!((counter.numerator(), counter.denominator()), (3, 4));

    let mut a = asset(ASSET_A);
    a.set_not_use_threshold(FractionalThreshold::new_from_values(3, 4).unwrap()).unwrap();
    let t = a.get_not_use_threshold();
    assert_eq!((t.numerator(), t.denominator()), (1, 2));
    a.set_use_threshold(FractionalThreshold::new_from_values(2, 3).unwrap()).unwrap();
    let t = a.get_not_use_threshold();
    assert_eq!((t.numerator(), t.denominator()), (1, 2));
    assert_eq!(a.set_add_threshold(FractionalThreshold::from_unchecked(5, 5)).unwrap_err(), MultisigError::InvalidThreshold);
}

#[test]
fn permissions_are_bit_flags() {
    let mut p = Permissions::from_flags(true, true);
    assert_eq!(p.bits(), 0b11);
    p.set_propose(false);
    assert!(!p.has_propose() && p.has_add_asset());
    assert_eq!(p.bits(), 0b10);
    p.set_add_asset(false);
    assert_eq!(p.bits(), 0);
    assert!(p.validate().is_ok());
    assert_eq!(Permissions::from_unchecked(0b100).validate().unwrap_err(), MultisigError::InvalidPermissions);
    assert_eq!(Permissions::new(0b1000_0001).unwrap_err(), MultisigError::InvalidPermissions);
    assert_eq!(Permissions::new(1).unwrap().bits(), 1);
}

#[test]
fn proposal_indices_and_staleness() {
    let mut g = group();
    assert_eq!(g.get_and_increment_proposal_index(), Ok(0));
    assert_eq!(g.get_and_increment_proposal_index(), Ok(1));
    g.update_stale_proposal_index();
    assert_eq!(g.get_proposal_index_after_stale(), 2);
    assert!(!g.is_current(1));
    assert!(g.is_current(2));
    g.next_proposal_index = u64::MAX;
    assert_eq!(g.get_and_increment_proposal_index(), Err(MultisigError::ArithmeticOverflow));
    assert_eq!(g.set_minimum_vote_count(5).unwrap_err(), MultisigError::InvalidMemberCount);
    assert_eq!(g.set_minimum_member_count(6).unwrap_err(), MultisigError::InvalidMemberCount);
    g.set_minimum_member_count(5).unwrap();
    assert_eq!(g.get_minimum_member_count(), 5);
}

#[test]
fn closing_waits_for_deadline_or_staleness() {
    let mut g = group();
    let p = ConfigProposal::new(member_key(0), Key::new([40; 32]), Key::new(GROUP), 1, 0, 10, 1000, ProposalTarget::Group, ConfigChange::RemoveGroupMember { member: member_key(4) }, 100).unwrap();
    assert_eq!(close_proposal_handler(&g, &Key::new(GROUP), &p, &member_key(1), 2000).unwrap_err(), MultisigError::InvalidProposer);
    assert_eq!(close_proposal_handler(&g, &Key::new(GROUP), &p, &member_key(0), 1100).unwrap_err(), MultisigError::ProposalStillActive);
    assert!(close_proposal_handler(&g, &Key::new(GROUP), &p, &member_key(0), 1101).is_ok());
    let mut passed = p;
    passed.set_state(ProposalState::Passed).unwrap();
    assert_eq!(close_proposal_handler(&g, &Key::new(GROUP), &passed, &member_key(0), 2000).unwrap_err(), MultisigError::ProposalStillActive);
    g.get_and_increment_proposal_index().unwrap();
    g.update_stale_proposal_index();
    assert!(close_proposal_handler(&g, &Key::new(GROUP), &passed, &member_key(0), 2000).is_ok());
}

fn asset_args() -> AddAssetMintInstructionArgs {
    AddAssetMintInstructionArgs {
        member_key_1: member_key(0),
        member_key_2: member_key(1),
        member_key_3: member_key(2),
        initial_weights: [20, 30, 500],
        initial_permissions: [Permissions::from_flags(false, false); 3],
        use_threshold: half(),
        not_use_threshold: third(),
        add_threshold: half(),
        not_add_threshold: third(),
        remove_threshold: half(),
        not_remove_threshold: third(),
        change_config_threshold: half(),
        not_change_config_threshold: third(),
        minimum_member_count: 2,
        minimum_vote_count: 1,
    }
}

fn group_members() -> [GroupMember; 3] {
    [0, 1, 2].map(|i| GroupMember::new(member_key(i), Key::new(GROUP), Permissions::from_flags(true, true), 20, 0, 100).unwrap())
}

#[test]
fn registering_a_mint_creates_three_members() {
    let g = group();
    let adder = GroupMember::new(member_key(0), Key::new(GROUP), Permissions::from_flags(false, true), 20, 0, 100).unwrap();
    let authority = Key::new([77; 32]);
    let mint = MintAuthorities { mint_authority: Some(authority), freeze_authority: None };
    let (a, ms) = add_asset_mint_handler(&g, &Key::new(GROUP), &adder, &member_key(0), &group_members(), asset_args(), &Key::new(ASSET_A), mint, &authority, 1, 2, [3, 4, 5]).unwrap();
    assert_eq!(a.get_member_count(), 3);
    assert_eq!(a.get_authority_bump(), 2);
    assert_eq!(ms.iter().map(|m| m.get_weight()).collect::<Vec<_>>(), vec![20, 30, 100]);
    let wrong = MintAuthorities { mint_authority: Some(authority), freeze_authority: Some(Key::new([78; 32])) };
    assert_eq!(add_asset_mint_handler(&g, &Key::new(GROUP), &adder, &member_key(0), &group_members(), asset_args(), &Key::new(ASSET_A), wrong, &authority, 1, 2, [3, 4, 5]).unwrap_err(), MultisigError::InvalidMintMintAuthority);
    let none = MintAuthorities { mint_authority: None, freeze_authority: None };
    assert_eq!(add_asset_mint_handler(&g, &Key::new(GROUP), &adder, &member_key(0), &group_members(), asset_args(), &Key::new(ASSET_A), none, &authority, 1, 2, [3, 4, 5]).unwrap_err(), MultisigError::AuthorityNotProvided);
    let no_right = proposer();
    assert_eq!(add_asset_mint_handler(&g, &Key::new(GROUP), &no_right, &member_key(0), &group_members(), asset_args(), &Key::new(ASSET_A), mint, &authority, 1, 2, [3, 4, 5]).unwrap_err(), MultisigError::InsufficientPermissions);
    let mut high_floor = asset_args();
    high_floor.minimum_vote_count = 3;
    assert_eq!(add_asset_mint_handler(&g, &Key::new(GROUP), &adder, &member_key(0), &group_members(), high_floor, &Key::new(ASSET_A), mint, &authority, 1, 2, [3, 4, 5]).unwrap_err(), MultisigError::InvalidMemberCount);
}

#[test]
fn registering_a_token_account_checks_its_authorities() {
    let g = group();
    let adder = GroupMember::new(member_key(0), Key::new(GROUP), Permissions::from_flags(false, true), 20, 0, 100).unwrap();
    let authority = Key::new([77; 32]);
    let good = TokenAccountState { initialized: true, owner: authority, delegate: None, close_authority: Some(authority) };
    assert!(add_asset_token_handler(&g, &Key::new(GROUP), &adder, &member_key(0), &group_members(), asset_args(), &Key::new(ASSET_B), good, &authority, 1, 2, [3, 4, 5]).is_ok());
    let cases = [
        (TokenAccountState { initialized: false, ..good }, MultisigError::InvalidAccountState),
        (TokenAccountState { owner: Key::new([0; 32]), ..good }, MultisigError::InvalidTokenOwner),
        (TokenAccountState { delegate: Some(authority), ..good }, MultisigError::InvalidTokenDelegate),
        (TokenAccountState { close_authority: Some(Key::new([0; 32])), ..good }, MultisigError::InvalidCloseAuthority),
    ];
    for (token, expected) in cases {
        assert_eq!(add_asset_token_handler(&g, &Key::new(GROUP), &adder, &member_key(0), &group_members(), asset_args(), &Key::new(ASSET_B), token, &authority, 1, 2, [3, 4, 5]).unwrap_err(), expected);
    }
}
