use multisig::{
    add_group_member_handler, create_config_proposal_handler, create_group_handler,
    execute_proposal_transaction_handler, remove_group_member_handler, vote_on_config_proposal_handler,
    ConfigChange, ConfigProposal, CreateConfigProposalInstructionArgs, CreateGroupInstructionArgs,
    FractionalThreshold, Group, GroupMember, Key, MultisigError, NormalProposal, Permissions,
    ProposalAsset, ProposalState, ProposalTransaction, SerializableInstruction,
    VoteChoice, VoteOnConfigProposalInstructionArgs, VoteRecord,
};

const GROUP: [u8; 32] = [3; 32];
const NEW_MEMBER: [u8; 32] = [99; 32];

struct Fixture {
    group: Group,
    members: Vec<GroupMember>,
}

fn member_key(i: usize) -> Key {
    Key::new([10 + i as u8; 32])
}

fn setup(minimum_vote_count: u32) -> Fixture {
    let add = FractionalThreshold::new_from_values(1, 2).unwrap();
    let not_add = FractionalThreshold::new_from_values(1, 3).unwrap();
    let args = CreateGroupInstructionArgs {
        group_seed: Key::new([1; 32]),
        rent_collector: Key::new([2; 32]),
        add_threshold: add,
        not_add_threshold: not_add,
        remove_threshold: add,
        not_remove_threshold: not_add,
        change_config_threshold: add,
        not_change_config_threshold: not_add,
        minimum_member_count: 3,
        minimum_vote_count,
        max_member_weight: 100,
        member_weights: [20; 5],
        member_permissions: [Permissions::from_flags(true, false); 5],
        default_timelock_offset: 10,
        expiry_offset: 1000,
    };
    let keys = [member_key(0), member_key(1), member_key(2), member_key(3), member_key(4)];
    let (group, members) = create_group_handler(args, &Key::new(GROUP), keys, 255, [1; 5]).unwrap();
    Fixture { group, members }
}

fn open_proposal(f: &mut Fixture, change: ConfigChange, seed: u8, now: i64) -> ConfigProposal {
    let args = CreateConfigProposalInstructionArgs {
        proposal_seed: Key::new([seed; 32]),
        timelock_offset: 10,
        expiry_offset: 1000,
        config_change: change,
    };
    create_config_proposal_handler(&mut f.group, &Key::new(GROUP), &member_key(0), &f.members[0], None, args, 7, now).unwrap()
}

fn add_member_change() -> ConfigChange {
    ConfigChange::AddGroupMember { member: Key::new(NEW_MEMBER), weight: 20, permissions: 1 }
}

fn cast(
    p: &mut ConfigProposal,
    f: &Fixture,
    i: usize,
    record: &mut Option<VoteRecord>,
    vote: VoteChoice,
    now: i64,
) -> Result<(), MultisigError> {
    vote_on_config_proposal_handler(
        p,
        &Key::new([50; 32]),
        &Key::new(GROUP),
        &f.group,
        None,
        &f.members[i],
        None,
        record,
        4,
        &member_key(i),
        VoteOnConfigProposalInstructionArgs { vote },
        now,
    )
}

#[test]
fn scenario_three_for_votes_pass_an_addition() {
    let mut f = setup(2);
    let mut p = open_proposal(&mut f, add_member_change(), 40, 100);
    assert_eq!(p.get_proposal_index(), 0);
    assert_eq!(f.group.get_next_proposal_index(), 1);
    let mut records = vec![None, None, None];
    cast(&mut p, &f, 0, &mut records[0], VoteChoice::For, 101).unwrap();
    cast(&mut p, &f, 1, &mut records[1], VoteChoice::For, 101).unwrap();
    assert_eq!(p.get_state(), ProposalState::Open);
    assert_eq!(p.get_vote_count(), 2);
    cast(&mut p, &f, 2, &mut records[2], VoteChoice::For, 102).unwrap();
    assert_eq!(p.get_state(), ProposalState::Passed);
    assert_eq!(p.get_for_weight(), 60);
    assert_eq!(p.get_against_weight(), 0);
    assert_eq!(p.get_vote_count(), 3);
    let bound = f.group.get_member_count() as u64 * f.group.get_max_member_weight() as u64;
    assert!(p.get_for_weight() + p.get_against_weight() <= bound);
    let rec = records[2].unwrap();
    assert_eq!(rec.get_vote_choice(), VoteChoice::For);
    assert!(rec.get_voter().equals(&member_key(2)));
    assert_eq!(rec.get_asset_index(), None);
}

#[test]
fn scenario_quorum_floor_holds_back_failure() {
    let mut f = setup(2);
    let mut p = open_proposal(&mut f, add_member_change(), 40, 100);
    let mut records = vec![None, None, None];
    cast(&mut p, &f, 0, &mut records[0], VoteChoice::Against, 101).unwrap();
    cast(&mut p, &f, 1, &mut records[1], VoteChoice::Against, 101).unwrap();
    assert_eq!(p.get_against_weight(), 40);
    assert_eq!(p.get_state(), ProposalState::Open);
    cast(&mut p, &f, 2, &mut records[2], VoteChoice::Against, 101).unwrap();
    assert_eq!(p.get_state(), ProposalState::Failed);
    assert_eq!(p.get_against_weight(), 60);
}

#[test]
fn scenario_revote_moves_weight() {
    let mut f = setup(2);
    let mut p = open_proposal(&mut f, add_member_change(), 40, 100);
    let mut record = None;
    cast(&mut p, &f, 0, &mut record, VoteChoice::For, 101).unwrap();
    assert_eq!((p.get_for_weight(), p.get_against_weight(), p.get_vote_count()), (20, 0, 1));
    cast(&mut p, &f, 0, &mut record, VoteChoice::Against, 102).unwrap();
    assert_eq!((p.get_for_weight(), p.get_against_weight(), p.get_vote_count()), (0, 20, 1));
    assert_eq!(record.unwrap().get_vote_choice(), VoteChoice::Against);
}

#[test]
fn same_choice_twice_changes_nothing() {
    let mut f = setup(2);
    let mut p = open_proposal(&mut f, add_member_change(), 40, 100);
    let mut record = None;
    cast(&mut p, &f, 3, &mut record, VoteChoice::For, 101).unwrap();
    let before = p;
    cast(&mut p, &f, 3, &mut record, VoteChoice::For, 102).unwrap();
    assert_eq!(p.get_for_weight(), before.get_for_weight());
    assert_eq!(p.get_against_weight(), before.get_against_weight());
    assert_eq!(p.get_vote_count(), before.get_vote_count());
}

#[test]
fn finished_proposal_refuses_votes() {
    let mut f = setup(2);
    let mut p = open_proposal(&mut f, add_member_change(), 40, 100);
    let mut records = vec![None, None, None, None];
    for i in 0..3 {
        cast(&mut p, &f, i, &mut records[i], VoteChoice::For, 101).unwrap();
    }
    assert_eq!(p.get_state(), ProposalState::Passed);
    let err = cast(&mut p, &f, 3, &mut records[3], VoteChoice::Against, 101).unwrap_err();
    assert_eq!(err, MultisigError::ProposalNotOpen);
    assert_eq!(p.get_state(), ProposalState::Passed);
    assert_eq!(p.get_against_weight(), 0);
    assert!(records[3].is_none());
}

#[test]
fn late_vote_expires_the_proposal() {
    let mut f = setup(2);
    let mut p = open_proposal(&mut f, add_member_change(), 40, 100);
    assert_eq!(p.get_expiration_timestamp(), 1100);
    let mut record = None;
    let err = cast(&mut p, &f, 0, &mut record, VoteChoice::For, 1101).unwrap_err();
    assert_eq!(err, MultisigError::ProposalExpired);
    assert_eq!(p.get_state(), ProposalState::Expired);
    assert_eq!(p.get_for_weight(), 0);
    assert!(record.is_none());
}

#[test]
fn vote_errors_are_reported() {
    let mut f = setup(2);
    let mut p = open_proposal(&mut f, add_member_change(), 40, 100);
    let mut record = None;
    let err = vote_on_config_proposal_handler(
        &mut p,
        &Key::new([50; 32]),
        &Key::new(GROUP),
        &f.group,
        None,
        &f.members[1],
        None,
        &mut record,
        4,
        &member_key(0),
        VoteOnConfigProposalInstructionArgs { vote: VoteChoice::For },
        101,
    )
    .unwrap_err();
    assert_eq!(err, MultisigError::UnauthorizedVoter);
    let err = vote_on_config_proposal_handler(
        &mut p,
        &Key::new([50; 32]),
        &Key::new([4; 32]),
        &f.group,
        None,
        &f.members[0],
        None,
        &mut record,
        4,
        &member_key(0),
        VoteOnConfigProposalInstructionArgs { vote: VoteChoice::For },
        101,
    )
    .unwrap_err();
    assert_eq!(err, MultisigError::UnauthorizedVoter);
    let mut other = Some(VoteRecord::new(member_key(1), Key::new([50; 32]), None, 4, VoteChoice::For));
    let err = cast(&mut p, &f, 0, &mut other, VoteChoice::Against, 101).unwrap_err();
    assert_eq!(err, MultisigError::UnauthorizedVoter);
    assert_eq!(p.get_vote_count(), 0);
}

#[test]
fn asset_change_on_group_target_is_unexpected() {
    let mut f = setup(2);
    let mut p = open_proposal(&mut f, add_member_change(), 40, 100);
    p.config_change = ConfigChange::RemoveAssetMember { member: member_key(1), asset_address: Key::new([60; 32]) };
    let mut records = vec![None, None, None];
    cast(&mut p, &f, 0, &mut records[0], VoteChoice::For, 101).unwrap();
    cast(&mut p, &f, 1, &mut records[1], VoteChoice::For, 101).unwrap();
    let err = cast(&mut p, &f, 2, &mut records[2], VoteChoice::For, 101).unwrap_err();
    assert_eq!(err, MultisigError::UnexpectedConfigChange);
    assert_eq!(p.get_vote_count(), 2);
    assert!(records[2].is_none());
}

#[test]
fn proposer_without_propose_permission_is_refused() {
    let mut f = setup(2);
    f.members[0].set_propose(false);
    let args = CreateConfigProposalInstructionArgs {
        proposal_seed: Key::new([40; 32]),
        timelock_offset: 10,
        expiry_offset: 1000,
        config_change: add_member_change(),
    };
    let err = create_config_proposal_handler(&mut f.group, &Key::new(GROUP), &member_key(0), &f.members[0], None, args, 7, 100).unwrap_err();
    assert_eq!(err, MultisigError::InsufficientPermissions);
    assert_eq!(f.group.get_next_proposal_index(), 0);
}

fn pass(p: &mut ConfigProposal, f: &Fixture, now: i64) {
    let mut records = vec![None, None, None];
    for i in 0..3 {
        cast(p, f, i, &mut records[i], VoteChoice::For, now).unwrap();
    }
    assert_eq!(p.get_state(), ProposalState::Passed);
}

#[test]
fn scenario_applied_change_makes_earlier_proposals_stale() {
    let mut f = setup(2);
    let mut first = open_proposal(&mut f, add_member_change(), 40, 100);
    let mut second = open_proposal(&mut f, ConfigChange::RemoveGroupMember { member: member_key(4) }, 41, 100);
    let hash = [0u8; 32];
    let mut bundled = NormalProposal::new(
        member_key(0),
        Key::new([42; 32]),
        Key::new(GROUP),
        vec![ProposalAsset::new(0, 1, Key::new([60; 32]))],
        3,
        f.group.get_and_increment_proposal_index().unwrap(),
        hash,
        10,
        1000,
        100,
    )
    .unwrap();
    pass(&mut first, &f, 101);
    let early = add_group_member_handler(&mut f.group, &Key::new(GROUP), &first, &member_key(0), &Key::new(NEW_MEMBER), 9, 105).unwrap_err();
    assert_eq!(early, MultisigError::ProposalStillTimelocked);
    let added = add_group_member_handler(&mut f.group, &Key::new(GROUP), &first, &member_key(0), &Key::new(NEW_MEMBER), 9, 111).unwrap();
    assert!(added.get_user().equals(&Key::new(NEW_MEMBER)));
    assert_eq!(added.get_weight(), 20);
    assert_eq!(f.group.get_member_count(), 6);
    assert_eq!(f.group.get_next_proposal_index(), 3);
    assert_eq!(f.group.get_proposal_index_after_stale(), 3);

    let mut record = None;
    let err = cast(&mut second, &f, 0, &mut record, VoteChoice::For, 112).unwrap_err();
    assert_eq!(err, MultisigError::ProposalStale);
    assert!(record.is_none());

    let again = add_group_member_handler(&mut f.group, &Key::new(GROUP), &first, &member_key(0), &Key::new(NEW_MEMBER), 9, 112).unwrap_err();
    assert_eq!(again, MultisigError::ProposalStale);

    second.state = ProposalState::Passed;
    let removal = remove_group_member_handler(&mut f.group, &Key::new(GROUP), &second, &member_key(0), &Key::new([2; 32]), &f.members[4], 112).unwrap_err();
    assert_eq!(removal, MultisigError::ProposalStale);

    bundled.set_state(ProposalState::Passed).unwrap();
    let transaction = ProposalTransaction::new(
        Key::new(GROUP),
        bundled.get_proposal_index(),
        bundled.get_valid_from_timestamp(),
        vec![],
        vec![],
        SerializableInstruction { program_id: Key::new([5; 32]), accounts: vec![], data: vec![] },
        2,
    );
    let err = execute_proposal_transaction_handler(&f.group, &bundled, &transaction, &Key::new([2; 32]), 200).unwrap_err();
    assert_eq!(err, MultisigError::ProposalStale);
    assert_eq!(f.group.get_member_count(), 6);
}

#[test]
fn removal_keeps_member_floor() {
    let mut f = setup(2);
    let mut p = open_proposal(&mut f, ConfigChange::RemoveGroupMember { member: member_key(4) }, 40, 100);
    pass(&mut p, &f, 101);
    let wrong_collector = remove_group_member_handler(&mut f.group, &Key::new(GROUP), &p, &member_key(0), &Key::new([9; 32]), &f.members[4], 111).unwrap_err();
    assert_eq!(wrong_collector, MultisigError::UnexpectedRentCollector);
    let wrong_member = remove_group_member_handler(&mut f.group, &Key::new(GROUP), &p, &member_key(0), &Key::new([2; 32]), &f.members[3], 111).unwrap_err();
    assert_eq!(wrong_member, MultisigError::InvalidMember);
    remove_group_member_handler(&mut f.group, &Key::new(GROUP), &p, &member_key(0), &Key::new([2; 32]), &f.members[4], 111).unwrap();
    assert_eq!(f.group.get_member_count(), 4);
    assert_eq!(f.group.get_proposal_index_after_stale(), 1);

    let mut g = f.group;
    g.member_count = 3;
    assert_eq!(g.decrement_member_count().unwrap_err(), MultisigError::InvalidMemberCount);
    assert_eq!(g.get_member_count(), 3);
}
