use multisig::{
    create_group_handler, CreateGroupInstructionArgs, FractionalThreshold, Key, MultisigError,
    Permissions,
};

fn default_args() -> CreateGroupInstructionArgs {
    let positive_threshold = FractionalThreshold::new_from_values(1, 2).unwrap();
    let negative_threshold = FractionalThreshold::new_from_values(1, 3).unwrap();
    CreateGroupInstructionArgs {
        group_seed: Key::new([1; 32]),
        rent_collector: Key::new([2; 32]),
        add_threshold: positive_threshold,
        not_add_threshold: negative_threshold,
        remove_threshold: positive_threshold,
        not_remove_threshold: negative_threshold,
        change_config_threshold: positive_threshold,
        not_change_config_threshold: negative_threshold,
        max_member_weight: 100,
        minimum_member_count: 5,
        minimum_vote_count: 3,
        member_weights: [20; 5],
        member_permissions: [Permissions::from_flags(true, true); 5],
        default_timelock_offset: 0,
        expiry_offset: 1000,
    }
}

fn members() -> [Key; 5] {
    [
        Key::new([10; 32]),
        Key::new([11; 32]),
        Key::new([12; 32]),
        Key::new([13; 32]),
        Key::new([14; 32]),
    ]
}

fn create(args: CreateGroupInstructionArgs) -> Result<(multisig::Group, Vec<multisig::GroupMember>), MultisigError> {
    create_group_handler(args, &Key::new([3; 32]), members(), 255, [250, 251, 252, 253, 254])
}

#[test]
fn test_passing() {
    let (group, created) = create(default_args()).unwrap();
    assert_eq!(group.get_member_count(), 5);
    assert_eq!(group.get_minimum_vote_count(), 3);
    assert_eq!(group.get_minimum_member_count(), 5);
    assert_eq!(group.get_max_member_weight(), 100);
    assert_eq!(group.get_next_proposal_index(), 0);
    assert_eq!(group.get_proposal_index_after_stale(), 0);
    assert_eq!(created.len(), 5);
    for (i, m) in created.iter().enumerate() {
        assert!(m.get_user().equals(&members()[i]));
        assert!(m.get_group().equals(&Key::new([3; 32])));
        assert_eq!(m.get_weight(), 20);
        assert!(m.has_propose());
        assert!(m.has_add_asset());
        assert_eq!(m.get_account_bump(), 250 + i as u8);
    }
}

#[test]
fn test_fails_with_invalid_threshold() {
    let invalid = [
        FractionalThreshold::from_unchecked(1, 0),
        FractionalThreshold::from_unchecked(0, 1),
        FractionalThreshold::from_unchecked(1, 1),
        FractionalThreshold::from_unchecked(7, 3),
    ];
    for t in invalid {
        let mut args = default_args();
        args.add_threshold = t;
        args.not_add_threshold = t;
        args.remove_threshold = t;
        args.not_remove_threshold = t;
        args.change_config_threshold = t;
        args.not_change_config_threshold = t;
        assert_eq!(create(args).unwrap_err(), MultisigError::InvalidThreshold);
    }
    let mut args = default_args();
    args.not_change_config_threshold = FractionalThreshold::from_unchecked(3, 3);
    assert_eq!(create(args).unwrap_err(), MultisigError::InvalidThreshold);
}

#[test]
fn test_fails_with_invalid_permissions() {
    let invalid = [0b0000_0011u8 | 0b0000_0100, 0b0000_0011 | 0b0000_1000, 0b0000_0011 | 0b0001_0000, 0b1000_0000 | 0b0101_0101];
    for bits in invalid {
        let mut args = default_args();
        args.member_permissions = [Permissions::from_unchecked(bits); 5];
        assert_eq!(create(args).unwrap_err(), MultisigError::InvalidPermissions);
    }
    let mut args = default_args();
    args.member_permissions[4] = Permissions::from_unchecked(0b0100_0000);
    assert_eq!(create(args).unwrap_err(), MultisigError::InvalidPermissions);
}

#[test]
fn test_fails_with_invalid_minimum_member_count() {
    for count in [6u32, 1000, u32::MAX] {
        let mut args = default_args();
        args.minimum_member_count = count;
        assert_eq!(create(args).unwrap_err(), MultisigError::InvalidMemberCount);
    }
}

#[test]
fn test_fails_with_invalid_minimum_vote_count() {
    for count in [5u32, 6, 12, 20] {
        let mut args = default_args();
        args.minimum_vote_count = count;
        assert_eq!(create(args).unwrap_err(), MultisigError::InvalidMemberCount);
    }
}

#[test]
fn member_weight_is_capped_at_group_maximum() {
    let mut args = default_args();
    args.member_weights = [20, 100, 101, 5000, 0];
    let (_, created) = create(args).unwrap();
    let weights: Vec<u32> = created.iter().map(|m| m.get_weight()).collect();
    assert_eq!(weights, vec![20, 100, 100, 100, 0]);
}
