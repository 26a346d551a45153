use vstd::prelude::*;

use crate::asset::Asset;
use crate::error::MultisigError;
use crate::group::Group;
use crate::key::Key;
use crate::member::{capped, AssetMember, GroupMember};
use crate::permissions::Permissions;
use crate::threshold::FractionalThreshold;

verus! {

/// The settings of a newly governed asset and its three initial members.
pub struct AddAssetMintInstructionArgs {
    pub member_key_1: Key,
    pub member_key_2: Key,
    pub member_key_3: Key,
    pub initial_weights: [u32; 3],
    pub initial_permissions: [Permissions; 3],
    pub use_threshold: FractionalThreshold,
    pub not_use_threshold: FractionalThreshold,
    pub add_threshold: FractionalThreshold,
    pub not_add_threshold: FractionalThreshold,
    pub remove_threshold: FractionalThreshold,
    pub not_remove_threshold: FractionalThreshold,
    pub change_config_threshold: FractionalThreshold,
    pub not_change_config_threshold: FractionalThreshold,
    pub minimum_member_count: u32,
    pub minimum_vote_count: u32,
}

pub type AddAssetTokenInstructionArgs = AddAssetMintInstructionArgs;

/// The authorities of a token mint, as the token program stores them.
#[derive(Debug, Clone, Copy)]
pub struct MintAuthorities {
    pub mint_authority: Option<Key>,
    pub freeze_authority: Option<Key>,
}

/// What the library reads of a token account.
#[derive(Debug, Clone, Copy)]
pub struct TokenAccountState {
    pub initialized: bool,
    pub owner: Key,
    pub delegate: Option<Key>,
    pub close_authority: Option<Key>,
}

impl AddAssetMintInstructionArgs {
    pub open spec fn member_keys(&self) -> Seq<Key> {
        seq![self.member_key_1, self.member_key_2, self.member_key_3]
    }

    /// The asset as the arguments describe it, before its members are counted.
    pub open spec fn fresh_asset(&self, asset_key: Key, asset_bump: u8, authority_bump: u8) -> Asset {
        Asset {
            asset_address: asset_key,
            use_threshold: self.use_threshold,
            not_use_threshold: self.not_use_threshold,
            add_threshold: self.add_threshold,
            not_add_threshold: self.not_add_threshold,
            remove_threshold: self.remove_threshold,
            not_remove_threshold: self.not_remove_threshold,
            change_config_threshold: self.change_config_threshold,
            not_change_config_threshold: self.not_change_config_threshold,
            member_count: 0,
            minimum_member_count: self.minimum_member_count,
            minimum_vote_count: self.minimum_vote_count,
            account_bump: asset_bump,
            authority_bump,
        }
    }
}

/// Why the asset and its members cannot be created, if they cannot.
pub open spec fn registration_error(
    group_key: Key,
    adder: GroupMember,
    payer: Key,
    group_members: Seq<GroupMember>,
    args: AddAssetMintInstructionArgs,
    asset_key: Key,
) -> Option<MultisigError> {
    let a = args.fresh_asset(asset_key, 0, 0);
    if adder.user@ != payer@ || adder.group@ != group_key@ {
        Some(MultisigError::InvalidMember)
    } else if !adder.permissions.can_add_asset() {
        Some(MultisigError::InsufficientPermissions)
    } else if exists|i: int| 0 <= i < 3 && ((#[trigger] group_members[i]).user@ != args.member_keys()[i]@
        || group_members[i].group@ != group_key@) {
        Some(MultisigError::InvalidMember)
    } else if !a.thresholds_valid() || a.minimum_vote_count == 0 {
        Some(MultisigError::InvalidThreshold)
    } else if a.minimum_member_count == 0 {
        Some(MultisigError::InvalidMemberCount)
    } else if exists|i: int| 0 <= i < 3 && !(#[trigger] args.initial_permissions@[i]).valid() {
        Some(MultisigError::InvalidPermissions)
    } else if !(Asset { member_count: 3, ..a }).counts_ok() {
        Some(MultisigError::InvalidMemberCount)
    } else {
        None
    }
}

/// Why the mint is not under the asset's authority, if it is not.
pub open spec fn mint_error(mint: MintAuthorities, authority: Key) -> Option<MultisigError> {
    match mint.mint_authority {
        None => Some(MultisigError::AuthorityNotProvided),
        Some(m) => if m@ != authority@ {
            Some(MultisigError::InvalidMintMintAuthority)
        } else {
            match mint.freeze_authority {
                Some(f) => if f@ != authority@ { Some(MultisigError::InvalidMintMintAuthority) } else { None },
                None => None,
            }
        },
    }
}

/// Why the token account is not under the asset's authority, if it is not.
pub open spec fn token_error(token: TokenAccountState, authority: Key) -> Option<MultisigError> {
    if !token.initialized {
        Some(MultisigError::InvalidAccountState)
    } else if token.owner@ != authority@ {
        Some(MultisigError::InvalidTokenOwner)
    } else if token.delegate is Some {
        Some(MultisigError::InvalidTokenDelegate)
    } else {
        match token.close_authority {
            Some(c) => if c@ != authority@ { Some(MultisigError::InvalidCloseAuthority) } else { None },
            None => None,
        }
    }
}

/// The result of a registration that succeeds: the asset with its three
/// members counted, and the members.
pub open spec fn registered(
    r: Result<(Asset, Vec<AssetMember>), MultisigError>,
    group: Group,
    group_key: Key,
    args: AddAssetMintInstructionArgs,
    asset_key: Key,
    asset_bump: u8,
    authority_bump: u8,
    member_bumps: Seq<u8>,
) -> bool {
    r matches Ok((a, ms)) && {
        &&& a == (Asset { member_count: 3, ..args.fresh_asset(asset_key, asset_bump, authority_bump) })
        &&& a.wf()
        &&& ms@.len() == 3
        &&& forall|i: int| 0 <= i < 3 ==> #[trigger] ms@[i] == (AssetMember {
            user: args.member_keys()[i],
            group: group_key,
            asset: asset_key,
            permissions: args.initial_permissions@[i],
            weight: capped(args.initial_weights@[i], group.max_member_weight),
            account_bump: member_bumps[i],
        })
    }
}

fn register_asset(
    group: &Group,
    group_key: &Key,
    adder: &GroupMember,
    payer: &Key,
    group_members: &[GroupMember; 3],
    args: &AddAssetMintInstructionArgs,
    asset_key: &Key,
    asset_bump: u8,
    authority_bump: u8,
    member_bumps: [u8; 3],
) -> (r: Result<(Asset, Vec<AssetMember>), MultisigError>)
    ensures
        match registration_error(*group_key, *adder, *payer, group_members@, *args, *asset_key) {
            Some(e) => r == Err::<(Asset, Vec<AssetMember>), MultisigError>(e),
            None => registered(r, *group, *group_key, *args, *asset_key, asset_bump, authority_bump, member_bumps@),
        },
{
    if !adder.user.equals(payer) || !adder.group.equals(group_key) {
        return Err(MultisigError::InvalidMember);
    }
    if !adder.has_add_asset() {
        return Err(MultisigError::InsufficientPermissions);
    }
    let keys = [args.member_key_1, args.member_key_2, args.member_key_3];
    assert(keys@ =~= args.member_keys());
    let mut i: usize = 0;
    while i < 3
        invariant
            i <= 3,
            keys@ == args.member_keys(),
            adder.user@ == payer@ && adder.group@ == group_key@,
            adder.permissions.can_add_asset(),
            forall|k: int| 0 <= k < i ==> !((#[trigger] group_members@[k]).user@ != args.member_keys()[k]@
                || group_members@[k].group@ != group_key@),
        decreases 3 - i,
    {
        if !group_members[i].user.equals(&keys[i]) || !group_members[i].group.equals(group_key) {
            assert(group_members@[i as int].user@ != args.member_keys()[i as int]@ || group_members@[i as int].group@ != group_key@);
            return Err(MultisigError::InvalidMember);
        }
        i = i + 1;
    }
    let mut asset = Asset::new(
        *asset_key,
        args.use_threshold,
        args.not_use_threshold,
        args.add_threshold,
        args.not_add_threshold,
        args.remove_threshold,
        args.not_remove_threshold,
        args.change_config_threshold,
        args.not_change_config_threshold,
        args.minimum_member_count,
        args.minimum_vote_count,
        asset_bump,
        authority_bump,
    )?;
    let mut members: Vec<AssetMember> = Vec::new();
    let mut i: usize = 0;
    while i < 3
        invariant
            i <= 3,
            keys@ == args.member_keys(),
            registration_error(*group_key, *adder, *payer, group_members@, *args, *asset_key) == (
                if exists|k: int| 0 <= k < 3 && !(#[trigger] args.initial_permissions@[k]).valid() {
                    Some(MultisigError::InvalidPermissions)
                } else if !(Asset { member_count: 3, ..args.fresh_asset(*asset_key, 0, 0) }).counts_ok() {
                    Some(MultisigError::InvalidMemberCount)
                } else {
                    None
                }),
            asset == (Asset { member_count: i as u32, ..args.fresh_asset(*asset_key, asset_bump, authority_bump) }),
            asset.wf(),
            forall|k: int| 0 <= k < i ==> (#[trigger] args.initial_permissions@[k]).valid(),
            members@.len() == i,
            forall|k: int| 0 <= k < i ==> #[trigger] members@[k] == (AssetMember {
                user: args.member_keys()[k],
                group: *group_key,
                asset: *asset_key,
                permissions: args.initial_permissions@[k],
                weight: capped(args.initial_weights@[k], group.max_member_weight),
                account_bump: member_bumps@[k],
            }),
        decreases 3 - i,
    {
        let m = match AssetMember::new(
            keys[i],
            *group_key,
            *asset_key,
            args.initial_permissions[i],
            args.initial_weights[i],
            member_bumps[i],
            group.max_member_weight,
        ) {
            Ok(m) => m,
            Err(e) => {
                assert(!args.initial_permissions@[i as int].valid());
                return Err(e);
            },
        };
        members.push(m);
        asset.increment_member_count()?;
        i = i + 1;
    }
    if asset.member_count <= asset.minimum_vote_count || asset.member_count < asset.minimum_member_count {
        return Err(MultisigError::InvalidMemberCount);
    }
    Ok((asset, members))
}

/// Registers a token mint as a governed asset of the group, with three initial
/// members; the mint must be minted, and frozen if at all, by the asset's authority.
pub fn add_asset_mint_handler(
    group: &Group,
    group_key: &Key,
    adder: &GroupMember,
    payer: &Key,
    group_members: &[GroupMember; 3],
    args: AddAssetMintInstructionArgs,
    mint_key: &Key,
    mint: MintAuthorities,
    asset_authority: &Key,
    asset_bump: u8,
    authority_bump: u8,
    member_bumps: [u8; 3],
) -> (r: Result<(Asset, Vec<AssetMember>), MultisigError>)
    ensures
        match registration_error(*group_key, *adder, *payer, group_members@, args, *mint_key) {
            Some(e) => r == Err::<(Asset, Vec<AssetMember>), MultisigError>(e),
            None => match mint_error(mint, *asset_authority) {
                Some(e) => r == Err::<(Asset, Vec<AssetMember>), MultisigError>(e),
                None => registered(r, *group, *group_key, args, *mint_key, asset_bump, authority_bump, member_bumps@),
            },
        },
{
    let created = register_asset(group, group_key, adder, payer, group_members, &args, mint_key, asset_bump, authority_bump, member_bumps)?;
    match mint.mint_authority {
        None => return Err(MultisigError::AuthorityNotProvided),
        Some(m) => {
            if !m.equals(asset_authority) {
                return Err(MultisigError::InvalidMintMintAuthority);
            }
        },
    }
    if let Some(f) = mint.freeze_authority {
        if !f.equals(asset_authority) {
            return Err(MultisigError::InvalidMintMintAuthority);
        }
    }
    Ok(created)
}

/// Registers a token account as a governed asset of the group, with three
/// initial members; the account must be initialized, owned by the asset's
/// authority, without delegate, and closable by that authority alone.
pub fn add_asset_token_handler(
    group: &Group,
    group_key: &Key,
    adder: &GroupMember,
    payer: &Key,
    group_members: &[GroupMember; 3],
    args: AddAssetTokenInstructionArgs,
    token_key: &Key,
    token: TokenAccountState,
    asset_authority: &Key,
    asset_bump: u8,
    authority_bump: u8,
    member_bumps: [u8; 3],
) -> (r: Result<(Asset, Vec<AssetMember>), MultisigError>)
    ensures
        match registration_error(*group_key, *adder, *payer, group_members@, args, *token_key) {
            Some(e) => r == Err::<(Asset, Vec<AssetMember>), MultisigError>(e),
            None => match token_error(token, *asset_authority) {
                Some(e) => r == Err::<(Asset, Vec<AssetMember>), MultisigError>(e),
                None => registered(r, *group, *group_key, args, *token_key, asset_bump, authority_bump, member_bumps@),
            },
        },
{
    let created = register_asset(group, group_key, adder, payer, group_members, &args, token_key, asset_bump, authority_bump, member_bumps)?;
    if !token.initialized {
        return Err(MultisigError::InvalidAccountState);
    }
    if !token.owner.equals(asset_authority) {
        return Err(MultisigError::InvalidTokenOwner);
    }
    if token.delegate.is_some() {
        return Err(MultisigError::InvalidTokenDelegate);
    }
    if let Some(c) = token.close_authority {
        if !c.equals(asset_authority) {
            return Err(MultisigError::InvalidCloseAuthority);
        }
    }
    Ok(created)
}

} // verus!
