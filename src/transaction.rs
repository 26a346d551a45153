use vstd::prelude::*;

use crate::bundle::{NormalProposal, ProposalAsset};
use crate::error::MultisigError;
use crate::group::Group;
use crate::key::{bytes32_eq, Key};
use crate::proposal::ProposalState;

verus! {

/// One account that the bundled instruction names.
#[derive(Debug, Clone, Copy)]
pub struct SerailizableAccountMeta {
    pub key: Key,
    pub is_writable: bool,
    pub is_signer: bool,
}

impl View for SerailizableAccountMeta {
    type V = (Seq<u8>, bool, bool);

    open spec fn view(&self) -> (Seq<u8>, bool, bool) {
        (self.key@, self.is_writable, self.is_signer)
    }
}

impl SerailizableAccountMeta {
    /// Bytes that one account takes when serialized.
    pub fn get_size() -> (r: usize)
        ensures
            r == 34,
    {
        32 + 1 + 1
    }
}

/// The instruction that a bundled proposal runs once it passed: a program, the
/// accounts it touches and its data.
#[derive(Debug, Clone)]
pub struct SerializableInstruction {
    pub program_id: Key,
    pub accounts: Vec<SerailizableAccountMeta>,
    pub data: Vec<u8>,
}

pub type InstructionView = (Seq<u8>, Seq<(Seq<u8>, bool, bool)>, Seq<u8>);

impl View for SerializableInstruction {
    type V = InstructionView;

    open spec fn view(&self) -> InstructionView {
        (self.program_id@, self.accounts@.map_values(|m: SerailizableAccountMeta| m@), self.data@)
    }
}

impl SerializableInstruction {
    /// Bytes that the instruction takes when serialized.
    pub fn get_size(&self) -> (r: usize)
        requires
            32 + 4 + 34 * self.accounts@.len() + 4 + self.data@.len() <= usize::MAX,
        ensures
            r == 32 + 4 + 34 * self.accounts@.len() + 4 + self.data@.len(),
    {
        32 + (4 + self.accounts.len() * SerailizableAccountMeta::get_size()) + (4 + self.data.len())
    }
}

/// A little-endian 32-bit length prefix.
pub open spec fn le_value(s: Seq<u8>) -> int {
    s[0] + 256 * s[1] + 65536 * s[2] + 16777216 * s[3]
}

pub open spec fn flag_ok(b: u8) -> bool {
    b == 0 || b == 1
}

/// The account entry at position `i` has well-formed flag bytes.
pub open spec fn meta_ok(b: Seq<u8>, i: int) -> bool {
    flag_ok(b[36 + 34 * i + 32]) && flag_ok(b[36 + 34 * i + 33])
}

/// The account entry at position `i`.
pub open spec fn meta_at(b: Seq<u8>, i: int) -> (Seq<u8>, bool, bool) {
    let p = 36 + 34 * i;
    (b.subrange(p, p + 32), b[p + 32] == 1, b[p + 33] == 1)
}

/// The instruction that `b` serializes, if `b` is one: a 32-byte program key,
/// a 4-byte count of 34-byte account entries (key, writable flag, signer
/// flag; each flag 0 or 1), a 4-byte data length and exactly that much data.
pub open spec fn parse_instruction(b: Seq<u8>) -> Option<InstructionView> {
    if b.len() < 36 {
        None
    } else {
        let n = le_value(b.subrange(32, 36));
        let end = 36 + 34 * n;
        if b.len() < end + 4 {
            None
        } else if !(forall|i: int| 0 <= i < n ==> #[trigger] meta_ok(b, i)) {
            None
        } else {
            let dlen = le_value(b.subrange(end, end + 4));
            if b.len() != end + 4 + dlen {
                None
            } else {
                Some((b.subrange(0, 32), Seq::new(n as nat, |i: int| meta_at(b, i)), b.subrange(end + 4, b.len() as int)))
            }
        }
    }
}

fn read_u32_le(b: &Vec<u8>, pos: usize) -> (r: u32)
    requires
        pos + 4 <= b@.len(),
    ensures
        r == le_value(b@.subrange(pos as int, pos + 4)),
{
    let len = b.len();
    assert(pos + 4 <= len);
    let b0 = b[pos] as u32;
    let b1 = b[pos + 1] as u32;
    let b2 = b[pos + 2] as u32;
    let b3 = b[pos + 3] as u32;
    assert(b0 <= 255 && b1 <= 255 && b2 <= 255 && b3 <= 255);
    b0 + b1 * 256 + b2 * 65536 + b3 * 16777216
}

fn read_key(b: &Vec<u8>, pos: usize) -> (r: Key)
    requires
        pos + 32 <= b@.len(),
    ensures
        r@ == b@.subrange(pos as int, pos + 32),
{
    let len = b.len();
    assert(pos + 32 <= len);
    let mut bytes = [0u8; 32];
    let mut j: usize = 0;
    while j < 32
        invariant
            j <= 32,
            pos + 32 <= b@.len(),
            b@.len() <= usize::MAX,
            bytes@.len() == 32,
            forall|k: int| 0 <= k < j ==> bytes@[k] == b@[pos + k],
        decreases 32 - j,
    {
        bytes.set(j, b[pos + j]);
        j = j + 1;
    }
    assert(bytes@ =~= b@.subrange(pos as int, pos + 32));
    Key { bytes }
}

/// Decodes the serialized form of a bundled instruction.
pub fn decode_instruction(bytes: &Vec<u8>) -> (r: Result<SerializableInstruction, MultisigError>)
    ensures
        r is Ok <==> parse_instruction(bytes@) is Some,
        r matches Ok(ix) ==> parse_instruction(bytes@) == Some(ix@),
        r is Err ==> r == Err::<SerializableInstruction, MultisigError>(MultisigError::InstructionDeserializationFailed),
{
    let len = bytes.len();
    if len < 36 {
        return Err(MultisigError::InstructionDeserializationFailed);
    }
    let program_id = read_key(bytes, 0);
    let n32 = read_u32_le(bytes, 32);
    let end64: u64 = 36 + 34 * (n32 as u64);
    if (len as u64) < end64 + 4 {
        return Err(MultisigError::InstructionDeserializationFailed);
    }
    let n = n32 as usize;
    let end = end64 as usize;
    let mut accounts: Vec<SerailizableAccountMeta> = Vec::new();
    let mut i: usize = 0;
    let mut pos: usize = 36;
    while i < n
        invariant
            len == bytes@.len(),
            n == le_value(bytes@.subrange(32, 36)),
            end == 36 + 34 * n,
            end + 4 <= len,
            i <= n,
            pos == 36 + 34 * i,
            forall|k: int| 0 <= k < i ==> #[trigger] meta_ok(bytes@, k),
            accounts@.map_values(|m: SerailizableAccountMeta| m@) =~= Seq::new(i as nat, |k: int| meta_at(bytes@, k)),
        decreases n - i,
    {
        let key = read_key(bytes, pos);
        let w = bytes[pos + 32];
        let s = bytes[pos + 33];
        if w > 1 || s > 1 {
            assert(!meta_ok(bytes@, i as int));
            return Err(MultisigError::InstructionDeserializationFailed);
        }
        let meta = SerailizableAccountMeta { key, is_writable: w == 1, is_signer: s == 1 };
        let ghost before = accounts@;
        accounts.push(meta);
        proof {
            assert(meta@ == meta_at(bytes@, i as int));
            assert(accounts@.map_values(|m: SerailizableAccountMeta| m@) =~= before.map_values(|m: SerailizableAccountMeta| m@).push(meta@));
            assert(Seq::new((i + 1) as nat, |k: int| meta_at(bytes@, k)) =~= Seq::new(i as nat, |k: int| meta_at(bytes@, k)).push(meta_at(bytes@, i as int)));
            assert(meta_ok(bytes@, i as int));
        }
        pos = pos + 34;
        i = i + 1;
    }
    let dlen = read_u32_le(bytes, end) as usize;
    if len - (end + 4) != dlen {
        return Err(MultisigError::InstructionDeserializationFailed);
    }
    let mut data: Vec<u8> = Vec::new();
    let mut j: usize = end + 4;
    while j < len
        invariant
            len == bytes@.len(),
            end + 4 <= j <= len,
            data@ =~= bytes@.subrange(end + 4, j as int),
        decreases len - j,
    {
        data.push(bytes[j]);
        j = j + 1;
        assert(data@ =~= bytes@.subrange(end + 4, j as int));
    }
    let ix = SerializableInstruction { program_id, accounts, data };
    assert(ix@.1 =~= Seq::new(n as nat, |k: int| meta_at(bytes@, k)));
    Ok(ix)
}

/// What an outside function computes: the SHA-256 digest of `bytes`.
pub uninterp spec fn sha256_of(bytes: Seq<u8>) -> Seq<u8>;

/// Relies on `solana_program::hash::hash` (re-exported by anchor_lang): the
/// SHA-256 digest of the bytes, as its 32 bytes.
#[verifier::external_body]
fn instruction_digest(bytes: &Vec<u8>) -> (r: [u8; 32])
    ensures
        r@ == sha256_of(bytes@),
{
    anchor_lang::solana_program::hash::hash(bytes).to_bytes()
}

/// A bundled instruction staged for execution, with the positions of the
/// governed assets among its accounts and their authority bumps.
#[derive(Debug, Clone)]
pub struct ProposalTransaction {
    pub group: Key,
    pub proposal_index: u64,
    pub valid_from: i64,
    pub asset_indices: Vec<u8>,
    pub asset_authority_bumps: Vec<u8>,
    pub instruction: SerializableInstruction,
    pub account_bump: u8,
}

impl ProposalTransaction {
    pub fn new(
        group: Key,
        proposal_index: u64,
        valid_from: i64,
        asset_indices: Vec<u8>,
        asset_authority_bumps: Vec<u8>,
        instruction: SerializableInstruction,
        account_bump: u8,
    ) -> (r: ProposalTransaction)
        ensures
            r.group == group,
            r.proposal_index == proposal_index,
            r.valid_from == valid_from,
            r.asset_indices@ == asset_indices@,
            r.asset_authority_bumps@ == asset_authority_bumps@,
            r.instruction@ == instruction@,
            r.account_bump == account_bump,
    {
        ProposalTransaction { group, proposal_index, valid_from, asset_indices, asset_authority_bumps, instruction, account_bump }
    }

    pub fn get_group(&self) -> (r: Key)
        ensures
            r == self.group,
    {
        self.group
    }

    pub fn get_proposal_index(&self) -> (r: u64)
        ensures
            r == self.proposal_index,
    {
        self.proposal_index
    }

    pub fn get_account_bump(&self) -> (r: u8)
        ensures
            r == self.account_bump,
    {
        self.account_bump
    }

    pub fn get_valid_from(&self) -> (r: i64)
        ensures
            r == self.valid_from,
    {
        self.valid_from
    }

    /// Bytes that a staged transaction takes, given the asset count and the
    /// size of the serialized instruction.
    pub fn get_size(asset_len: usize, instruction_size: usize) -> (r: usize)
        requires
            32 + 8 + 8 + 2 * (4 + asset_len) + 4 + instruction_size + 1 <= usize::MAX,
        ensures
            r == 32 + 8 + 8 + 2 * (4 + asset_len) + 4 + instruction_size + 1,
    {
        32 + 8 + 8 + (4 + asset_len) + (4 + asset_len) + 4 + instruction_size + 1
    }
}

/// Why the governed assets of `assets` do not line up with the accounts `metas`
/// of the instruction, if they do not.
pub open spec fn asset_alignment_error(assets: Seq<ProposalAsset>, metas: Seq<(Seq<u8>, bool, bool)>) -> Option<MultisigError> {
    if metas.len() < assets.len() {
        Some(MultisigError::NotEnoughAccountKeys)
    } else if exists|j: int| 0 <= j < assets.len() && #[trigger] assets[j].index >= metas.len() {
        Some(MultisigError::InvalidAssetIndex)
    } else if exists|j: int| 0 <= j < assets.len() && #[trigger] metas[assets[j].index as int].0 != assets[j].asset@ {
        Some(MultisigError::UnexpectedAsset)
    } else {
        None
    }
}

/// Why `raw` cannot be staged for `proposal` of `group`, given that `digest`
/// is its SHA-256 digest, if it cannot.
pub open spec fn staging_error(group: Group, group_key: Key, proposal: NormalProposal, raw: Seq<u8>, digest: Seq<u8>) -> Option<MultisigError> {
    if proposal.group@ != group_key@ {
        Some(MultisigError::UnexpectedGroup)
    } else if proposal.state != ProposalState::Open && proposal.state != ProposalState::Passed {
        Some(MultisigError::ProposalNotOpen)
    } else if proposal.proposal_index < group.proposal_index_after_stale {
        Some(MultisigError::ProposalStale)
    } else if digest != proposal.instruction_hash@ {
        Some(MultisigError::InvalidInstructionHash)
    } else {
        match parse_instruction(raw) {
            None => Some(MultisigError::InstructionDeserializationFailed),
            Some(ix) => asset_alignment_error(proposal.assets@, ix.1),
        }
    }
}

/// Stages the serialized instruction `raw`, whose SHA-256 digest is `digest`,
/// for a current bundled proposal of the group: the digest must be the one
/// the proposal committed to, and each governed asset must sit at its
/// position among the accounts.
pub fn create_proposal_transaction_from_digest(
    group: &Group,
    group_key: &Key,
    proposal: &NormalProposal,
    raw_instruction: &Vec<u8>,
    digest: [u8; 32],
    transaction_bump: u8,
) -> (r: Result<ProposalTransaction, MultisigError>)
    ensures
        match staging_error(*group, *group_key, *proposal, raw_instruction@, digest@) {
            Some(e) => r == Err::<ProposalTransaction, MultisigError>(e),
            None => r matches Ok(t) && {
                &&& Some(t.instruction@) == parse_instruction(raw_instruction@)
                &&& t.group == proposal.group
                &&& t.proposal_index == proposal.proposal_index
                &&& t.valid_from == proposal.valid_from_timestamp
                &&& t.asset_indices@ == proposal.assets@.map_values(|a: ProposalAsset| a.index)
                &&& t.asset_authority_bumps@ == proposal.assets@.map_values(|a: ProposalAsset| a.authority_bump)
                &&& t.account_bump == transaction_bump
            },
        },
{
    if !proposal.group.equals(group_key) {
        return Err(MultisigError::UnexpectedGroup);
    }
    if proposal.state != ProposalState::Open && proposal.state != ProposalState::Passed {
        return Err(MultisigError::ProposalNotOpen);
    }
    if !group.is_current(proposal.proposal_index) {
        return Err(MultisigError::ProposalStale);
    }
    if !bytes32_eq(&digest, &proposal.instruction_hash) {
        return Err(MultisigError::InvalidInstructionHash);
    }
    let instruction = decode_instruction(raw_instruction)?;
    let n = proposal.assets.len();
    let m = instruction.accounts.len();
    if m < n {
        return Err(MultisigError::NotEnoughAccountKeys);
    }
    let ghost metas = instruction@.1;
    assert(metas.len() == m);
    let mut j: usize = 0;
    while j < n
        invariant
            n == proposal.assets@.len(),
            m == instruction.accounts@.len(),
            metas == instruction@.1,
            metas.len() == m,
            m >= n,
            staging_error(*group, *group_key, *proposal, raw_instruction@, digest@) == asset_alignment_error(proposal.assets@, metas),
            j <= n,
            forall|k: int| 0 <= k < j ==> (#[trigger] proposal.assets@[k]).index < m,
        decreases n - j,
    {
        if proposal.assets[j].index as usize >= m {
            assert(proposal.assets@[j as int].index >= metas.len());
            return Err(MultisigError::InvalidAssetIndex);
        }
        j = j + 1;
    }
    let mut indices: Vec<u8> = Vec::new();
    let mut bumps: Vec<u8> = Vec::new();
    let mut j: usize = 0;
    while j < n
        invariant
            n == proposal.assets@.len(),
            m == instruction.accounts@.len(),
            metas == instruction@.1,
            metas.len() == m,
            m >= n,
            staging_error(*group, *group_key, *proposal, raw_instruction@, digest@) == asset_alignment_error(proposal.assets@, metas),
            j <= n,
            forall|k: int| 0 <= k < n ==> (#[trigger] proposal.assets@[k]).index < m,
            forall|k: int| 0 <= k < j ==> metas[(#[trigger] proposal.assets@[k]).index as int].0 == proposal.assets@[k].asset@,
            indices@ =~= proposal.assets@.subrange(0, j as int).map_values(|a: ProposalAsset| a.index),
            bumps@ =~= proposal.assets@.subrange(0, j as int).map_values(|a: ProposalAsset| a.authority_bump),
        decreases n - j,
    {
        let pa = proposal.assets[j];
        let i = pa.index as usize;
        assert(metas[i as int] == instruction.accounts@[i as int]@);
        if !instruction.accounts[i].key.equals(&pa.asset) {
            assert(metas[proposal.assets@[j as int].index as int].0 != proposal.assets@[j as int].asset@);
            return Err(MultisigError::UnexpectedAsset);
        }
        indices.push(pa.index);
        bumps.push(pa.authority_bump);
        j = j + 1;
        assert(indices@ =~= proposal.assets@.subrange(0, j as int).map_values(|a: ProposalAsset| a.index));
        assert(bumps@ =~= proposal.assets@.subrange(0, j as int).map_values(|a: ProposalAsset| a.authority_bump));
    }
    assert(proposal.assets@.subrange(0, n as int) =~= proposal.assets@);
    Ok(
        ProposalTransaction::new(
            proposal.group,
            proposal.proposal_index,
            proposal.valid_from_timestamp,
            indices,
            bumps,
            instruction,
            transaction_bump,
        ),
    )
}

/// Stages the serialized instruction `raw_instruction` for a bundled proposal;
/// see `create_proposal_transaction_from_digest`, which this calls with the
/// SHA-256 digest of `raw_instruction`.
pub fn create_proposal_transaction_handler(
    group: &Group,
    group_key: &Key,
    proposal: &NormalProposal,
    raw_instruction: &Vec<u8>,
    transaction_bump: u8,
) -> (r: Result<ProposalTransaction, MultisigError>)
    ensures
        match staging_error(*group, *group_key, *proposal, raw_instruction@, sha256_of(raw_instruction@)) {
            Some(e) => r == Err::<ProposalTransaction, MultisigError>(e),
            None => r matches Ok(t) && {
                &&& Some(t.instruction@) == parse_instruction(raw_instruction@)
                &&& t.group == proposal.group
                &&& t.proposal_index == proposal.proposal_index
                &&& t.valid_from == proposal.valid_from_timestamp
                &&& t.asset_indices@ == proposal.assets@.map_values(|a: ProposalAsset| a.index)
                &&& t.asset_authority_bumps@ == proposal.assets@.map_values(|a: ProposalAsset| a.authority_bump)
                &&& t.account_bump == transaction_bump
            },
        },
{
    let digest = instruction_digest(raw_instruction);
    create_proposal_transaction_from_digest(group, group_key, proposal, raw_instruction, digest, transaction_bump)
}

/// The authority under which one governed asset takes part in an execution.
#[derive(Debug, Clone, Copy)]
pub struct AssetAuthority {
    pub asset: Key,
    pub bump: u8,
}

/// What the execution environment receives once a bundled proposal may run:
/// the group and, per governed asset, the authority it signs with.
#[derive(Debug, Clone)]
pub struct ExecutionGrant {
    pub group: Key,
    pub authorities: Vec<AssetAuthority>,
}

/// Why the staged transaction may not run now, if it may not.
pub open spec fn execution_error(
    group: Group,
    proposal: NormalProposal,
    transaction: ProposalTransaction,
    rent_collector: Key,
    now: i64,
) -> Option<MultisigError> {
    if rent_collector@ != group.rent_collector@ {
        Some(MultisigError::UnexpectedRentCollector)
    } else if proposal.state != ProposalState::Passed {
        Some(MultisigError::ProposalNotPassed)
    } else if now <= proposal.valid_from_timestamp {
        Some(MultisigError::ProposalStillTimelocked)
    } else if proposal.proposal_index < group.proposal_index_after_stale {
        Some(MultisigError::ProposalStale)
    } else if transaction.proposal_index != proposal.proposal_index || transaction.group@ != proposal.group@ {
        Some(MultisigError::UnexpectedProposal)
    } else if transaction.asset_indices@.len() != transaction.asset_authority_bumps@.len()
        || exists|j: int| 0 <= j < transaction.asset_indices@.len()
            && #[trigger] transaction.asset_indices@[j] >= transaction.instruction.accounts@.len() {
        Some(MultisigError::InvalidAssetIndex)
    } else {
        None
    }
}

/// Checks that a passed, current bundled proposal is past its timelock and
/// hands out the authority of each governed asset for the execution.
pub fn execute_proposal_transaction_handler(
    group: &Group,
    proposal: &NormalProposal,
    transaction: &ProposalTransaction,
    rent_collector: &Key,
    now: i64,
) -> (r: Result<ExecutionGrant, MultisigError>)
    ensures
        match execution_error(*group, *proposal, *transaction, *rent_collector, now) {
            Some(e) => r == Err::<ExecutionGrant, MultisigError>(e),
            None => r matches Ok(grant) && grant.group == proposal.group && grant.authorities@.len() == transaction.asset_indices@.len()
                && forall|j: int| 0 <= j < grant.authorities@.len() ==> #[trigger] grant.authorities@[j] == (AssetAuthority {
                    asset: transaction.instruction.accounts@[transaction.asset_indices@[j] as int].key,
                    bump: transaction.asset_authority_bumps@[j],
                }),
        },
{
    if !rent_collector.equals(&group.rent_collector) {
        return Err(MultisigError::UnexpectedRentCollector);
    }
    if proposal.state != ProposalState::Passed {
        return Err(MultisigError::ProposalNotPassed);
    }
    if now <= proposal.valid_from_timestamp {
        return Err(MultisigError::ProposalStillTimelocked);
    }
    if !group.is_current(proposal.proposal_index) {
        return Err(MultisigError::ProposalStale);
    }
    if transaction.proposal_index != proposal.proposal_index || !transaction.group.equals(&proposal.group) {
        return Err(MultisigError::UnexpectedProposal);
    }
    let n = transaction.asset_indices.len();
    if n != transaction.asset_authority_bumps.len() {
        return Err(MultisigError::InvalidAssetIndex);
    }
    let m = transaction.instruction.accounts.len();
    let mut authorities: Vec<AssetAuthority> = Vec::new();
    let mut j: usize = 0;
    while j < n
        invariant
            n == transaction.asset_indices@.len(),
            n == transaction.asset_authority_bumps@.len(),
            m == transaction.instruction.accounts@.len(),
            rent_collector@ == group.rent_collector@,
            proposal.state == ProposalState::Passed,
            now > proposal.valid_from_timestamp,
            proposal.proposal_index >= group.proposal_index_after_stale,
            transaction.proposal_index == proposal.proposal_index,
            transaction.group@ == proposal.group@,
            j <= n,
            forall|k: int| 0 <= k < j ==> transaction.asset_indices@[k] < m,
            authorities@.len() == j,
            forall|k: int| 0 <= k < j ==> #[trigger] authorities@[k] == (AssetAuthority {
                asset: transaction.instruction.accounts@[transaction.asset_indices@[k] as int].key,
                bump: transaction.asset_authority_bumps@[k],
            }),
        decreases n - j,
    {
        let i = transaction.asset_indices[j] as usize;
        if i >= m {
            assert(transaction.asset_indices@[j as int] >= transaction.instruction.accounts@.len());
            return Err(MultisigError::InvalidAssetIndex);
        }
        authorities.push(AssetAuthority { asset: transaction.instruction.accounts[i].key, bump: transaction.asset_authority_bumps[j] });
        j = j + 1;
    }
    Ok(ExecutionGrant { group: proposal.group, authorities })
}

} // verus!
