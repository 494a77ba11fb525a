use vstd::prelude::*;
use crate::commit::{sum_total_power, total_power};
use vstd::string::StrSliceExecFns;
use crate::types::{opt_view, BlockHeader, Validator, ValidatorSet};
use tendermint::block::Header as TmHeader;
use tendermint::validator::{Info, Set as TmValidatorSet};
use tendermint::vote::Power;
use tendermint::PublicKey;
use tendermint_proto::google::protobuf::Timestamp as RawTimestamp;
use tendermint_proto::types::{
    BlockId as RawBlockId, Header as RawHeader, PartSetHeader as RawPartSetHeader,
};
use tendermint_proto::version::Consensus;

verus! {

/// The largest total voting power that tendermint admits in a validator set.
pub const MAX_TOTAL_VOTING_POWER: u64 = 0x7fff_ffff_ffff_ffff;

/// The earliest and latest seconds since the Unix epoch that tendermint
/// admits in a header: the years 1 to 9999.
pub const MIN_HEADER_SECONDS: i64 = -62135596800;
pub const MAX_HEADER_SECONDS: i64 = 253402300799;

/// The hash that tendermint gives a validator set, listed as (key, power) pairs.
pub uninterp spec fn tm_validator_set_hash_of(validators: Seq<(Seq<u8>, u64)>) -> Seq<u8>;

/// The hash that tendermint gives a header.
pub uninterp spec fn tm_header_hash_of(header: BlockHeader) -> Seq<u8>;

/// The (key, power) pairs of a validator set, in order.
pub open spec fn validator_entries(set: ValidatorSet) -> Seq<(Seq<u8>, u64)> {
    set.validators@.map_values(|v: Validator| (v.pub_key@, v.voting_power))
}

/// Tendermint admits the set: ed25519 keys of 32 bytes, and a total power
/// within its bound.
pub open spec fn tm_validator_set_admissible(set: ValidatorSet) -> bool {
    &&& forall|i: int| 0 <= i < set.validators@.len() ==> (#[trigger] set.validators@[i]).pub_key@.len() == 32
    &&& total_power(set, set.validators@.len() as int) <= MAX_TOTAL_VOTING_POWER
}

pub open spec fn hash_len_ok(b: Seq<u8>) -> bool {
    b.len() == 0 || b.len() == 32
}

pub open spec fn chain_id_char(c: char) -> bool {
    ('a' <= c && c <= 'z') || ('A' <= c && c <= 'Z') || ('0' <= c && c <= '9') || c == '-'
        || c == '_' || c == '.'
}

/// Tendermint admits every field of the header: a chain identifier of 1 to
/// 50 characters, a height and time within range, hashes that are empty or
/// 32 bytes, a 20-byte proposer address, and no last block on a first block.
pub open spec fn tm_header_admissible(h: BlockHeader) -> bool {
    &&& 1 <= h.chain_id.id@.len() <= 50
    &&& forall|i: int| 0 <= i < h.chain_id.id@.len() ==> chain_id_char(#[trigger] h.chain_id.id@[i])
    &&& h.height.revision_height <= i64::MAX
    &&& 0 <= h.time.nanos <= 999_999_999
    &&& MIN_HEADER_SECONDS <= h.time.seconds <= MAX_HEADER_SECONDS
    &&& match h.last_block_id {
        Some(b) => hash_len_ok(b.hash@) && hash_len_ok(b.part_set_header.hash@) && (
        h.height.revision_height == 1 ==> b.hash@.len() == 0 && b.part_set_header.total == 0
            && b.part_set_header.hash@.len() == 0),
        None => true,
    }
    &&& hash_len_ok(h.last_commit_hash@)
    &&& hash_len_ok(h.data_hash@)
    &&& hash_len_ok(h.validators_hash@)
    &&& hash_len_ok(h.next_validators_hash@)
    &&& hash_len_ok(h.consensus_hash@)
    &&& hash_len_ok(h.last_results_hash@)
    &&& hash_len_ok(h.evidence_hash@)
    &&& h.proposer_address@.len() == 20
}

/// Relies on `tendermint::validator::Set::hash` over `Set::without_proposer`
/// of `Info::new` for each validator. `PublicKey::from_raw_ed25519` admits
/// any 32 bytes, `vote::Power` any power up to `i64::MAX`, and `Set::new`
/// unwraps the total power as a `vote::Power`.
#[verifier::external_body]
fn tm_validator_set_hash(set: &ValidatorSet) -> (r: Vec<u8>)
    requires
        tm_validator_set_admissible(*set),
    ensures
        r@ == tm_validator_set_hash_of(validator_entries(*set)),
{
    let infos: Option<Vec<Info>> = set.validators.iter().map(|v| {
        Some(Info::new(PublicKey::from_raw_ed25519(&v.pub_key)?, Power::try_from(v.voting_power).ok()?))
    }).collect();
    TmValidatorSet::without_proposer(infos.expect("keys of 32 bytes")).hash().as_bytes().to_vec()
}

/// Relies on `tendermint::block::Header::try_from` of the wire header, which
/// admits exactly the headers of `tm_header_admissible`, and on `Header::hash`.
#[verifier::external_body]
fn tm_header_hash(header: &BlockHeader) -> (r: Vec<u8>)
    requires
        tm_header_admissible(*header),
    ensures
        r@ == tm_header_hash_of(*header),
{
    let BlockHeader { version: v, chain_id, height, time: t, last_block_id, last_commit_hash, data_hash, validators_hash, next_validators_hash, consensus_hash, app_hash, last_results_hash, evidence_hash, proposer_address } = header.clone();
    let raw = RawHeader { version: Some(Consensus { block: v.block, app: v.app }), chain_id: chain_id.id,
        height: height.revision_height as i64, time: Some(RawTimestamp { seconds: t.seconds, nanos: t.nanos }),
        last_block_id: last_block_id.map(|b| RawBlockId { hash: b.hash, part_set_header: Some(RawPartSetHeader { total: b.part_set_header.total, hash: b.part_set_header.hash }) }),
        last_commit_hash, data_hash, validators_hash, next_validators_hash, consensus_hash, app_hash, last_results_hash, evidence_hash, proposer_address };
    TmHeader::try_from(raw).expect("admitted header").hash().as_bytes().to_vec()
}

fn hash_len_ok_exec(b: &Vec<u8>) -> (r: bool)
    ensures
        r == hash_len_ok(b@),
{
    b.len() == 0 || b.len() == 32
}

fn chain_id_ok(s: &String) -> (r: bool)
    ensures
        r == (1 <= s@.len() <= 50 && forall|i: int| 0 <= i < s@.len() ==> chain_id_char(#[trigger] s@[i])),
{
    let t: &str = s.as_str();
    let n: usize = t.unicode_len();
    if n < 1 || n > 50 {
        return false;
    }
    let mut i: usize = 0;
    while i < n
        invariant
            n == t@.len(),
            t@ == s@,
            i <= n,
            forall|j: int| 0 <= j < i ==> chain_id_char(#[trigger] t@[j]),
        decreases n - i,
    {
        let c: char = t.get_char(i);
        if !(('a' <= c && c <= 'z') || ('A' <= c && c <= 'Z') || ('0' <= c && c <= '9') || c == '-'
            || c == '_' || c == '.') {
            return false;
        }
        i = i + 1;
    }
    true
}

/// Whether tendermint admits every field of the header.
pub fn header_admissible(h: &BlockHeader) -> (r: bool)
    ensures
        r == tm_header_admissible(*h),
{
    let ids_ok: bool = match &h.last_block_id {
        Some(b) => hash_len_ok_exec(&b.hash) && hash_len_ok_exec(&b.part_set_header.hash) && (
        h.height.revision_height != 1 || (b.hash.len() == 0 && b.part_set_header.total == 0
            && b.part_set_header.hash.len() == 0)),
        None => true,
    };
    chain_id_ok(&h.chain_id.id) && h.height.revision_height <= i64::MAX as u64 && 0 <= h.time.nanos
        && h.time.nanos <= 999_999_999 && MIN_HEADER_SECONDS <= h.time.seconds && h.time.seconds
        <= MAX_HEADER_SECONDS && ids_ok && hash_len_ok_exec(&h.last_commit_hash) && hash_len_ok_exec(
        &h.data_hash,
    ) && hash_len_ok_exec(&h.validators_hash) && hash_len_ok_exec(&h.next_validators_hash)
        && hash_len_ok_exec(&h.consensus_hash) && hash_len_ok_exec(&h.last_results_hash)
        && hash_len_ok_exec(&h.evidence_hash) && h.proposer_address.len() == 20
}

/// Whether tendermint admits the validator set.
pub fn validator_set_admissible(set: &ValidatorSet) -> (r: bool)
    ensures
        r == tm_validator_set_admissible(*set),
{
    let mut i: usize = 0;
    while i < set.validators.len()
        invariant
            i <= set.validators@.len(),
            forall|j: int| 0 <= j < i ==> (#[trigger] set.validators@[j]).pub_key@.len() == 32,
        decreases set.validators@.len() - i,
    {
        if set.validators[i].pub_key.len() != 32 {
            return false;
        }
        i = i + 1;
    }
    match sum_total_power(set) {
        Some(total) => total <= MAX_TOTAL_VOTING_POWER,
        None => false,
    }
}

/// Digests of validator sets and headers, as the verified chain computes
/// them; `None` where the chain admits no such value.
pub trait Hasher {
    spec fn validator_set_digest(&self, set: ValidatorSet) -> Option<Seq<u8>>;

    spec fn header_digest(&self, header: BlockHeader) -> Option<Seq<u8>>;

    fn hash_validator_set(&self, set: &ValidatorSet) -> (r: Option<Vec<u8>>)
        ensures
            opt_view(r) == self.validator_set_digest(*set),
    ;

    fn hash_header(&self, header: &BlockHeader) -> (r: Option<Vec<u8>>)
        ensures
            opt_view(r) == self.header_digest(*header),
    ;
}

/// The hasher of tendermint chains: tendermint's own validator-set and
/// header hashes.
pub struct ProdHasher;

impl Hasher for ProdHasher {
    open spec fn validator_set_digest(&self, set: ValidatorSet) -> Option<Seq<u8>> {
        if tm_validator_set_admissible(set) {
            Some(tm_validator_set_hash_of(validator_entries(set)))
        } else {
            None
        }
    }

    open spec fn header_digest(&self, header: BlockHeader) -> Option<Seq<u8>> {
        if tm_header_admissible(header) {
            Some(tm_header_hash_of(header))
        } else {
            None
        }
    }

    fn hash_validator_set(&self, set: &ValidatorSet) -> (r: Option<Vec<u8>>) {
        if validator_set_admissible(set) {
            Some(tm_validator_set_hash(set))
        } else {
            None
        }
    }

    fn hash_header(&self, header: &BlockHeader) -> (r: Option<Vec<u8>>) {
        if header_admissible(header) {
            Some(tm_header_hash(header))
        } else {
            None
        }
    }
}

} // verus!
