use vstd::prelude::*;

verus! {

/// A block position: revision number first, then the height within the revision.
#[derive(Clone, Copy, Debug, PartialEq, Eq, Structural)]
pub struct Height {
    pub revision_number: u64,
    pub revision_height: u64,
}

impl Height {
    pub open spec fn spec_lt(self, other: Height) -> bool {
        self.revision_number < other.revision_number || (self.revision_number
            == other.revision_number && self.revision_height < other.revision_height)
    }

    pub fn new(revision_number: u64, revision_height: u64) -> (r: Height)
        ensures
            r.revision_number == revision_number,
            r.revision_height == revision_height,
    {
        Height { revision_number, revision_height }
    }

    /// Lexicographic comparison on (revision number, revision height).
    pub fn less_than(&self, other: &Height) -> (r: bool)
        ensures
            r == self.spec_lt(*other),
    {
        self.revision_number < other.revision_number || (self.revision_number
            == other.revision_number && self.revision_height < other.revision_height)
    }
}

/// Identifier of the chain that produced a block.
#[derive(Clone, Debug, PartialEq, Eq)]
pub struct ChainId {
    pub id: String,
}

impl ChainId {
    pub fn new(id: String) -> (r: ChainId)
        ensures
            r.id == id,
    {
        ChainId { id }
    }

    pub fn as_str(&self) -> (r: &str)
        ensures
            r@ == self.id@,
    {
        self.id.as_str()
    }
}

/// One member of a validator set.
#[derive(Clone, Debug, PartialEq, Eq)]
pub struct Validator {
    pub pub_key: Vec<u8>,
    pub voting_power: u64,
}

/// An ordered collection of validators.
#[derive(Clone, Debug, PartialEq, Eq)]
pub struct ValidatorSet {
    pub validators: Vec<Validator>,
}

/// The consensus protocol versions of a block.
#[derive(Clone, Copy, Debug, PartialEq, Eq, Structural)]
pub struct Version {
    pub block: u64,
    pub app: u64,
}

/// A point in time: seconds since the Unix epoch and nanoseconds within the second.
#[derive(Clone, Copy, Debug, PartialEq, Eq, Structural)]
pub struct Timestamp {
    pub seconds: i64,
    pub nanos: i32,
}

#[derive(Clone, Debug, PartialEq, Eq)]
pub struct PartSetHeader {
    pub total: u32,
    pub hash: Vec<u8>,
}

/// Identifies a block by its hash and the header of its part set.
#[derive(Clone, Debug, PartialEq, Eq)]
pub struct BlockId {
    pub hash: Vec<u8>,
    pub part_set_header: PartSetHeader,
}

/// A block header: every field that the chain hashes. An empty hash field
/// stands for an absent hash.
#[derive(Clone, Debug, PartialEq, Eq)]
pub struct BlockHeader {
    pub version: Version,
    pub chain_id: ChainId,
    pub height: Height,
    pub time: Timestamp,
    pub last_block_id: Option<BlockId>,
    pub last_commit_hash: Vec<u8>,
    pub data_hash: Vec<u8>,
    pub validators_hash: Vec<u8>,
    pub next_validators_hash: Vec<u8>,
    pub consensus_hash: Vec<u8>,
    pub app_hash: Vec<u8>,
    pub last_results_hash: Vec<u8>,
    pub evidence_hash: Vec<u8>,
    pub proposer_address: Vec<u8>,
}

/// A vote for a block by the validator at `validator_index` in the set.
#[derive(Clone, Debug, PartialEq, Eq)]
pub struct CommitSig {
    pub validator_index: u64,
    pub signature: Vec<u8>,
}

/// The signatures that commit to the block whose hash is `block_hash`.
#[derive(Clone, Debug, PartialEq, Eq)]
pub struct Commit {
    pub block_hash: Vec<u8>,
    pub signatures: Vec<CommitSig>,
}

#[derive(Clone, Debug, PartialEq, Eq)]
pub struct SignedHeader {
    pub header: BlockHeader,
    pub commit: Commit,
}

/// A candidate signed block with the validator sets claimed to have produced it
/// and the trust data that links it to an earlier verified header.
/// No invariant holds here: every check is made when evidence is built.
#[derive(Clone, Debug, PartialEq, Eq)]
pub struct Header {
    pub signed_header: SignedHeader,
    pub validators: ValidatorSet,
    pub next_validators: Option<ValidatorSet>,
    pub trusted_height: Height,
    pub trusted_next_validators: ValidatorSet,
}

/// The parts of a header that block validation consumes.
pub struct UntrustedBlockState<'a> {
    pub signed_header: &'a SignedHeader,
    pub validators: &'a ValidatorSet,
    pub next_validators: Option<&'a ValidatorSet>,
}

impl Header {
    pub fn height(&self) -> (r: Height)
        ensures
            r == self.signed_header.header.height,
    {
        self.signed_header.header.height
    }

    pub fn as_untrusted_block_state(&self) -> (r: UntrustedBlockState<'_>)
        ensures
            *r.signed_header == self.signed_header,
            *r.validators == self.validators,
            r.next_validators.is_some() == self.next_validators.is_some(),
            self.next_validators.is_some() ==> *r.next_validators.unwrap()
                == self.next_validators.unwrap(),
    {
        UntrustedBlockState {
            signed_header: &self.signed_header,
            validators: &self.validators,
            next_validators: match &self.next_validators {
                Some(v) => Some(v),
                None => None,
            },
        }
    }
}

/// The bytes of an optional byte string.
pub open spec fn opt_view(o: Option<Vec<u8>>) -> Option<Seq<u8>> {
    match o {
        Some(v) => Some(v@),
        None => None,
    }
}

/// Whether two byte strings are equal.
pub fn bytes_eq(a: &Vec<u8>, b: &Vec<u8>) -> (r: bool)
    ensures
        r == (a@ == b@),
{
    if a.len() != b.len() {
        return false;
    }
    let mut i: usize = 0;
    while i < a.len()
        invariant
            a@.len() == b@.len(),
            i <= a@.len(),
            forall|j: int| 0 <= j < i ==> a@[j] == b@[j],
        decreases a@.len() - i,
    {
        if a[i] != b[i] {
            return false;
        }
        i = i + 1;
    }
    assert(a@ =~= b@);
    true
}

} // verus!
