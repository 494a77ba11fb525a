use vstd::prelude::*;
use vstd::string::{StrSliceExecFns, StringExecFns};
use crate::commit::{CommitValidator, ProdCommitValidator, TrustThreshold, Verdict};
use crate::hasher::{Hasher, ProdHasher};
use crate::types::{bytes_eq, opt_view, ChainId, Header, Height, UntrustedBlockState};

verus! {

/// The type tag of tendermint misbehaviour in an envelope.
pub const TENDERMINT_MISBEHAVIOUR_TYPE_URL: &'static str = "/ibc.lightclients.tendermint.v1.Misbehaviour";

/// Whether `c` may stand in an identifier.
pub open spec fn id_char(c: char) -> bool {
    ('a' <= c && c <= 'z') || ('A' <= c && c <= 'Z') || ('0' <= c && c <= '9') || c == '.'
        || c == '_' || c == '+' || c == '-' || c == '#' || c == '[' || c == ']' || c == '<'
        || c == '>'
}

/// A client identifier: 9 to 64 characters, each one that `id_char` admits.
pub open spec fn valid_client_id(s: Seq<char>) -> bool {
    9 <= s.len() <= 64 && forall|i: int| 0 <= i < s.len() ==> id_char(#[trigger] s[i])
}

/// Identifier of the light client that the evidence is for; always valid.
#[derive(Debug, PartialEq, Eq)]
pub struct ClientId {
    id: String,
}

impl ClientId {
    #[verifier::type_invariant]
    spec fn inv(&self) -> bool {
        valid_client_id(self.id@)
    }

    pub closed spec fn spec_id(&self) -> String {
        self.id
    }

    /// The identifier `id`, or `None` where it is not a valid client identifier.
    pub fn from_string(id: String) -> (r: Option<ClientId>)
        ensures
            r.is_some() == valid_client_id(id@),
            r.is_some() ==> r.unwrap().spec_id() == id,
    {
        let t: &str = id.as_str();
        let n: usize = t.unicode_len();
        if n < 9 || n > 64 {
            return None;
        }
        let mut i: usize = 0;
        while i < n
            invariant
                n == t@.len(),
                t@ == id@,
                i <= n,
                forall|j: int| 0 <= j < i ==> id_char(#[trigger] t@[j]),
            decreases n - i,
        {
            let c: char = t.get_char(i);
            let ok: bool = ('a' <= c && c <= 'z') || ('A' <= c && c <= 'Z') || ('0' <= c && c
                <= '9') || c == '.' || c == '_' || c == '+' || c == '-' || c == '#' || c == '['
                || c == ']' || c == '<' || c == '>';
            if !ok {
                return None;
            }
            i = i + 1;
        }
        Some(ClientId { id })
    }

    pub fn as_str(&self) -> (r: &str)
        ensures
            r@ == self.spec_id()@,
    {
        self.id.as_str()
    }

    pub fn into_string(self) -> (r: String)
        ensures
            r == self.spec_id(),
            valid_client_id(r@),
    {
        proof {
            use_type_invariant(&self);
        }
        self.id
    }
}

/// Why evidence was rejected, as a value of specification.
pub enum Rejection {
    ChainIdMismatch,
    HeightOrdering { height1: Height, height2: Height },
    ValidatorSetMismatch { header_validators_hash: Seq<u8>, validators_hash: Option<Seq<u8>> },
    HeaderCommitMismatch { header_hash: Option<Seq<u8>>, commit_hash: Seq<u8> },
    InvalidCommit(Verdict),
    InvalidRawClientId { client_id: Seq<char> },
    MissingHeader1,
    MissingHeader2,
}

/// Why evidence was rejected.
#[derive(Clone, Debug, PartialEq, Eq)]
pub enum Error {
    /// The two headers name different chains.
    ChainIdMismatch,
    /// The first header is lower than the second.
    HeightOrdering { height1: Height, height2: Height },
    /// A validator set does not hash to what its header embeds; `validators_hash`
    /// is `None` where the set has no hash.
    ValidatorSetMismatch { header_validators_hash: Vec<u8>, validators_hash: Option<Vec<u8>> },
    /// A commit does not reference its own header's hash; `header_hash` is
    /// `None` where the header has no hash.
    HeaderCommitMismatch { header_hash: Option<Vec<u8>>, commit_hash: Vec<u8> },
    /// A commit's signatures failed validation.
    InvalidCommit(Verdict),
    /// The raw client identifier is not valid.
    InvalidRawClientId { client_id: String },
    /// The raw evidence holds no first header.
    MissingHeader1,
    /// The raw evidence holds no second header.
    MissingHeader2,
}

impl Error {
    pub open spec fn rejection(&self) -> Rejection {
        match self {
            Error::ChainIdMismatch => Rejection::ChainIdMismatch,
            Error::HeightOrdering { height1, height2 } => Rejection::HeightOrdering {
                height1: *height1,
                height2: *height2,
            },
            Error::ValidatorSetMismatch { header_validators_hash, validators_hash } =>
                Rejection::ValidatorSetMismatch {
                header_validators_hash: header_validators_hash@,
                validators_hash: opt_view(*validators_hash),
            },
            Error::HeaderCommitMismatch { header_hash, commit_hash } =>
                Rejection::HeaderCommitMismatch {
                header_hash: opt_view(*header_hash),
                commit_hash: commit_hash@,
            },
            Error::InvalidCommit(v) => Rejection::InvalidCommit(*v),
            Error::InvalidRawClientId { client_id } => Rejection::InvalidRawClientId {
                client_id: client_id@,
            },
            Error::MissingHeader1 => Rejection::MissingHeader1,
            Error::MissingHeader2 => Rejection::MissingHeader2,
        }
    }
}

/// The current validator set of `h` against the hash its header embeds.
pub open spec fn validators_fault<H: Hasher>(hasher: H, h: Header) -> Option<Rejection> {
    let computed = hasher.validator_set_digest(h.validators);
    let embedded = h.signed_header.header.validators_hash@;
    if computed == Some(embedded) {
        None
    } else {
        Some(
            Rejection::ValidatorSetMismatch {
                header_validators_hash: embedded,
                validators_hash: computed,
            },
        )
    }
}

/// The next validator set of `h`, where present, against the hash its header embeds.
pub open spec fn next_validators_fault<H: Hasher>(hasher: H, h: Header) -> Option<Rejection> {
    match h.next_validators {
        Some(next) => {
            let computed = hasher.validator_set_digest(next);
            let embedded = h.signed_header.header.next_validators_hash@;
            if computed == Some(embedded) {
                None
            } else {
                Some(
                    Rejection::ValidatorSetMismatch {
                        header_validators_hash: embedded,
                        validators_hash: computed,
                    },
                )
            }
        },
        None => None,
    }
}

/// The hash of the header of `h` against the hash its commit references.
pub open spec fn header_commit_fault<H: Hasher>(hasher: H, h: Header) -> Option<Rejection> {
    let header_hash = hasher.header_digest(h.signed_header.header);
    let commit_hash = h.signed_header.commit.block_hash@;
    if header_hash == Some(commit_hash) {
        None
    } else {
        Some(Rejection::HeaderCommitMismatch { header_hash, commit_hash })
    }
}

/// The first of the two commit checks of `h` that does not succeed.
pub open spec fn commit_fault<C: CommitValidator>(validator: C, h: Header) -> Option<Rejection> {
    let structural = validator.validate_verdict(h.signed_header, h.validators);
    let full = validator.validate_full_verdict(h.signed_header, h.validators);
    if structural != Verdict::Success {
        Some(Rejection::InvalidCommit(structural))
    } else if full != Verdict::Success {
        Some(Rejection::InvalidCommit(full))
    } else {
        None
    }
}

/// The first check that the pair fails, in this order: chain identifiers,
/// heights, current validator sets, next validator sets, header-commit
/// binding, commit signatures; each per-header check on `h1` before `h2`.
pub open spec fn evidence_rejection<H: Hasher, C: CommitValidator>(
    hasher: H,
    validator: C,
    h1: Header,
    h2: Header,
) -> Option<Rejection> {
    if h1.signed_header.header.chain_id.id@ != h2.signed_header.header.chain_id.id@ {
        Some(Rejection::ChainIdMismatch)
    } else if h1.signed_header.header.height.spec_lt(h2.signed_header.header.height) {
        Some(
            Rejection::HeightOrdering {
                height1: h1.signed_header.header.height,
                height2: h2.signed_header.header.height,
            },
        )
    } else if validators_fault(hasher, h1).is_some() {
        validators_fault(hasher, h1)
    } else if validators_fault(hasher, h2).is_some() {
        validators_fault(hasher, h2)
    } else if next_validators_fault(hasher, h1).is_some() {
        next_validators_fault(hasher, h1)
    } else if next_validators_fault(hasher, h2).is_some() {
        next_validators_fault(hasher, h2)
    } else if header_commit_fault(hasher, h1).is_some() {
        header_commit_fault(hasher, h1)
    } else if header_commit_fault(hasher, h2).is_some() {
        header_commit_fault(hasher, h2)
    } else if commit_fault(validator, h1).is_some() {
        commit_fault(validator, h1)
    } else if commit_fault(validator, h2).is_some() {
        commit_fault(validator, h2)
    } else {
        None
    }
}

/// The commit validator that evidence is checked with by default.
pub open spec fn prod_commit_validator() -> ProdCommitValidator {
    ProdCommitValidator { trust_threshold: TrustThreshold { numerator: 2, denominator: 3 } }
}

/// The first check that the pair fails under the default strategies.
pub open spec fn prod_rejection(h1: Header, h2: Header) -> Option<Rejection> {
    evidence_rejection(ProdHasher, prod_commit_validator(), h1, h2)
}

/// Evidence that one validator set signed two headers of one chain; the first
/// is at least as high as the second.
#[derive(Debug, PartialEq, Eq)]
pub struct Misbehaviour {
    client_id: ClientId,
    header1: Header,
    header2: Header,
}

impl Misbehaviour {
    #[verifier::type_invariant]
    spec fn inv(&self) -> bool {
        &&& self.header1.signed_header.header.chain_id.id@
            == self.header2.signed_header.header.chain_id.id@
        &&& !self.header1.signed_header.header.height.spec_lt(
            self.header2.signed_header.header.height,
        )
    }

    pub closed spec fn spec_client_id(&self) -> ClientId {
        self.client_id
    }

    pub closed spec fn spec_header1(&self) -> Header {
        self.header1
    }

    pub closed spec fn spec_header2(&self) -> Header {
        self.header2
    }

    fn verify_validator_sets(validators_hash: Option<Vec<u8>>, header_validators_hash: &Vec<u8>) -> (r:
        Result<(), Error>)
        ensures
            r.is_ok() == (opt_view(validators_hash) == Some(header_validators_hash@)),
            r.is_err() ==> r.unwrap_err().rejection() == (Rejection::ValidatorSetMismatch {
                header_validators_hash: header_validators_hash@,
                validators_hash: opt_view(validators_hash),
            }),
    {
        let matches: bool = match &validators_hash {
            Some(computed) => bytes_eq(header_validators_hash, computed),
            None => false,
        };
        if matches {
            Ok(())
        } else {
            Err(
                Error::ValidatorSetMismatch {
                    header_validators_hash: header_validators_hash.clone(),
                    validators_hash,
                },
            )
        }
    }

    fn verify_cur_validator_sets<H: Hasher>(hasher: &H, state: &UntrustedBlockState<'_>, header: &Header) -> (r:
        Result<(), Error>)
        requires
            *state.signed_header == header.signed_header,
            *state.validators == header.validators,
        ensures
            r.is_ok() == validators_fault(*hasher, *header).is_none(),
            r.is_err() ==> Some(r.unwrap_err().rejection()) == validators_fault(*hasher, *header),
    {
        let validators_hash: Option<Vec<u8>> = hasher.hash_validator_set(state.validators);
        Self::verify_validator_sets(validators_hash, &state.signed_header.header.validators_hash)
    }

    fn verify_next_validator_sets<H: Hasher>(hasher: &H, state: &UntrustedBlockState<'_>, header: &Header) -> (r:
        Result<(), Error>)
        requires
            *state.signed_header == header.signed_header,
            state.next_validators.is_some() == header.next_validators.is_some(),
            header.next_validators.is_some() ==> *state.next_validators.unwrap()
                == header.next_validators.unwrap(),
        ensures
            r.is_ok() == next_validators_fault(*hasher, *header).is_none(),
            r.is_err() ==> Some(r.unwrap_err().rejection()) == next_validators_fault(
                *hasher,
                *header,
            ),
    {
        match state.next_validators {
            Some(next) => {
                let validators_hash: Option<Vec<u8>> = hasher.hash_validator_set(next);
                Self::verify_validator_sets(
                    validators_hash,
                    &state.signed_header.header.next_validators_hash,
                )
            },
            None => Ok(()),
        }
    }

    fn verify_header_commit<H: Hasher>(hasher: &H, state: &UntrustedBlockState<'_>, header: &Header) -> (r:
        Result<(), Error>)
        requires
            *state.signed_header == header.signed_header,
        ensures
            r.is_ok() == header_commit_fault(*hasher, *header).is_none(),
            r.is_err() ==> Some(r.unwrap_err().rejection()) == header_commit_fault(
                *hasher,
                *header,
            ),
    {
        let header_hash: Option<Vec<u8>> = hasher.hash_header(&state.signed_header.header);
        let commit_hash: &Vec<u8> = &state.signed_header.commit.block_hash;
        let matches: bool = match &header_hash {
            Some(computed) => bytes_eq(computed, commit_hash),
            None => false,
        };
        if matches {
            Ok(())
        } else {
            Err(Error::HeaderCommitMismatch { header_hash, commit_hash: commit_hash.clone() })
        }
    }

    fn valid_commit<C: CommitValidator>(validator: &C, state: &UntrustedBlockState<'_>, header: &Header) -> (r:
        Result<(), Error>)
        requires
            *state.signed_header == header.signed_header,
            *state.validators == header.validators,
        ensures
            r.is_ok() == commit_fault(*validator, *header).is_none(),
            r.is_err() ==> Some(r.unwrap_err().rejection()) == commit_fault(*validator, *header),
    {
        let structural: Verdict = validator.validate(state.signed_header, state.validators);
        if structural != Verdict::Success {
            return Err(Error::InvalidCommit(structural));
        }
        let full: Verdict = validator.validate_full(state.signed_header, state.validators);
        if full != Verdict::Success {
            return Err(Error::InvalidCommit(full));
        }
        Ok(())
    }

    /// Builds evidence from two headers, checked with the given hasher and
    /// commit validator. It is returned only where every check passes;
    /// otherwise the first failing check, in the order of
    /// `evidence_rejection`, is reported.
    pub fn new_with<H: Hasher, C: CommitValidator>(
        hasher: &H,
        validator: &C,
        client_id: ClientId,
        header1: Header,
        header2: Header,
    ) -> (r: Result<Misbehaviour, Error>)
        ensures
            r.is_ok() == evidence_rejection(*hasher, *validator, header1, header2).is_none(),
            r.is_ok() ==> r.unwrap().spec_client_id() == client_id && r.unwrap().spec_header1()
                == header1 && r.unwrap().spec_header2() == header2,
            r.is_err() ==> Some(r.unwrap_err().rejection()) == evidence_rejection(
                *hasher,
                *validator,
                header1,
                header2,
            ),
    {
        if !header1.signed_header.header.chain_id.id.eq(&header2.signed_header.header.chain_id.id) {
            return Err(Error::ChainIdMismatch);
        }
        let height1: Height = header1.height();
        let height2: Height = header2.height();
        if height1.less_than(&height2) {
            return Err(Error::HeightOrdering { height1, height2 });
        }
        let state1: UntrustedBlockState<'_> = header1.as_untrusted_block_state();
        let state2: UntrustedBlockState<'_> = header2.as_untrusted_block_state();

        Self::verify_cur_validator_sets(hasher, &state1, &header1)?;
        Self::verify_cur_validator_sets(hasher, &state2, &header2)?;
        Self::verify_next_validator_sets(hasher, &state1, &header1)?;
        Self::verify_next_validator_sets(hasher, &state2, &header2)?;

        Self::verify_header_commit(hasher, &state1, &header1)?;
        Self::verify_header_commit(hasher, &state2, &header2)?;
        Self::valid_commit(validator, &state1, &header1)?;
        Self::valid_commit(validator, &state2, &header2)?;

        Ok(Misbehaviour { client_id, header1, header2 })
    }

    /// Builds evidence from two headers with tendermint's validator-set and
    /// header hashes and a commit validator at the two-thirds threshold.
    pub fn new(client_id: ClientId, header1: Header, header2: Header) -> (r: Result<
        Misbehaviour,
        Error,
    >)
        ensures
            r.is_ok() == prod_rejection(header1, header2).is_none(),
            r.is_ok() ==> r.unwrap().spec_client_id() == client_id && r.unwrap().spec_header1()
                == header1 && r.unwrap().spec_header2() == header2,
            r.is_err() ==> Some(r.unwrap_err().rejection()) == prod_rejection(header1, header2),
    {
        let validator: ProdCommitValidator = ProdCommitValidator::new(TrustThreshold::two_thirds());
        Self::new_with(&ProdHasher, &validator, client_id, header1, header2)
    }

    pub fn client_id(&self) -> (r: &ClientId)
        ensures
            *r == self.spec_client_id(),
    {
        &self.client_id
    }

    pub fn header1(&self) -> (r: &Header)
        ensures
            *r == self.spec_header1(),
    {
        &self.header1
    }

    pub fn header2(&self) -> (r: &Header)
        ensures
            *r == self.spec_header2(),
    {
        &self.header2
    }

    /// The height of the evidence: that of the first header.
    pub fn height(&self) -> (r: Height)
        ensures
            r == self.spec_header1().signed_header.header.height,
    {
        self.header1.height()
    }

    /// Whether the evidence is for the chain `chain_id`. Both headers name
    /// the same chain, as construction guarantees.
    pub fn chain_id_matches(&self, chain_id: &ChainId) -> (r: bool)
        ensures
            r == (self.spec_header1().signed_header.header.chain_id.id@ == chain_id.id@),
            r == (self.spec_header2().signed_header.header.chain_id.id@ == chain_id.id@),
    {
        proof {
            use_type_invariant(self);
        }
        self.header1.signed_header.header.chain_id.id.eq(&chain_id.id)
    }
}

/// Evidence as it stands on the wire, before any check.
#[derive(Clone, Debug, PartialEq, Eq)]
pub struct RawMisbehaviour {
    pub client_id: String,
    pub header_1: Option<Header>,
    pub header_2: Option<Header>,
}

/// The first fault of raw evidence: its client identifier, a missing header,
/// then the checks of `prod_rejection`.
pub open spec fn raw_rejection(raw: RawMisbehaviour) -> Option<Rejection> {
    if !valid_client_id(raw.client_id@) {
        Some(Rejection::InvalidRawClientId { client_id: raw.client_id@ })
    } else if raw.header_1.is_none() {
        Some(Rejection::MissingHeader1)
    } else if raw.header_2.is_none() {
        Some(Rejection::MissingHeader2)
    } else {
        prod_rejection(raw.header_1.unwrap(), raw.header_2.unwrap())
    }
}

/// A type tag and the payload that it describes.
#[derive(Clone, Debug, PartialEq, Eq)]
pub struct Envelope {
    pub type_url: String,
    pub value: Vec<u8>,
}

/// Why an envelope does not yield evidence.
#[derive(Clone, Debug, PartialEq, Eq)]
pub enum ClientError {
    /// The envelope's tag names no evidence that this library knows.
    UnknownMisbehaviourType { misbehaviour_type: String },
    /// The payload was read, and the evidence in it was rejected.
    Misbehaviour(Error),
}

impl Envelope {
    /// The envelope of an encoded tendermint misbehaviour.
    pub fn for_misbehaviour(value: Vec<u8>) -> (r: Envelope)
        ensures
            r.type_url@ == TENDERMINT_MISBEHAVIOUR_TYPE_URL@,
            r.value == value,
    {
        Envelope { type_url: <String as StringExecFns>::from_str(TENDERMINT_MISBEHAVIOUR_TYPE_URL), value }
    }

    /// The payload of tendermint misbehaviour. Any other tag is refused, and
    /// named in the error, before the payload is looked at.
    pub fn misbehaviour_payload(self) -> (r: Result<Vec<u8>, ClientError>)
        ensures
            self.type_url@ == TENDERMINT_MISBEHAVIOUR_TYPE_URL@ ==> r == Ok::<Vec<u8>, ClientError>(
                self.value,
            ),
            self.type_url@ != TENDERMINT_MISBEHAVIOUR_TYPE_URL@ ==> r == Err::<Vec<u8>, ClientError>(
                ClientError::UnknownMisbehaviourType { misbehaviour_type: self.type_url },
            ),
    {
        let known: String = <String as StringExecFns>::from_str(TENDERMINT_MISBEHAVIOUR_TYPE_URL);
        if self.type_url.eq(&known) {
            Ok(self.value)
        } else {
            Err(ClientError::UnknownMisbehaviourType { misbehaviour_type: self.type_url })
        }
    }
}

impl Misbehaviour {
    /// Checks raw evidence: its client identifier, that both headers are
    /// present, then everything that `new` checks.
    pub fn try_from_raw(raw: RawMisbehaviour) -> (r: Result<Misbehaviour, Error>)
        ensures
            r.is_ok() == raw_rejection(raw).is_none(),
            r.is_ok() ==> r.unwrap().spec_client_id().spec_id() == raw.client_id
                && Some(r.unwrap().spec_header1()) == raw.header_1 && Some(
                r.unwrap().spec_header2(),
            ) == raw.header_2,
            r.is_err() ==> Some(r.unwrap_err().rejection()) == raw_rejection(raw),
    {
        let RawMisbehaviour { client_id, header_1, header_2 } = raw;
        let shown: String = client_id.clone();
        let client_id: ClientId = match ClientId::from_string(client_id) {
            Some(c) => c,
            None => {
                return Err(Error::InvalidRawClientId { client_id: shown });
            },
        };
        let header1: Header = match header_1 {
            Some(h) => h,
            None => {
                return Err(Error::MissingHeader1);
            },
        };
        let header2: Header = match header_2 {
            Some(h) => h,
            None => {
                return Err(Error::MissingHeader2);
            },
        };
        Self::new(client_id, header1, header2)
    }

    /// The raw form of the evidence, as it is encoded.
    pub fn into_raw(self) -> (r: RawMisbehaviour)
        ensures
            r.client_id == self.spec_client_id().spec_id(),
            r.header_1 == Some(self.spec_header1()),
            r.header_2 == Some(self.spec_header2()),
            valid_client_id(r.client_id@),
    {
        let Misbehaviour { client_id, header1, header2 } = self;
        RawMisbehaviour {
            client_id: client_id.into_string(),
            header_1: Some(header1),
            header_2: Some(header2),
        }
    }
}

/// Every per-header check passes for `h`: its validator sets hash to what
/// its header embeds, its commit references its header, and its commit's
/// signatures pass both commit checks.
pub open spec fn header_passes<H: Hasher, C: CommitValidator>(
    hasher: H,
    validator: C,
    h: Header,
) -> bool {
    &&& validators_fault(hasher, h).is_none()
    &&& next_validators_fault(hasher, h).is_none()
    &&& header_commit_fault(hasher, h).is_none()
    &&& commit_fault(validator, h).is_none()
}

/// Headers of different chains are rejected for that reason, whatever their
/// heights and whatever else is wrong with them.
pub proof fn lemma_chain_id_mismatch_first<H: Hasher, C: CommitValidator>(
    hasher: H,
    validator: C,
    h1: Header,
    h2: Header,
)
    requires
        h1.signed_header.header.chain_id.id@ != h2.signed_header.header.chain_id.id@,
    ensures
        evidence_rejection(hasher, validator, h1, h2) == Some(Rejection::ChainIdMismatch),
{
}

/// Headers of one chain where the first is lower than the second are rejected
/// for their order, even where each header passes every other check.
pub proof fn lemma_height_order_second<H: Hasher, C: CommitValidator>(
    hasher: H,
    validator: C,
    h1: Header,
    h2: Header,
)
    requires
        h1.signed_header.header.chain_id.id@ == h2.signed_header.header.chain_id.id@,
        h1.signed_header.header.height.spec_lt(h2.signed_header.header.height),
    ensures
        evidence_rejection(hasher, validator, h1, h2) == Some(
            Rejection::HeightOrdering {
                height1: h1.signed_header.header.height,
                height2: h2.signed_header.header.height,
            },
        ),
{
}

/// Where the pair is otherwise in order and the first header's validator set
/// does not hash to its embedded hash (or has no hash), the rejection names both.
pub proof fn lemma_validator_set_mismatch<H: Hasher, C: CommitValidator>(
    hasher: H,
    validator: C,
    h1: Header,
    h2: Header,
)
    requires
        h1.signed_header.header.chain_id.id@ == h2.signed_header.header.chain_id.id@,
        !h1.signed_header.header.height.spec_lt(h2.signed_header.header.height),
        hasher.validator_set_digest(h1.validators) != Some(h1.signed_header.header.validators_hash@),
    ensures
        evidence_rejection(hasher, validator, h1, h2) == Some(
            Rejection::ValidatorSetMismatch {
                header_validators_hash: h1.signed_header.header.validators_hash@,
                validators_hash: hasher.validator_set_digest(h1.validators),
            },
        ),
{
}

/// Where both validator-set checks pass for both headers, and the first
/// header's commit references another hash than its own (or the header has
/// no hash), the rejection names both.
pub proof fn lemma_header_commit_mismatch<H: Hasher, C: CommitValidator>(
    hasher: H,
    validator: C,
    h1: Header,
    h2: Header,
)
    requires
        h1.signed_header.header.chain_id.id@ == h2.signed_header.header.chain_id.id@,
        !h1.signed_header.header.height.spec_lt(h2.signed_header.header.height),
        validators_fault(hasher, h1).is_none(),
        validators_fault(hasher, h2).is_none(),
        next_validators_fault(hasher, h1).is_none(),
        next_validators_fault(hasher, h2).is_none(),
        hasher.header_digest(h1.signed_header.header) != Some(h1.signed_header.commit.block_hash@),
    ensures
        evidence_rejection(hasher, validator, h1, h2) == Some(
            Rejection::HeaderCommitMismatch {
                header_hash: hasher.header_digest(h1.signed_header.header),
                commit_hash: h1.signed_header.commit.block_hash@,
            },
        ),
{
}

/// Where every hash check passes for both headers and the first header's
/// commit fails a commit check, the rejection is what that check returned: commit
/// checks come after every hash check.
pub proof fn lemma_commit_checked_last<H: Hasher, C: CommitValidator>(
    hasher: H,
    validator: C,
    h1: Header,
    h2: Header,
)
    requires
        h1.signed_header.header.chain_id.id@ == h2.signed_header.header.chain_id.id@,
        !h1.signed_header.header.height.spec_lt(h2.signed_header.header.height),
        validators_fault(hasher, h1).is_none(),
        validators_fault(hasher, h2).is_none(),
        next_validators_fault(hasher, h1).is_none(),
        next_validators_fault(hasher, h2).is_none(),
        header_commit_fault(hasher, h1).is_none(),
        header_commit_fault(hasher, h2).is_none(),
        commit_fault(validator, h1).is_some(),
    ensures
        evidence_rejection(hasher, validator, h1, h2) == commit_fault(validator, h1),
        evidence_rejection(hasher, validator, h1, h2) matches Some(Rejection::InvalidCommit(v))
            && v != Verdict::Success,
{
}

/// Two headers of one chain at one height that each pass every per-header
/// check are accepted, also where they are the same header: whether their
/// contents differ is not checked.
pub proof fn lemma_equal_height_accepted<H: Hasher, C: CommitValidator>(
    hasher: H,
    validator: C,
    h1: Header,
    h2: Header,
)
    requires
        h1.signed_header.header.chain_id.id@ == h2.signed_header.header.chain_id.id@,
        h1.signed_header.header.height == h2.signed_header.header.height,
        header_passes(hasher, validator, h1),
        header_passes(hasher, validator, h2),
    ensures
        evidence_rejection(hasher, validator, h1, h2).is_none(),
{
}

/// Evidence that `new` accepts survives the trip through its raw form: the
/// raw form of the same client identifier and headers passes every check
/// again, so `try_from_raw` gives back the same evidence.
pub proof fn lemma_round_trip(client_id: ClientId, header1: Header, header2: Header)
    requires
        valid_client_id(client_id.spec_id()@),
        prod_rejection(header1, header2).is_none(),
    ensures
        raw_rejection(
            RawMisbehaviour {
                client_id: client_id.spec_id(),
                header_1: Some(header1),
                header_2: Some(header2),
            },
        ).is_none(),
{
}

} // verus!
