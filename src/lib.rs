//! Misbehaviour evidence for tendermint light clients: two headers of one
//! chain, each proved well formed (validator-set hashes, header-commit
//! binding, a quorum of signatures) before the evidence exists.

pub mod types;
pub mod hasher;
pub mod commit;
pub mod misbehaviour;
pub mod attributes;

pub use attributes::{
    ChannelIdAttribute, ConnectionIdAttribute, CounterpartyChannelIdAttribute,
    CounterpartyPortIdAttribute, EventAttribute, PortIdAttribute, VersionAttribute,
};
pub use commit::{
    CommitFault, CommitValidator, ProdCommitValidator, TrustThreshold, Verdict, VotingPowerTally,
};
pub use hasher::{Hasher, ProdHasher};
pub use misbehaviour::{
    ClientError, ClientId, Envelope, Error, Misbehaviour, RawMisbehaviour,
    TENDERMINT_MISBEHAVIOUR_TYPE_URL,
};
pub use types::{
    BlockHeader, BlockId, ChainId, Commit, CommitSig, Header, Height, PartSetHeader, SignedHeader,
    Timestamp, UntrustedBlockState, Validator, ValidatorSet, Version,
};
