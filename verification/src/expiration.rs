//! Block time and the expiration of grants.

use vstd::prelude::*;

verus! {

/// A point in time, in nanoseconds since the Unix epoch.
#[derive(Clone, Copy, Debug, PartialEq, Eq, Structural)]
pub struct Timestamp(pub u64);

impl Timestamp {
    /// The timestamp `nanos` nanoseconds after the epoch.
    pub fn from_nanos(nanos: u64) -> (time: Timestamp)
        ensures
            time == Timestamp(nanos),
    {
        Timestamp(nanos)
    }

    /// Nanoseconds since the epoch.
    pub fn nanos(&self) -> (nanos: u64)
        ensures
            nanos == self.0,
    {
        self.0
    }
}

/// The block in which an operation runs: what grants are measured against.
#[derive(Clone, Copy, Debug, PartialEq, Eq, Structural)]
pub struct BlockInfo {
    /// Number of blocks that precede this one.
    pub height: u64,
    /// Time at which the block was created.
    pub time: Timestamp,
}

/// The moment from which a grant no longer authorizes.
#[derive(Clone, Copy, Debug, PartialEq, Eq, Structural)]
pub enum Expiration {
    /// Expired once the block height has reached the given height.
    AtHeight(u64),
    /// Expired once the block time has reached the given time.
    AtTime(Timestamp),
    /// Never expires.
    Never,
}

impl Expiration {
    /// Whether the grant has lapsed in `block`: the threshold itself already
    /// counts as expired.
    pub open spec fn expired_at(self, block: BlockInfo) -> bool {
        match self {
            Expiration::AtHeight(height) => block.height >= height,
            Expiration::AtTime(time) => block.time.0 >= time.0,
            Expiration::Never => false,
        }
    }

    /// Whether the grant has lapsed in `block`.
    pub fn is_expired(&self, block: &BlockInfo) -> (expired: bool)
        ensures
            expired == self.expired_at(*block),
    {
        outside_is_expired(*self, *block)
    }
}

impl Default for Expiration {
    /// A grant without a stated expiration never expires.
    fn default() -> (expires: Expiration)
        ensures
            expires == Expiration::Never,
    {
        Expiration::Never
    }
}

/// Trusted: asks `cw721::Expiration::is_expired` (the type is `cw0`'s, which
/// `cw721` hands on) whether `expires` has lapsed in a
/// `cosmwasm_std::BlockInfo` of the given height and time. The contract
/// claims what that function's variants document: a height or a time is
/// expired from the block that reaches it on, and `Never` is not expired in any
/// block. The block's chain id plays no part in the answer.
#[verifier::external_body]
fn outside_is_expired(expires: Expiration, block: BlockInfo) -> (expired: bool)
    ensures
        expired == expires.expired_at(block),
{
    let outside = match expires {
        Expiration::AtHeight(height) => cw721::Expiration::AtHeight(height),
        Expiration::AtTime(time) => {
            cw721::Expiration::AtTime(cosmwasm_std::Timestamp::from_nanos(time.0))
        },
        Expiration::Never => cw721::Expiration::Never {},
    };
    outside.is_expired(
        &cosmwasm_std::BlockInfo {
            height: block.height,
            time: cosmwasm_std::Timestamp::from_nanos(block.time.0),
            chain_id: String::new(),
        },
    )
}

} // verus!
