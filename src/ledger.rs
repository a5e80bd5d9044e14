use vstd::prelude::*;
use crate::request::{address_param, u64_param, JsonRpcRequest};
use crate::types::{AccountAddress, RpcError};

verus! {

/// The version of a block and its timestamp in microseconds.
#[derive(Clone, Copy, Debug, PartialEq, Eq, Structural)]
pub struct BlockMetadata {
    pub version: u64,
    pub timestamp: u64,
}

/// What a metadata request needs: a timestamp lookup for an explicit version, or
/// nothing beyond the request's own snapshot.
#[derive(Clone, Copy, Debug, PartialEq, Eq, Structural)]
pub enum MetadataQuery {
    AtVersion { version: u64 },
    Current { metadata: BlockMetadata },
}

pub open spec fn metadata_query_spec(req: JsonRpcRequest) -> MetadataQuery {
    match u64_param(req, 0) {
        Some(v) => MetadataQuery::AtVersion { version: v },
        None => MetadataQuery::Current {
            metadata: BlockMetadata {
                version: req.ledger_info.version,
                timestamp: req.ledger_info.timestamp_usecs,
            },
        },
    }
}

pub open spec fn metadata_view_spec(query: MetadataQuery, timestamp: u64) -> BlockMetadata {
    match query {
        MetadataQuery::AtVersion { version } => BlockMetadata { version, timestamp },
        MetadataQuery::Current { metadata } => metadata,
    }
}

/// Reads `get_metadata(version?)`. A parameter that is not a version counts as none:
/// the request's snapshot answers.
pub fn get_metadata_query(request: &JsonRpcRequest) -> (r: MetadataQuery)
    ensures
        r == metadata_query_spec(*request),
{
    match request.u64_param(0) {
        Some(version) => MetadataQuery::AtVersion { version },
        None => MetadataQuery::Current {
            metadata: BlockMetadata {
                version: request.version(),
                timestamp: request.ledger_info.timestamp_usecs,
            },
        },
    }
}

/// The metadata answer, given the ledger reader's timestamp for an explicit version
/// (ignored when the snapshot answers).
pub fn get_metadata_view(query: &MetadataQuery, timestamp: u64) -> (r: BlockMetadata)
    ensures
        r == metadata_view_spec(*query, timestamp),
{
    match query {
        MetadataQuery::AtVersion { version } => BlockMetadata { version: *version, timestamp },
        MetadataQuery::Current { metadata } => *metadata,
    }
}

/// Reads `get_state_proof(known_version)`: the version the client last trusted.
pub fn get_state_proof_query(request: &JsonRpcRequest) -> (r: Result<u64, RpcError>)
    ensures
        u64_param(*request, 0) is Some ==> r == Ok::<u64, RpcError>(u64_param(*request, 0)->Some_0),
        u64_param(*request, 0) is None ==> r == Err::<u64, RpcError>(RpcError::InvalidParam { index: 0 }),
{
    match request.u64_param(0) {
        Some(v) => Ok(v),
        None => Err(RpcError::InvalidParam { index: 0 }),
    }
}

/// An account's state with its proof, at `version`, proved against `ledger_version`.
#[derive(Clone, Debug, PartialEq, Eq)]
pub struct AccountStateQuery {
    pub address: AccountAddress,
    pub version: u64,
    pub ledger_version: u64,
}

/// The version parameter at `index`, or the request's own version where it is not one.
pub open spec fn version_or_default(req: JsonRpcRequest, index: int) -> u64 {
    match u64_param(req, index) {
        Some(v) => v,
        None => req.ledger_info.version,
    }
}

/// Reads `get_account_state_with_proof(address, version?, ledger_version?)`; each
/// version that is not one falls back to the request's.
pub fn get_account_state_with_proof_query(request: &JsonRpcRequest) -> (r: Result<AccountStateQuery, RpcError>)
    ensures
        match address_param(*request, 0) {
            Err(e) => r == Err::<AccountStateQuery, RpcError>(e),
            Ok(b) => r is Ok && r->Ok_0.address.bytes@ == b && r->Ok_0.version == version_or_default(
                *request,
                1,
            ) && r->Ok_0.ledger_version == version_or_default(*request, 2),
        },
{
    let address = request.address_param(0)?;
    let version = match request.u64_param(1) {
        Some(v) => v,
        None => request.version(),
    };
    let ledger_version = match request.u64_param(2) {
        Some(v) => v,
        None => request.version(),
    };
    Ok(AccountStateQuery { address, version, ledger_version })
}

} // verus!
