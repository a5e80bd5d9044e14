use vstd::prelude::*;

verus! {

/// The role a node plays in the network.
#[derive(Clone, Copy, Debug, PartialEq, Eq, Structural)]
pub enum RoleType {
    Validator,
    FullNode,
}

impl RoleType {
    pub open spec fn spec_name(self) -> Seq<char> {
        match self {
            RoleType::Validator => "validator"@,
            RoleType::FullNode => "full_node"@,
        }
    }

    /// The label under which metrics of this role are kept.
    pub fn as_str(&self) -> (r: &'static str)
        ensures
            r@ == self.spec_name(),
    {
        match self {
            RoleType::Validator => "validator",
            RoleType::FullNode => "full_node",
        }
    }
}

/// The identifier of the chain a node serves.
#[derive(Clone, Copy, Debug, PartialEq, Eq, Structural)]
pub struct ChainId {
    pub id: u8,
}

/// A signed statement that the ledger stood at `version` at time `timestamp_usecs`.
#[derive(Clone, Debug)]
pub struct LedgerInfo {
    pub version: u64,
    pub timestamp_usecs: u64,
    /// The attestation, opaque to this layer.
    pub signatures: Vec<u8>,
}

/// The length of an account address in bytes.
pub const ADDRESS_LENGTH: usize = 16;

/// The length of an event stream key in bytes: an 8-byte salt and an address.
pub const EVENT_KEY_LENGTH: usize = 24;

/// An account address; well formed when it has `ADDRESS_LENGTH` bytes.
#[derive(Clone, Debug, PartialEq, Eq)]
pub struct AccountAddress {
    pub bytes: Vec<u8>,
}

/// The outcome code of the admission pipeline.
#[derive(Clone, Copy, Debug, PartialEq, Eq, Structural)]
pub enum MempoolStatusCode {
    Accepted,
    InvalidSeqNumber,
    MempoolIsFull,
    TooManyTransactions,
    InvalidUpdate,
    VmError,
    UnknownStatus,
}

/// What the admission pipeline answered about a submitted transaction.
#[derive(Clone, Debug, PartialEq, Eq)]
pub struct MempoolStatus {
    pub code: MempoolStatusCode,
    pub message: String,
}

/// An execution status attached to a transaction that was evaluated.
#[derive(Clone, Copy, Debug, PartialEq, Eq, Structural)]
pub struct VmStatus {
    pub major_status: u64,
}

/// The errors a request can end in.
#[derive(Clone, Debug, PartialEq, Eq)]
pub enum RpcError {
    /// No method of that name is registered.
    MethodNotFound,
    /// Wrong parameter count, or a value out of its range.
    InvalidArguments,
    /// The parameter at `index` does not have the expected shape.
    InvalidParam { index: usize },
    /// Malformed hex or binary payload.
    DecodeError,
    /// The ledger reader answered in a shape that does not fit the request.
    StorageInvariantViolation,
    /// Events were requested but the entry for this transaction index is missing.
    MissingEvents { index: u64 },
    /// The admission pipeline rejected the transaction.
    AdmissionRejected { code: MempoolStatusCode, message: String },
    /// The transaction was evaluated and rejected at execution time.
    ExecutionStatusError { status: VmStatus },
}

/// The node identity shared by every handler invocation.
#[derive(Clone, Copy, Debug)]
pub struct JsonRpcService {
    pub role: RoleType,
    pub chain_id: ChainId,
}

impl JsonRpcService {
    pub fn new(role: RoleType, chain_id: ChainId) -> (r: Self)
        ensures
            r.role == role,
            r.chain_id == chain_id,
    {
        JsonRpcService { role, chain_id }
    }

    pub fn chain_id(&self) -> (r: ChainId)
        ensures
            r == self.chain_id,
    {
        self.chain_id
    }
}

} // verus!
