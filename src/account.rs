use vstd::prelude::*;
use crate::request::{address_param, JsonRpcRequest};
use crate::types::{AccountAddress, RpcError};

verus! {

/// The result of extracting one resource from an account blob.
#[derive(Clone, Debug, PartialEq, Eq)]
pub enum Lookup<T> {
    Present(T),
    Absent,
    /// The resource is there but does not parse.
    Malformed,
}

/// The account resource proper.
#[derive(Clone, Debug, PartialEq, Eq)]
pub struct AccountResource {
    pub sequence_number: u64,
    pub authentication_key: Vec<u8>,
    pub delegated_key_rotation_capability: bool,
    pub delegated_withdrawal_capability: bool,
}

/// The amount an account holds in one currency.
#[derive(Clone, Debug, PartialEq, Eq)]
pub struct Balance {
    pub currency: String,
    pub amount: u64,
}

/// The part an account plays.
#[derive(Clone, Debug, PartialEq, Eq)]
pub enum AccountRole {
    Unknown,
    ChildVasp { parent_vasp_address: AccountAddress },
    ParentVasp { human_name: String, base_url: String },
    DesignatedDealer { human_name: String, base_url: String },
}

/// The four resources read from one account blob, in the order they are read.
#[derive(Clone, Debug, PartialEq, Eq)]
pub struct AccountParts {
    pub resource: Lookup<AccountResource>,
    pub balances: Lookup<Vec<Balance>>,
    pub role: Lookup<AccountRole>,
    pub freezing_bit: Lookup<bool>,
}

/// An account as a client sees it.
#[derive(Clone, Debug, PartialEq, Eq)]
pub struct AccountView {
    pub address: AccountAddress,
    pub balances: Vec<Balance>,
    pub sequence_number: u64,
    pub authentication_key: Vec<u8>,
    pub delegated_key_rotation_capability: bool,
    pub delegated_withdrawal_capability: bool,
    pub role: AccountRole,
    pub is_frozen: bool,
}

/// Reading the parts in order meets one that does not parse before one that is absent.
pub open spec fn hits_malformed(p: AccountParts) -> bool {
    ||| p.resource is Malformed
    ||| p.resource is Present && p.balances is Malformed
    ||| p.resource is Present && p.balances is Present && p.role is Malformed
    ||| p.resource is Present && p.balances is Present && p.role is Present && p.freezing_bit is Malformed
}

/// All four parts are present.
pub open spec fn all_present(p: AccountParts) -> bool {
    &&& p.resource is Present
    &&& p.balances is Present
    &&& p.role is Present
    &&& p.freezing_bit is Present
}

/// What an account lookup yields for the parts of its blob, `None` when there is no blob.
pub open spec fn account_outcome(address: AccountAddress, blob: Option<AccountParts>) -> Result<Option<AccountView>, RpcError> {
    match blob {
        None => Ok(None),
        Some(p) => if hits_malformed(p) {
            Err(RpcError::DecodeError)
        } else if all_present(p) {
            let res = p.resource->Present_0;
            Ok(
                Some(
                    AccountView {
                        address,
                        balances: p.balances->Present_0,
                        sequence_number: res.sequence_number,
                        authentication_key: res.authentication_key,
                        delegated_key_rotation_capability: res.delegated_key_rotation_capability,
                        delegated_withdrawal_capability: res.delegated_withdrawal_capability,
                        role: p.role->Present_0,
                        is_frozen: p.freezing_bit->Present_0,
                    },
                ),
            )
        } else {
            Ok(None)
        },
    }
}

/// Parses `get_account(address)` into the address to read at the request's version.
pub fn get_account_query(request: &JsonRpcRequest) -> (r: Result<AccountAddress, RpcError>)
    ensures
        match address_param(*request, 0) {
            Ok(b) => r is Ok && r->Ok_0.bytes@ == b,
            Err(e) => r == Err::<AccountAddress, RpcError>(e),
        },
{
    request.address_param(0)
}

/// Assembles an account view from the parts of its blob. Any part that is absent
/// makes the whole answer "no account"; a part that does not parse, met before an
/// absent one, is an error.
pub fn get_account_view(address: AccountAddress, blob: Option<AccountParts>) -> (r: Result<Option<AccountView>, RpcError>)
    ensures
        r == account_outcome(address, blob),
{
    let parts = match blob {
        None => return Ok(None),
        Some(p) => p,
    };
    let account = match parts.resource {
        Lookup::Present(a) => a,
        Lookup::Absent => return Ok(None),
        Lookup::Malformed => return Err(RpcError::DecodeError),
    };
    let balances = match parts.balances {
        Lookup::Present(b) => b,
        Lookup::Absent => return Ok(None),
        Lookup::Malformed => return Err(RpcError::DecodeError),
    };
    let role = match parts.role {
        Lookup::Present(x) => x,
        Lookup::Absent => return Ok(None),
        Lookup::Malformed => return Err(RpcError::DecodeError),
    };
    let is_frozen = match parts.freezing_bit {
        Lookup::Present(x) => x,
        Lookup::Absent => return Ok(None),
        Lookup::Malformed => return Err(RpcError::DecodeError),
    };
    Ok(
        Some(
            AccountView {
                address,
                balances,
                sequence_number: account.sequence_number,
                authentication_key: account.authentication_key,
                delegated_key_rotation_capability: account.delegated_key_rotation_capability,
                delegated_withdrawal_capability: account.delegated_withdrawal_capability,
                role,
                is_frozen,
            },
        ),
    )
}

/// Where a resource lives in the ledger's state.
#[derive(Clone, Debug, PartialEq, Eq)]
pub enum ResourcePath {
    /// The directory of registered currencies.
    RegisteredCurrencies,
    /// The descriptor of the currency with this code.
    CurrencyInfo { code: String },
}

/// A batch of resources to read at one version.
#[derive(Clone, Debug, PartialEq, Eq)]
pub struct ResourceBatchQuery {
    pub paths: Vec<ResourcePath>,
    pub version: u64,
}

/// A registered currency as a client sees it.
#[derive(Clone, Debug, PartialEq, Eq)]
pub struct CurrencyInfoView {
    pub code: String,
    pub scaling_factor: u64,
    pub fractional_part: u64,
    pub to_lbr_exchange_rate: u64,
    pub mint_event_key: Vec<u8>,
    pub burn_event_key: Vec<u8>,
}

/// The first of the two reads of the currency directory: the list of codes.
pub fn currencies_directory_query(request: &JsonRpcRequest) -> (r: ResourceBatchQuery)
    ensures
        r.paths@ == seq![ResourcePath::RegisteredCurrencies],
        r.version == request.ledger_info.version,
{
    let mut paths: Vec<ResourcePath> = Vec::new();
    paths.push(ResourcePath::RegisteredCurrencies);
    ResourceBatchQuery { paths, version: request.version() }
}

/// The directory blob out of the answer to the first read, which must hold exactly one.
pub fn currencies_directory_blob(mut raw: Vec<Vec<u8>>) -> (r: Result<Vec<u8>, RpcError>)
    ensures
        raw@.len() == 1 ==> r == Ok::<Vec<u8>, RpcError>(raw@[0]),
        raw@.len() != 1 ==> r == Err::<Vec<u8>, RpcError>(RpcError::StorageInvariantViolation),
{
    if raw.len() != 1 {
        return Err(RpcError::StorageInvariantViolation);
    }
    Ok(raw.remove(0))
}

/// The second read: one descriptor path per registered code, in the directory's order.
pub fn currencies_info_query(codes: &Vec<String>, version: u64) -> (r: ResourceBatchQuery)
    ensures
        r.version == version,
        r.paths@.len() == codes@.len(),
        forall|i: int|
            0 <= i < codes@.len() ==> #[trigger] r.paths@[i] == (ResourcePath::CurrencyInfo {
                code: codes@[i],
            }),
{
    let mut paths: Vec<ResourcePath> = Vec::new();
    let mut i: usize = 0;
    while i < codes.len()
        invariant
            i <= codes@.len(),
            paths@.len() == i,
            forall|j: int|
                0 <= j < i ==> #[trigger] paths@[j] == (ResourcePath::CurrencyInfo { code: codes@[j] }),
        decreases codes@.len() - i,
    {
        paths.push(ResourcePath::CurrencyInfo { code: codes[i].clone() });
        i = i + 1;
    }
    ResourceBatchQuery { paths, version }
}

/// The currency descriptors out of the answer to the second read: one per code, each
/// parsed (`None` where it did not parse), kept in the directory's order.
pub fn currencies_info_view(codes: &Vec<String>, infos: Vec<Option<CurrencyInfoView>>) -> (r: Result<Vec<CurrencyInfoView>, RpcError>)
    ensures
        infos@.len() != codes@.len() ==> r == Err::<Vec<CurrencyInfoView>, RpcError>(
            RpcError::StorageInvariantViolation,
        ),
        infos@.len() == codes@.len() && (exists|i: int| 0 <= i < infos@.len() && #[trigger] infos@[i] is None)
            ==> r == Err::<Vec<CurrencyInfoView>, RpcError>(RpcError::DecodeError),
        infos@.len() == codes@.len() && (forall|i: int| 0 <= i < infos@.len() ==> #[trigger] infos@[i] is Some)
            ==> r is Ok && r->Ok_0@.len() == infos@.len() && forall|i: int|
            0 <= i < infos@.len() ==> #[trigger] r->Ok_0@[i] == infos@[i]->Some_0,
{
    if infos.len() != codes.len() {
        return Err(RpcError::StorageInvariantViolation);
    }
    let ghost all = infos@;
    let n = infos.len();
    let mut rest = infos;
    let mut out: Vec<CurrencyInfoView> = Vec::new();
    let mut i: usize = 0;
    while i < n
        invariant
            n == all.len(),
            all == infos@,
            n == codes@.len(),
            i <= n,
            rest@ == all.subrange(i as int, n as int),
            out@.len() == i,
            forall|j: int| 0 <= j < i ==> (#[trigger] all[j]) is Some,
            forall|j: int| 0 <= j < i ==> #[trigger] out@[j] == all[j]->Some_0,
        decreases n - i,
    {
        let item = rest.remove(0);
        assert(item == all[i as int]);
        match item {
            Some(v) => out.push(v),
            None => return Err(RpcError::DecodeError),
        }
        i = i + 1;
    }
    Ok(out)
}

} // verus!
