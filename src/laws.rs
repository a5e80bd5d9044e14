use vstd::prelude::*;
use crate::account::{account_outcome, hits_malformed, AccountParts, AccountView};
use crate::handlers::{
    shown_count, shows_events, shows_range, transactions_query_spec, visible_events, ContractEvent,
    EventView, TransactionListWithProof, TransactionRangeQuery, TransactionView,
    MAX_TRANSACTIONS_LIMIT,
};
use crate::ledger::{metadata_query_spec, metadata_view_spec, BlockMetadata};
use crate::registry::{is_method_table, unregistered, MethodEntry};
use crate::request::{bool_param, u64_param, JsonRpcRequest};
use crate::submit::submit_result;
use crate::types::{AccountAddress, MempoolStatus, MempoolStatusCode, RpcError, VmStatus};

verus! {

/// A range request whose other parameters are well formed is refused with
/// `InvalidArguments` exactly when its limit is 0 or above the maximum.
pub proof fn lemma_transactions_limit(req: JsonRpcRequest)
    requires
        u64_param(req, 0) is Some,
        u64_param(req, 1) is Some,
        bool_param(req, 2) is Some,
    ensures
        ({
            let limit = u64_param(req, 1)->Some_0;
            (transactions_query_spec(req) == Err::<TransactionRangeQuery, RpcError>(
                RpcError::InvalidArguments,
            )) == (limit == 0 || limit > MAX_TRANSACTIONS_LIMIT)
        }),
        transactions_query_spec(req) is Ok ==> transactions_query_spec(req)->Ok_0.start_version
            == u64_param(req, 0)->Some_0,
{
}

/// The views of a range answer are as many as the transactions that come with an
/// info (so no more than the limit when the reader keeps to it), and entry `i` is at
/// version `start_version + i`.
pub proof fn lemma_transactions_versions(
    query: TransactionRangeQuery,
    txs: TransactionListWithProof,
    views: Seq<TransactionView>,
)
    requires
        shows_range(query, txs, views),
    ensures
        views.len() == shown_count(txs),
        views.len() == txs.transactions@.len() || views.len() == txs.infos@.len(),
        views.len() <= txs.transactions@.len() && views.len() <= txs.infos@.len(),
        txs.transactions@.len() <= query.limit ==> views.len() <= query.limit,
        forall|i: int| 0 <= i < views.len() ==> (#[trigger] views[i]).version == query.start_version + i,
{
    assert forall|i: int| 0 <= i < views.len() implies (#[trigger] views[i]).version == query.start_version + i by {
        assert(crate::handlers::shows_entry(query, txs, i, views[i]));
    }
}

/// A submission succeeds exactly when the pipeline accepted it and attached no
/// execution status; an execution status is always reported as such, and any other
/// code as a rejection carrying it.
pub proof fn lemma_submit_outcome(status: MempoolStatus, vm_status: Option<VmStatus>)
    ensures
        submit_result(status, vm_status) is Ok <==> (vm_status is None && status.code
            == MempoolStatusCode::Accepted),
        vm_status is Some ==> submit_result(status, vm_status) == Err::<(), RpcError>(
            RpcError::ExecutionStatusError { status: vm_status->Some_0 },
        ),
        vm_status is None && status.code != MempoolStatusCode::Accepted ==> submit_result(
            status,
            vm_status,
        ) == Err::<(), RpcError>(
            RpcError::AdmissionRejected { code: status.code, message: status.message },
        ),
{
}

/// An account blob that lacks any of its four parts yields "no account", unless a
/// part read before the missing one does not parse.
pub proof fn lemma_missing_part_is_no_account(address: AccountAddress, parts: AccountParts)
    requires
        parts.resource is Absent || parts.balances is Absent || parts.role is Absent
            || parts.freezing_bit is Absent,
        !hits_malformed(parts),
    ensures
        account_outcome(address, Some(parts)) == Ok::<Option<AccountView>, RpcError>(None),
{
}

proof fn lemma_visible_events_bounded(s: Seq<(u64, ContractEvent)>, version: u64)
    ensures
        forall|i: int|
            0 <= i < visible_events(s, version).len() ==> (#[trigger] visible_events(s, version)[i]).0
                <= version,
    decreases s.len(),
{
    if s.len() > 0 {
        lemma_visible_events_bounded(s.drop_last(), version);
        let rest = visible_events(s.drop_last(), version);
        assert forall|i: int| 0 <= i < visible_events(s, version).len() implies (#[trigger] visible_events(s, version)[i]).0 <= version by {
            if i < rest.len() {
                assert(visible_events(s, version)[i] == rest[i]);
            }
        }
    }
}

/// No event view shown for an events answer is past the request's version.
pub proof fn lemma_events_within_version(
    version: u64,
    events: Seq<(u64, ContractEvent)>,
    views: Seq<EventView>,
)
    requires
        shows_events(visible_events(events, version), views),
    ensures
        forall|i: int| 0 <= i < views.len() ==> (#[trigger] views[i]).transaction_version <= version,
{
    lemma_visible_events_bounded(events, version);
    assert forall|i: int| 0 <= i < views.len() implies (#[trigger] views[i]).transaction_version <= version by {
        assert(visible_events(events, version)[i].0 <= version);
    }
}

/// Metadata without a version parameter is the request's snapshot; with one, it is
/// that version paired with the timestamp looked up for it.
pub proof fn lemma_metadata(req: JsonRpcRequest, timestamp: u64)
    ensures
        req.params@.len() == 0 ==> metadata_view_spec(metadata_query_spec(req), timestamp)
            == (BlockMetadata {
            version: req.ledger_info.version,
            timestamp: req.ledger_info.timestamp_usecs,
        }),
        u64_param(req, 0) is Some ==> metadata_view_spec(metadata_query_spec(req), timestamp)
            == (BlockMetadata { version: u64_param(req, 0)->Some_0, timestamp }),
{
}

/// In the method table, a name that is none of the ten method names is
/// unregistered, so dispatching it ends in `MethodNotFound`.
pub proof fn lemma_unknown_method_not_found(entries: Seq<MethodEntry>, name: Seq<char>)
    requires
        is_method_table(entries),
        name != "submit"@,
        name != "get_metadata"@,
        name != "get_account"@,
        name != "get_transactions"@,
        name != "get_account_transaction"@,
        name != "get_events"@,
        name != "get_currencies"@,
        name != "get_state_proof"@,
        name != "get_account_state_with_proof"@,
        name != "get_network_status"@,
    ensures
        unregistered(entries, name),
{
}

} // verus!
