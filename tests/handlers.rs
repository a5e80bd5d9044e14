use libra_json_rpc::account::{
    currencies_directory_blob, currencies_directory_query, currencies_info_query,
    currencies_info_view, get_account_query, get_account_view, AccountParts, AccountResource,
    AccountRole, Balance, CurrencyInfoView, Lookup, ResourcePath,
};
use libra_json_rpc::handlers::{
    get_account_transaction_query, get_account_transaction_view, get_events_query,
    get_events_view, get_transactions_query, get_transactions_view, ContractEvent, Transaction,
    TransactionInfo, TransactionListWithProof, TransactionRangeQuery, TransactionWithProof,
};
use libra_json_rpc::ledger::{
    get_account_state_with_proof_query, get_metadata_query, get_metadata_view,
    get_state_proof_query, BlockMetadata, MetadataQuery,
};
use libra_json_rpc::registry::{build_registry, Method, Registry};
use libra_json_rpc::request::{JsonRpcRequest, Param};
use libra_json_rpc::submit::{get_submit_payload, submit_outcome};
use libra_json_rpc::types::{
    AccountAddress, ChainId, JsonRpcService, LedgerInfo, MempoolStatus, MempoolStatusCode,
    RoleType, RpcError, VmStatus,
};

fn request(params: Vec<Param>) -> JsonRpcRequest {
    JsonRpcRequest {
        params,
        ledger_info: LedgerInfo { version: 100, timestamp_usecs: 5_000, signatures: vec![] },
    }
}

fn s(text: &str) -> Param {
    Param::Str(text.to_string())
}

const ADDRESS: &str = "000000000000000000000000000000dd";

fn tx(byte: u8) -> Transaction {
    Transaction { payload: vec![byte], hash: vec![byte, 0xab] }
}

fn info(gas: u64) -> TransactionInfo {
    TransactionInfo { status: VmStatus { major_status: 4001 }, gas_used: gas }
}

fn event(seq: u64) -> ContractEvent {
    ContractEvent { key: vec![7; 24], sequence_number: seq, data: vec![seq as u8] }
}

#[test]
fn transactions_limit_out_of_range_is_invalid_arguments() {
    for limit in [0u64, 1001, u64::MAX] {
        let req = request(vec![Param::UInt(1), Param::UInt(limit), Param::Bool(false)]);
        assert_eq!(get_transactions_query(&req), Err(RpcError::InvalidArguments));
    }
}

#[test]
fn transactions_limit_edges_accepted() {
    for limit in [1u64, 1000] {
        let req = request(vec![Param::UInt(1), Param::UInt(limit), Param::Bool(true)]);
        let q = get_transactions_query(&req).unwrap();
        assert_eq!(
            q,
            TransactionRangeQuery { start_version: 1, limit, ledger_version: 100, include_events: true }
        );
    }
}

#[test]
fn transactions_bad_param_shape() {
    let req = request(vec![Param::Str("1".to_string()), Param::UInt(2), Param::Bool(false)]);
    assert_eq!(get_transactions_query(&req), Err(RpcError::InvalidParam { index: 0 }));
    let req = request(vec![Param::UInt(1), Param::OtherNumber, Param::Bool(false)]);
    assert_eq!(get_transactions_query(&req), Err(RpcError::InvalidParam { index: 1 }));
    let req = request(vec![Param::UInt(1), Param::UInt(2), Param::Null]);
    assert_eq!(get_transactions_query(&req), Err(RpcError::InvalidParam { index: 2 }));
}

#[test]
fn transactions_versions_follow_start() {
    let q = TransactionRangeQuery { start_version: 40, limit: 10, ledger_version: 100, include_events: true };
    let txs = TransactionListWithProof {
        transactions: vec![tx(1), tx(2), tx(3)],
        events: Some(vec![vec![event(0)], vec![], vec![event(1), event(2)]]),
        infos: vec![info(10), info(20), info(30)],
    };
    let views = get_transactions_view(&q, &txs).unwrap();
    assert_eq!(views.len(), 3);
    for (i, v) in views.iter().enumerate() {
        assert_eq!(v.version, 40 + i as u64);
        assert_eq!(v.gas_used, 10 * (i as u64 + 1));
    }
    assert_eq!(views[0].hash, "01ab");
    assert_eq!(views[2].events.len(), 2);
    assert_eq!(views[2].events[1].transaction_version, 42);
    assert_eq!(views[2].events[1].sequence_number, 2);
}

#[test]
fn transactions_without_events_have_none() {
    let q = TransactionRangeQuery { start_version: 0, limit: 10, ledger_version: 100, include_events: false };
    let txs = TransactionListWithProof { transactions: vec![tx(1), tx(2)], events: None, infos: vec![info(1)] };
    let views = get_transactions_view(&q, &txs).unwrap();
    assert_eq!(views.len(), 1);
    assert!(views[0].events.is_empty());
}

#[test]
fn transactions_events_missing_batch() {
    let q = TransactionRangeQuery { start_version: 0, limit: 10, ledger_version: 100, include_events: true };
    let txs = TransactionListWithProof { transactions: vec![tx(1)], events: None, infos: vec![info(1)] };
    assert_eq!(get_transactions_view(&q, &txs), Err(RpcError::StorageInvariantViolation));
}

#[test]
fn transactions_events_missing_entry() {
    let q = TransactionRangeQuery { start_version: 0, limit: 10, ledger_version: 100, include_events: true };
    let txs = TransactionListWithProof {
        transactions: vec![tx(1), tx(2)],
        events: Some(vec![vec![]]),
        infos: vec![info(1), info(2)],
    };
    assert_eq!(get_transactions_view(&q, &txs), Err(RpcError::MissingEvents { index: 1 }));
}

#[test]
fn transactions_past_last_version() {
    let q = TransactionRangeQuery { start_version: u64::MAX, limit: 2, ledger_version: 100, include_events: false };
    let txs = TransactionListWithProof { transactions: vec![tx(1), tx(2)], events: None, infos: vec![info(1), info(2)] };
    assert_eq!(get_transactions_view(&q, &txs), Err(RpcError::StorageInvariantViolation));
    let one = TransactionListWithProof { transactions: vec![tx(1)], events: None, infos: vec![info(1)] };
    assert_eq!(get_transactions_view(&q, &one).unwrap()[0].version, u64::MAX);
}

#[test]
fn submit_decodes_hex_payload() {
    assert_eq!(get_submit_payload(&request(vec![s("0aFF")])), Ok(vec![0x0a, 0xff]));
    assert_eq!(get_submit_payload(&request(vec![s("abc")])), Err(RpcError::DecodeError));
    assert_eq!(get_submit_payload(&request(vec![s("zz")])), Err(RpcError::DecodeError));
    assert_eq!(get_submit_payload(&request(vec![Param::UInt(3)])), Err(RpcError::DecodeError));
    assert_eq!(get_submit_payload(&request(vec![Param::UInt(5)])), Err(RpcError::DecodeError));
}

#[test]
fn submit_accepted_only_without_execution_status() {
    let accepted = MempoolStatus { code: MempoolStatusCode::Accepted, message: String::new() };
    assert_eq!(submit_outcome(accepted.clone(), None), Ok(()));
    assert_eq!(
        submit_outcome(accepted, Some(VmStatus { major_status: 7 })),
        Err(RpcError::ExecutionStatusError { status: VmStatus { major_status: 7 } })
    );
    let full = MempoolStatus { code: MempoolStatusCode::MempoolIsFull, message: "full".to_string() };
    assert_eq!(
        submit_outcome(full, None),
        Err(RpcError::AdmissionRejected { code: MempoolStatusCode::MempoolIsFull, message: "full".to_string() })
    );
}

fn parts() -> AccountParts {
    AccountParts {
        resource: Lookup::Present(AccountResource {
            sequence_number: 9,
            authentication_key: vec![1, 2],
            delegated_key_rotation_capability: false,
            delegated_withdrawal_capability: true,
        }),
        balances: Lookup::Present(vec![Balance { currency: "LBR".to_string(), amount: 12 }]),
        role: Lookup::Present(AccountRole::Unknown),
        freezing_bit: Lookup::Present(false),
    }
}

fn address() -> AccountAddress {
    get_account_query(&request(vec![s(ADDRESS)])).unwrap()
}

#[test]
fn account_query_parses_address() {
    let a = address();
    assert_eq!(a.bytes.len(), 16);
    assert_eq!(a.bytes[15], 0xdd);
    assert_eq!(get_account_query(&request(vec![s("dd")])), Err(RpcError::DecodeError));
    assert_eq!(get_account_query(&request(vec![Param::Null])), Err(RpcError::DecodeError));
}

#[test]
fn account_view_when_all_parts_present() {
    let view = get_account_view(address(), Some(parts())).unwrap().unwrap();
    assert_eq!(view.sequence_number, 9);
    assert_eq!(view.balances[0].amount, 12);
    assert!(view.delegated_withdrawal_capability);
    assert!(!view.is_frozen);
}

#[test]
fn account_missing_part_is_no_account() {
    let mut p = parts();
    p.resource = Lookup::Absent;
    assert_eq!(get_account_view(address(), Some(p)), Ok(None));
    let mut p = parts();
    p.balances = Lookup::Absent;
    assert_eq!(get_account_view(address(), Some(p)), Ok(None));
    let mut p = parts();
    p.role = Lookup::Absent;
    p.freezing_bit = Lookup::Malformed;
    assert_eq!(get_account_view(address(), Some(p)), Ok(None));
    let mut p = parts();
    p.freezing_bit = Lookup::Absent;
    assert_eq!(get_account_view(address(), Some(p)), Ok(None));
    assert_eq!(get_account_view(address(), None), Ok(None));
}

#[test]
fn account_malformed_part_is_error() {
    let mut p = parts();
    p.role = Lookup::Malformed;
    assert_eq!(get_account_view(address(), Some(p)), Err(RpcError::DecodeError));
}

#[test]
fn events_past_version_are_dropped() {
    let events = vec![(99, event(0)), (101, event(1)), (100, event(2)), (250, event(3))];
    let views = get_events_view(100, &events);
    assert_eq!(views.len(), 2);
    assert_eq!(views[0].sequence_number, 0);
    assert_eq!(views[1].sequence_number, 2);
    assert!(views.iter().all(|v| v.transaction_version <= 100));
    assert!(get_events_view(5, &events).is_empty());
}

#[test]
fn events_query_checks_key() {
    let key = "07".repeat(24);
    let q = get_events_query(&request(vec![s(&key), Param::UInt(3), Param::UInt(10)])).unwrap();
    assert_eq!(q.key, vec![7u8; 24]);
    assert_eq!((q.start, q.limit), (3, 10));
    let short = get_events_query(&request(vec![s("0707"), Param::UInt(3), Param::UInt(10)]));
    assert_eq!(short, Err(RpcError::DecodeError));
    let bad = get_events_query(&request(vec![s(&key), Param::UInt(3), Param::Bool(true)]));
    assert_eq!(bad, Err(RpcError::InvalidParam { index: 2 }));
    let not_text = get_events_query(&request(vec![Param::UInt(1), Param::UInt(2), Param::UInt(3)]));
    assert_eq!(not_text, Err(RpcError::DecodeError));
}

#[test]
fn account_transaction_requires_events_when_asked() {
    let t = TransactionWithProof { version: 8, transaction: tx(5), events: None, info: info(3) };
    assert_eq!(
        get_account_transaction_view(true, &Some(t.clone())),
        Err(RpcError::StorageInvariantViolation)
    );
    let view = get_account_transaction_view(false, &Some(t)).unwrap().unwrap();
    assert_eq!(view.version, 8);
    assert_eq!(view.hash, "05ab");
    assert!(view.events.is_empty());
    assert_eq!(get_account_transaction_view(true, &None), Ok(None));
}

#[test]
fn account_transaction_events_attributed() {
    let t = TransactionWithProof { version: 8, transaction: tx(5), events: Some(vec![event(4)]), info: info(3) };
    let view = get_account_transaction_view(true, &Some(t)).unwrap().unwrap();
    assert_eq!(view.events.len(), 1);
    assert_eq!(view.events[0].transaction_version, 8);
}

#[test]
fn account_transaction_query_parses() {
    let q = get_account_transaction_query(&request(vec![s(ADDRESS), Param::UInt(4), Param::Bool(true)])).unwrap();
    assert_eq!(q.sequence_number, 4);
    assert_eq!(q.ledger_version, 100);
    assert!(q.include_events);
    let bad = get_account_transaction_query(&request(vec![s("xyz"), Param::UInt(4), Param::Bool(true)]));
    assert_eq!(bad, Err(RpcError::DecodeError));
}

#[test]
fn metadata_defaults_to_snapshot() {
    let q = get_metadata_query(&request(vec![]));
    assert_eq!(get_metadata_view(&q, 77), BlockMetadata { version: 100, timestamp: 5_000 });
    let q = get_metadata_query(&request(vec![s("not a version")]));
    assert_eq!(get_metadata_view(&q, 77), BlockMetadata { version: 100, timestamp: 5_000 });
}

#[test]
fn metadata_explicit_version_uses_lookup() {
    let q = get_metadata_query(&request(vec![Param::UInt(42)]));
    assert_eq!(q, MetadataQuery::AtVersion { version: 42 });
    assert_eq!(get_metadata_view(&q, 77), BlockMetadata { version: 42, timestamp: 77 });
}

#[test]
fn account_state_versions_fall_back() {
    let q = get_account_state_with_proof_query(&request(vec![s(ADDRESS), Param::Null, Param::UInt(60)])).unwrap();
    assert_eq!((q.version, q.ledger_version), (100, 60));
    let q = get_account_state_with_proof_query(&request(vec![s(ADDRESS), Param::UInt(30), s("x")])).unwrap();
    assert_eq!((q.version, q.ledger_version), (30, 100));
}

#[test]
fn state_proof_reads_known_version() {
    assert_eq!(get_state_proof_query(&request(vec![Param::UInt(12)])), Ok(12));
    assert_eq!(get_state_proof_query(&request(vec![Param::Bool(true)])), Err(RpcError::InvalidParam { index: 0 }));
}

fn currency(code: &str) -> CurrencyInfoView {
    CurrencyInfoView {
        code: code.to_string(),
        scaling_factor: 1_000_000,
        fractional_part: 1000,
        to_lbr_exchange_rate: 1,
        mint_event_key: vec![],
        burn_event_key: vec![],
    }
}

#[test]
fn currencies_two_phase() {
    let req = request(vec![]);
    let first = currencies_directory_query(&req);
    assert_eq!(first.paths, vec![ResourcePath::RegisteredCurrencies]);
    assert_eq!(first.version, 100);
    assert_eq!(currencies_directory_blob(vec![vec![1, 2]]), Ok(vec![1, 2]));
    assert_eq!(currencies_directory_blob(vec![]), Err(RpcError::StorageInvariantViolation));
    assert_eq!(currencies_directory_blob(vec![vec![], vec![]]), Err(RpcError::StorageInvariantViolation));
    let codes = vec!["LBR".to_string(), "Coin1".to_string()];
    let second = currencies_info_query(&codes, 100);
    assert_eq!(second.paths[1], ResourcePath::CurrencyInfo { code: "Coin1".to_string() });
    let out = currencies_info_view(&codes, vec![Some(currency("LBR")), Some(currency("Coin1"))]).unwrap();
    assert_eq!(out[0].code, "LBR");
    assert_eq!(out[1].code, "Coin1");
    assert_eq!(currencies_info_view(&codes, vec![Some(currency("LBR")), None]), Err(RpcError::DecodeError));
    assert_eq!(currencies_info_view(&codes, vec![]), Err(RpcError::StorageInvariantViolation));
}

#[test]
fn dispatch_checks_name_then_arity() {
    let registry = build_registry();
    let unknown = registry.dispatch(&"get_balance".to_string(), &request(vec![]));
    assert_eq!(unknown, Err(RpcError::MethodNotFound));
    let wrong = registry.dispatch(&"get_transactions".to_string(), &request(vec![Param::UInt(1)]));
    assert_eq!(wrong, Err(RpcError::InvalidArguments));
    let ok = registry.dispatch(&"get_currencies".to_string(), &request(vec![]));
    assert_eq!(ok, Ok(Method::GetCurrencies));
    assert_eq!(registry.dispatch(&"get_metadata".to_string(), &request(vec![])), Ok(Method::GetMetadata));
    assert_eq!(
        registry.dispatch(&"get_metadata".to_string(), &request(vec![Param::Null, Param::Null])),
        Err(RpcError::InvalidArguments)
    );
}

#[test]
fn request_params_default() {
    let req = request(vec![Param::UInt(3)]);
    assert_eq!(req.get_param(0), Param::UInt(3));
    assert_eq!(req.get_param(1), Param::Null);
    assert_eq!(req.get_param_with_default(5, Param::Bool(true)), Param::Bool(true));
    assert_eq!(req.version(), 100);
}

#[test]
fn service_identity() {
    let service = JsonRpcService::new(RoleType::FullNode, ChainId { id: 4 });
    assert_eq!(service.chain_id(), ChainId { id: 4 });
    assert_eq!(service.role.as_str(), "full_node");
    assert_eq!(RoleType::Validator.as_str(), "validator");
}

#[test]
fn register_again_replaces_entry() {
    let mut registry = Registry::new();
    registry.register("get_events".to_string(), Method::GetEvents, 3, 3);
    registry.register("get_metadata".to_string(), Method::GetMetadata, 0, 1);
    registry.register("get_events".to_string(), Method::GetCurrencies, 0, 0);
    assert_eq!(registry.entries.len(), 2);
    let r = registry.dispatch(&"get_events".to_string(), &request(vec![]));
    assert_eq!(r, Ok(Method::GetCurrencies));
    assert_eq!(build_registry().entries.len(), 10);
}
