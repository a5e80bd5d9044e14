use vstd::prelude::*;
use crate::codec::{encode_hex, hex_encoded};
use crate::codec::{decode_hex, hex_decoded, hex_decodes};
use crate::request::{address_param, bool_param, str_param, u64_param, JsonRpcRequest};
use crate::types::{AccountAddress, RpcError, VmStatus, EVENT_KEY_LENGTH};

verus! {

/// The largest number of transactions one range request may ask for.
pub const MAX_TRANSACTIONS_LIMIT: u64 = 1000;

/// An event as the ledger reader hands it out.
#[derive(Clone, Debug, PartialEq, Eq)]
pub struct ContractEvent {
    pub key: Vec<u8>,
    pub sequence_number: u64,
    pub data: Vec<u8>,
}

/// An event, attributed to the version of the transaction that emitted it.
#[derive(Clone, Debug, PartialEq, Eq)]
pub struct EventView {
    pub key: Vec<u8>,
    pub sequence_number: u64,
    pub transaction_version: u64,
    pub data: Vec<u8>,
}

/// A committed transaction: its encoded form and its hash.
#[derive(Clone, Debug, PartialEq, Eq)]
pub struct Transaction {
    pub payload: Vec<u8>,
    pub hash: Vec<u8>,
}

/// What the ledger records of a transaction's execution.
#[derive(Clone, Copy, Debug, PartialEq, Eq, Structural)]
pub struct TransactionInfo {
    pub status: VmStatus,
    pub gas_used: u64,
}

/// A transaction as a client sees it.
#[derive(Clone, Debug, PartialEq, Eq)]
pub struct TransactionView {
    pub version: u64,
    /// The hash in lowercase hex.
    pub hash: String,
    pub transaction: Vec<u8>,
    pub events: Vec<EventView>,
    pub vm_status: VmStatus,
    pub gas_used: u64,
}

/// A contiguous range of transactions, read at `ledger_version`.
#[derive(Clone, Copy, Debug, PartialEq, Eq, Structural)]
pub struct TransactionRangeQuery {
    pub start_version: u64,
    pub limit: u64,
    pub ledger_version: u64,
    pub include_events: bool,
}

/// What the ledger reader answers to a range query: the transactions, the
/// infos of their proof, and one event list per transaction when asked for.
#[derive(Clone, Debug)]
pub struct TransactionListWithProof {
    pub transactions: Vec<Transaction>,
    pub events: Option<Vec<Vec<ContractEvent>>>,
    pub infos: Vec<TransactionInfo>,
}

/// `v` is the view of event `e` emitted at `version`.
pub open spec fn event_matches(v: EventView, version: u64, e: ContractEvent) -> bool {
    &&& v.key@ == e.key@
    &&& v.sequence_number == e.sequence_number
    &&& v.transaction_version == version
    &&& v.data@ == e.data@
}

/// `vs` are the views of `es`, in order, all emitted at `version`.
pub open spec fn events_match(vs: Seq<EventView>, version: u64, es: Seq<ContractEvent>) -> bool {
    &&& vs.len() == es.len()
    &&& forall|i: int| 0 <= i < vs.len() ==> #[trigger] event_matches(vs[i], version, es[i])
}

/// `v` shows transaction `t` with info `info` at `version`, with event views `events`.
pub open spec fn transaction_matches(
    v: TransactionView,
    version: u64,
    t: Transaction,
    info: TransactionInfo,
) -> bool {
    &&& v.version == version
    &&& v.hash@ == hex_encoded(t.hash@)
    &&& v.transaction@ == t.payload@
    &&& v.vm_status == info.status
    &&& v.gas_used == info.gas_used
}

/// The outcome of parsing a range request: start, limit and flag, then the limit's range.
pub open spec fn transactions_query_spec(req: JsonRpcRequest) -> Result<TransactionRangeQuery, RpcError> {
    if u64_param(req, 0) is None {
        Err(RpcError::InvalidParam { index: 0 })
    } else if u64_param(req, 1) is None {
        Err(RpcError::InvalidParam { index: 1 })
    } else if bool_param(req, 2) is None {
        Err(RpcError::InvalidParam { index: 2 })
    } else {
        let limit = u64_param(req, 1)->Some_0;
        if limit == 0 || limit > MAX_TRANSACTIONS_LIMIT {
            Err(RpcError::InvalidArguments)
        } else {
            Ok(
                TransactionRangeQuery {
                    start_version: u64_param(req, 0)->Some_0,
                    limit,
                    ledger_version: req.ledger_info.version,
                    include_events: bool_param(req, 2)->Some_0,
                },
            )
        }
    }
}

/// Parses `get_transactions(start_version, limit, include_events)` into a range query
/// bounded at the request's version.
pub fn get_transactions_query(request: &JsonRpcRequest) -> (r: Result<TransactionRangeQuery, RpcError>)
    ensures
        r == transactions_query_spec(*request),
{
    let start_version = match request.u64_param(0) {
        Some(v) => v,
        None => return Err(RpcError::InvalidParam { index: 0 }),
    };
    let limit = match request.u64_param(1) {
        Some(v) => v,
        None => return Err(RpcError::InvalidParam { index: 1 }),
    };
    let include_events = match request.bool_param(2) {
        Some(v) => v,
        None => return Err(RpcError::InvalidParam { index: 2 }),
    };
    if limit == 0 || limit > MAX_TRANSACTIONS_LIMIT {
        return Err(RpcError::InvalidArguments);
    }
    Ok(TransactionRangeQuery { start_version, limit, ledger_version: request.version(), include_events })
}

fn copy_bytes(b: &Vec<u8>) -> (r: Vec<u8>)
    ensures
        r@ == b@,
{
    let mut r: Vec<u8> = Vec::new();
    let mut i: usize = 0;
    while i < b.len()
        invariant
            i <= b@.len(),
            r@ == b@.subrange(0, i as int),
        decreases b@.len() - i,
    {
        r.push(b[i]);
        i = i + 1;
    }
    r
}

/// The views of `events`, each attributed to `version`.
pub fn event_views(version: u64, events: &Vec<ContractEvent>) -> (r: Vec<EventView>)
    ensures
        events_match(r@, version, events@),
{
    let mut r: Vec<EventView> = Vec::new();
    let mut i: usize = 0;
    while i < events.len()
        invariant
            i <= events@.len(),
            r@.len() == i,
            forall|j: int| 0 <= j < i ==> #[trigger] event_matches(r@[j], version, events@[j]),
        decreases events@.len() - i,
    {
        let e = &events[i];
        r.push(
            EventView {
                key: copy_bytes(&e.key),
                sequence_number: e.sequence_number,
                transaction_version: version,
                data: copy_bytes(&e.data),
            },
        );
        i = i + 1;
    }
    r
}

/// The view of one transaction at `version`.
fn transaction_view(
    version: u64,
    t: &Transaction,
    info: &TransactionInfo,
    events: Vec<EventView>,
) -> (r: TransactionView)
    ensures
        transaction_matches(r, version, *t, *info),
        r.events == events,
{
    TransactionView {
        version,
        hash: encode_hex(&t.hash),
        transaction: copy_bytes(&t.payload),
        events,
        vm_status: info.status,
        gas_used: info.gas_used,
    }
}

/// How many transactions of a range answer can be shown: those that come with an info.
pub open spec fn shown_count(txs: TransactionListWithProof) -> int {
    if txs.transactions@.len() <= txs.infos@.len() {
        txs.transactions@.len() as int
    } else {
        txs.infos@.len() as int
    }
}

/// Entry `i` of a range answer's views: the `i`-th transaction at version
/// `start_version + i`, with its info and, when asked for, its events.
pub open spec fn shows_entry(
    query: TransactionRangeQuery,
    txs: TransactionListWithProof,
    i: int,
    view: TransactionView,
) -> bool {
    let version = (query.start_version + i) as u64;
    &&& transaction_matches(view, version, txs.transactions@[i], txs.infos@[i])
    &&& query.include_events ==> events_match(view.events@, version, txs.events->Some_0@[i]@)
    &&& !query.include_events ==> view.events@.len() == 0
}

/// `views` show a range answer: one entry per transaction that comes with an info.
pub open spec fn shows_range(query: TransactionRangeQuery, txs: TransactionListWithProof, views: Seq<TransactionView>) -> bool {
    &&& views.len() == shown_count(txs)
    &&& query.start_version + shown_count(txs) <= u64::MAX + 1
    &&& forall|i: int| 0 <= i < views.len() ==> shows_entry(query, txs, i, #[trigger] views[i])
}

/// Builds the views of a range answer: entry `i` is the `i`-th transaction, at
/// version `start_version + i`, with its info and, when asked for, its events.
pub fn get_transactions_view(query: &TransactionRangeQuery, txs: &TransactionListWithProof) -> (r: Result<Vec<TransactionView>, RpcError>)
    ensures
        query.include_events && txs.events is None ==> r == Err::<Vec<TransactionView>, RpcError>(
            RpcError::StorageInvariantViolation,
        ),
        !(query.include_events && txs.events is None) && query.start_version + shown_count(*txs)
            > u64::MAX + 1 ==> r == Err::<Vec<TransactionView>, RpcError>(
            RpcError::StorageInvariantViolation,
        ),
        !(query.include_events && txs.events is None) && query.start_version + shown_count(*txs)
            <= u64::MAX + 1 && query.include_events && txs.events->Some_0@.len() < shown_count(
            *txs,
        ) ==> r == Err::<Vec<TransactionView>, RpcError>(
            RpcError::MissingEvents { index: txs.events->Some_0@.len() as u64 },
        ),
        r is Ok ==> shows_range(*query, *txs, r->Ok_0@),
        (query.include_events ==> txs.events is Some && txs.events->Some_0@.len() >= shown_count(
            *txs,
        )) && query.start_version + shown_count(*txs) <= u64::MAX + 1 ==> r is Ok,
{
    let n: usize = if txs.transactions.len() <= txs.infos.len() {
        txs.transactions.len()
    } else {
        txs.infos.len()
    };
    let no_events: Vec<Vec<ContractEvent>> = Vec::new();
    let all_events: &Vec<Vec<ContractEvent>> = if query.include_events {
        match &txs.events {
            Some(e) => e,
            None => return Err(RpcError::StorageInvariantViolation),
        }
    } else {
        &no_events
    };
    if n > 0 && (n - 1) as u64 > u64::MAX - query.start_version {
        return Err(RpcError::StorageInvariantViolation);
    }
    if query.include_events && all_events.len() < n {
        return Err(RpcError::MissingEvents { index: all_events.len() as u64 });
    }
    let mut result: Vec<TransactionView> = Vec::new();
    let mut v: usize = 0;
    while v < n
        invariant
            n == shown_count(*txs),
            n <= txs.transactions@.len(),
            n <= txs.infos@.len(),
            query.start_version + n <= u64::MAX + 1,
            query.include_events ==> txs.events == Some(*all_events) && all_events@.len() >= n,
            v <= n,
            result@.len() == v,
            forall|i: int| 0 <= i < v ==> shows_entry(*query, *txs, i, #[trigger] result@[i]),
        decreases n - v,
    {
        let version: u64 = query.start_version + v as u64;
        let events = if query.include_events {
            event_views(version, &all_events[v])
        } else {
            Vec::new()
        };
        let view = transaction_view(version, &txs.transactions[v], &txs.infos[v], events);
        assert(shows_entry(*query, *txs, v as int, view));
        result.push(view);
        v = v + 1;
    }
    Ok(result)
}

/// The transaction that an account sent with a given sequence number, read at
/// `ledger_version`.
#[derive(Clone, Debug, PartialEq, Eq)]
pub struct AccountTransactionQuery {
    pub account: AccountAddress,
    pub sequence_number: u64,
    pub ledger_version: u64,
    pub include_events: bool,
}

/// One transaction as the ledger reader hands it out, with its info and,
/// perhaps, its events.
#[derive(Clone, Debug)]
pub struct TransactionWithProof {
    pub version: u64,
    pub transaction: Transaction,
    pub events: Option<Vec<ContractEvent>>,
    pub info: TransactionInfo,
}

/// Parses `get_account_transaction(account, sequence_number, include_events)`: the
/// three parameters in order, then the account's text as an address.
pub fn get_account_transaction_query(request: &JsonRpcRequest) -> (r: Result<AccountTransactionQuery, RpcError>)
    ensures
        str_param(*request, 0) is None ==> r == Err::<AccountTransactionQuery, RpcError>(
            RpcError::DecodeError,
        ),
        str_param(*request, 0) is Some && u64_param(*request, 1) is None ==> r == Err::<
            AccountTransactionQuery,
            RpcError,
        >(RpcError::InvalidParam { index: 1 }),
        str_param(*request, 0) is Some && u64_param(*request, 1) is Some && bool_param(*request, 2) is None
            ==> r == Err::<AccountTransactionQuery, RpcError>(RpcError::InvalidParam { index: 2 }),
        str_param(*request, 0) is Some && u64_param(*request, 1) is Some && bool_param(*request, 2) is Some
            ==> match address_param(*request, 0) {
            Err(e) => r == Err::<AccountTransactionQuery, RpcError>(e),
            Ok(b) => r is Ok && r->Ok_0.account.bytes@ == b && r->Ok_0.sequence_number == u64_param(
                *request,
                1,
            )->Some_0 && r->Ok_0.include_events == bool_param(*request, 2)->Some_0
                && r->Ok_0.ledger_version == request.ledger_info.version,
        },
{
    if request.str_param(0).is_none() {
        return Err(RpcError::DecodeError);
    }
    let sequence_number = match request.u64_param(1) {
        Some(v) => v,
        None => return Err(RpcError::InvalidParam { index: 1 }),
    };
    let include_events = match request.bool_param(2) {
        Some(v) => v,
        None => return Err(RpcError::InvalidParam { index: 2 }),
    };
    let account = request.address_param(0)?;
    Ok(AccountTransactionQuery { account, sequence_number, ledger_version: request.version(), include_events })
}

/// Builds the view of an account-transaction answer. No transaction is no error;
/// events asked for but not returned are.
pub fn get_account_transaction_view(include_events: bool, tx: &Option<TransactionWithProof>) -> (r: Result<Option<TransactionView>, RpcError>)
    ensures
        tx is None ==> r == Ok::<Option<TransactionView>, RpcError>(None),
        tx is Some && include_events && tx->Some_0.events is None ==> r == Err::<
            Option<TransactionView>,
            RpcError,
        >(RpcError::StorageInvariantViolation),
        tx is Some && !(include_events && tx->Some_0.events is None) ==> {
            let t = tx->Some_0;
            &&& r is Ok && r->Ok_0 is Some
            &&& transaction_matches(r->Ok_0->Some_0, t.version, t.transaction, t.info)
            &&& match t.events {
                Some(es) => events_match(r->Ok_0->Some_0.events@, t.version, es@),
                None => r->Ok_0->Some_0.events@.len() == 0,
            }
        },
{
    match tx {
        None => Ok(None),
        Some(t) => {
            if include_events && t.events.is_none() {
                return Err(RpcError::StorageInvariantViolation);
            }
            let events = match &t.events {
                Some(es) => event_views(t.version, es),
                None => Vec::new(),
            };
            Ok(Some(transaction_view(t.version, &t.transaction, &t.info, events)))
        },
    }
}

/// Up to `limit` events of the stream `key`, from sequence number `start` on.
#[derive(Clone, Debug, PartialEq, Eq)]
pub struct EventsQuery {
    pub key: Vec<u8>,
    pub start: u64,
    pub limit: u64,
}

/// A string that names an event stream: hex for exactly `EVENT_KEY_LENGTH` bytes.
pub open spec fn is_event_key_text(s: Seq<char>) -> bool {
    hex_decodes(s) && hex_decoded(s).len() == EVENT_KEY_LENGTH
}

/// Parses `get_events(key, start, limit)`: the three parameters in order, then the
/// key's hex. A key that is not a hex string of the right length is a decode error.
pub fn get_events_query(request: &JsonRpcRequest) -> (r: Result<EventsQuery, RpcError>)
    ensures
        str_param(*request, 0) is None ==> r == Err::<EventsQuery, RpcError>(RpcError::DecodeError),
        str_param(*request, 0) is Some && u64_param(*request, 1) is None ==> r == Err::<
            EventsQuery,
            RpcError,
        >(RpcError::InvalidParam { index: 1 }),
        str_param(*request, 0) is Some && u64_param(*request, 1) is Some && u64_param(*request, 2) is None
            ==> r == Err::<EventsQuery, RpcError>(RpcError::InvalidParam { index: 2 }),
        str_param(*request, 0) is Some && u64_param(*request, 1) is Some && u64_param(*request, 2) is Some
            ==> if is_event_key_text(str_param(*request, 0)->Some_0) {
            &&& r is Ok
            &&& r->Ok_0.key@ == hex_decoded(str_param(*request, 0)->Some_0)
            &&& r->Ok_0.start == u64_param(*request, 1)->Some_0
            &&& r->Ok_0.limit == u64_param(*request, 2)->Some_0
        } else {
            r == Err::<EventsQuery, RpcError>(RpcError::DecodeError)
        },
{
    let raw_key = match request.str_param(0) {
        Some(s) => s,
        None => return Err(RpcError::DecodeError),
    };
    let start = match request.u64_param(1) {
        Some(v) => v,
        None => return Err(RpcError::InvalidParam { index: 1 }),
    };
    let limit = match request.u64_param(2) {
        Some(v) => v,
        None => return Err(RpcError::InvalidParam { index: 2 }),
    };
    match decode_hex(raw_key) {
        Some(key) => if key.len() == EVENT_KEY_LENGTH {
            Ok(EventsQuery { key, start, limit })
        } else {
            Err(RpcError::DecodeError)
        },
        None => Err(RpcError::DecodeError),
    }
}

/// The events of `s`, in order, whose version is at most `version`.
pub open spec fn visible_events(s: Seq<(u64, ContractEvent)>, version: u64) -> Seq<(u64, ContractEvent)>
    decreases s.len(),
{
    if s.len() == 0 {
        Seq::empty()
    } else {
        let rest = visible_events(s.drop_last(), version);
        if s.last().0 <= version {
            rest.push(s.last())
        } else {
            rest
        }
    }
}

/// `views` are the views of `events`, each attributed to the version it came with.
pub open spec fn shows_events(events: Seq<(u64, ContractEvent)>, views: Seq<EventView>) -> bool {
    &&& views.len() == events.len()
    &&& forall|i: int| 0 <= i < views.len() ==> event_matches(#[trigger] views[i], events[i].0, events[i].1)
}

/// The views of the events that the ledger reader returned, less those past
/// `version`: the reader may have moved on since the request's snapshot.
pub fn get_events_view(version: u64, events: &Vec<(u64, ContractEvent)>) -> (r: Vec<EventView>)
    ensures
        shows_events(visible_events(events@, version), r@),
{
    let mut r: Vec<EventView> = Vec::new();
    let mut i: usize = 0;
    while i < events.len()
        invariant
            i <= events@.len(),
            r@.len() == visible_events(events@.take(i as int), version).len(),
            forall|j: int|
                0 <= j < r@.len() ==> event_matches(
                    #[trigger] r@[j],
                    visible_events(events@.take(i as int), version)[j].0,
                    visible_events(events@.take(i as int), version)[j].1,
                ),
        decreases events@.len() - i,
    {
        assert(events@.take(i as int + 1).drop_last() =~= events@.take(i as int));
        let (v, e) = &events[i];
        if *v <= version {
            let one = EventView {
                key: copy_bytes(&e.key),
                sequence_number: e.sequence_number,
                transaction_version: *v,
                data: copy_bytes(&e.data),
            };
            r.push(one);
        }
        i = i + 1;
    }
    assert(events@.take(events@.len() as int) =~= events@);
    r
}

} // verus!
