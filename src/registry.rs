use vstd::prelude::*;
use crate::request::JsonRpcRequest;
use crate::types::RpcError;

verus! {

/// The operations a node answers.
#[derive(Clone, Copy, Debug, PartialEq, Eq, Structural)]
pub enum Method {
    Submit,
    GetMetadata,
    GetAccount,
    GetTransactions,
    GetAccountTransaction,
    GetEvents,
    GetCurrencies,
    GetStateProof,
    GetAccountStateWithProof,
    GetNetworkStatus,
}

/// A registered method: its name, and how many parameters it accepts.
#[derive(Clone, Debug, PartialEq, Eq)]
pub struct MethodEntry {
    pub name: String,
    pub method: Method,
    pub min_params: usize,
    pub max_params: usize,
}

/// The table of methods, looked up by name.
#[derive(Clone, Debug)]
pub struct Registry {
    pub entries: Vec<MethodEntry>,
}

/// `k` is the first entry named `name`.
pub open spec fn first_named(entries: Seq<MethodEntry>, name: Seq<char>, k: int) -> bool {
    &&& 0 <= k < entries.len()
    &&& entries[k].name@ == name
    &&& forall|j: int| 0 <= j < k ==> (#[trigger] entries[j]).name@ != name
}

/// No entry is named `name`.
pub open spec fn unregistered(entries: Seq<MethodEntry>, name: Seq<char>) -> bool {
    forall|j: int| 0 <= j < entries.len() ==> (#[trigger] entries[j]).name@ != name
}

/// `e` is the entry for `method` under `name`, taking `min` to `max` parameters.
pub open spec fn entry_is(e: MethodEntry, name: Seq<char>, method: Method, min: usize, max: usize) -> bool {
    &&& e.name@ == name
    &&& e.method == method
    &&& e.min_params == min
    &&& e.max_params == max
}

impl Registry {
    /// Each name is registered at most once.
    pub open spec fn wf(self) -> bool {
        forall|i: int, j: int|
            0 <= i < j < self.entries@.len() ==> (#[trigger] self.entries@[i]).name@
                != (#[trigger] self.entries@[j]).name@
    }

    /// An empty registry.
    pub fn new() -> (r: Registry)
        ensures
            r.entries@.len() == 0,
            r.wf(),
    {
        Registry { entries: Vec::new() }
    }

    /// Registers `method` under `name`, accepting `min_params` to `max_params`
    /// parameters. A name registered before is given the new entry in its place.
    pub fn register(&mut self, name: String, method: Method, min_params: usize, max_params: usize)
        requires
            old(self).wf(),
        ensures
            final(self).wf(),
            unregistered(old(self).entries@, name@) ==> final(self).entries@ == old(self).entries@.push(
                MethodEntry { name, method, min_params, max_params },
            ),
            !unregistered(old(self).entries@, name@) ==> exists|k: int|
                0 <= k < old(self).entries@.len() && old(self).entries@[k].name@ == name@
                    && final(self).entries@ == old(self).entries@.update(
                    k,
                    MethodEntry { name, method, min_params, max_params },
                ),
    {
        let ghost before = self.entries@;
        let mut i: usize = 0;
        while i < self.entries.len()
            invariant
                self.entries@ == before,
                before == old(self).entries@,
                self.wf(),
                i <= before.len(),
                forall|j: int| 0 <= j < i ==> (#[trigger] before[j]).name@ != name@,
            decreases before.len() - i,
        {
            if self.entries[i].name == name {
                assert(old(self).entries@[i as int].name@ == name@);
                assert(!unregistered(old(self).entries@, name@));
                let entry = MethodEntry { name, method, min_params, max_params };
                self.entries.set(i, entry);
                assert(self.entries@ == old(self).entries@.update(i as int, entry));
                assert forall|p: int, q: int|
                    0 <= p < q < self.entries@.len() implies (#[trigger] self.entries@[p]).name@
                    != (#[trigger] self.entries@[q]).name@ by {
                    assert(self.entries@[p].name@ == before[p].name@);
                    assert(self.entries@[q].name@ == before[q].name@);
                    assert(before[p].name@ != before[q].name@);
                }
                return;
            }
            i = i + 1;
        }
        let entry = MethodEntry { name, method, min_params, max_params };
        self.entries.push(entry);
        assert forall|p: int, q: int|
            0 <= p < q < self.entries@.len() implies (#[trigger] self.entries@[p]).name@
            != (#[trigger] self.entries@[q]).name@ by {
            if q < before.len() {
                assert(before[p].name@ != before[q].name@);
            } else {
                assert(before[p].name@ != name@);
            }
        }
    }

    /// Finds the method registered under `name` and checks the request's parameter
    /// count against it; no handler runs here.
    pub fn dispatch(&self, name: &String, request: &JsonRpcRequest) -> (r: Result<Method, RpcError>)
        ensures
            unregistered(self.entries@, name@) ==> r == Err::<Method, RpcError>(RpcError::MethodNotFound),
            forall|k: int|
                #[trigger] first_named(self.entries@, name@, k) ==> {
                    let e = self.entries@[k];
                    if e.min_params <= request.params@.len() <= e.max_params {
                        r == Ok::<Method, RpcError>(e.method)
                    } else {
                        r == Err::<Method, RpcError>(RpcError::InvalidArguments)
                    }
                },
    {
        let mut i: usize = 0;
        while i < self.entries.len()
            invariant
                i <= self.entries@.len(),
                forall|j: int| 0 <= j < i ==> (#[trigger] self.entries@[j]).name@ != name@,
            decreases self.entries@.len() - i,
        {
            let e = &self.entries[i];
            if e.name == *name {
                assert(first_named(self.entries@, name@, i as int));
                let n = request.params.len();
                if e.min_params <= n && n <= e.max_params {
                    return Ok(e.method);
                } else {
                    return Err(RpcError::InvalidArguments);
                }
            }
            i = i + 1;
        }
        Err(RpcError::MethodNotFound)
    }
}

/// `entries` is the table of every method with its parameter bounds, in this order.
pub open spec fn is_method_table(entries: Seq<MethodEntry>) -> bool {
    &&& entries.len() == 10
    &&& entry_is(entries[0], "submit"@, Method::Submit, 1, 1)
    &&& entry_is(entries[1], "get_metadata"@, Method::GetMetadata, 0, 1)
    &&& entry_is(entries[2], "get_account"@, Method::GetAccount, 1, 1)
    &&& entry_is(entries[3], "get_transactions"@, Method::GetTransactions, 3, 3)
    &&& entry_is(entries[4], "get_account_transaction"@, Method::GetAccountTransaction, 3, 3)
    &&& entry_is(entries[5], "get_events"@, Method::GetEvents, 3, 3)
    &&& entry_is(entries[6], "get_currencies"@, Method::GetCurrencies, 0, 0)
    &&& entry_is(entries[7], "get_state_proof"@, Method::GetStateProof, 1, 1)
    &&& entry_is(entries[8], "get_account_state_with_proof"@, Method::GetAccountStateWithProof, 3, 3)
    &&& entry_is(entries[9], "get_network_status"@, Method::GetNetworkStatus, 0, 0)
}

/// Builds the table of every method with its parameter bounds.
pub fn build_registry() -> (r: Registry)
    ensures
        is_method_table(r.entries@),
        r.wf(),
{
    proof {
        reveal_strlit("submit");
        reveal_strlit("get_metadata");
        reveal_strlit("get_account");
        reveal_strlit("get_transactions");
        reveal_strlit("get_account_transaction");
        reveal_strlit("get_events");
        reveal_strlit("get_currencies");
        reveal_strlit("get_state_proof");
        reveal_strlit("get_account_state_with_proof");
        reveal_strlit("get_network_status");
        assert("submit"@.len() == 6);
        assert("get_metadata"@.len() == 12);
        assert("get_account"@.len() == 11);
        assert("get_transactions"@.len() == 16);
        assert("get_account_transaction"@.len() == 23);
        assert("get_events"@.len() == 10);
        assert("get_currencies"@.len() == 14);
        assert("get_state_proof"@.len() == 15);
        assert("get_account_state_with_proof"@.len() == 28);
        assert("get_network_status"@.len() == 18);
    }
    let mut registry = Registry::new();
    registry.register("submit".to_owned(), Method::Submit, 1, 1);
    registry.register("get_metadata".to_owned(), Method::GetMetadata, 0, 1);
    registry.register("get_account".to_owned(), Method::GetAccount, 1, 1);
    registry.register("get_transactions".to_owned(), Method::GetTransactions, 3, 3);
    registry.register("get_account_transaction".to_owned(), Method::GetAccountTransaction, 3, 3);
    registry.register("get_events".to_owned(), Method::GetEvents, 3, 3);
    registry.register("get_currencies".to_owned(), Method::GetCurrencies, 0, 0);
    registry.register("get_state_proof".to_owned(), Method::GetStateProof, 1, 1);
    registry.register(
        "get_account_state_with_proof".to_owned(),
        Method::GetAccountStateWithProof,
        3,
        3,
    );
    registry.register("get_network_status".to_owned(), Method::GetNetworkStatus, 0, 0);
    registry
}

} // verus!
