//! A stream over the Gateway API's committed transactions that pages forward
//! by moving the lower bound of its query.
use crate::client::{GatewayClientAsync, GatewayClientBlocking};
use crate::gateway::models::{LedgerStateSelector, Order, TransactionStreamRequestBody};
use vstd::prelude::*;

verus! {

/// A selector that names a state version alone.
pub open spec fn state_version_selector(version: u64) -> LedgerStateSelector {
    LedgerStateSelector { state_version: Some(version), timestamp: None, epoch: None, round: None }
}

/// The query may start the stream: its lower bound names a starting state
/// version, and that version is not zero, which stands for "unset".
pub open spec fn valid_start(params: TransactionStreamRequestBody) -> bool {
    match params.from_ledger_state {
        Some(s) => match s.state_version {
            Some(v) => v > 0,
            None => false,
        },
        None => false,
    }
}

/// Whether the query may start a stream: see `valid_start`.
pub fn is_valid_start(params: &TransactionStreamRequestBody) -> (r: bool)
    ensures
        r == valid_start(*params),
{
    match &params.from_ledger_state {
        Some(s) => match s.state_version {
            Some(v) => v > 0,
            None => false,
        },
        None => false,
    }
}

/// Both optional lists hold the same strings.
pub open spec fn same_list(a: Option<Vec<String>>, b: Option<Vec<String>>) -> bool {
    match (a, b) {
        (None, None) => true,
        (Some(x), Some(y)) => x@ == y@,
        _ => false,
    }
}

fn copy_strings(v: &Vec<String>) -> (r: Vec<String>)
    ensures
        r@ == v@,
{
    let mut r: Vec<String> = Vec::new();
    let mut i: usize = 0;
    while i < v.len()
        invariant
            i <= v.len(),
            r@ == v@.take(i as int),
        decreases v.len() - i,
    {
        r.push(v[i].clone());
        i += 1;
        assert(r@ =~= v@.take(i as int));
    }
    assert(v@.take(v.len() as int) =~= v@);
    r
}

fn copy_list(v: &Option<Vec<String>>) -> (r: Option<Vec<String>>)
    ensures
        same_list(r, *v),
{
    match v {
        Some(x) => Some(copy_strings(x)),
        None => None,
    }
}

/// The state of a transaction stream: the client it fetches through, a
/// cursor that it never sets, and the query, whose lower bound
/// (`from_ledger_state`) moves forward page by page.
///
/// Fetching a page is the caller's part: it sends `next_request()` and hands
/// the state versions of the page it received to `advance`.
pub struct TransactionStream<C> {
    pub client: C,
    pub cursor: Option<String>,
    pub params: TransactionStreamRequestBody,
}

pub type TransactionStreamAsync = TransactionStream<GatewayClientAsync>;

pub type TransactionStreamBlocking = TransactionStream<GatewayClientBlocking>;

impl<C> TransactionStream<C> {
    /// The stream's query names a starting state version other than zero.
    pub open spec fn wf(&self) -> bool {
        valid_start(self.params)
    }

    /// A stream over the query `params`, which must name a starting state
    /// version other than zero.
    pub fn new(client: C, params: TransactionStreamRequestBody) -> (r: TransactionStream<C>)
        requires
            valid_start(params),
        ensures
            r.wf(),
            r.client == client,
            r.params == params,
            r.cursor is None,
    {
        TransactionStream { client, params, cursor: None }
    }

    /// The state version at which the next page starts, when the query's
    /// lower bound names one, as it always does in a well-formed stream.
    pub fn from_state_version(&self) -> (r: Option<u64>)
        ensures
            self.wf() ==> (r matches Some(v) && v > 0),
            r == (match self.params.from_ledger_state {
                Some(s) => s.state_version,
                None => None,
            }),
    {
        match self.params.from_ledger_state {
            Some(s) => s.state_version,
            None => None,
        }
    }

    /// The request for the next page: the stream's query, without a cursor and
    /// in ascending order of state version, which paging by a lower bound
    /// relies on.
    pub fn next_request(&self) -> (r: TransactionStreamRequestBody)
        ensures
            r.at_ledger_state == self.params.at_ledger_state,
            r.from_ledger_state == self.params.from_ledger_state,
            r.cursor is None,
            r.limit_per_page == self.params.limit_per_page,
            r.kind_filter == self.params.kind_filter,
            same_list(
                r.manifest_accounts_withdrawn_from_filter,
                self.params.manifest_accounts_withdrawn_from_filter,
            ),
            same_list(
                r.manifest_accounts_deposited_into_filter,
                self.params.manifest_accounts_deposited_into_filter,
            ),
            same_list(r.manifest_resources_filter, self.params.manifest_resources_filter),
            same_list(
                r.affected_global_entities_filter,
                self.params.affected_global_entities_filter,
            ),
            r.order == Some(Order::Asc),
            r.opt_ins == self.params.opt_ins,
    {
        let p = &self.params;
        TransactionStreamRequestBody {
            at_ledger_state: p.at_ledger_state,
            from_ledger_state: p.from_ledger_state,
            cursor: None,
            limit_per_page: p.limit_per_page,
            kind_filter: p.kind_filter,
            manifest_accounts_withdrawn_from_filter: copy_list(
                &p.manifest_accounts_withdrawn_from_filter,
            ),
            manifest_accounts_deposited_into_filter: copy_list(
                &p.manifest_accounts_deposited_into_filter,
            ),
            manifest_resources_filter: copy_list(&p.manifest_resources_filter),
            affected_global_entities_filter: copy_list(&p.affected_global_entities_filter),
            order: Some(Order::Asc),
            opt_ins: p.opt_ins,
        }
    }

    /// Moves the lower bound past a page that was fetched successfully, given
    /// the state versions of its transactions in the order received: to one
    /// past the last of them, as a selector by state version alone. An empty
    /// page changes nothing, so that the same window is asked for again.
    pub fn advance(&mut self, state_versions: &Vec<u64>)
        requires
            old(self).wf(),
            state_versions.len() > 0 ==> state_versions@.last() < u64::MAX,
        ensures
            final(self).wf(),
            state_versions.len() == 0 ==> *final(self) == *old(self),
            state_versions.len() > 0 ==> final(self).params == (TransactionStreamRequestBody {
                from_ledger_state: Some(
                    state_version_selector((state_versions@.last() + 1) as u64),
                ),
                ..old(self).params
            }),
            final(self).client == old(self).client,
            final(self).cursor == old(self).cursor,
    {
        let n = state_versions.len();
        if n > 0 {
            self.params.from_ledger_state = Some(
                LedgerStateSelector {
                    state_version: Some(state_versions[n - 1] + 1),
                    timestamp: None,
                    epoch: None,
                    round: None,
                },
            );
        }
    }
}

impl GatewayClientAsync {
    /// A stream through this client: see `TransactionStream::new`.
    pub fn new_transaction_stream(&self, params: TransactionStreamRequestBody) -> (r:
        TransactionStreamAsync)
        requires
            valid_start(params),
        ensures
            r.wf(),
            r.params == params,
            r.cursor is None,
    {
        TransactionStream::new(self.clone(), params)
    }
}

impl GatewayClientBlocking {
    /// A stream through this client: see `TransactionStream::new`.
    pub fn new_transaction_stream(&self, params: TransactionStreamRequestBody) -> (r:
        TransactionStreamBlocking)
        requires
            valid_start(params),
        ensures
            r.wf(),
            r.params == params,
            r.cursor is None,
    {
        TransactionStream::new(self.clone(), params)
    }
}

} // verus!
