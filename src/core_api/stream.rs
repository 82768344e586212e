//! A stream over the Core API's committed transactions that pages forward
//! from a starting state version.
use crate::client::{CoreClientAsync, CoreClientBlocking};
use crate::core_api::models::{
    SborFormatOptions, SubstateFormatOptions, TransactionFormatOptions,
    TransactionStreamRequestBody,
};
use crate::pagination::next_bound;
use vstd::prelude::*;

verus! {

/// The state of a transaction stream: the client it fetches through, the
/// query, and the lower bound of the next page. The bound is never zero.
///
/// Fetching a page is the caller's part: it sends `next_request()` and hands
/// the state versions of the page it received to `advance`.
pub struct TransactionStream<C> {
    pub client: C,
    pub network: String,
    pub from_state_version: u64,
    pub limit: u32,
    pub sbor_format_options: SborFormatOptions,
    pub transaction_format_options: TransactionFormatOptions,
    pub substate_format_options: SubstateFormatOptions,
    pub include_proofs: bool,
}

pub type TransactionStreamAsync = TransactionStream<CoreClientAsync>;

pub type TransactionStreamBlocking = TransactionStream<CoreClientBlocking>;

impl<C> TransactionStream<C> {
    pub open spec fn wf(&self) -> bool {
        self.from_state_version > 0
    }

    /// A stream that starts at `from_state_version`, which must not be zero:
    /// zero stands for "unset".
    pub fn new(
        client: C,
        network: String,
        from_state_version: u64,
        limit: u32,
        sbor_format_options: SborFormatOptions,
        transaction_format_options: TransactionFormatOptions,
        substate_format_options: SubstateFormatOptions,
        include_proofs: bool,
    ) -> (r: TransactionStream<C>)
        requires
            from_state_version > 0,
        ensures
            r.wf(),
            r.client == client,
            r.network == network,
            r.from_state_version == from_state_version,
            r.limit == limit,
            r.sbor_format_options == sbor_format_options,
            r.transaction_format_options == transaction_format_options,
            r.substate_format_options == substate_format_options,
            r.include_proofs == include_proofs,
    {
        TransactionStream {
            client,
            network,
            from_state_version,
            limit,
            sbor_format_options,
            transaction_format_options,
            substate_format_options,
            include_proofs,
        }
    }

    /// The request for the next page: the stream's query at its current bound.
    pub fn next_request(&self) -> (r: TransactionStreamRequestBody)
        ensures
            r.network == self.network,
            r.from_state_version == self.from_state_version,
            r.limit == self.limit,
            r.sbor_format_options == self.sbor_format_options,
            r.transaction_format_options == self.transaction_format_options,
            r.substate_format_options == self.substate_format_options,
            r.include_proofs == self.include_proofs,
    {
        TransactionStreamRequestBody {
            network: self.network.clone(),
            from_state_version: self.from_state_version,
            limit: self.limit,
            sbor_format_options: self.sbor_format_options,
            transaction_format_options: self.transaction_format_options,
            substate_format_options: self.substate_format_options,
            include_proofs: self.include_proofs,
        }
    }

    /// Moves the bound past a page that was fetched successfully, given the
    /// state versions of its transactions in the order received: to one past
    /// the last of them, or nowhere when the page is empty. Nothing else changes.
    pub fn advance(&mut self, state_versions: &Vec<u64>)
        requires
            old(self).wf(),
            state_versions.len() > 0 ==> state_versions@.last() < u64::MAX,
        ensures
            final(self).wf(),
            final(self).from_state_version == next_bound(
                old(self).from_state_version as int,
                state_versions@,
            ),
            final(self).client == old(self).client,
            final(self).network == old(self).network,
            final(self).limit == old(self).limit,
            final(self).sbor_format_options == old(self).sbor_format_options,
            final(self).transaction_format_options == old(self).transaction_format_options,
            final(self).substate_format_options == old(self).substate_format_options,
            final(self).include_proofs == old(self).include_proofs,
    {
        let n = state_versions.len();
        if n > 0 {
            self.from_state_version = state_versions[n - 1] + 1;
        }
    }
}

impl CoreClientAsync {
    /// A stream through this client: see `TransactionStream::new`.
    pub fn new_transaction_stream(
        &self,
        network: String,
        from_state_version: u64,
        limit: u32,
        sbor_format_options: SborFormatOptions,
        transaction_format_options: TransactionFormatOptions,
        substate_format_options: SubstateFormatOptions,
        include_proofs: bool,
    ) -> (r: TransactionStreamAsync)
        requires
            from_state_version > 0,
        ensures
            r.wf(),
            r.network == network,
            r.from_state_version == from_state_version,
            r.limit == limit,
            r.sbor_format_options == sbor_format_options,
            r.transaction_format_options == transaction_format_options,
            r.substate_format_options == substate_format_options,
            r.include_proofs == include_proofs,
    {
        TransactionStream::new(
            self.clone(),
            network,
            from_state_version,
            limit,
            sbor_format_options,
            transaction_format_options,
            substate_format_options,
            include_proofs,
        )
    }
}

impl CoreClientBlocking {
    /// A stream through this client: see `TransactionStream::new`.
    pub fn new_transaction_stream(
        &self,
        network: String,
        from_state_version: u64,
        limit: u32,
        sbor_format_options: SborFormatOptions,
        transaction_format_options: TransactionFormatOptions,
        substate_format_options: SubstateFormatOptions,
        include_proofs: bool,
    ) -> (r: TransactionStreamBlocking)
        requires
            from_state_version > 0,
        ensures
            r.wf(),
            r.network == network,
            r.from_state_version == from_state_version,
            r.limit == limit,
            r.sbor_format_options == sbor_format_options,
            r.transaction_format_options == transaction_format_options,
            r.substate_format_options == substate_format_options,
            r.include_proofs == include_proofs,
    {
        TransactionStream::new(
            self.clone(),
            network,
            from_state_version,
            limit,
            sbor_format_options,
            transaction_format_options,
            substate_format_options,
            include_proofs,
        )
    }
}

} // verus!
