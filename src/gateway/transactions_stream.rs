//! The builder of a transaction stream query.
use crate::client::{GatewayClientAsync, GatewayClientBlocking};
use crate::gateway::builder::{RequestBuilderAsync, RequestBuilderBlocking};
use crate::gateway::models::{
    empty_stream_query, no_opt_ins, LedgerStateSelector, Order, TransactionKindFilter,
    TransactionStreamOptIns, TransactionStreamRequestBody,
};
use crate::accumulate::field_after;
use vstd::prelude::*;

verus! {

/// A selector that names one point of the ledger's history by one coordinate.
pub open spec fn selector(
    state_version: Option<u64>,
    timestamp: Option<u64>,
    epoch: Option<u64>,
    round: Option<u64>,
) -> LedgerStateSelector {
    LedgerStateSelector { state_version, timestamp, epoch, round }
}

/// The opt-ins a new one is added to: those already set, or none.
pub open spec fn opt_ins_base(o: Option<TransactionStreamOptIns>) -> TransactionStreamOptIns {
    match o {
        Some(x) => x,
        None => no_opt_ins(),
    }
}

/// The query with `at_ledger_state` set to `v`.
pub open spec fn set_at_ledger_state(
    b: TransactionStreamRequestBody,
    v: LedgerStateSelector,
) -> TransactionStreamRequestBody {
    TransactionStreamRequestBody { at_ledger_state: Some(v), ..b }
}

/// The query with `from_ledger_state` set to `v`.
pub open spec fn set_from_ledger_state(
    b: TransactionStreamRequestBody,
    v: LedgerStateSelector,
) -> TransactionStreamRequestBody {
    TransactionStreamRequestBody { from_ledger_state: Some(v), ..b }
}

/// The query with `cursor` set to `v`.
pub open spec fn set_cursor(
    b: TransactionStreamRequestBody,
    v: String,
) -> TransactionStreamRequestBody {
    TransactionStreamRequestBody { cursor: Some(v), ..b }
}

/// The query with `limit_per_page` set to `v`.
pub open spec fn set_limit_per_page(
    b: TransactionStreamRequestBody,
    v: u32,
) -> TransactionStreamRequestBody {
    TransactionStreamRequestBody { limit_per_page: Some(v), ..b }
}

/// The query with `kind_filter` set to `v`.
pub open spec fn set_kind_filter(
    b: TransactionStreamRequestBody,
    v: TransactionKindFilter,
) -> TransactionStreamRequestBody {
    TransactionStreamRequestBody { kind_filter: Some(v), ..b }
}

/// The query with `manifest_accounts_withdrawn_from_filter` set to `v`.
pub open spec fn set_manifest_accounts_withdrawn_from_filter(
    b: TransactionStreamRequestBody,
    v: Vec<String>,
) -> TransactionStreamRequestBody {
    TransactionStreamRequestBody { manifest_accounts_withdrawn_from_filter: Some(v), ..b }
}

/// The query with `manifest_accounts_deposited_into_filter` set to `v`.
pub open spec fn set_manifest_accounts_deposited_into_filter(
    b: TransactionStreamRequestBody,
    v: Vec<String>,
) -> TransactionStreamRequestBody {
    TransactionStreamRequestBody { manifest_accounts_deposited_into_filter: Some(v), ..b }
}

/// The query with `manifest_resources_filter` set to `v`.
pub open spec fn set_manifest_resources_filter(
    b: TransactionStreamRequestBody,
    v: Vec<String>,
) -> TransactionStreamRequestBody {
    TransactionStreamRequestBody { manifest_resources_filter: Some(v), ..b }
}

/// The query with `affected_global_entities_filter` set to `v`.
pub open spec fn set_affected_global_entities_filter(
    b: TransactionStreamRequestBody,
    v: Vec<String>,
) -> TransactionStreamRequestBody {
    TransactionStreamRequestBody { affected_global_entities_filter: Some(v), ..b }
}

/// The query with `order` set to `v`.
pub open spec fn set_order(
    b: TransactionStreamRequestBody,
    v: Order,
) -> TransactionStreamRequestBody {
    TransactionStreamRequestBody { order: Some(v), ..b }
}

/// The query with `opt_ins` set to `v`.
pub open spec fn set_opt_ins(
    b: TransactionStreamRequestBody,
    v: TransactionStreamOptIns,
) -> TransactionStreamRequestBody {
    TransactionStreamRequestBody { opt_ins: Some(v), ..b }
}

/// One call of a setter of a transaction stream query builder, with the value
/// it sets: the `at_*` and `from_*` setters set a selector, the `with_*`
/// opt-ins set the whole opt-ins.
pub enum QuerySetting {
    AtLedgerState(LedgerStateSelector),
    FromLedgerState(LedgerStateSelector),
    Cursor(String),
    LimitPerPage(u32),
    KindFilter(TransactionKindFilter),
    ManifestAccountsWithdrawnFromFilter(Vec<String>),
    ManifestAccountsDepositedIntoFilter(Vec<String>),
    ManifestResourcesFilter(Vec<String>),
    AffectedGlobalEntitiesFilter(Vec<String>),
    Order(Order),
    OptIns(TransactionStreamOptIns),
}

/// The query after one setter call.
pub open spec fn apply_setting(
    b: TransactionStreamRequestBody,
    s: QuerySetting,
) -> TransactionStreamRequestBody {
    match s {
        QuerySetting::AtLedgerState(x) => set_at_ledger_state(b, x),
        QuerySetting::FromLedgerState(x) => set_from_ledger_state(b, x),
        QuerySetting::Cursor(x) => set_cursor(b, x),
        QuerySetting::LimitPerPage(x) => set_limit_per_page(b, x),
        QuerySetting::KindFilter(x) => set_kind_filter(b, x),
        QuerySetting::ManifestAccountsWithdrawnFromFilter(x) => {
            set_manifest_accounts_withdrawn_from_filter(b, x)
        },
        QuerySetting::ManifestAccountsDepositedIntoFilter(x) => {
            set_manifest_accounts_deposited_into_filter(b, x)
        },
        QuerySetting::ManifestResourcesFilter(x) => set_manifest_resources_filter(b, x),
        QuerySetting::AffectedGlobalEntitiesFilter(x) => set_affected_global_entities_filter(b, x),
        QuerySetting::Order(x) => set_order(b, x),
        QuerySetting::OptIns(x) => set_opt_ins(b, x),
    }
}

/// The query after a sequence of setter calls, in order.
pub open spec fn apply_settings(
    b: TransactionStreamRequestBody,
    settings: Seq<QuerySetting>,
) -> TransactionStreamRequestBody
    decreases settings.len(),
{
    if settings.len() == 0 {
        b
    } else {
        apply_setting(apply_settings(b, settings.drop_last()), settings.last())
    }
}

pub open spec fn pick_at_ledger_state(s: QuerySetting) -> Option<LedgerStateSelector> {
    match s {
        QuerySetting::AtLedgerState(x) => Some(x),
        _ => None,
    }
}

pub open spec fn pick_from_ledger_state(s: QuerySetting) -> Option<LedgerStateSelector> {
    match s {
        QuerySetting::FromLedgerState(x) => Some(x),
        _ => None,
    }
}

pub open spec fn pick_cursor(s: QuerySetting) -> Option<String> {
    match s {
        QuerySetting::Cursor(x) => Some(x),
        _ => None,
    }
}

pub open spec fn pick_limit_per_page(s: QuerySetting) -> Option<u32> {
    match s {
        QuerySetting::LimitPerPage(x) => Some(x),
        _ => None,
    }
}

pub open spec fn pick_kind_filter(s: QuerySetting) -> Option<TransactionKindFilter> {
    match s {
        QuerySetting::KindFilter(x) => Some(x),
        _ => None,
    }
}

pub open spec fn pick_manifest_accounts_withdrawn_from_filter(
    s: QuerySetting,
) -> Option<Vec<String>> {
    match s {
        QuerySetting::ManifestAccountsWithdrawnFromFilter(x) => Some(x),
        _ => None,
    }
}

pub open spec fn pick_manifest_accounts_deposited_into_filter(
    s: QuerySetting,
) -> Option<Vec<String>> {
    match s {
        QuerySetting::ManifestAccountsDepositedIntoFilter(x) => Some(x),
        _ => None,
    }
}

pub open spec fn pick_manifest_resources_filter(s: QuerySetting) -> Option<Vec<String>> {
    match s {
        QuerySetting::ManifestResourcesFilter(x) => Some(x),
        _ => None,
    }
}

pub open spec fn pick_affected_global_entities_filter(s: QuerySetting) -> Option<Vec<String>> {
    match s {
        QuerySetting::AffectedGlobalEntitiesFilter(x) => Some(x),
        _ => None,
    }
}

pub open spec fn pick_order(s: QuerySetting) -> Option<Order> {
    match s {
        QuerySetting::Order(x) => Some(x),
        _ => None,
    }
}

pub open spec fn pick_opt_ins(s: QuerySetting) -> Option<TransactionStreamOptIns> {
    match s {
        QuerySetting::OptIns(x) => Some(x),
        _ => None,
    }
}

/// The query written out directly: each field holds the value of the last
/// call that sets it, and a field that no call sets holds its starting value.
pub open spec fn direct_query(
    b: TransactionStreamRequestBody,
    settings: Seq<QuerySetting>,
) -> TransactionStreamRequestBody {
    TransactionStreamRequestBody {
        at_ledger_state: field_after(settings, |s| pick_at_ledger_state(s), b.at_ledger_state),
        from_ledger_state: field_after(
            settings,
            |s| pick_from_ledger_state(s),
            b.from_ledger_state,
        ),
        cursor: field_after(settings, |s| pick_cursor(s), b.cursor),
        limit_per_page: field_after(settings, |s| pick_limit_per_page(s), b.limit_per_page),
        kind_filter: field_after(settings, |s| pick_kind_filter(s), b.kind_filter),
        manifest_accounts_withdrawn_from_filter: field_after(
            settings,
            |s| pick_manifest_accounts_withdrawn_from_filter(s),
            b.manifest_accounts_withdrawn_from_filter,
        ),
        manifest_accounts_deposited_into_filter: field_after(
            settings,
            |s| pick_manifest_accounts_deposited_into_filter(s),
            b.manifest_accounts_deposited_into_filter,
        ),
        manifest_resources_filter: field_after(
            settings,
            |s| pick_manifest_resources_filter(s),
            b.manifest_resources_filter,
        ),
        affected_global_entities_filter: field_after(
            settings,
            |s| pick_affected_global_entities_filter(s),
            b.affected_global_entities_filter,
        ),
        order: field_after(settings, |s| pick_order(s), b.order),
        opt_ins: field_after(settings, |s| pick_opt_ins(s), b.opt_ins),
    }
}

/// A builder is a pure accumulator: whatever query it starts from, any
/// sequence of setter calls, in any order, yields the query written out
/// directly, where each field holds the last value set for it.
pub proof fn lemma_settings_give_direct_query(
    b: TransactionStreamRequestBody,
    settings: Seq<QuerySetting>,
)
    ensures
        apply_settings(b, settings) == direct_query(b, settings),
    decreases settings.len(),
{
    if settings.len() > 0 {
        lemma_settings_give_direct_query(b, settings.drop_last());
    }
}

impl GatewayClientAsync {
    /// A builder of a transaction stream query with nothing set.
    pub fn transactions_stream_builder(
        &self,
    ) -> (r: RequestBuilderAsync<TransactionStreamRequestBody>)
        ensures
            r.request == empty_stream_query(),
    {
        RequestBuilderAsync {
            client: self.clone(),
            request: TransactionStreamRequestBody::default(),
        }
    }
}

impl GatewayClientBlocking {
    /// A builder of a transaction stream query with nothing set.
    pub fn transactions_stream_builder(
        &self,
    ) -> (r: RequestBuilderBlocking<TransactionStreamRequestBody>)
        ensures
            r.request == empty_stream_query(),
    {
        RequestBuilderBlocking {
            client: self.clone(),
            request: TransactionStreamRequestBody::default(),
        }
    }
}

impl RequestBuilderAsync<TransactionStreamRequestBody> {
    /// Only transactions that affected one of these global entities.
    pub fn affected_global_entities_filter(&mut self, value: Vec<String>) -> (r: &mut Self)
        ensures
            r.request == set_affected_global_entities_filter(old(self).request, value),
            r.client == old(self).client,
            *final(self) == *final(r),
    {
        self.request.affected_global_entities_filter = Some(value);
        self
    }

    /// Only transactions whose manifest deposits into one of these accounts.
    pub fn manifest_accounts_deposited_into_filter(&mut self, value: Vec<String>) -> (r: &mut Self)
        ensures
            r.request == set_manifest_accounts_deposited_into_filter(old(self).request, value),
            r.client == old(self).client,
            *final(self) == *final(r),
    {
        self.request.manifest_accounts_deposited_into_filter = Some(value);
        self
    }

    /// Only transactions whose manifest withdraws from one of these accounts.
    pub fn manifest_accounts_withdrawn_from_filter(&mut self, value: Vec<String>) -> (r: &mut Self)
        ensures
            r.request == set_manifest_accounts_withdrawn_from_filter(old(self).request, value),
            r.client == old(self).client,
            *final(self) == *final(r),
    {
        self.request.manifest_accounts_withdrawn_from_filter = Some(value);
        self
    }

    /// Only transactions whose manifest names one of these resources.
    pub fn manifest_resources_filter(&mut self, value: Vec<String>) -> (r: &mut Self)
        ensures
            r.request == set_manifest_resources_filter(old(self).request, value),
            r.client == old(self).client,
            *final(self) == *final(r),
    {
        self.request.manifest_resources_filter = Some(value);
        self
    }

    /// The query reads the ledger as it stood at this state version.
    pub fn at_state_version(&mut self, value: u64) -> (r: &mut Self)
        ensures
            r.request == set_at_ledger_state(
                old(self).request,
                selector(Some(value), None, None, None),
            ),
            r.client == old(self).client,
            *final(self) == *final(r),
    {
        self.request.at_ledger_state = Some(LedgerStateSelector {
            state_version: Some(value),
            timestamp: None,
            epoch: None,
            round: None,
        });
        self
    }

    /// The query reads the ledger as it stood at this timestamp, in seconds since the Unix epoch.
    pub fn at_timestamp(&mut self, value: u64) -> (r: &mut Self)
        ensures
            r.request == set_at_ledger_state(
                old(self).request,
                selector(None, Some(value), None, None),
            ),
            r.client == old(self).client,
            *final(self) == *final(r),
    {
        self.request.at_ledger_state = Some(LedgerStateSelector {
            state_version: None,
            timestamp: Some(value),
            epoch: None,
            round: None,
        });
        self
    }

    /// The query reads the ledger as it stood at this epoch.
    pub fn at_epoch(&mut self, value: u64) -> (r: &mut Self)
        ensures
            r.request == set_at_ledger_state(
                old(self).request,
                selector(None, None, Some(value), None),
            ),
            r.client == old(self).client,
            *final(self) == *final(r),
    {
        self.request.at_ledger_state = Some(LedgerStateSelector {
            state_version: None,
            timestamp: None,
            epoch: Some(value),
            round: None,
        });
        self
    }

    /// The query reads the ledger as it stood at this round.
    pub fn at_round(&mut self, value: u64) -> (r: &mut Self)
        ensures
            r.request == set_at_ledger_state(
                old(self).request,
                selector(None, None, None, Some(value)),
            ),
            r.client == old(self).client,
            *final(self) == *final(r),
    {
        self.request.at_ledger_state = Some(LedgerStateSelector {
            state_version: None,
            timestamp: None,
            epoch: None,
            round: Some(value),
        });
        self
    }

    /// The feed starts at this state version.
    pub fn from_state_version(&mut self, value: u64) -> (r: &mut Self)
        ensures
            r.request == set_from_ledger_state(
                old(self).request,
                selector(Some(value), None, None, None),
            ),
            r.client == old(self).client,
            *final(self) == *final(r),
    {
        self.request.from_ledger_state = Some(LedgerStateSelector {
            state_version: Some(value),
            timestamp: None,
            epoch: None,
            round: None,
        });
        self
    }

    /// The feed starts at this timestamp, in seconds since the Unix epoch.
    pub fn from_timestamp(&mut self, value: u64) -> (r: &mut Self)
        ensures
            r.request == set_from_ledger_state(
                old(self).request,
                selector(None, Some(value), None, None),
            ),
            r.client == old(self).client,
            *final(self) == *final(r),
    {
        self.request.from_ledger_state = Some(LedgerStateSelector {
            state_version: None,
            timestamp: Some(value),
            epoch: None,
            round: None,
        });
        self
    }

    /// The feed starts at this epoch.
    pub fn from_epoch(&mut self, value: u64) -> (r: &mut Self)
        ensures
            r.request == set_from_ledger_state(
                old(self).request,
                selector(None, None, Some(value), None),
            ),
            r.client == old(self).client,
            *final(self) == *final(r),
    {
        self.request.from_ledger_state = Some(LedgerStateSelector {
            state_version: None,
            timestamp: None,
            epoch: Some(value),
            round: None,
        });
        self
    }

    /// The feed starts at this round.
    pub fn from_round(&mut self, value: u64) -> (r: &mut Self)
        ensures
            r.request == set_from_ledger_state(
                old(self).request,
                selector(None, None, None, Some(value)),
            ),
            r.client == old(self).client,
            *final(self) == *final(r),
    {
        self.request.from_ledger_state = Some(LedgerStateSelector {
            state_version: None,
            timestamp: None,
            epoch: None,
            round: Some(value),
        });
        self
    }

    /// Resume from a cursor that the Gateway handed out.
    pub fn cursor(&mut self, value: String) -> (r: &mut Self)
        ensures
            r.request == set_cursor(old(self).request, value),
            r.client == old(self).client,
            *final(self) == *final(r),
    {
        self.request.cursor = Some(value);
        self
    }

    /// At most this many transactions per page.
    pub fn limit_per_page(&mut self, value: u32) -> (r: &mut Self)
        ensures
            r.request == set_limit_per_page(old(self).request, value),
            r.client == old(self).client,
            *final(self) == *final(r),
    {
        self.request.limit_per_page = Some(value);
        self
    }

    /// The order in which transactions are listed.
    pub fn order(&mut self, value: Order) -> (r: &mut Self)
        ensures
            r.request == set_order(old(self).request, value),
            r.client == old(self).client,
            *final(self) == *final(r),
    {
        self.request.order = Some(value);
        self
    }

    /// Only transactions of this kind.
    pub fn kind_filter(&mut self, value: TransactionKindFilter) -> (r: &mut Self)
        ensures
            r.request == set_kind_filter(old(self).request, value),
            r.client == old(self).client,
            *final(self) == *final(r),
    {
        self.request.kind_filter = Some(value);
        self
    }

    /// The opt-ins already set, or none.
    fn current_opt_ins(&self) -> (r: TransactionStreamOptIns)
        ensures
            r == opt_ins_base(self.request.opt_ins),
    {
        match self.request.opt_ins {
            Some(o) => o,
            None => TransactionStreamOptIns::default(),
        }
    }

    /// Ask for `raw_hex` in each transaction, keeping the other opt-ins.
    pub fn with_raw_hex(&mut self) -> (r: &mut Self)
        ensures
            r.request == set_opt_ins(
                old(self).request,
                (TransactionStreamOptIns {
                    raw_hex: true,
                    ..opt_ins_base(old(self).request.opt_ins)
                }),
            ),
            r.client == old(self).client,
            *final(self) == *final(r),
    {
        let mut o = self.current_opt_ins();
        o.raw_hex = true;
        self.request.opt_ins = Some(o);
        self
    }

    /// Ask for `receipt_state_changes` in each transaction, keeping the other opt-ins.
    pub fn with_receipt_state_changes(&mut self) -> (r: &mut Self)
        ensures
            r.request == set_opt_ins(
                old(self).request,
                (TransactionStreamOptIns {
                    receipt_state_changes: true,
                    ..opt_ins_base(old(self).request.opt_ins)
                }),
            ),
            r.client == old(self).client,
            *final(self) == *final(r),
    {
        let mut o = self.current_opt_ins();
        o.receipt_state_changes = true;
        self.request.opt_ins = Some(o);
        self
    }

    /// Ask for `receipt_fee_summary` in each transaction, keeping the other opt-ins.
    pub fn with_receipt_fee_summary(&mut self) -> (r: &mut Self)
        ensures
            r.request == set_opt_ins(
                old(self).request,
                (TransactionStreamOptIns {
                    receipt_fee_summary: true,
                    ..opt_ins_base(old(self).request.opt_ins)
                }),
            ),
            r.client == old(self).client,
            *final(self) == *final(r),
    {
        let mut o = self.current_opt_ins();
        o.receipt_fee_summary = true;
        self.request.opt_ins = Some(o);
        self
    }

    /// Ask for `receipt_fee_source` in each transaction, keeping the other opt-ins.
    pub fn with_receipt_fee_source(&mut self) -> (r: &mut Self)
        ensures
            r.request == set_opt_ins(
                old(self).request,
                (TransactionStreamOptIns {
                    receipt_fee_source: true,
                    ..opt_ins_base(old(self).request.opt_ins)
                }),
            ),
            r.client == old(self).client,
            *final(self) == *final(r),
    {
        let mut o = self.current_opt_ins();
        o.receipt_fee_source = true;
        self.request.opt_ins = Some(o);
        self
    }

    /// Ask for `receipt_fee_destination` in each transaction, keeping the other opt-ins.
    pub fn with_receipt_fee_destination(&mut self) -> (r: &mut Self)
        ensures
            r.request == set_opt_ins(
                old(self).request,
                (TransactionStreamOptIns {
                    receipt_fee_destination: true,
                    ..opt_ins_base(old(self).request.opt_ins)
                }),
            ),
            r.client == old(self).client,
            *final(self) == *final(r),
    {
        let mut o = self.current_opt_ins();
        o.receipt_fee_destination = true;
        self.request.opt_ins = Some(o);
        self
    }

    /// Ask for `receipt_costing_parameters` in each transaction, keeping the other opt-ins.
    pub fn with_receipt_costing_parameters(&mut self) -> (r: &mut Self)
        ensures
            r.request == set_opt_ins(
                old(self).request,
                (TransactionStreamOptIns {
                    receipt_costing_parameters: true,
                    ..opt_ins_base(old(self).request.opt_ins)
                }),
            ),
            r.client == old(self).client,
            *final(self) == *final(r),
    {
        let mut o = self.current_opt_ins();
        o.receipt_costing_parameters = true;
        self.request.opt_ins = Some(o);
        self
    }

    /// Ask for `receipt_events` in each transaction, keeping the other opt-ins.
    pub fn with_receipt_events(&mut self) -> (r: &mut Self)
        ensures
            r.request == set_opt_ins(
                old(self).request,
                (TransactionStreamOptIns {
                    receipt_events: true,
                    ..opt_ins_base(old(self).request.opt_ins)
                }),
            ),
            r.client == old(self).client,
            *final(self) == *final(r),
    {
        let mut o = self.current_opt_ins();
        o.receipt_events = true;
        self.request.opt_ins = Some(o);
        self
    }

    /// Ask for `receipt_output` in each transaction, keeping the other opt-ins.
    pub fn with_receipt_output(&mut self) -> (r: &mut Self)
        ensures
            r.request == set_opt_ins(
                old(self).request,
                (TransactionStreamOptIns {
                    receipt_output: true,
                    ..opt_ins_base(old(self).request.opt_ins)
                }),
            ),
            r.client == old(self).client,
            *final(self) == *final(r),
    {
        let mut o = self.current_opt_ins();
        o.receipt_output = true;
        self.request.opt_ins = Some(o);
        self
    }

    /// Ask for `affected_global_entities` in each transaction, keeping the other opt-ins.
    pub fn with_affected_global_entities(&mut self) -> (r: &mut Self)
        ensures
            r.request == set_opt_ins(
                old(self).request,
                (TransactionStreamOptIns {
                    affected_global_entities: true,
                    ..opt_ins_base(old(self).request.opt_ins)
                }),
            ),
            r.client == old(self).client,
            *final(self) == *final(r),
    {
        let mut o = self.current_opt_ins();
        o.affected_global_entities = true;
        self.request.opt_ins = Some(o);
        self
    }

    /// Ask for `manifest_instructions` in each transaction, keeping the other opt-ins.
    pub fn with_manifest_instructions(&mut self) -> (r: &mut Self)
        ensures
            r.request == set_opt_ins(
                old(self).request,
                (TransactionStreamOptIns {
                    manifest_instructions: true,
                    ..opt_ins_base(old(self).request.opt_ins)
                }),
            ),
            r.client == old(self).client,
            *final(self) == *final(r),
    {
        let mut o = self.current_opt_ins();
        o.manifest_instructions = true;
        self.request.opt_ins = Some(o);
        self
    }

    /// Ask for `balance_changes` in each transaction, keeping the other opt-ins.
    pub fn with_balance_changes(&mut self) -> (r: &mut Self)
        ensures
            r.request == set_opt_ins(
                old(self).request,
                (TransactionStreamOptIns {
                    balance_changes: true,
                    ..opt_ins_base(old(self).request.opt_ins)
                }),
            ),
            r.client == old(self).client,
            *final(self) == *final(r),
    {
        let mut o = self.current_opt_ins();
        o.balance_changes = true;
        self.request.opt_ins = Some(o);
        self
    }
}

impl RequestBuilderBlocking<TransactionStreamRequestBody> {
    /// Only transactions that affected one of these global entities.
    pub fn affected_global_entities_filter(&mut self, value: Vec<String>) -> (r: &mut Self)
        ensures
            r.request == set_affected_global_entities_filter(old(self).request, value),
            r.client == old(self).client,
            *final(self) == *final(r),
    {
        self.request.affected_global_entities_filter = Some(value);
        self
    }

    /// Only transactions whose manifest deposits into one of these accounts.
    pub fn manifest_accounts_deposited_into_filter(&mut self, value: Vec<String>) -> (r: &mut Self)
        ensures
            r.request == set_manifest_accounts_deposited_into_filter(old(self).request, value),
            r.client == old(self).client,
            *final(self) == *final(r),
    {
        self.request.manifest_accounts_deposited_into_filter = Some(value);
        self
    }

    /// Only transactions whose manifest withdraws from one of these accounts.
    pub fn manifest_accounts_withdrawn_from_filter(&mut self, value: Vec<String>) -> (r: &mut Self)
        ensures
            r.request == set_manifest_accounts_withdrawn_from_filter(old(self).request, value),
            r.client == old(self).client,
            *final(self) == *final(r),
    {
        self.request.manifest_accounts_withdrawn_from_filter = Some(value);
        self
    }

    /// Only transactions whose manifest names one of these resources.
    pub fn manifest_resources_filter(&mut self, value: Vec<String>) -> (r: &mut Self)
        ensures
            r.request == set_manifest_resources_filter(old(self).request, value),
            r.client == old(self).client,
            *final(self) == *final(r),
    {
        self.request.manifest_resources_filter = Some(value);
        self
    }

    /// The query reads the ledger as it stood at this state version.
    pub fn at_state_version(&mut self, value: u64) -> (r: &mut Self)
        ensures
            r.request == set_at_ledger_state(
                old(self).request,
                selector(Some(value), None, None, None),
            ),
            r.client == old(self).client,
            *final(self) == *final(r),
    {
        self.request.at_ledger_state = Some(LedgerStateSelector {
            state_version: Some(value),
            timestamp: None,
            epoch: None,
            round: None,
        });
        self
    }

    /// The query reads the ledger as it stood at this timestamp, in seconds since the Unix epoch.
    pub fn at_timestamp(&mut self, value: u64) -> (r: &mut Self)
        ensures
            r.request == set_at_ledger_state(
                old(self).request,
                selector(None, Some(value), None, None),
            ),
            r.client == old(self).client,
            *final(self) == *final(r),
    {
        self.request.at_ledger_state = Some(LedgerStateSelector {
            state_version: None,
            timestamp: Some(value),
            epoch: None,
            round: None,
        });
        self
    }

    /// The query reads the ledger as it stood at this epoch.
    pub fn at_epoch(&mut self, value: u64) -> (r: &mut Self)
        ensures
            r.request == set_at_ledger_state(
                old(self).request,
                selector(None, None, Some(value), None),
            ),
            r.client == old(self).client,
            *final(self) == *final(r),
    {
        self.request.at_ledger_state = Some(LedgerStateSelector {
            state_version: None,
            timestamp: None,
            epoch: Some(value),
            round: None,
        });
        self
    }

    /// The query reads the ledger as it stood at this round.
    pub fn at_round(&mut self, value: u64) -> (r: &mut Self)
        ensures
            r.request == set_at_ledger_state(
                old(self).request,
                selector(None, None, None, Some(value)),
            ),
            r.client == old(self).client,
            *final(self) == *final(r),
    {
        self.request.at_ledger_state = Some(LedgerStateSelector {
            state_version: None,
            timestamp: None,
            epoch: None,
            round: Some(value),
        });
        self
    }

    /// The feed starts at this state version.
    pub fn from_state_version(&mut self, value: u64) -> (r: &mut Self)
        ensures
            r.request == set_from_ledger_state(
                old(self).request,
                selector(Some(value), None, None, None),
            ),
            r.client == old(self).client,
            *final(self) == *final(r),
    {
        self.request.from_ledger_state = Some(LedgerStateSelector {
            state_version: Some(value),
            timestamp: None,
            epoch: None,
            round: None,
        });
        self
    }

    /// The feed starts at this timestamp, in seconds since the Unix epoch.
    pub fn from_timestamp(&mut self, value: u64) -> (r: &mut Self)
        ensures
            r.request == set_from_ledger_state(
                old(self).request,
                selector(None, Some(value), None, None),
            ),
            r.client == old(self).client,
            *final(self) == *final(r),
    {
        self.request.from_ledger_state = Some(LedgerStateSelector {
            state_version: None,
            timestamp: Some(value),
            epoch: None,
            round: None,
        });
        self
    }

    /// The feed starts at this epoch.
    pub fn from_epoch(&mut self, value: u64) -> (r: &mut Self)
        ensures
            r.request == set_from_ledger_state(
                old(self).request,
                selector(None, None, Some(value), None),
            ),
            r.client == old(self).client,
            *final(self) == *final(r),
    {
        self.request.from_ledger_state = Some(LedgerStateSelector {
            state_version: None,
            timestamp: None,
            epoch: Some(value),
            round: None,
        });
        self
    }

    /// The feed starts at this round.
    pub fn from_round(&mut self, value: u64) -> (r: &mut Self)
        ensures
            r.request == set_from_ledger_state(
                old(self).request,
                selector(None, None, None, Some(value)),
            ),
            r.client == old(self).client,
            *final(self) == *final(r),
    {
        self.request.from_ledger_state = Some(LedgerStateSelector {
            state_version: None,
            timestamp: None,
            epoch: None,
            round: Some(value),
        });
        self
    }

    /// Resume from a cursor that the Gateway handed out.
    pub fn cursor(&mut self, value: String) -> (r: &mut Self)
        ensures
            r.request == set_cursor(old(self).request, value),
            r.client == old(self).client,
            *final(self) == *final(r),
    {
        self.request.cursor = Some(value);
        self
    }

    /// At most this many transactions per page.
    pub fn limit_per_page(&mut self, value: u32) -> (r: &mut Self)
        ensures
            r.request == set_limit_per_page(old(self).request, value),
            r.client == old(self).client,
            *final(self) == *final(r),
    {
        self.request.limit_per_page = Some(value);
        self
    }

    /// The order in which transactions are listed.
    pub fn order(&mut self, value: Order) -> (r: &mut Self)
        ensures
            r.request == set_order(old(self).request, value),
            r.client == old(self).client,
            *final(self) == *final(r),
    {
        self.request.order = Some(value);
        self
    }

    /// Only transactions of this kind.
    pub fn kind_filter(&mut self, value: TransactionKindFilter) -> (r: &mut Self)
        ensures
            r.request == set_kind_filter(old(self).request, value),
            r.client == old(self).client,
            *final(self) == *final(r),
    {
        self.request.kind_filter = Some(value);
        self
    }

    /// The opt-ins already set, or none.
    fn current_opt_ins(&self) -> (r: TransactionStreamOptIns)
        ensures
            r == opt_ins_base(self.request.opt_ins),
    {
        match self.request.opt_ins {
            Some(o) => o,
            None => TransactionStreamOptIns::default(),
        }
    }

    /// Ask for `raw_hex` in each transaction, keeping the other opt-ins.
    pub fn with_raw_hex(&mut self) -> (r: &mut Self)
        ensures
            r.request == set_opt_ins(
                old(self).request,
                (TransactionStreamOptIns {
                    raw_hex: true,
                    ..opt_ins_base(old(self).request.opt_ins)
                }),
            ),
            r.client == old(self).client,
            *final(self) == *final(r),
    {
        let mut o = self.current_opt_ins();
        o.raw_hex = true;
        self.request.opt_ins = Some(o);
        self
    }

    /// Ask for `receipt_state_changes` in each transaction, keeping the other opt-ins.
    pub fn with_receipt_state_changes(&mut self) -> (r: &mut Self)
        ensures
            r.request == set_opt_ins(
                old(self).request,
                (TransactionStreamOptIns {
                    receipt_state_changes: true,
                    ..opt_ins_base(old(self).request.opt_ins)
                }),
            ),
            r.client == old(self).client,
            *final(self) == *final(r),
    {
        let mut o = self.current_opt_ins();
        o.receipt_state_changes = true;
        self.request.opt_ins = Some(o);
        self
    }

    /// Ask for `receipt_fee_summary` in each transaction, keeping the other opt-ins.
    pub fn with_receipt_fee_summary(&mut self) -> (r: &mut Self)
        ensures
            r.request == set_opt_ins(
                old(self).request,
                (TransactionStreamOptIns {
                    receipt_fee_summary: true,
                    ..opt_ins_base(old(self).request.opt_ins)
                }),
            ),
            r.client == old(self).client,
            *final(self) == *final(r),
    {
        let mut o = self.current_opt_ins();
        o.receipt_fee_summary = true;
        self.request.opt_ins = Some(o);
        self
    }

    /// Ask for `receipt_fee_source` in each transaction, keeping the other opt-ins.
    pub fn with_receipt_fee_source(&mut self) -> (r: &mut Self)
        ensures
            r.request == set_opt_ins(
                old(self).request,
                (TransactionStreamOptIns {
                    receipt_fee_source: true,
                    ..opt_ins_base(old(self).request.opt_ins)
                }),
            ),
            r.client == old(self).client,
            *final(self) == *final(r),
    {
        let mut o = self.current_opt_ins();
        o.receipt_fee_source = true;
        self.request.opt_ins = Some(o);
        self
    }

    /// Ask for `receipt_fee_destination` in each transaction, keeping the other opt-ins.
    pub fn with_receipt_fee_destination(&mut self) -> (r: &mut Self)
        ensures
            r.request == set_opt_ins(
                old(self).request,
                (TransactionStreamOptIns {
                    receipt_fee_destination: true,
                    ..opt_ins_base(old(self).request.opt_ins)
                }),
            ),
            r.client == old(self).client,
            *final(self) == *final(r),
    {
        let mut o = self.current_opt_ins();
        o.receipt_fee_destination = true;
        self.request.opt_ins = Some(o);
        self
    }

    /// Ask for `receipt_costing_parameters` in each transaction, keeping the other opt-ins.
    pub fn with_receipt_costing_parameters(&mut self) -> (r: &mut Self)
        ensures
            r.request == set_opt_ins(
                old(self).request,
                (TransactionStreamOptIns {
                    receipt_costing_parameters: true,
                    ..opt_ins_base(old(self).request.opt_ins)
                }),
            ),
            r.client == old(self).client,
            *final(self) == *final(r),
    {
        let mut o = self.current_opt_ins();
        o.receipt_costing_parameters = true;
        self.request.opt_ins = Some(o);
        self
    }

    /// Ask for `receipt_events` in each transaction, keeping the other opt-ins.
    pub fn with_receipt_events(&mut self) -> (r: &mut Self)
        ensures
            r.request == set_opt_ins(
                old(self).request,
                (TransactionStreamOptIns {
                    receipt_events: true,
                    ..opt_ins_base(old(self).request.opt_ins)
                }),
            ),
            r.client == old(self).client,
            *final(self) == *final(r),
    {
        let mut o = self.current_opt_ins();
        o.receipt_events = true;
        self.request.opt_ins = Some(o);
        self
    }

    /// Ask for `receipt_output` in each transaction, keeping the other opt-ins.
    pub fn with_receipt_output(&mut self) -> (r: &mut Self)
        ensures
            r.request == set_opt_ins(
                old(self).request,
                (TransactionStreamOptIns {
                    receipt_output: true,
                    ..opt_ins_base(old(self).request.opt_ins)
                }),
            ),
            r.client == old(self).client,
            *final(self) == *final(r),
    {
        let mut o = self.current_opt_ins();
        o.receipt_output = true;
        self.request.opt_ins = Some(o);
        self
    }

    /// Ask for `affected_global_entities` in each transaction, keeping the other opt-ins.
    pub fn with_affected_global_entities(&mut self) -> (r: &mut Self)
        ensures
            r.request == set_opt_ins(
                old(self).request,
                (TransactionStreamOptIns {
                    affected_global_entities: true,
                    ..opt_ins_base(old(self).request.opt_ins)
                }),
            ),
            r.client == old(self).client,
            *final(self) == *final(r),
    {
        let mut o = self.current_opt_ins();
        o.affected_global_entities = true;
        self.request.opt_ins = Some(o);
        self
    }

    /// Ask for `manifest_instructions` in each transaction, keeping the other opt-ins.
    pub fn with_manifest_instructions(&mut self) -> (r: &mut Self)
        ensures
            r.request == set_opt_ins(
                old(self).request,
                (TransactionStreamOptIns {
                    manifest_instructions: true,
                    ..opt_ins_base(old(self).request.opt_ins)
                }),
            ),
            r.client == old(self).client,
            *final(self) == *final(r),
    {
        let mut o = self.current_opt_ins();
        o.manifest_instructions = true;
        self.request.opt_ins = Some(o);
        self
    }

    /// Ask for `balance_changes` in each transaction, keeping the other opt-ins.
    pub fn with_balance_changes(&mut self) -> (r: &mut Self)
        ensures
            r.request == set_opt_ins(
                old(self).request,
                (TransactionStreamOptIns {
                    balance_changes: true,
                    ..opt_ins_base(old(self).request.opt_ins)
                }),
            ),
            r.client == old(self).client,
            *final(self) == *final(r),
    {
        let mut o = self.current_opt_ins();
        o.balance_changes = true;
        self.request.opt_ins = Some(o);
        self
    }
}

} // verus!
