//! Builders of the state queries: entity details, the fungible resources
//! of an entity, and the keys and entries of a key-value store.
use crate::client::{GatewayClientAsync, GatewayClientBlocking};
use crate::gateway::builder::{RequestBuilderAsync, RequestBuilderBlocking};
use crate::gateway::models::{
    AggregationLevel, GetKeyValueStoreDataRequestBody, GetKeyValueStoreKeysRequestBody,
    LedgerStateSelector, StateEntityDetailsRequest, StateEntityFungiblesPageRequest,
    StateEntityFungiblesPageRequestOptIns, StateKeyValueStoreDataRequestKeyItem,
};
use crate::gateway::transactions_stream::selector;
use vstd::prelude::*;

verus! {

impl GatewayClientAsync {
    /// A builder of an entity details query for these addresses, with nothing else set.
    pub fn entity_details_builder(
        &self,
        addresses: Vec<String>,
    ) -> (r: RequestBuilderAsync<StateEntityDetailsRequest>)
        ensures
            r.request == (StateEntityDetailsRequest {
                addresses,
                aggregation_level: None,
                opt_ins: None,
                at_ledger_state: None,
            }),
    {
        let request = StateEntityDetailsRequest {
            addresses,
            aggregation_level: None,
            opt_ins: None,
            at_ledger_state: None,
        };
        RequestBuilderAsync { client: self.clone(), request }
    }
}

impl GatewayClientBlocking {
    /// A builder of an entity details query for these addresses, with nothing else set.
    pub fn entity_details_builder(
        &self,
        addresses: Vec<String>,
    ) -> (r: RequestBuilderBlocking<StateEntityDetailsRequest>)
        ensures
            r.request == (StateEntityDetailsRequest {
                addresses,
                aggregation_level: None,
                opt_ins: None,
                at_ledger_state: None,
            }),
    {
        let request = StateEntityDetailsRequest {
            addresses,
            aggregation_level: None,
            opt_ins: None,
            at_ledger_state: None,
        };
        RequestBuilderBlocking { client: self.clone(), request }
    }
}

impl RequestBuilderAsync<StateEntityDetailsRequest> {
    /// Aggregate resources globally or per vault.
    pub fn aggregation_level(self, aggregation_level: AggregationLevel) -> (r: Self)
        ensures
            r.request == (StateEntityDetailsRequest {
                aggregation_level: Some(aggregation_level),
                ..self.request
            }),
            r.client == self.client,
    {
        let mut b = self;
        b.request.aggregation_level = Some(aggregation_level);
        b
    }

    /// Read the ledger as it stood at this state version.
    pub fn at_state_version(&mut self, value: u64) -> (r: &mut Self)
        ensures
            r.request == (StateEntityDetailsRequest {
                at_ledger_state: Some(selector(Some(value), None, None, None)),
                ..old(self).request
            }),
            r.client == old(self).client,
            *final(self) == *final(r),
    {
        self.request.at_ledger_state = Some(LedgerStateSelector {
            state_version: Some(value),
            timestamp: None,
            epoch: None,
            round: None,
        });
        self
    }

    /// Read the ledger as it stood at this timestamp, in seconds since the Unix epoch.
    pub fn at_timestamp(&mut self, value: u64) -> (r: &mut Self)
        ensures
            r.request == (StateEntityDetailsRequest {
                at_ledger_state: Some(selector(None, Some(value), None, None)),
                ..old(self).request
            }),
            r.client == old(self).client,
            *final(self) == *final(r),
    {
        self.request.at_ledger_state = Some(LedgerStateSelector {
            state_version: None,
            timestamp: Some(value),
            epoch: None,
            round: None,
        });
        self
    }

    /// Read the ledger as it stood at this epoch.
    pub fn at_epoch(&mut self, value: u64) -> (r: &mut Self)
        ensures
            r.request == (StateEntityDetailsRequest {
                at_ledger_state: Some(selector(None, None, Some(value), None)),
                ..old(self).request
            }),
            r.client == old(self).client,
            *final(self) == *final(r),
    {
        self.request.at_ledger_state = Some(LedgerStateSelector {
            state_version: None,
            timestamp: None,
            epoch: Some(value),
            round: None,
        });
        self
    }

    /// Read the ledger as it stood at this round.
    pub fn at_round(&mut self, value: u64) -> (r: &mut Self)
        ensures
            r.request == (StateEntityDetailsRequest {
                at_ledger_state: Some(selector(None, None, None, Some(value))),
                ..old(self).request
            }),
            r.client == old(self).client,
            *final(self) == *final(r),
    {
        self.request.at_ledger_state = Some(LedgerStateSelector {
            state_version: None,
            timestamp: None,
            epoch: None,
            round: Some(value),
        });
        self
    }
}

impl RequestBuilderBlocking<StateEntityDetailsRequest> {
    /// Aggregate resources globally or per vault.
    pub fn aggregation_level(self, aggregation_level: AggregationLevel) -> (r: Self)
        ensures
            r.request == (StateEntityDetailsRequest {
                aggregation_level: Some(aggregation_level),
                ..self.request
            }),
            r.client == self.client,
    {
        let mut b = self;
        b.request.aggregation_level = Some(aggregation_level);
        b
    }

    /// Read the ledger as it stood at this state version.
    pub fn at_state_version(&mut self, value: u64) -> (r: &mut Self)
        ensures
            r.request == (StateEntityDetailsRequest {
                at_ledger_state: Some(selector(Some(value), None, None, None)),
                ..old(self).request
            }),
            r.client == old(self).client,
            *final(self) == *final(r),
    {
        self.request.at_ledger_state = Some(LedgerStateSelector {
            state_version: Some(value),
            timestamp: None,
            epoch: None,
            round: None,
        });
        self
    }

    /// Read the ledger as it stood at this timestamp, in seconds since the Unix epoch.
    pub fn at_timestamp(&mut self, value: u64) -> (r: &mut Self)
        ensures
            r.request == (StateEntityDetailsRequest {
                at_ledger_state: Some(selector(None, Some(value), None, None)),
                ..old(self).request
            }),
            r.client == old(self).client,
            *final(self) == *final(r),
    {
        self.request.at_ledger_state = Some(LedgerStateSelector {
            state_version: None,
            timestamp: Some(value),
            epoch: None,
            round: None,
        });
        self
    }

    /// Read the ledger as it stood at this epoch.
    pub fn at_epoch(&mut self, value: u64) -> (r: &mut Self)
        ensures
            r.request == (StateEntityDetailsRequest {
                at_ledger_state: Some(selector(None, None, Some(value), None)),
                ..old(self).request
            }),
            r.client == old(self).client,
            *final(self) == *final(r),
    {
        self.request.at_ledger_state = Some(LedgerStateSelector {
            state_version: None,
            timestamp: None,
            epoch: Some(value),
            round: None,
        });
        self
    }

    /// Read the ledger as it stood at this round.
    pub fn at_round(&mut self, value: u64) -> (r: &mut Self)
        ensures
            r.request == (StateEntityDetailsRequest {
                at_ledger_state: Some(selector(None, None, None, Some(value))),
                ..old(self).request
            }),
            r.client == old(self).client,
            *final(self) == *final(r),
    {
        self.request.at_ledger_state = Some(LedgerStateSelector {
            state_version: None,
            timestamp: None,
            epoch: None,
            round: Some(value),
        });
        self
    }
}

impl GatewayClientAsync {
    /// A builder of a query for one page of the fungible resources of an entity.
    pub fn get_state_entity_fungibles_page_builder(
        &self,
        entity_address: &str,
    ) -> (r: RequestBuilderAsync<StateEntityFungiblesPageRequest>)
        ensures
            r.request.address@ == entity_address@,
            r.request.at_ledger_state is None,
            r.request.cursor is None,
            r.request.limit_per_page is None,
            r.request.aggregation_level is None,
            r.request.opt_ins is None,
    {
        let request = StateEntityFungiblesPageRequest {
            address: entity_address.to_owned(),
            at_ledger_state: None,
            cursor: None,
            limit_per_page: None,
            aggregation_level: None,
            opt_ins: None,
        };
        RequestBuilderAsync { client: self.clone(), request }
    }
}

impl GatewayClientBlocking {
    /// A builder of a query for one page of the fungible resources of an entity.
    pub fn get_state_entity_fungibles_page_builder(
        &self,
        entity_address: &str,
    ) -> (r: RequestBuilderBlocking<StateEntityFungiblesPageRequest>)
        ensures
            r.request.address@ == entity_address@,
            r.request.at_ledger_state is None,
            r.request.cursor is None,
            r.request.limit_per_page is None,
            r.request.aggregation_level is None,
            r.request.opt_ins is None,
    {
        let request = StateEntityFungiblesPageRequest {
            address: entity_address.to_owned(),
            at_ledger_state: None,
            cursor: None,
            limit_per_page: None,
            aggregation_level: None,
            opt_ins: None,
        };
        RequestBuilderBlocking { client: self.clone(), request }
    }
}

impl RequestBuilderAsync<StateEntityFungiblesPageRequest> {
    /// Aggregate resources globally or per vault.
    pub fn aggregation_level(&mut self, aggregation_level: AggregationLevel) -> (r: &mut Self)
        ensures
            r.request == (StateEntityFungiblesPageRequest {
                aggregation_level: Some(aggregation_level),
                ..old(self).request
            }),
            r.client == old(self).client,
            *final(self) == *final(r),
    {
        self.request.aggregation_level = Some(aggregation_level);
        self
    }

    /// Ask for these metadata properties of each resource.
    pub fn with_explicit_metadata(&mut self, properties: Vec<String>) -> (r: &mut Self)
        ensures
            r.request == (StateEntityFungiblesPageRequest {
                opt_ins: Some(StateEntityFungiblesPageRequestOptIns {
                    explicit_metadata: properties,
                }),
                ..old(self).request
            }),
            r.client == old(self).client,
            *final(self) == *final(r),
    {
        self.request.opt_ins = Some(StateEntityFungiblesPageRequestOptIns {
            explicit_metadata: properties,
        });
        self
    }

    /// Resume from a cursor that the Gateway handed out.
    pub fn cursor(&mut self, value: String) -> (r: &mut Self)
        ensures
            r.request == (StateEntityFungiblesPageRequest {
                cursor: Some(value),
                ..old(self).request
            }),
            r.client == old(self).client,
            *final(self) == *final(r),
    {
        self.request.cursor = Some(value);
        self
    }

    /// At most this many items per page.
    pub fn limit_per_page(&mut self, value: u32) -> (r: &mut Self)
        ensures
            r.request == (StateEntityFungiblesPageRequest {
                limit_per_page: Some(value),
                ..old(self).request
            }),
            r.client == old(self).client,
            *final(self) == *final(r),
    {
        self.request.limit_per_page = Some(value);
        self
    }

    /// Read the ledger as it stood at this state version.
    pub fn at_state_version(&mut self, value: u64) -> (r: &mut Self)
        ensures
            r.request == (StateEntityFungiblesPageRequest {
                at_ledger_state: Some(selector(Some(value), None, None, None)),
                ..old(self).request
            }),
            r.client == old(self).client,
            *final(self) == *final(r),
    {
        self.request.at_ledger_state = Some(LedgerStateSelector {
            state_version: Some(value),
            timestamp: None,
            epoch: None,
            round: None,
        });
        self
    }

    /// Read the ledger as it stood at this timestamp, in seconds since the Unix epoch.
    pub fn at_timestamp(&mut self, value: u64) -> (r: &mut Self)
        ensures
            r.request == (StateEntityFungiblesPageRequest {
                at_ledger_state: Some(selector(None, Some(value), None, None)),
                ..old(self).request
            }),
            r.client == old(self).client,
            *final(self) == *final(r),
    {
        self.request.at_ledger_state = Some(LedgerStateSelector {
            state_version: None,
            timestamp: Some(value),
            epoch: None,
            round: None,
        });
        self
    }

    /// Read the ledger as it stood at this epoch.
    pub fn at_epoch(&mut self, value: u64) -> (r: &mut Self)
        ensures
            r.request == (StateEntityFungiblesPageRequest {
                at_ledger_state: Some(selector(None, None, Some(value), None)),
                ..old(self).request
            }),
            r.client == old(self).client,
            *final(self) == *final(r),
    {
        self.request.at_ledger_state = Some(LedgerStateSelector {
            state_version: None,
            timestamp: None,
            epoch: Some(value),
            round: None,
        });
        self
    }

    /// Read the ledger as it stood at this round.
    pub fn at_round(&mut self, value: u64) -> (r: &mut Self)
        ensures
            r.request == (StateEntityFungiblesPageRequest {
                at_ledger_state: Some(selector(None, None, None, Some(value))),
                ..old(self).request
            }),
            r.client == old(self).client,
            *final(self) == *final(r),
    {
        self.request.at_ledger_state = Some(LedgerStateSelector {
            state_version: None,
            timestamp: None,
            epoch: None,
            round: Some(value),
        });
        self
    }
}

impl RequestBuilderBlocking<StateEntityFungiblesPageRequest> {
    /// Aggregate resources globally or per vault.
    pub fn aggregation_level(&mut self, aggregation_level: AggregationLevel) -> (r: &mut Self)
        ensures
            r.request == (StateEntityFungiblesPageRequest {
                aggregation_level: Some(aggregation_level),
                ..old(self).request
            }),
            r.client == old(self).client,
            *final(self) == *final(r),
    {
        self.request.aggregation_level = Some(aggregation_level);
        self
    }

    /// Ask for these metadata properties of each resource.
    pub fn with_explicit_metadata(&mut self, properties: Vec<String>) -> (r: &mut Self)
        ensures
            r.request == (StateEntityFungiblesPageRequest {
                opt_ins: Some(StateEntityFungiblesPageRequestOptIns {
                    explicit_metadata: properties,
                }),
                ..old(self).request
            }),
            r.client == old(self).client,
            *final(self) == *final(r),
    {
        self.request.opt_ins = Some(StateEntityFungiblesPageRequestOptIns {
            explicit_metadata: properties,
        });
        self
    }

    /// Resume from a cursor that the Gateway handed out.
    pub fn cursor(&mut self, value: String) -> (r: &mut Self)
        ensures
            r.request == (StateEntityFungiblesPageRequest {
                cursor: Some(value),
                ..old(self).request
            }),
            r.client == old(self).client,
            *final(self) == *final(r),
    {
        self.request.cursor = Some(value);
        self
    }

    /// At most this many items per page.
    pub fn limit_per_page(&mut self, value: u32) -> (r: &mut Self)
        ensures
            r.request == (StateEntityFungiblesPageRequest {
                limit_per_page: Some(value),
                ..old(self).request
            }),
            r.client == old(self).client,
            *final(self) == *final(r),
    {
        self.request.limit_per_page = Some(value);
        self
    }

    /// Read the ledger as it stood at this state version.
    pub fn at_state_version(&mut self, value: u64) -> (r: &mut Self)
        ensures
            r.request == (StateEntityFungiblesPageRequest {
                at_ledger_state: Some(selector(Some(value), None, None, None)),
                ..old(self).request
            }),
            r.client == old(self).client,
            *final(self) == *final(r),
    {
        self.request.at_ledger_state = Some(LedgerStateSelector {
            state_version: Some(value),
            timestamp: None,
            epoch: None,
            round: None,
        });
        self
    }

    /// Read the ledger as it stood at this timestamp, in seconds since the Unix epoch.
    pub fn at_timestamp(&mut self, value: u64) -> (r: &mut Self)
        ensures
            r.request == (StateEntityFungiblesPageRequest {
                at_ledger_state: Some(selector(None, Some(value), None, None)),
                ..old(self).request
            }),
            r.client == old(self).client,
            *final(self) == *final(r),
    {
        self.request.at_ledger_state = Some(LedgerStateSelector {
            state_version: None,
            timestamp: Some(value),
            epoch: None,
            round: None,
        });
        self
    }

    /// Read the ledger as it stood at this epoch.
    pub fn at_epoch(&mut self, value: u64) -> (r: &mut Self)
        ensures
            r.request == (StateEntityFungiblesPageRequest {
                at_ledger_state: Some(selector(None, None, Some(value), None)),
                ..old(self).request
            }),
            r.client == old(self).client,
            *final(self) == *final(r),
    {
        self.request.at_ledger_state = Some(LedgerStateSelector {
            state_version: None,
            timestamp: None,
            epoch: Some(value),
            round: None,
        });
        self
    }

    /// Read the ledger as it stood at this round.
    pub fn at_round(&mut self, value: u64) -> (r: &mut Self)
        ensures
            r.request == (StateEntityFungiblesPageRequest {
                at_ledger_state: Some(selector(None, None, None, Some(value))),
                ..old(self).request
            }),
            r.client == old(self).client,
            *final(self) == *final(r),
    {
        self.request.at_ledger_state = Some(LedgerStateSelector {
            state_version: None,
            timestamp: None,
            epoch: None,
            round: Some(value),
        });
        self
    }
}

impl GatewayClientAsync {
    /// A builder of a query for the keys of a key-value store.
    pub fn keyvaluestore_keys_builder(
        &self,
        key_value_store_address: &str,
    ) -> (r: RequestBuilderAsync<GetKeyValueStoreKeysRequestBody>)
        ensures
            r.request.key_value_store_address@ == key_value_store_address@,
            r.request.at_ledger_state is None,
            r.request.cursor is None,
            r.request.limit_per_page is None,
    {
        let request = GetKeyValueStoreKeysRequestBody {
            at_ledger_state: None,
            key_value_store_address: key_value_store_address.to_owned(),
            cursor: None,
            limit_per_page: None,
        };
        RequestBuilderAsync { client: self.clone(), request }
    }
}

impl GatewayClientBlocking {
    /// A builder of a query for the keys of a key-value store.
    pub fn keyvaluestore_keys_builder(
        &self,
        key_value_store_address: &str,
    ) -> (r: RequestBuilderBlocking<GetKeyValueStoreKeysRequestBody>)
        ensures
            r.request.key_value_store_address@ == key_value_store_address@,
            r.request.at_ledger_state is None,
            r.request.cursor is None,
            r.request.limit_per_page is None,
    {
        let request = GetKeyValueStoreKeysRequestBody {
            at_ledger_state: None,
            key_value_store_address: key_value_store_address.to_owned(),
            cursor: None,
            limit_per_page: None,
        };
        RequestBuilderBlocking { client: self.clone(), request }
    }
}

impl RequestBuilderAsync<GetKeyValueStoreKeysRequestBody> {
    /// Resume from a cursor that the Gateway handed out.
    pub fn cursor(&mut self, value: String) -> (r: &mut Self)
        ensures
            r.request == (GetKeyValueStoreKeysRequestBody {
                cursor: Some(value),
                ..old(self).request
            }),
            r.client == old(self).client,
            *final(self) == *final(r),
    {
        self.request.cursor = Some(value);
        self
    }

    /// At most this many keys per page.
    pub fn limit_per_page(&mut self, value: u32) -> (r: &mut Self)
        ensures
            r.request == (GetKeyValueStoreKeysRequestBody {
                limit_per_page: Some(value),
                ..old(self).request
            }),
            r.client == old(self).client,
            *final(self) == *final(r),
    {
        self.request.limit_per_page = Some(value);
        self
    }

    /// Read the ledger as it stood at this state version.
    pub fn at_state_version(&mut self, value: u64) -> (r: &mut Self)
        ensures
            r.request == (GetKeyValueStoreKeysRequestBody {
                at_ledger_state: Some(selector(Some(value), None, None, None)),
                ..old(self).request
            }),
            r.client == old(self).client,
            *final(self) == *final(r),
    {
        self.request.at_ledger_state = Some(LedgerStateSelector {
            state_version: Some(value),
            timestamp: None,
            epoch: None,
            round: None,
        });
        self
    }

    /// Read the ledger as it stood at this timestamp, in seconds since the Unix epoch.
    pub fn at_timestamp(&mut self, value: u64) -> (r: &mut Self)
        ensures
            r.request == (GetKeyValueStoreKeysRequestBody {
                at_ledger_state: Some(selector(None, Some(value), None, None)),
                ..old(self).request
            }),
            r.client == old(self).client,
            *final(self) == *final(r),
    {
        self.request.at_ledger_state = Some(LedgerStateSelector {
            state_version: None,
            timestamp: Some(value),
            epoch: None,
            round: None,
        });
        self
    }

    /// Read the ledger as it stood at this epoch.
    pub fn at_epoch(&mut self, value: u64) -> (r: &mut Self)
        ensures
            r.request == (GetKeyValueStoreKeysRequestBody {
                at_ledger_state: Some(selector(None, None, Some(value), None)),
                ..old(self).request
            }),
            r.client == old(self).client,
            *final(self) == *final(r),
    {
        self.request.at_ledger_state = Some(LedgerStateSelector {
            state_version: None,
            timestamp: None,
            epoch: Some(value),
            round: None,
        });
        self
    }

    /// Read the ledger as it stood at this round.
    pub fn at_round(&mut self, value: u64) -> (r: &mut Self)
        ensures
            r.request == (GetKeyValueStoreKeysRequestBody {
                at_ledger_state: Some(selector(None, None, None, Some(value))),
                ..old(self).request
            }),
            r.client == old(self).client,
            *final(self) == *final(r),
    {
        self.request.at_ledger_state = Some(LedgerStateSelector {
            state_version: None,
            timestamp: None,
            epoch: None,
            round: Some(value),
        });
        self
    }
}

impl RequestBuilderBlocking<GetKeyValueStoreKeysRequestBody> {
    /// Resume from a cursor that the Gateway handed out.
    pub fn cursor(&mut self, value: String) -> (r: &mut Self)
        ensures
            r.request == (GetKeyValueStoreKeysRequestBody {
                cursor: Some(value),
                ..old(self).request
            }),
            r.client == old(self).client,
            *final(self) == *final(r),
    {
        self.request.cursor = Some(value);
        self
    }

    /// At most this many keys per page.
    pub fn limit_per_page(&mut self, value: u32) -> (r: &mut Self)
        ensures
            r.request == (GetKeyValueStoreKeysRequestBody {
                limit_per_page: Some(value),
                ..old(self).request
            }),
            r.client == old(self).client,
            *final(self) == *final(r),
    {
        self.request.limit_per_page = Some(value);
        self
    }

    /// Read the ledger as it stood at this state version.
    pub fn at_state_version(&mut self, value: u64) -> (r: &mut Self)
        ensures
            r.request == (GetKeyValueStoreKeysRequestBody {
                at_ledger_state: Some(selector(Some(value), None, None, None)),
                ..old(self).request
            }),
            r.client == old(self).client,
            *final(self) == *final(r),
    {
        self.request.at_ledger_state = Some(LedgerStateSelector {
            state_version: Some(value),
            timestamp: None,
            epoch: None,
            round: None,
        });
        self
    }

    /// Read the ledger as it stood at this timestamp, in seconds since the Unix epoch.
    pub fn at_timestamp(&mut self, value: u64) -> (r: &mut Self)
        ensures
            r.request == (GetKeyValueStoreKeysRequestBody {
                at_ledger_state: Some(selector(None, Some(value), None, None)),
                ..old(self).request
            }),
            r.client == old(self).client,
            *final(self) == *final(r),
    {
        self.request.at_ledger_state = Some(LedgerStateSelector {
            state_version: None,
            timestamp: Some(value),
            epoch: None,
            round: None,
        });
        self
    }

    /// Read the ledger as it stood at this epoch.
    pub fn at_epoch(&mut self, value: u64) -> (r: &mut Self)
        ensures
            r.request == (GetKeyValueStoreKeysRequestBody {
                at_ledger_state: Some(selector(None, None, Some(value), None)),
                ..old(self).request
            }),
            r.client == old(self).client,
            *final(self) == *final(r),
    {
        self.request.at_ledger_state = Some(LedgerStateSelector {
            state_version: None,
            timestamp: None,
            epoch: Some(value),
            round: None,
        });
        self
    }

    /// Read the ledger as it stood at this round.
    pub fn at_round(&mut self, value: u64) -> (r: &mut Self)
        ensures
            r.request == (GetKeyValueStoreKeysRequestBody {
                at_ledger_state: Some(selector(None, None, None, Some(value))),
                ..old(self).request
            }),
            r.client == old(self).client,
            *final(self) == *final(r),
    {
        self.request.at_ledger_state = Some(LedgerStateSelector {
            state_version: None,
            timestamp: None,
            epoch: None,
            round: Some(value),
        });
        self
    }
}

impl GatewayClientAsync {
    /// A builder of a query for entries of a key-value store, with no key yet.
    pub fn keyvaluestore_data_builder(
        &self,
        key_value_store_address: String,
    ) -> (r: RequestBuilderAsync<GetKeyValueStoreDataRequestBody>)
        ensures
            r.request.key_value_store_address == key_value_store_address,
            r.request.at_ledger_state is None,
            r.request.keys@.len() == 0,
    {
        let request = GetKeyValueStoreDataRequestBody {
            at_ledger_state: None,
            key_value_store_address,
            keys: Vec::new(),
        };
        RequestBuilderAsync { client: self.clone(), request }
    }
}

impl GatewayClientBlocking {
    /// A builder of a query for entries of a key-value store, with no key yet.
    pub fn keyvaluestore_data_builder(
        &self,
        key_value_store_address: String,
    ) -> (r: RequestBuilderBlocking<GetKeyValueStoreDataRequestBody>)
        ensures
            r.request.key_value_store_address == key_value_store_address,
            r.request.at_ledger_state is None,
            r.request.keys@.len() == 0,
    {
        let request = GetKeyValueStoreDataRequestBody {
            at_ledger_state: None,
            key_value_store_address,
            keys: Vec::new(),
        };
        RequestBuilderBlocking { client: self.clone(), request }
    }
}

impl RequestBuilderAsync<GetKeyValueStoreDataRequestBody> {
    /// Ask for exactly these keys.
    pub fn with_keys(&mut self, value: Vec<StateKeyValueStoreDataRequestKeyItem>) -> (r: &mut Self)
        ensures
            r.request == (GetKeyValueStoreDataRequestBody { keys: value, ..old(self).request }),
            r.client == old(self).client,
            *final(self) == *final(r),
    {
        self.request.keys = value;
        self
    }

    /// Ask also for the entry under this key, given as JSON.
    pub fn add_key_json(&mut self, value: serde_json::Value) -> (r: &mut Self)
        ensures
            r.request.keys@.len() == old(self).request.keys@.len() + 1,
            r.request.keys@.drop_last() == old(self).request.keys@,
            r.request.keys@.last() == (StateKeyValueStoreDataRequestKeyItem {
                key_json: Some(value),
                key_hex: None,
            }),
            r.request.at_ledger_state == old(self).request.at_ledger_state,
            r.request.key_value_store_address == old(self).request.key_value_store_address,
            r.client == old(self).client,
            *final(self) == *final(r),
    {
        self.request.keys.push(StateKeyValueStoreDataRequestKeyItem {
            key_json: Some(value),
            key_hex: None,
        });
        self
    }

    /// Ask also for the entry under this key, given as hex-encoded SBOR.
    pub fn add_key_hex(&mut self, value: &str) -> (r: &mut Self)
        ensures
            r.request.keys@.len() == old(self).request.keys@.len() + 1,
            r.request.keys@.drop_last() == old(self).request.keys@,
            r.request.keys@.last().key_json is None,
            r.request.keys@.last().key_hex matches Some(h) && h@ == value@,
            r.request.at_ledger_state == old(self).request.at_ledger_state,
            r.request.key_value_store_address == old(self).request.key_value_store_address,
            r.client == old(self).client,
            *final(self) == *final(r),
    {
        self.request.keys.push(StateKeyValueStoreDataRequestKeyItem {
            key_json: None,
            key_hex: Some(value.to_owned()),
        });
        self
    }

    /// Read the ledger as it stood at this state version.
    pub fn at_state_version(&mut self, value: u64) -> (r: &mut Self)
        ensures
            r.request == (GetKeyValueStoreDataRequestBody {
                at_ledger_state: Some(selector(Some(value), None, None, None)),
                ..old(self).request
            }),
            r.client == old(self).client,
            *final(self) == *final(r),
    {
        self.request.at_ledger_state = Some(LedgerStateSelector {
            state_version: Some(value),
            timestamp: None,
            epoch: None,
            round: None,
        });
        self
    }

    /// Read the ledger as it stood at this timestamp, in seconds since the Unix epoch.
    pub fn at_timestamp(&mut self, value: u64) -> (r: &mut Self)
        ensures
            r.request == (GetKeyValueStoreDataRequestBody {
                at_ledger_state: Some(selector(None, Some(value), None, None)),
                ..old(self).request
            }),
            r.client == old(self).client,
            *final(self) == *final(r),
    {
        self.request.at_ledger_state = Some(LedgerStateSelector {
            state_version: None,
            timestamp: Some(value),
            epoch: None,
            round: None,
        });
        self
    }

    /// Read the ledger as it stood at this epoch.
    pub fn at_epoch(&mut self, value: u64) -> (r: &mut Self)
        ensures
            r.request == (GetKeyValueStoreDataRequestBody {
                at_ledger_state: Some(selector(None, None, Some(value), None)),
                ..old(self).request
            }),
            r.client == old(self).client,
            *final(self) == *final(r),
    {
        self.request.at_ledger_state = Some(LedgerStateSelector {
            state_version: None,
            timestamp: None,
            epoch: Some(value),
            round: None,
        });
        self
    }

    /// Read the ledger as it stood at this round.
    pub fn at_round(&mut self, value: u64) -> (r: &mut Self)
        ensures
            r.request == (GetKeyValueStoreDataRequestBody {
                at_ledger_state: Some(selector(None, None, None, Some(value))),
                ..old(self).request
            }),
            r.client == old(self).client,
            *final(self) == *final(r),
    {
        self.request.at_ledger_state = Some(LedgerStateSelector {
            state_version: None,
            timestamp: None,
            epoch: None,
            round: Some(value),
        });
        self
    }
}

impl RequestBuilderBlocking<GetKeyValueStoreDataRequestBody> {
    /// Ask for exactly these keys.
    pub fn with_keys(&mut self, value: Vec<StateKeyValueStoreDataRequestKeyItem>) -> (r: &mut Self)
        ensures
            r.request == (GetKeyValueStoreDataRequestBody { keys: value, ..old(self).request }),
            r.client == old(self).client,
            *final(self) == *final(r),
    {
        self.request.keys = value;
        self
    }

    /// Ask also for the entry under this key, given as JSON.
    pub fn add_key_json(&mut self, value: serde_json::Value) -> (r: &mut Self)
        ensures
            r.request.keys@.len() == old(self).request.keys@.len() + 1,
            r.request.keys@.drop_last() == old(self).request.keys@,
            r.request.keys@.last() == (StateKeyValueStoreDataRequestKeyItem {
                key_json: Some(value),
                key_hex: None,
            }),
            r.request.at_ledger_state == old(self).request.at_ledger_state,
            r.request.key_value_store_address == old(self).request.key_value_store_address,
            r.client == old(self).client,
            *final(self) == *final(r),
    {
        self.request.keys.push(StateKeyValueStoreDataRequestKeyItem {
            key_json: Some(value),
            key_hex: None,
        });
        self
    }

    /// Ask also for the entry under this key, given as hex-encoded SBOR.
    pub fn add_key_hex(&mut self, value: &str) -> (r: &mut Self)
        ensures
            r.request.keys@.len() == old(self).request.keys@.len() + 1,
            r.request.keys@.drop_last() == old(self).request.keys@,
            r.request.keys@.last().key_json is None,
            r.request.keys@.last().key_hex matches Some(h) && h@ == value@,
            r.request.at_ledger_state == old(self).request.at_ledger_state,
            r.request.key_value_store_address == old(self).request.key_value_store_address,
            r.client == old(self).client,
            *final(self) == *final(r),
    {
        self.request.keys.push(StateKeyValueStoreDataRequestKeyItem {
            key_json: None,
            key_hex: Some(value.to_owned()),
        });
        self
    }

    /// Read the ledger as it stood at this state version.
    pub fn at_state_version(&mut self, value: u64) -> (r: &mut Self)
        ensures
            r.request == (GetKeyValueStoreDataRequestBody {
                at_ledger_state: Some(selector(Some(value), None, None, None)),
                ..old(self).request
            }),
            r.client == old(self).client,
            *final(self) == *final(r),
    {
        self.request.at_ledger_state = Some(LedgerStateSelector {
            state_version: Some(value),
            timestamp: None,
            epoch: None,
            round: None,
        });
        self
    }

    /// Read the ledger as it stood at this timestamp, in seconds since the Unix epoch.
    pub fn at_timestamp(&mut self, value: u64) -> (r: &mut Self)
        ensures
            r.request == (GetKeyValueStoreDataRequestBody {
                at_ledger_state: Some(selector(None, Some(value), None, None)),
                ..old(self).request
            }),
            r.client == old(self).client,
            *final(self) == *final(r),
    {
        self.request.at_ledger_state = Some(LedgerStateSelector {
            state_version: None,
            timestamp: Some(value),
            epoch: None,
            round: None,
        });
        self
    }

    /// Read the ledger as it stood at this epoch.
    pub fn at_epoch(&mut self, value: u64) -> (r: &mut Self)
        ensures
            r.request == (GetKeyValueStoreDataRequestBody {
                at_ledger_state: Some(selector(None, None, Some(value), None)),
                ..old(self).request
            }),
            r.client == old(self).client,
            *final(self) == *final(r),
    {
        self.request.at_ledger_state = Some(LedgerStateSelector {
            state_version: None,
            timestamp: None,
            epoch: Some(value),
            round: None,
        });
        self
    }

    /// Read the ledger as it stood at this round.
    pub fn at_round(&mut self, value: u64) -> (r: &mut Self)
        ensures
            r.request == (GetKeyValueStoreDataRequestBody {
                at_ledger_state: Some(selector(None, None, None, Some(value))),
                ..old(self).request
            }),
            r.client == old(self).client,
            *final(self) == *final(r),
    {
        self.request.at_ledger_state = Some(LedgerStateSelector {
            state_version: None,
            timestamp: None,
            epoch: None,
            round: Some(value),
        });
        self
    }
}

} // verus!
