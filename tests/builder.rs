use radix_client::client::endpoint_url;
use radix_client::gateway::models::{
    AggregationLevel, LedgerStateSelector, Order, PreviewTransactionFlags, PublicKey,
    PublicKeyType, StateEntityDetailsRequest, StateEntityFungiblesPageRequestOptIns,
    TransactionKindFilter, TransactionStreamOptIns, TransactionStreamRequestBody,
};
use radix_client::core_api::models as core_models;
use radix_client::{CoreClientBlocking, GatewayClientBlocking};

fn client() -> GatewayClientBlocking {
    GatewayClientBlocking::new("http://localhost:1".to_string())
}

#[test]
fn builder_body_equals_direct_body() {
    let c = client();
    let mut builder = c.transactions_stream_builder();
    builder
        .from_state_version(5)
        .order(Order::Asc)
        .kind_filter(TransactionKindFilter::User)
        .limit_per_page(3)
        .with_receipt_events()
        .manifest_resources_filter(vec!["resource_x".to_string()]);
    let direct = TransactionStreamRequestBody {
        at_ledger_state: None,
        from_ledger_state: Some(LedgerStateSelector {
            state_version: Some(5),
            timestamp: None,
            epoch: None,
            round: None,
        }),
        cursor: None,
        limit_per_page: Some(3),
        kind_filter: Some(TransactionKindFilter::User),
        manifest_accounts_withdrawn_from_filter: None,
        manifest_accounts_deposited_into_filter: None,
        manifest_resources_filter: Some(vec!["resource_x".to_string()]),
        affected_global_entities_filter: None,
        order: Some(Order::Asc),
        opt_ins: Some(TransactionStreamOptIns { receipt_events: true, ..Default::default() }),
    };
    assert_eq!(builder.build(), &direct);
    assert_eq!(builder.client.base_url, "http://localhost:1");
}

#[test]
fn builder_order_does_not_matter() {
    let c = client();
    let mut a = c.transactions_stream_builder();
    a.limit_per_page(10).at_epoch(7).cursor("abc".to_string()).with_raw_hex();
    let mut b = c.transactions_stream_builder();
    b.with_raw_hex().cursor("abc".to_string()).at_epoch(7).limit_per_page(10);
    assert_eq!(a.build(), b.build());
    assert_eq!(
        a.build().at_ledger_state,
        Some(LedgerStateSelector { state_version: None, timestamp: None, epoch: Some(7), round: None })
    );
}

#[test]
fn later_selector_replaces_earlier() {
    let c = client();
    let mut b = c.transactions_stream_builder();
    b.from_epoch(3).from_round(9).at_timestamp(1_700_000_000).at_state_version(12);
    assert_eq!(
        b.build().from_ledger_state,
        Some(LedgerStateSelector { state_version: None, timestamp: None, epoch: None, round: Some(9) })
    );
    assert_eq!(
        b.build().at_ledger_state,
        Some(LedgerStateSelector { state_version: Some(12), timestamp: None, epoch: None, round: None })
    );
    b.from_timestamp(1_600_000_000).at_round(2);
    assert_eq!(b.build().from_ledger_state.unwrap().timestamp, Some(1_600_000_000));
    assert_eq!(b.build().at_ledger_state.unwrap().round, Some(2));
}

#[test]
fn opt_ins_accumulate() {
    let c = client();
    let mut b = c.transactions_stream_builder();
    assert_eq!(b.build().opt_ins, None);
    b.with_raw_hex()
        .with_receipt_state_changes()
        .with_receipt_fee_summary()
        .with_receipt_fee_source()
        .with_receipt_fee_destination()
        .with_receipt_costing_parameters()
        .with_receipt_events()
        .with_receipt_output()
        .with_affected_global_entities()
        .with_manifest_instructions()
        .with_balance_changes();
    let all = TransactionStreamOptIns {
        raw_hex: true,
        receipt_state_changes: true,
        receipt_fee_summary: true,
        receipt_fee_source: true,
        receipt_fee_destination: true,
        receipt_costing_parameters: true,
        receipt_events: true,
        receipt_output: true,
        affected_global_entities: true,
        manifest_instructions: true,
        balance_changes: true,
    };
    assert_eq!(b.build().opt_ins, Some(all));
}

#[test]
fn filters_are_set() {
    let c = client();
    let mut b = c.transactions_stream_builder();
    b.affected_global_entities_filter(vec!["a".to_string()])
        .manifest_accounts_deposited_into_filter(vec!["d".to_string()])
        .manifest_accounts_withdrawn_from_filter(vec!["w".to_string(), "v".to_string()]);
    let body = b.build();
    assert_eq!(body.affected_global_entities_filter, Some(vec!["a".to_string()]));
    assert_eq!(body.manifest_accounts_deposited_into_filter, Some(vec!["d".to_string()]));
    assert_eq!(
        body.manifest_accounts_withdrawn_from_filter,
        Some(vec!["w".to_string(), "v".to_string()])
    );
    assert_eq!(body.manifest_resources_filter, None);
}

#[test]
fn defaults() {
    let flags = PreviewTransactionFlags::default();
    assert!(!flags.use_free_credit && !flags.assume_all_signature_proofs && !flags.skip_epoch_check);
    let q = TransactionStreamRequestBody::default();
    assert_eq!(q.from_ledger_state, None);
    assert_eq!(q.limit_per_page, None);
    assert_eq!(q.opt_ins, None);
    assert_eq!(client().transactions_stream_builder().build(), &q);
}

#[test]
fn entity_details_builder_sets_fields() {
    let c = client();
    let mut b = c
        .entity_details_builder(vec!["component_a".to_string()])
        .aggregation_level(AggregationLevel::Vault);
    b.at_epoch(12);
    let expected = StateEntityDetailsRequest {
        at_ledger_state: Some(LedgerStateSelector {
            state_version: None,
            timestamp: None,
            epoch: Some(12),
            round: None,
        }),
        opt_ins: None,
        addresses: vec!["component_a".to_string()],
        aggregation_level: Some(AggregationLevel::Vault),
    };
    assert_eq!(b.build(), &expected);
}

#[test]
fn fungibles_page_builder_sets_fields() {
    let c = client();
    let mut b = c.get_state_entity_fungibles_page_builder("pool_x");
    assert_eq!(b.build().address, "pool_x");
    assert_eq!(b.build().limit_per_page, None);
    b.limit_per_page(50)
        .cursor("next".to_string())
        .aggregation_level(AggregationLevel::Global)
        .with_explicit_metadata(vec!["name".to_string()])
        .at_state_version(50000000);
    let r = b.build();
    assert_eq!(r.limit_per_page, Some(50));
    assert_eq!(r.cursor, Some("next".to_string()));
    assert_eq!(r.aggregation_level, Some(AggregationLevel::Global));
    assert_eq!(
        r.opt_ins,
        Some(StateEntityFungiblesPageRequestOptIns { explicit_metadata: vec!["name".to_string()] })
    );
    assert_eq!(r.at_ledger_state.unwrap().state_version, Some(50000000));
}

#[test]
fn keyvaluestore_builders_set_fields() {
    let c = client();
    let mut keys = c.keyvaluestore_keys_builder("internal_keyvaluestore_x");
    keys.limit_per_page(2).cursor("c1".to_string()).at_round(4);
    let k = keys.build();
    assert_eq!(k.key_value_store_address, "internal_keyvaluestore_x");
    assert_eq!(k.limit_per_page, Some(2));
    assert_eq!(k.cursor, Some("c1".to_string()));
    assert_eq!(k.at_ledger_state.unwrap().round, Some(4));

    let mut data = c.keyvaluestore_data_builder("internal_keyvaluestore_x".to_string());
    assert!(data.build().keys.is_empty());
    data.add_key_hex("5c0c0474657374")
        .add_key_json(serde_json::Value::String("test".to_string()))
        .at_state_version(50000000);
    let d = data.build();
    assert_eq!(d.keys.len(), 2);
    assert_eq!(d.keys[0].key_hex, Some("5c0c0474657374".to_string()));
    assert_eq!(d.keys[0].key_json, None);
    assert_eq!(d.keys[1].key_hex, None);
    assert_eq!(d.keys[1].key_json, Some(serde_json::Value::String("test".to_string())));
    assert_eq!(d.at_ledger_state.unwrap().state_version, Some(50000000));
    data.with_keys(vec![]);
    assert!(data.build().keys.is_empty());
}

#[test]
fn preview_builder_sets_fields() {
    let c = client();
    let key = PublicKey { key_type: PublicKeyType::EddsaEd25519, key_hex: "ab".to_string() };
    let b = c
        .preview_transaction_builder("CALL_METHOD".to_string(), 10, 20, "7".to_string(), vec![])
        .blobs_hex(vec!["00".to_string()])
        .notary_public_key(key.clone())
        .notary_is_signatory(true)
        .tip_percentage(5)
        .use_free_credit()
        .skip_epoch_check();
    let r = b.build();
    assert_eq!(r.manifest, "CALL_METHOD");
    assert_eq!(r.start_epoch_inclusive, 10);
    assert_eq!(r.end_epoch_exclusive, 20);
    assert_eq!(r.nonce, "7");
    assert_eq!(r.blobs_hex, Some(vec!["00".to_string()]));
    assert_eq!(r.notary_public_key, Some(key));
    assert_eq!(r.notary_is_signatory, Some(true));
    assert_eq!(r.tip_percentage, 5);
    assert!(r.flags.use_free_credit);
    assert!(!r.flags.assume_all_signature_proofs);
    assert!(r.flags.skip_epoch_check);
}

#[test]
fn endpoint_urls() {
    assert_eq!(endpoint_url("https://mainnet.radixdlt.com", "stream/transactions"),
        "https://mainnet.radixdlt.com/stream/transactions");
    assert_eq!(endpoint_url("", "status/gateway-status"), "/status/gateway-status");
}

#[test]
fn core_preview_builder_sets_fields() {
    let c = CoreClientBlocking::new("http://localhost:1/core".to_string());
    let key = core_models::PublicKey {
        key_type: core_models::PublicKeyType::EcdsaSecp256k1,
        key_hex: "02ab".to_string(),
    };
    let mut b = c.transaction_preview_builder(
        "CALL_METHOD".to_string(),
        1,
        2,
        42,
        vec![key.clone()],
        "mainnet".to_string(),
        3,
    );
    assert_eq!(b.build().blobs_hex, None);
    assert_eq!(b.build().notary_public_key, None);
    b.blobs_hex(vec!["ff".to_string()])
        .notary_public_key(key.clone())
        .notary_is_signatory(false)
        .assume_all_signature_proofs();
    let r = b.build();
    assert_eq!(r.network, "mainnet");
    assert_eq!(r.nonce, 42);
    assert_eq!(r.tip_percentage, 3);
    assert_eq!(r.signer_public_keys, vec![key.clone()]);
    assert_eq!(r.blobs_hex, Some(vec!["ff".to_string()]));
    assert_eq!(r.notary_public_key, Some(key));
    assert_eq!(r.notary_is_signatory, Some(false));
    assert!(!r.flags.use_free_credit);
    assert!(r.flags.assume_all_signature_proofs);
    assert!(!r.flags.skip_epoch_check);
}
