use radix_client::core_api::models::{
    SborFormatOptions, SubstateFormatOptions, TransactionFormatOptions,
};
use radix_client::gateway::models::{
    LedgerStateSelector, Order, TransactionKindFilter, TransactionStreamRequestBody,
};
use radix_client::{core_api, gateway};
use radix_client::{CoreClientBlocking, GatewayClientBlocking};

/// The page a simulated endpoint serves: the first `limit` items of the feed
/// at or after `from`.
fn serve(feed: &[u64], from: u64, limit: usize) -> Vec<u64> {
    feed.iter().copied().filter(|v| *v >= from).take(limit).collect()
}

fn gateway_stream(from: u64, limit: u32) -> gateway::stream::TransactionStreamBlocking {
    let client = GatewayClientBlocking::new("http://localhost:1".to_string());
    let params = TransactionStreamRequestBody {
        from_ledger_state: Some(LedgerStateSelector {
            state_version: Some(from),
            timestamp: None,
            epoch: None,
            round: None,
        }),
        limit_per_page: Some(limit),
        kind_filter: Some(TransactionKindFilter::User),
        order: Some(Order::Asc),
        ..Default::default()
    };
    client.new_transaction_stream(params)
}

fn gateway_next(stream: &mut gateway::stream::TransactionStreamBlocking, feed: &[u64]) -> Vec<u64> {
    let request = stream.next_request();
    assert!(request.cursor.is_none());
    assert_eq!(request.order, Some(Order::Asc));
    let from = request.from_ledger_state.unwrap().state_version.unwrap();
    let page = serve(feed, from, request.limit_per_page.unwrap() as usize);
    stream.advance(&page);
    page
}

#[test]
fn gateway_three_pages_then_empty() {
    let feed: Vec<u64> = (1..=9).collect();
    let mut stream = gateway_stream(1, 3);
    let mut seen = Vec::new();
    let first = gateway_next(&mut stream, &feed);
    assert_eq!(first, vec![1, 2, 3]);
    seen.extend(first);
    assert_eq!(stream.from_state_version(), Some(4));
    let second = gateway_next(&mut stream, &feed);
    assert_eq!(second, vec![4, 5, 6]);
    seen.extend(second);
    let third = gateway_next(&mut stream, &feed);
    assert_eq!(third, vec![7, 8, 9]);
    seen.extend(third);
    assert_eq!(stream.from_state_version(), Some(10));
    let fourth = gateway_next(&mut stream, &feed);
    assert!(fourth.is_empty());
    assert_eq!(stream.from_state_version(), Some(10));
    assert_eq!(seen, (1..=9).collect::<Vec<u64>>());
}

#[test]
fn gateway_resumes_after_tip() {
    let mut feed: Vec<u64> = vec![3, 5, 8, 13];
    let mut stream = gateway_stream(4, 2);
    let mut seen = Vec::new();
    for _ in 0..4 {
        seen.extend(gateway_next(&mut stream, &feed));
    }
    assert_eq!(seen, vec![5, 8, 13]);
    assert_eq!(stream.from_state_version(), Some(14));
    assert!(gateway_next(&mut stream, &feed).is_empty());
    feed.extend([14, 20, 21]);
    for _ in 0..3 {
        seen.extend(gateway_next(&mut stream, &feed));
    }
    assert_eq!(seen, vec![5, 8, 13, 14, 20, 21]);
    assert_eq!(stream.from_state_version(), Some(22));
}

#[test]
fn gateway_advance_replaces_the_whole_selector() {
    let client = GatewayClientBlocking::new("http://localhost:1".to_string());
    let params = TransactionStreamRequestBody {
        from_ledger_state: Some(LedgerStateSelector {
            state_version: Some(40),
            timestamp: Some(1_700_000_000),
            epoch: Some(3),
            round: None,
        }),
        order: Some(Order::Desc),
        manifest_resources_filter: Some(vec!["resource_a".to_string()]),
        ..Default::default()
    };
    let mut stream = gateway::stream::TransactionStream::new(client, params);
    assert_eq!(stream.from_state_version(), Some(40));
    assert_eq!(stream.next_request().order, Some(Order::Asc));
    stream.advance(&vec![41, 42]);
    assert_eq!(
        stream.params.from_ledger_state,
        Some(LedgerStateSelector { state_version: Some(43), timestamp: None, epoch: None, round: None })
    );
    assert_eq!(stream.params.manifest_resources_filter, Some(vec!["resource_a".to_string()]));
    let request = stream.next_request();
    assert_eq!(request.manifest_resources_filter, Some(vec!["resource_a".to_string()]));
    assert_eq!(request.from_ledger_state.unwrap().state_version, Some(43));
}

fn core_next(stream: &mut core_api::stream::TransactionStreamBlocking, feed: &[u64]) -> Vec<u64> {
    let request = stream.next_request();
    assert_eq!(request.network, "mainnet");
    let page = serve(feed, request.from_state_version, request.limit as usize);
    stream.advance(&page);
    page
}

#[test]
fn core_three_pages_then_empty() {
    let client = CoreClientBlocking::new("http://localhost:1/core".to_string());
    let mut stream = client.new_transaction_stream(
        "mainnet".to_string(),
        1,
        3,
        SborFormatOptions::default(),
        TransactionFormatOptions::default(),
        SubstateFormatOptions::default(),
        false,
    );
    let feed: Vec<u64> = (1..=9).collect();
    let mut seen = Vec::new();
    for call in 1..=4 {
        let page = core_next(&mut stream, &feed);
        if call <= 3 {
            assert_eq!(page.len(), 3);
        } else {
            assert!(page.is_empty());
        }
        if call == 3 {
            assert_eq!(stream.from_state_version, 10);
        }
        seen.extend(page);
    }
    assert_eq!(stream.from_state_version, 10);
    assert_eq!(seen, (1..=9).collect::<Vec<u64>>());
}

#[test]
fn core_request_carries_the_query() {
    let client = CoreClientBlocking::new("http://localhost:1/core".to_string());
    let sbor = SborFormatOptions { raw: true, programmatic_json: false };
    let mut stream = client.new_transaction_stream(
        "stokenet".to_string(),
        100,
        25,
        sbor,
        TransactionFormatOptions::default(),
        SubstateFormatOptions::default(),
        true,
    );
    stream.advance(&vec![100, 101, 150]);
    let request = stream.next_request();
    assert_eq!(request.network, "stokenet");
    assert_eq!(request.from_state_version, 151);
    assert_eq!(request.limit, 25);
    assert_eq!(request.sbor_format_options, sbor);
    assert!(request.include_proofs);
    stream.advance(&vec![]);
    assert_eq!(stream.from_state_version, 151);
}

#[test]
fn zero_start_is_not_a_valid_start() {
    let zero = TransactionStreamRequestBody {
        from_ledger_state: Some(LedgerStateSelector {
            state_version: Some(0),
            timestamp: None,
            epoch: None,
            round: None,
        }),
        ..Default::default()
    };
    assert!(!gateway::stream::is_valid_start(&zero));
    let one = TransactionStreamRequestBody {
        from_ledger_state: Some(LedgerStateSelector {
            state_version: Some(1),
            timestamp: None,
            epoch: None,
            round: None,
        }),
        ..Default::default()
    };
    assert!(gateway::stream::is_valid_start(&one));
    assert!(!gateway::stream::is_valid_start(&TransactionStreamRequestBody::default()));
    let by_epoch = TransactionStreamRequestBody {
        from_ledger_state: Some(LedgerStateSelector {
            state_version: None,
            timestamp: None,
            epoch: Some(5),
            round: None,
        }),
        ..Default::default()
    };
    assert!(!gateway::stream::is_valid_start(&by_epoch));
}
