use stubborn_query::account::AccountIdentifier;
use stubborn_query::chain_id::ChainIdentifier;
use stubborn_query::clients::ScriptedChainANode;
use stubborn_query::clients::ScriptedChainBQuery;
use stubborn_query::error::QueryError;
use stubborn_query::observe::MemorySink;
use stubborn_query::observe::RecordedDelay;
use stubborn_query::operations::get_block_number_with_attempt_limit;
use stubborn_query::operations::get_block_number_with_retry;
use stubborn_query::operations::get_chain_id_with_attempt_limit;
use stubborn_query::operations::get_chain_id_with_retry;
use stubborn_query::operations::get_last_event_nonce_with_attempt_limit;
use stubborn_query::operations::get_last_event_nonce_with_retry;

const BLOCK_MSG: &str = "Failed to get latest block! Is your Eth node working?";
const CHAIN_MSG: &str = "Failed to get chain ID! Is your Eth node working?";

fn err(detail: &str) -> Result<u64, QueryError> {
    Err(QueryError::new(detail.to_string()))
}

#[test]
fn block_number_two_failures_then_success() {
    let responses = vec![err("no connection"), err("no connection"), Ok(12345)];
    let mut client = ScriptedChainANode::new(responses, Vec::new());
    let mut sink = MemorySink::new();
    let mut delay = RecordedDelay::new();
    let v = get_block_number_with_retry(&mut client, &mut sink, &mut delay);
    assert_eq!(v, 12345);
    assert_eq!(sink.messages.len(), 2);
    assert_eq!(sink.messages[0], BLOCK_MSG);
    assert_eq!(sink.messages[1], BLOCK_MSG);
    assert_eq!(delay.requests, vec![5, 5]);
}

#[test]
fn block_number_immediate_success_no_overhead() {
    let mut client = ScriptedChainANode::new(vec![Ok(7)], Vec::new());
    let mut sink = MemorySink::new();
    let mut delay = RecordedDelay::new();
    let v = get_block_number_with_retry(&mut client, &mut sink, &mut delay);
    assert_eq!(v, 7);
    assert_eq!(sink.messages.len(), 0);
    assert_eq!(delay.requests.len(), 0);
}

#[test]
fn event_nonce_unreachable_then_success() {
    let account = AccountIdentifier::new("addr1qxy0example".to_string()).unwrap();
    let mut client = ScriptedChainBQuery::new(vec![err("unreachable"), Ok(42)]);
    let mut sink = MemorySink::new();
    let mut delay = RecordedDelay::new();
    let v = get_last_event_nonce_with_retry(&mut client, &account, &mut sink, &mut delay);
    assert_eq!(v, 42);
    assert_eq!(sink.messages.len(), 1);
    assert!(sink.messages[0].contains("unreachable"));
    assert_eq!(
        sink.messages[0],
        "Failed to get last event nonce, is the Cosmos GRPC working? unreachable"
    );
    assert_eq!(delay.requests, vec![5]);
}

#[test]
fn event_nonce_logs_each_failure_detail_in_order() {
    let account = AccountIdentifier::new("addr1qxy0example".to_string()).unwrap();
    let mut client = ScriptedChainBQuery::new(vec![err("first down"), err("second down"), Ok(9)]);
    let mut sink = MemorySink::new();
    let mut delay = RecordedDelay::new();
    let v = get_last_event_nonce_with_retry(&mut client, &account, &mut sink, &mut delay);
    assert_eq!(v, 9);
    assert_eq!(sink.messages.len(), 2);
    assert!(sink.messages[0].ends_with("first down"));
    assert!(sink.messages[1].ends_with("second down"));
    assert_eq!(delay.requests, vec![5, 5]);
}

#[test]
fn chain_id_large_value_returned_exactly() {
    let id = ChainIdentifier::from_u64(9000000000000000000);
    let mut client = ScriptedChainANode::new(Vec::new(), vec![Ok(id)]);
    let mut sink = MemorySink::new();
    let mut delay = RecordedDelay::new();
    let v = get_chain_id_with_retry(&mut client, &mut sink, &mut delay);
    assert_eq!(v, id);
    assert_eq!(v.low, 9000000000000000000u128);
    assert_eq!(v.high, 0);
    assert_eq!(sink.messages.len(), 0);
    assert_eq!(delay.requests.len(), 0);
}

#[test]
fn chain_id_failure_logs_fixed_message() {
    let id = ChainIdentifier::from_u64(1);
    let failure: Result<ChainIdentifier, QueryError> = Err(QueryError::new("down".to_string()));
    let mut client = ScriptedChainANode::new(Vec::new(), vec![failure, Ok(id)]);
    let mut sink = MemorySink::new();
    let mut delay = RecordedDelay::new();
    let v = get_chain_id_with_retry(&mut client, &mut sink, &mut delay);
    assert_eq!(v, id);
    assert_eq!(sink.messages, vec![CHAIN_MSG.to_string()]);
    assert_eq!(delay.requests, vec![5]);
}

#[test]
fn block_number_no_success_within_five_attempts() {
    // An exhausted script fails every attempt: the endpoint is down forever.
    let mut client = ScriptedChainANode::new(Vec::new(), Vec::new());
    let mut sink = MemorySink::new();
    let mut delay = RecordedDelay::new();
    let r = get_block_number_with_attempt_limit(&mut client, &mut sink, &mut delay, 5);
    assert_eq!(r, None);
    assert_eq!(sink.messages.len(), 5);
    assert_eq!(delay.requests.len(), 5);
    for message in &sink.messages {
        assert_eq!(message, BLOCK_MSG);
    }
}

#[test]
fn block_number_attempt_limit_stops_at_first_success() {
    let responses = vec![err("down"), Ok(3)];
    let mut client = ScriptedChainANode::new(responses, Vec::new());
    let mut sink = MemorySink::new();
    let mut delay = RecordedDelay::new();
    let r = get_block_number_with_attempt_limit(&mut client, &mut sink, &mut delay, 5);
    assert_eq!(r, Some(3));
    assert_eq!(sink.messages.len(), 1);
    assert_eq!(delay.requests, vec![5]);
}

#[test]
fn chain_id_no_success_within_two_attempts() {
    let mut client = ScriptedChainANode::new(Vec::new(), Vec::new());
    let mut sink = MemorySink::new();
    let mut delay = RecordedDelay::new();
    let r = get_chain_id_with_attempt_limit(&mut client, &mut sink, &mut delay, 2);
    assert_eq!(r, None);
    assert_eq!(sink.messages, vec![CHAIN_MSG.to_string(), CHAIN_MSG.to_string()]);
    assert_eq!(delay.requests, vec![5, 5]);
}

#[test]
fn event_nonce_attempt_limit_reports_each_detail() {
    let account = AccountIdentifier::new("addr1qxy0example".to_string()).unwrap();
    let mut client = ScriptedChainBQuery::new(vec![err("socket closed")]);
    let mut sink = MemorySink::new();
    let mut delay = RecordedDelay::new();
    let r = get_last_event_nonce_with_attempt_limit(&mut client, &account, &mut sink, &mut delay, 2);
    assert_eq!(r, None);
    assert_eq!(sink.messages.len(), 2);
    assert!(sink.messages[0].ends_with("socket closed"));
    assert!(sink.messages[1].ends_with("scripted endpoint has no responses left"));
    assert_eq!(delay.requests, vec![5, 5]);
}

#[test]
fn two_independent_runs_do_not_disturb_each_other() {
    // Each run against its own endpoint behaves exactly as it does in
    // isolation: same value, same diagnostics, same suspensions.
    let mut flaky = ScriptedChainANode::new(vec![err("down"), Ok(10)], Vec::new());
    let mut healthy = ScriptedChainANode::new(vec![Ok(20)], Vec::new());
    let mut sink_a = MemorySink::new();
    let mut delay_a = RecordedDelay::new();
    let mut sink_b = MemorySink::new();
    let mut delay_b = RecordedDelay::new();
    let a = get_block_number_with_retry(&mut flaky, &mut sink_a, &mut delay_a);
    let b = get_block_number_with_retry(&mut healthy, &mut sink_b, &mut delay_b);
    assert_eq!(a, 10);
    assert_eq!(b, 20);
    assert_eq!(sink_a.messages.len(), 1);
    assert_eq!(delay_a.requests, vec![5]);
    assert_eq!(sink_b.messages.len(), 0);
    assert_eq!(delay_b.requests.len(), 0);
}
