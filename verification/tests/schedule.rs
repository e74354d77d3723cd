use rpc_poller::schedule::interleaved_tasks;
use rpc_poller::{Endpoint, Payload, RpcServiceConfig, Task};

fn endpoint(url: &str) -> Endpoint {
    Endpoint { url: url.to_string(), bearer_token: None }
}

fn payload(name: &str, data: Option<&str>) -> Payload {
    Payload { name: name.to_string(), data: data.map(|d| d.to_string()) }
}

fn config(endpoints: Vec<Endpoint>, payloads: Vec<Payload>) -> RpcServiceConfig {
    RpcServiceConfig::new(500, 1000, 1, endpoints, payloads).unwrap()
}

#[test]
fn interleave_two_endpoints_two_payloads() {
    // Endpoints A and B, a status probe p1 and a data call p2: the
    // interleaved order is (A,p1), (B,p1), (A,p2), (B,p2).
    let c = config(
        vec![endpoint("http://a"), endpoint("http://b")],
        vec![payload("p1", None), payload("p2", Some("{\"x\":1}"))],
    );
    let tasks = interleaved_tasks(&c);
    assert_eq!(
        tasks,
        vec![
            Task { endpoint_index: 0, payload_index: 0 },
            Task { endpoint_index: 1, payload_index: 0 },
            Task { endpoint_index: 0, payload_index: 1 },
            Task { endpoint_index: 1, payload_index: 1 },
        ]
    );
}

#[test]
fn interleave_count_is_product() {
    let c = config(
        vec![endpoint("http://a"), endpoint("http://b"), endpoint("http://c")],
        vec![payload("p1", None), payload("p2", None)],
    );
    let tasks = interleaved_tasks(&c);
    assert_eq!(tasks.len(), 6);
    // One task per (endpoint, payload) pair.
    for j in 0..3 {
        for i in 0..2 {
            let hits = tasks
                .iter()
                .filter(|t| t.endpoint_index == j && t.payload_index == i)
                .count();
            assert_eq!(hits, 1);
        }
    }
}

#[test]
fn interleave_round_robin_windows() {
    // In every window of E consecutive tasks, each endpoint appears at
    // most once.
    let c = config(
        vec![endpoint("http://a"), endpoint("http://b"), endpoint("http://c")],
        vec![payload("p1", None), payload("p2", None), payload("p3", None), payload("p4", None)],
    );
    let e = 3;
    let tasks = interleaved_tasks(&c);
    for start in 0..tasks.len().saturating_sub(e - 1) {
        let window = &tasks[start..start + e];
        for a in 0..e {
            for b in 0..e {
                if a != b {
                    assert_ne!(window[a].endpoint_index, window[b].endpoint_index);
                }
            }
        }
    }
}

#[test]
fn interleave_with_no_endpoints_is_empty() {
    let c = config(vec![], vec![payload("p1", None)]);
    assert_eq!(interleaved_tasks(&c).len(), 0);
}

#[test]
fn interleave_with_no_payloads_is_empty() {
    let c = config(vec![endpoint("http://a")], vec![]);
    assert_eq!(interleaved_tasks(&c).len(), 0);
}
