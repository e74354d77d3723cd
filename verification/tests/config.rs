use rpc_poller::{ConfigError, Endpoint, Payload, RpcServiceConfig};

fn endpoint(url: &str) -> Endpoint {
    Endpoint { url: url.to_string(), bearer_token: None }
}

fn status_payload(name: &str) -> Payload {
    Payload { name: name.to_string(), data: None }
}

#[test]
fn config_accepts_valid() {
    let config = RpcServiceConfig::new(
        500,
        1000,
        2,
        vec![endpoint("http://a")],
        vec![status_payload("p1")],
    )
    .unwrap();
    assert_eq!(config.timeout_ms, 500);
    assert_eq!(config.period_ms, 1000);
    assert_eq!(config.concurrency, 2);
    assert_eq!(config.endpoints.len(), 1);
    assert_eq!(config.payloads.len(), 1);
}

#[test]
fn config_rejects_zero_concurrency() {
    let r = RpcServiceConfig::new(500, 1000, 0, vec![], vec![]);
    assert_eq!(r.unwrap_err(), ConfigError::ZeroConcurrency);
}

#[test]
fn config_rejects_zero_period() {
    let r = RpcServiceConfig::new(500, 0, 1, vec![], vec![]);
    assert_eq!(r.unwrap_err(), ConfigError::ZeroPeriod);
}

#[test]
fn config_zero_concurrency_reported_first() {
    let r = RpcServiceConfig::new(500, 0, 0, vec![], vec![]);
    assert_eq!(r.unwrap_err(), ConfigError::ZeroConcurrency);
}

#[test]
fn task_count_is_product() {
    let config = RpcServiceConfig::new(
        500,
        1000,
        1,
        vec![endpoint("http://a"), endpoint("http://b"), endpoint("http://c")],
        vec![status_payload("p1"), status_payload("p2")],
    )
    .unwrap();
    assert_eq!(config.task_count(), Some(6));
}

#[test]
fn task_count_of_empty_axes_is_zero() {
    let no_endpoints =
        RpcServiceConfig::new(500, 1000, 1, vec![], vec![status_payload("p1")]).unwrap();
    assert_eq!(no_endpoints.task_count(), Some(0));
    let no_payloads = RpcServiceConfig::new(500, 1000, 1, vec![endpoint("http://a")], vec![])
        .unwrap();
    assert_eq!(no_payloads.task_count(), Some(0));
}
