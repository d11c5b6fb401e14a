use k8s_node::forward::{
    health_check_failure, settle_port_forward, ForwardError, ForwardOutcome, ForwarderPoll,
    HealthCheckError,
};
use k8s_node::lifecycle::{Action, Event, Lifecycle, Phase};
use k8s_node::node::{counters_url, pvc_name_for, K8sNode, Version};
use k8s_node::text::{contains_str, decimal};

fn node(
    sts: &str,
    service: &str,
    port: u32,
    haproxy_enabled: bool,
    port_forward_enabled: bool,
) -> K8sNode {
    K8sNode {
        name: String::from("val0-node"),
        stateful_set_name: String::from(sts),
        peer_id: [7u8; 32],
        index: 0,
        service_name: String::from(service),
        rest_api_port: port,
        version: Version(3, String::from("v3")),
        namespace: String::from("forge"),
        haproxy_enabled,
        port_forward_enabled,
    }
}

fn strings(v: &[&str]) -> Vec<String> {
    v.iter().map(|s| s.to_string()).collect()
}

#[test]
fn forwarded_rest_endpoint_uses_localhost() {
    let n = node("val0", "val0", 40001, false, true);
    assert_eq!(n.rest_api_endpoint(), "http://127.0.0.1:40001/");
    assert_eq!(n.inspection_service_endpoint(), "http://val0:40001/");
}

#[test]
fn direct_rest_endpoint_uses_service_name() {
    let n = node("val0", "val0", 40001, false, false);
    assert_eq!(n.rest_api_endpoint(), "http://val0:40001/");
    assert_eq!(n.inspection_service_endpoint(), "http://val0:40001/");
}

#[test]
fn parsed_urls_keep_the_endpoint_text() {
    let n = node("val0", "val0", 40001, false, true);
    let rest = n.rest_api_url().unwrap();
    assert_eq!(rest.as_str(), "http://127.0.0.1:40001/");
    assert_eq!(rest.port(), Some(40001));
    let inspection = n.inspection_service_url().unwrap();
    assert_eq!(inspection.host_str(), Some("val0"));
}

#[test]
fn invalid_service_name_gives_no_url() {
    let n = node("val0", "bad host name", 40001, false, false);
    assert!(n.rest_api_url().is_none());
}

#[test]
fn fullnode_pvc_name() {
    let n = node("aptos-node-0-validator-fullnode", "svc", 1, false, false);
    assert_eq!(n.pvc_name(), "fn-aptos-node-0-validator-fullnode-0");
    assert_eq!(
        n.clear_storage_args(),
        strings(&["delete", "pvc", "fn-aptos-node-0-validator-fullnode-0"])
    );
}

#[test]
fn validator_pvc_name() {
    let n = node("aptos-node-0-validator", "svc", 1, false, false);
    assert_eq!(n.pvc_name(), "aptos-node-0-validator");
    assert_eq!(
        n.clear_storage_args(),
        strings(&["delete", "pvc", "aptos-node-0-validator"])
    );
}

#[test]
fn pvc_name_edge_cases() {
    assert_eq!(pvc_name_for(""), "");
    assert_eq!(pvc_name_for("fullnode"), "fn-fullnode-0");
    assert_eq!(pvc_name_for("fullnod"), "fullnod");
    assert_eq!(pvc_name_for("full-node"), "full-node");
}

#[test]
fn rest_forwarder_targets_proxy_port() {
    let n = node("val0", "val0", 40001, true, true);
    assert_eq!(n.remote_rest_api_port(), 80);
    let args = n.port_forward_args();
    assert_eq!(
        args,
        strings(&["port-forward", "-n", "forge", "svc/val0", "40001:80"])
    );
    assert_eq!(&args[3..], &strings(&["svc/val0", "40001:80"])[..]);
}

#[test]
fn rest_forwarder_targets_service_port() {
    let n = node("val0", "val0", 40001, false, true);
    assert_eq!(n.remote_rest_api_port(), 8080);
    let args = n.port_forward_args();
    assert_eq!(&args[3..], &strings(&["svc/val0", "40001:8080"])[..]);
}

#[test]
fn metric_forwarder_args() {
    let n = node("val0", "val0", 40001, false, true);
    assert_eq!(n.pod_name(), "val0-0");
    assert_eq!(
        n.metric_port_forward_args(43210),
        strings(&["port-forward", "pod/val0-0", "43210:9101"])
    );
}

#[test]
fn early_exit_of_forwarder_is_success() {
    let args = strings(&["port-forward", "-n", "forge", "svc/val0", "40001:80"]);
    let r = settle_port_forward(args, ForwarderPoll::Exited(Some(0)));
    assert!(matches!(r, Ok(ForwardOutcome::AlreadyServing)));
}

#[test]
fn running_forwarder_is_success() {
    let r = settle_port_forward(Vec::new(), ForwarderPoll::Running);
    assert!(matches!(r, Ok(ForwardOutcome::Started)));
}

#[test]
fn failed_poll_is_an_error() {
    let args = strings(&["port-forward", "-n", "forge", "svc/val0", "40001:80"]);
    let r = settle_port_forward(args.clone(), ForwarderPoll::PollFailed(String::from("gone")));
    match r {
        Err(ForwardError::PollFailed { args: a, reason }) => {
            assert_eq!(a, args);
            assert_eq!(reason, "gone");
        }
        _ => panic!("expected a poll error"),
    }
}

#[test]
fn health_failure_is_structured() {
    match health_check_failure("connection refused") {
        HealthCheckError::Failure(m) => {
            assert_eq!(m, "K8s node health_check failed: connection refused")
        }
        HealthCheckError::Unknown(_) => panic!("expected a failure"),
    }
}

#[test]
fn start_then_stop_leaves_no_replica() {
    let mut l = Lifecycle::stopped();
    assert_eq!(l.step(Event::StartRequested), Action::ScaleTo(1));
    assert_eq!(l.step(Event::ScaleSucceeded), Action::AwaitHealthy(60));
    assert_eq!(l.step(Event::Healthy), Action::Done);
    assert_eq!(l.phase, Phase::Running);
    assert_eq!(l.replicas, 1);
    assert_eq!(l.step(Event::StopRequested), Action::ScaleTo(0));
    assert_eq!(l.replicas, 0);
    assert_eq!(l.phase, Phase::Stopped);
}

#[test]
fn stop_is_idempotent() {
    let mut l = Lifecycle::stopped();
    l.step(Event::StartRequested);
    assert_eq!(l.step(Event::StopRequested), Action::ScaleTo(0));
    let once = l;
    assert_eq!(l.step(Event::StopRequested), Action::ScaleTo(0));
    assert_eq!(l, once);
}

#[test]
fn start_fails_on_health_timeout() {
    let mut l = Lifecycle::stopped();
    l.step(Event::StartRequested);
    l.step(Event::ScaleSucceeded);
    assert_eq!(l.step(Event::HealthTimedOut), Action::Fail);
    assert_eq!(l.phase, Phase::Failed);
}

#[test]
fn start_fails_on_scale_error() {
    let mut l = Lifecycle::stopped();
    l.step(Event::StartRequested);
    assert_eq!(l.step(Event::ScaleFailed), Action::Fail);
    assert_eq!(l.phase, Phase::Failed);
}

#[test]
fn clear_storage_keeps_state() {
    let mut l = Lifecycle::stopped();
    assert_eq!(l.step(Event::ClearStorageRequested), Action::DeleteStorage);
    assert_eq!(l, Lifecycle::stopped());
}

#[test]
fn describe_names_host_and_port() {
    assert_eq!(
        node("val0", "val0", 40001, false, true).describe(),
        "val0-node @ 127.0.0.1:40001"
    );
    assert_eq!(
        node("val0", "val0", 8080, false, false).describe(),
        "val0-node @ val0:8080"
    );
}

#[test]
fn counters_url_text() {
    assert_eq!(counters_url(9101), "http://localhost:9101/counters");
}

#[test]
fn decimal_rendering() {
    assert_eq!(decimal(0), "0");
    assert_eq!(decimal(7), "7");
    assert_eq!(decimal(10), "10");
    assert_eq!(decimal(40001), "40001");
    assert_eq!(decimal(u64::MAX), "18446744073709551615");
}

#[test]
fn substring_search() {
    assert!(contains_str("abc", ""));
    assert!(contains_str("a-fullnode-b", "fullnode"));
    assert!(!contains_str("a-full", "fullnode"));
    assert!(!contains_str("", "x"));
}

#[test]
fn accessors_return_fields() {
    let n = node("val0", "val0-svc", 40001, true, false);
    assert_eq!(n.name(), "val0-node");
    assert_eq!(n.stateful_set_name(), "val0");
    assert_eq!(n.namespace(), "forge");
    assert_eq!(n.service_name(), "val0-svc");
    assert_eq!(n.peer_id(), [7u8; 32]);
    assert_eq!(n.index(), 0);
    assert_eq!(n.rest_api_port(), 40001);
    let v = n.version();
    assert_eq!(v.0, 3);
    assert_eq!(v.1, "v3");
}
