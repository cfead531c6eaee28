use rekcod::kvs::KvsForDb;
use rekcod::node::{Node, NodeState};
use rekcod::proxy::{
    docker_proxy_handler, extract_path, is_upgrade_request, node_proxy_handler, proxied_node_name,
    proxy_outcome, strip_docker_prefix, DockerProxyClient, ProxyError, ProxyOutcome,
};

#[test]
fn test_extract_path() {
    assert_eq!(extract_path("/node/proxy", "/node/proxy"), "");
    assert_eq!(extract_path("/node/proxy", "/node/proxy/"), "/");
    assert_eq!(extract_path("/node/proxy", "/node/proxy/1"), "/1");
    assert_eq!(extract_path("/node/proxy", "/node/proxy/1/2"), "/1/2");
    assert_eq!(extract_path("/node/proxy", "/aaa/node/proxy/1/2"), "/1/2");
    assert_eq!(extract_path("/node/proxy", "/bbb/node/proxy/1/2"), "/1/2");
}

#[test]
fn extract_path_without_prefix_keeps_input() {
    assert_eq!(extract_path("/node/proxy", "/other/1"), "/other/1");
    assert_eq!(extract_path("/node/proxy", ""), "");
}

#[test]
fn extract_path_cuts_at_first_occurrence() {
    assert_eq!(
        extract_path("/node/proxy", "/api/node/proxy/x/node/proxy/y?a=1"),
        "/x/node/proxy/y?a=1"
    );
}

fn state(ip: &str, port: u16) -> NodeState {
    let row = KvsForDb::new("node", "n1", "online", "{}");
    let mut decoded = Node::default();
    decoded.ip = ip.to_string();
    decoded.port = port;
    NodeState::create(&row, decoded, 0, 0)
}

#[test]
fn proxy_target_is_agent_prefix_plus_tail() {
    let n = state("10.0.0.1", 6734);
    let t = node_proxy_handler(
        "/api/node/proxy/sys",
        Some("/api/node/proxy/sys?x=1"),
        Some(&n),
        "tok",
    )
    .unwrap();
    assert_eq!(t.uri, "http://10.0.0.1:6734/rekcod.agent/sys?x=1");
    assert_eq!(t.token, "tok");
}

#[test]
fn proxy_without_query_uses_path() {
    let n = state("10.0.0.1", 80);
    let t = node_proxy_handler("/whole/path", None, Some(&n), "tok").unwrap();
    assert_eq!(t.uri, "http://10.0.0.1:80/rekcod.agent/whole/path");
}

#[test]
fn proxy_to_unknown_node_is_bad_request() {
    let r = node_proxy_handler("/api/node/proxy/sys", Some("/api/node/proxy/sys"), None, "tok");
    assert_eq!(r.err(), Some(400));
}

#[test]
fn missing_node_name_header_is_bad_request() {
    assert_eq!(proxied_node_name(None), Err(400));
    assert_eq!(proxied_node_name(Some("n1")), Ok("n1"));
}

#[test]
fn docker_prefix_is_stripped() {
    assert_eq!(
        strip_docker_prefix("/proxy.docker/v1.41/info", Some("/proxy.docker/v1.41/info?a=b")),
        "/v1.41/info?a=b"
    );
    assert_eq!(strip_docker_prefix("/other", Some("/other?x")), "/other");
    assert_eq!(strip_docker_prefix("/p", None), "/p");
}

#[test]
fn upgrade_is_detected_in_any_case() {
    assert!(is_upgrade_request(Some("Upgrade")));
    assert!(is_upgrade_request(Some("keep-alive, UPGRADE")));
    assert!(is_upgrade_request(Some("upgrade")));
    assert!(!is_upgrade_request(Some("keep-alive")));
    assert!(!is_upgrade_request(Some("upgrad")));
    assert!(!is_upgrade_request(None));
}

#[test]
fn connections_are_joined_only_after_switching_protocols() {
    assert_eq!(proxy_outcome(true, 101), ProxyOutcome::Splice);
    assert_eq!(proxy_outcome(true, 200), ProxyOutcome::Relay);
    assert_eq!(proxy_outcome(false, 101), ProxyOutcome::Relay);
}

#[test]
fn unix_socket_uri_has_hex_host() {
    let c = DockerProxyClient::new(false);
    assert_eq!(c, DockerProxyClient::Unix);
    // "/var/run/docker.sock" in hexadecimal
    assert_eq!(
        c.uri("/v1.41/info", None).unwrap(),
        "unix://2f7661722f72756e2f646f636b65722e736f636b:0/v1.41/info"
    );
    assert_eq!(c.uri("/x", Some("unix:///a")).unwrap(), "unix://2f61:0/x");
}

#[test]
fn tcp_docker_host_is_refused() {
    let c = DockerProxyClient::new(false);
    assert_eq!(
        c.uri("/x", Some("tcp://127.0.0.1:2375")),
        Err(ProxyError::UnsupportedDockerHost)
    );
}

#[test]
fn named_pipe_uri() {
    let c = DockerProxyClient::new(true);
    assert_eq!(c, DockerProxyClient::Windows);
    // "//./pipe/docker_engine" in hexadecimal
    assert_eq!(
        c.uri("/x", None).unwrap(),
        "net.pipe://2f2f2e2f706970652f646f636b65725f656e67696e65:0/x"
    );
}

#[test]
fn engine_request_marks_upgrade() {
    let c = DockerProxyClient::new(false);
    let r = docker_proxy_handler(
        &c,
        "/proxy.docker/exec/1/start",
        Some("/proxy.docker/exec/1/start"),
        Some("Upgrade"),
        None,
    )
    .unwrap();
    assert!(r.upgrade);
    assert_eq!(
        r.uri,
        "unix://2f7661722f72756e2f646f636b65722e736f636b:0/exec/1/start"
    );
    let bad = docker_proxy_handler(&c, "/p", None, None, Some("tcp://h"));
    assert_eq!(bad.err(), Some(400));
}
