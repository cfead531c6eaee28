use rekcod::api::resp::{ApiJsonResponse, NodeItemResponse};
use rekcod::auth::{
    fresh_cfg, get_token, init_rekcod_client_config, set_token, token_auth, TokenStore,
};
use rekcod::cli::{get_rekcod_config_path, inner_run, node_info_url, node_list_url, CliError};
use rekcod::config::{
    init_rekcod_agent_config, init_rekcod_cli_config, init_rekcod_server_config, join_path,
    rekcod_agent_config, rekcod_cli_config, rekcod_server_config, AgentArgs, RekcodCliConfig,
    ServerArgs,
};
use rekcod::docker::{
    choose_compose_program, compose_candidates, custom_headers_value, docker_host_value,
    prefixed_path, DockerCli, DockerError,
};
use rekcod::http::ApiError;
use rekcod::image::{docker_image_pull_auto, has_image, select_has_docker_image_node, PullPlan};
use rekcod::kvs::KvsForDb;
use rekcod::node::{Node, NodeState};
use rekcod::obj::{RekcodCfg, RekcodType};
use rekcod::text::{
    chars_of, contains, ends_with, find, matches_at, starts_with, str_eq, substring, u64_to_string,
};

#[test]
fn decimal_numerals() {
    assert_eq!(u64_to_string(0), "0");
    assert_eq!(u64_to_string(9), "9");
    assert_eq!(u64_to_string(10), "10");
    assert_eq!(u64_to_string(6734), "6734");
    assert_eq!(u64_to_string(u64::MAX), "18446744073709551615");
}

#[test]
fn text_search() {
    let hay = chars_of("héllo wörld");
    assert_eq!(find(&hay, &chars_of("wör")), Some(6));
    assert_eq!(find(&hay, &chars_of("l")), Some(2));
    assert_eq!(find(&hay, &chars_of("")), Some(0));
    assert_eq!(find(&hay, &chars_of("xyz")), None);
    assert_eq!(find(&chars_of(""), &chars_of("a")), None);
    assert!(contains(&hay, &chars_of("o w")));
    assert!(starts_with(&hay, &chars_of("hé")));
    assert!(!starts_with(&hay, &chars_of("é")));
    assert!(ends_with(&hay, &chars_of("rld")));
    assert!(!ends_with(&chars_of("a"), &chars_of("ba")));
    assert!(matches_at(&hay, &chars_of("llo"), 2));
    assert!(!matches_at(&hay, &chars_of("llo"), 9));
    assert_eq!(substring("héllo", 1, 3), "él");
    assert!(str_eq("a", "a"));
    assert!(!str_eq("a", "b"));
}

#[test]
fn token_is_set_once_and_checked() {
    let mut store = TokenStore::new();
    assert!(!store.is_set());
    set_token(&mut store, "t0k".to_string());
    assert!(store.is_set());
    assert_eq!(get_token(&store), "t0k");
    assert_eq!(token_auth("t0k", Some("t0k")), Ok(()));
    assert_eq!(token_auth("t0k", Some("other")), Err(401));
    assert_eq!(token_auth("t0k", Some("")), Err(401));
    assert_eq!(token_auth("t0k", None), Err(401));
}

#[test]
fn server_keeps_found_token_or_makes_one() {
    let found = RekcodCfg { host: "h:1".to_string(), token: "abc".to_string() };
    let r = init_rekcod_client_config(Some(found), 6734);
    assert!(!r.created);
    assert_eq!(r.cfg.token, "abc");
    assert_eq!(r.cfg.host, "h:1");
    let a = init_rekcod_client_config(None, 6734);
    assert!(a.created);
    assert_eq!(a.cfg.host, "127.0.0.1:6734");
    assert_eq!(a.cfg.token.len(), 36);
    let b = init_rekcod_client_config(None, 6734);
    assert!(a.cfg.token != b.cfg.token);
    let c = fresh_cfg(80, "t".to_string());
    assert_eq!((c.host.as_str(), c.token.as_str()), ("127.0.0.1:80", "t"));
}

#[test]
fn paths_are_joined_with_one_separator() {
    assert_eq!(join_path("/data", "app"), "/data/app");
    assert_eq!(join_path("/data/", "app"), "/data/app");
    assert_eq!(join_path("", "app"), "app");
    assert_eq!(join_path("/data", "/abs"), "/abs");
    assert_eq!(join_path("/data", ""), "/data/");
    for (base, child) in [("/data", "app"), ("/data/", "app"), ("", "app"), ("/data", "/abs"), ("a", "b/c")] {
        let expected = std::path::Path::new(base).join(child);
        assert_eq!(join_path(base, child), expected.to_str().unwrap());
    }
}

fn server_args() -> ServerArgs {
    ServerArgs {
        port: 6734,
        db_url: "sqlite://db.sqlite?mode=rwc".to_string(),
        data_path: "/home/rekcod/data".to_string(),
        config_path: "/etc/rekcod".to_string(),
        dashboard: true,
        dashboard_base_url: Some("/rekcod".to_string()),
    }
}

#[test]
fn configurations_from_arguments() {
    let mut cell = None;
    init_rekcod_server_config(&mut cell, server_args().into_server_config());
    let c = rekcod_server_config(&cell);
    assert_eq!(c.api_port, 6734);
    assert_eq!(c.get_app_root_path(), "/home/rekcod/data/app");
    assert_eq!(c.dashboard_base_url.as_deref(), Some("/rekcod"));

    let mut cell = None;
    init_rekcod_agent_config(&mut cell, server_args().into_agent_config());
    let a = rekcod_agent_config(&cell);
    assert_eq!(a.master_host, "127.0.0.1:6734");
    assert_eq!(a.typ, RekcodType::Master);

    let agent = AgentArgs {
        port: 7000,
        data_path: "/d".to_string(),
        master_host: "10.0.0.1:6734".to_string(),
        config_path: "/c".to_string(),
        token: "t".to_string(),
    }
    .into_agent_config();
    assert_eq!(agent.master_host, "10.0.0.1:6734");
    assert_eq!(agent.api_port, 7000);
    assert_eq!(agent.typ, RekcodType::Agent);

    let mut cell = None;
    init_rekcod_cli_config(&mut cell, RekcodCliConfig { host: "10.0.0.1:6734".to_string() });
    let cli = rekcod_cli_config(&cell);
    assert_eq!(cli.http_server_host(), "http://10.0.0.1:6734/rekcod.server");
    assert_eq!(node_info_url(&cli.http_server_host()), "http://10.0.0.1:6734/rekcod.server/node/info");
    assert_eq!(node_list_url(&cli.http_server_host()), "http://10.0.0.1:6734/rekcod.server/node/list");
}

#[test]
fn config_path_of_the_command_line() {
    assert_eq!(
        get_rekcod_config_path(Some("/a".to_string()), Some("/b".to_string()), true).unwrap(),
        "/a"
    );
    assert_eq!(get_rekcod_config_path(None, Some("/b".to_string()), true).unwrap(), "/b");
    assert_eq!(get_rekcod_config_path(None, None, true).unwrap(), "/etc/rekcod/rekcod.json");
    assert!(matches!(get_rekcod_config_path(None, None, false), Err(CliError::NoConfigPath)));
}

#[test]
fn answers_of_the_server() {
    let mut item = NodeItemResponse::default();
    item.ip = "10.0.0.1".to_string();
    let ok = inner_run(ApiJsonResponse::success(item), "n1").unwrap();
    assert_eq!(ok.ip, "10.0.0.1");
    match inner_run(ApiJsonResponse::<NodeItemResponse>::empty_error(500, "boom"), "n1") {
        Err(CliError::Server(m)) => assert_eq!(m, "boom"),
        _ => panic!("a server error was expected"),
    }
    match inner_run(ApiJsonResponse::<NodeItemResponse>::empty_success(), "n1") {
        Err(CliError::NodeNotFound(n)) => assert_eq!(n, "n1"),
        _ => panic!("the node should be unknown"),
    }
}

#[test]
fn envelopes() {
    let r = ApiJsonResponse::success(5);
    assert_eq!((r.msg(), r.code(), r.data()), ("", 0, Some(&5)));
    let r = ApiJsonResponse::<u8>::empty_success();
    assert_eq!((r.msg(), r.code(), r.data()), ("", 0, None));
    let r = ApiJsonResponse::<u8>::success_optional(None);
    assert_eq!(r.data(), None);
    let r = ApiJsonResponse::success_optional(Some(1u8));
    assert_eq!(r.into_data(), Some(1));
    let r = ApiJsonResponse::<u8>::empty_error(7, "bad");
    assert_eq!((r.msg(), r.code(), r.data()), ("bad", 7, None));
}

#[test]
fn internal_failure_says_nothing_of_its_cause() {
    let e = ApiError::from("database is locked");
    assert_eq!(e.cause(), "database is locked");
    let (status, body) = e.into_response();
    assert_eq!(status, 500);
    assert_eq!(body, "Manager went wrong because service inner error");
}

#[test]
fn docker_program_environment() {
    assert_eq!(docker_host_value("10.0.0.1", 6734), "tcp://10.0.0.1:6734/proxy.docker");
    assert_eq!(custom_headers_value("tok"), "X-REKCOD-TOKEN=tok");
    assert_eq!(prefixed_path("/proxy.docker", "/v1.41/info?x=1"), "/proxy.docker/v1.41/info?x=1");
    let cli = DockerCli::new("/usr/bin/docker", "10.0.0.1", 6734, "tok", &vec!["ps".to_string(), "-a".to_string()]);
    assert_eq!(cli.program, "/usr/bin/docker");
    assert_eq!(cli.args, vec!["ps", "-a"]);
    assert_eq!(
        cli.envs,
        vec![
            ("DOCKER_HOST".to_string(), "tcp://10.0.0.1:6734/proxy.docker".to_string()),
            ("DOCKER_CUSTOM_HEADERS".to_string(), "X-REKCOD-TOKEN=tok".to_string()),
        ]
    );
    assert_eq!(compose_candidates(), vec!["docker compose", "docker-compose"]);
    assert_eq!(choose_compose_program(Some("a".to_string()), Some("b".to_string())), Ok("a".to_string()));
    assert_eq!(choose_compose_program(None, Some("b".to_string())), Ok("b".to_string()));
    assert_eq!(choose_compose_program(None, None), Err(DockerError::ComposeNotInstalled));
}

fn node(name: &str) -> NodeState {
    let row = KvsForDb::new("node", name, "online", "");
    NodeState::create(&row, Node::default(), 0, 0)
}

#[test]
fn image_comes_from_first_peer_that_has_it() {
    let nodes = vec![node("n1"), node("n2"), node("n3"), node("n4")];
    assert_eq!(
        select_has_docker_image_node(&nodes, &vec![Some(1), None, Some(0), Some(2)], "n1"),
        Some(3)
    );
    assert_eq!(
        select_has_docker_image_node(&nodes, &vec![Some(1), Some(1), Some(1), Some(1)], "n2"),
        Some(0)
    );
    assert_eq!(
        select_has_docker_image_node(&nodes, &vec![Some(1), None, None, None], "n1"),
        None
    );
    assert_eq!(select_has_docker_image_node(&nodes, &vec![], "n1"), None);
    assert!(has_image(Some(1)));
    assert!(!has_image(Some(0)));
    assert!(!has_image(None));
    assert_eq!(docker_image_pull_auto(false, Some(1)), PullPlan::Nothing);
    assert_eq!(docker_image_pull_auto(true, Some(1)), PullPlan::FromPeer(1));
    assert_eq!(docker_image_pull_auto(true, None), PullPlan::FromRegistry);
}
