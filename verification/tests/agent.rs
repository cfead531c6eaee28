use rekcod::agent::{
    container_info, docker_event_monitor, register_node, register_url, shell_stream, ContainerInfo, DebounceState,
    Debouncer, GlobalSysInfo, ShellRequest, SysDisk, SysNetwork,
};

const SEC: u64 = 1_000_000_000;

#[test]
fn restart_expires_after_more_than_sixty_whole_seconds() {
    let s = DebounceState { timeout: 100 * SEC };
    assert!(!s.expire(100 * SEC));
    assert!(!s.expire(160 * SEC));
    assert!(!s.expire(161 * SEC - 1));
    assert!(s.expire(161 * SEC));
    assert!(!s.expire(99 * SEC));
    assert!(!s.expire(0));
}

fn container(id: &str) -> ContainerInfo {
    ContainerInfo { id: id.to_string(), name: format!("/{}", id) }
}

#[test]
fn container_is_restarted_once_per_minute() {
    let mut d = Debouncer::new();
    assert!(d.docker_health_monitor(&container("c1"), 0));
    assert_eq!(d.len(), 1);
    assert!(!d.docker_health_monitor(&container("c1"), 10 * SEC));
    assert!(!d.docker_health_monitor(&container("c1"), 60 * SEC));
    assert!(d.docker_health_monitor(&container("c2"), 10 * SEC));
    assert!(d.docker_health_monitor(&container("c1"), 61 * SEC));
    assert_eq!(d.len(), 2);
    assert!(!d.docker_health_monitor(&container("c1"), 100 * SEC));
}

#[test]
fn old_restarts_are_forgotten() {
    let mut d = Debouncer::new();
    d.docker_health_monitor(&container("c1"), 0);
    d.docker_health_monitor(&container("c2"), 30 * SEC);
    d.prune(60 * SEC);
    assert_eq!(d.len(), 2);
    d.prune(61 * SEC);
    assert_eq!(d.len(), 1);
    assert!(!d.docker_health_monitor(&container("c2"), 62 * SEC));
    assert!(d.docker_health_monitor(&container("c1"), 62 * SEC));
    d.prune(200 * SEC);
    assert_eq!(d.len(), 0);
}

#[test]
fn container_needs_id_and_names() {
    let c = container_info(Some("abc".to_string()), Some(vec!["/web".to_string(), "/w".to_string()]))
        .unwrap();
    assert_eq!(c.id, "abc");
    assert_eq!(c.name, "/web");
    assert_eq!(container_info(Some("abc".to_string()), Some(vec![])).unwrap().name, "");
    assert!(container_info(None, Some(vec![])).is_none());
    assert!(container_info(Some("abc".to_string()), None).is_none());
}

#[test]
fn registration_of_an_agent() {
    let sys = GlobalSysInfo {
        system_name: Some("Linux".to_string()),
        kernel_version: None,
        os_version: Some("12".to_string()),
        long_os_version: None,
        host_name: Some("box".to_string()),
        cpu_arch: Some("x86_64".to_string()),
    };
    let req = register_node(Some("10.0.0.5".to_string()), &sys, 6734);
    assert_eq!(req.name, "10.0.0.5");
    assert_eq!(req.ip, "10.0.0.5");
    assert_eq!(req.port, 6734);
    assert_eq!(req.host_name, "box");
    assert_eq!(req.os, "Linux");
    assert_eq!(req.os_kernel, "unknown");
    assert_eq!(req.os_long_version, "unknown");
    assert_eq!(req.token, "");
    assert_eq!(req.version, "");
    assert!(req.status);
    let req = register_node(None, &sys, 1);
    assert_eq!(req.name, "127.0.0.1");
    assert_eq!(req.ip, "127.0.0.1");
    assert_eq!(
        register_url("10.0.0.1:6734"),
        "http://10.0.0.1:6734/rekcod.server/node/register"
    );
}

#[test]
fn shell_request_runs_bash_by_default() {
    let c = shell_stream(ShellRequest { env: None, run: "ls -l".to_string(), bash: None });
    assert_eq!(c.program, "bash");
    assert_eq!(c.args, vec!["-c", "ls -l"]);
    assert!(c.envs.is_empty());
    let c = shell_stream(ShellRequest {
        env: Some(vec![("A".to_string(), "1".to_string())]),
        run: "env".to_string(),
        bash: Some("sh".to_string()),
    });
    assert_eq!(c.program, "sh");
    assert_eq!(c.envs, vec![("A".to_string(), "1".to_string())]);
}

#[test]
fn disk_and_network_reports() {
    let d = SysDisk {
        name: "sda".to_string(),
        total: 10,
        free: 4,
        mount: "/".to_string(),
        removable: true,
    }
    .to_info();
    assert_eq!((d.name.as_str(), d.total, d.free, d.mount.as_str(), d.removeable), ("sda", 10, 4, "/", true));
    let n = SysNetwork {
        name: "eth0".to_string(),
        ips: vec!["10.0.0.1/24".to_string()],
        mac: "aa".to_string(),
        total_out: 1,
        total_in: 2,
    }
    .to_info();
    assert_eq!(n.ips, vec!["10.0.0.1/24"]);
    assert_eq!((n.total_out, n.total_in), (1, 2));
}

#[test]
fn events_are_asked_for_the_last_interval() {
    assert_eq!(docker_event_monitor(1700000005), ("1700000000".to_string(), "1700000005".to_string()));
    assert_eq!(docker_event_monitor(3), ("0".to_string(), "3".to_string()));
}
