use rekcod::api::req::RegisterNodeRequest;
use rekcod::kvs::{DbSet, KvsForDb};
use rekcod::node::monitor::{persist_status_changes, select_nodes, update_node_status_db};
use rekcod::node::{
    host_url, is_alive, list_sub_key, register_node, status_sub_key, Node, NodeManager, NodeState,
    RegisterAction,
};
use rekcod::obj::NodeStatus;

const SEC: u64 = 1_000_000_000;
const MS: u64 = 1_000_000;

fn request(name: &str, ip: &str, port: u16, status: bool) -> RegisterNodeRequest {
    let mut req = RegisterNodeRequest::default();
    req.name = name.to_string();
    req.host_name = "host".to_string();
    req.ip = ip.to_string();
    req.port = port;
    req.arch = "x86_64".to_string();
    req.os = "linux".to_string();
    req.status = status;
    req
}

// a stand-in for the serialized record: the fields that the tests read
fn encode(node: &Node) -> String {
    format!("{}|{}|{}|{}|{}", node.host_name, node.ip, node.port, node.arch, node.os)
}

fn decode(value: &str) -> Node {
    let parts: Vec<&str> = value.split('|').collect();
    let mut node = Node::default();
    node.host_name = parts[0].to_string();
    node.ip = parts[1].to_string();
    node.port = parts[2].parse().unwrap();
    node.arch = parts[3].to_string();
    node.os = parts[4].to_string();
    node
}

fn lookup(db: &DbSet, mgr: &mut NodeManager, name: &str, now: u64) -> Option<NodeState> {
    if mgr.get_node(name).is_none() {
        if let Some(row) = db.select_one("node", Some(name), None, None) {
            let decoded = decode(&row.value);
            return Some(mgr.get_or_load_node(&row, decoded, now));
        }
    }
    mgr.get_node(name).cloned()
}

fn register(db: &mut DbSet, mgr: &mut NodeManager, req: RegisterNodeRequest, now: u64) -> u8 {
    let name = req.name.clone();
    lookup(db, mgr, &name, now);
    match mgr.register(req, now) {
        RegisterAction::Unchanged => 0,
        RegisterAction::Update(node) => {
            db.update_sub_key("node", &name, status_sub_key(node.status), &encode(&node))
                .unwrap();
            1
        }
        RegisterAction::Insert(node) => {
            db.insert(&node.to_kvs(&encode(&node))).unwrap();
            2
        }
    }
}

fn list(db: &DbSet, mgr: &mut NodeManager, all: bool, now: u64) -> Vec<String> {
    let rows: Vec<(KvsForDb, Node)> = db
        .select("node", None, list_sub_key(all), None)
        .into_iter()
        .map(|r| {
            let d = decode(&r.value);
            (r, d)
        })
        .collect();
    assert!(mgr.can_materialize(rows.len()));
    mgr.get_all_nodes(rows, now)
        .into_iter()
        .map(|s| s.node.name)
        .collect()
}

fn sweep(db: &mut DbSet, mgr: &mut NodeManager, now: u64) -> usize {
    let changes = mgr.monitor_nodes(now);
    for c in changes.iter() {
        let row = db.select_one("node", Some(&c.name), None, None).unwrap();
        let node = decode(&row.value).with_status(c.online);
        update_node_status_db(db, c, &encode(&node)).unwrap();
    }
    changes.len()
}

#[test]
fn first_registration_inserts_an_online_row() {
    let mut db = DbSet::new();
    let mut mgr = NodeManager::new();
    assert_eq!(register(&mut db, &mut mgr, request("n1", "10.0.0.1", 6734, true), 0), 2);
    let rows = db.select("node", None, None, None);
    assert_eq!(rows.len(), 1);
    assert_eq!(rows[0].module, "node");
    assert_eq!(rows[0].key, "n1");
    assert_eq!(rows[0].sub_key, "online");
    assert_eq!(list(&db, &mut mgr, false, 1), vec!["n1"]);
}

#[test]
fn registering_the_same_node_again_changes_nothing() {
    let mut db = DbSet::new();
    let mut mgr = NodeManager::new();
    register(&mut db, &mut mgr, request("n1", "10.0.0.1", 6734, true), 0);
    let before = db.select("node", None, None, None);
    let first = lookup(&db, &mut mgr, "n1", 5).unwrap();
    assert_eq!(register(&mut db, &mut mgr, request("n1", "10.0.0.1", 6734, true), 7), 0);
    let after = db.select("node", None, None, None);
    assert_eq!(before.len(), after.len());
    assert_eq!(before[0].id, after[0].id);
    assert_eq!(before[0].value, after[0].value);
    let second = mgr.get_node("n1").unwrap();
    assert_eq!(second.get_instance(), first.get_instance());
    assert_eq!(second.get_last_heartbeat(), 7);
}

#[test]
fn a_changed_registration_rewrites_the_row_and_forgets_the_state() {
    let mut db = DbSet::new();
    let mut mgr = NodeManager::new();
    register(&mut db, &mut mgr, request("n1", "10.0.0.1", 6734, true), 0);
    let first = lookup(&db, &mut mgr, "n1", 1).unwrap();
    assert_eq!(register(&mut db, &mut mgr, request("n1", "10.0.0.2", 6734, false), 2), 1);
    assert!(mgr.get_node("n1").is_none());
    let rows = db.select("node", None, None, None);
    assert_eq!(rows.len(), 1);
    assert_eq!(rows[0].sub_key, "offline");
    let again = lookup(&db, &mut mgr, "n1", 3).unwrap();
    assert_eq!(again.node.ip, "10.0.0.2");
    assert!(!again.node.status);
    assert!(again.get_instance() != first.get_instance());
}

#[test]
fn register_node_decides_by_comparison() {
    let known = Node::from_request(request("n1", "10.0.0.1", 1, true));
    assert!(matches!(
        register_node(Some(&known), request("n1", "10.0.0.1", 1, true)),
        RegisterAction::Unchanged
    ));
    match register_node(Some(&known), request("n1", "10.0.0.1", 2, true)) {
        RegisterAction::Update(n) => assert_eq!(n.port, 2),
        _ => panic!("an update was expected"),
    }
    match register_node(None, request("n1", "10.0.0.1", 2, true)) {
        RegisterAction::Insert(n) => assert_eq!(n.name, "n1"),
        _ => panic!("an insert was expected"),
    }
}

#[test]
fn get_node_twice_gives_the_same_instance() {
    let mut db = DbSet::new();
    let mut mgr = NodeManager::new();
    register(&mut db, &mut mgr, request("n1", "10.0.0.1", 6734, true), 0);
    let a = lookup(&db, &mut mgr, "n1", 1).unwrap();
    let b = lookup(&db, &mut mgr, "n1", 2).unwrap();
    assert_eq!(a.get_instance(), b.get_instance());
    assert_eq!(b.get_last_heartbeat(), 1);
    mgr.delete_node("n1");
    let c = lookup(&db, &mut mgr, "n1", 3).unwrap();
    assert!(c.get_instance() != a.get_instance());
    assert_eq!(c.get_last_heartbeat(), 3);
}

#[test]
fn status_and_name_come_from_the_row() {
    let row = KvsForDb::new("node", "n7", "offline", "");
    let mut decoded = Node::default();
    decoded.name = "other".to_string();
    decoded.status = true;
    decoded.ip = "1.2.3.4".to_string();
    decoded.port = 99;
    let node = Node::from_kvs(&row, decoded);
    assert_eq!(node.name, "n7");
    assert!(!node.status);
    let row = KvsForDb::new("node", "n7", "online", "");
    assert!(Node::from_kvs(&row, Node::default()).status);
    let row = KvsForDb::new("node", "n7", "Online", "");
    assert!(!Node::from_kvs(&row, Node::default()).status);
}

#[test]
fn liveness_boundary() {
    let now = 100 * SEC;
    assert!(is_alive(now, now - 14_999 * MS));
    assert!(is_alive(now, now - 15_000 * MS));
    assert!(!is_alive(now, now - 15_001 * MS));
    assert!(!is_alive(now, now - 15 * SEC - 1));
    assert!(is_alive(now, now + SEC));
}

#[test]
fn node_within_timeout_stays_online_and_beyond_goes_offline() {
    let mut db = DbSet::new();
    let mut mgr = NodeManager::new();
    register(&mut db, &mut mgr, request("n1", "10.0.0.1", 6734, true), 0);
    lookup(&db, &mut mgr, "n1", 0);
    assert_eq!(sweep(&mut db, &mut mgr, 14_999 * MS), 0);
    assert!(mgr.get_node("n1").unwrap().online());
    assert_eq!(sweep(&mut db, &mut mgr, 15_001 * MS), 1);
    assert!(!mgr.get_node("n1").unwrap().online());
    assert_eq!(db.select_one("node", Some("n1"), None, None).unwrap().sub_key, "offline");
}

#[test]
fn node_without_heartbeat_leaves_the_online_list() {
    let mut db = DbSet::new();
    let mut mgr = NodeManager::new();
    register(&mut db, &mut mgr, request("n1", "10.0.0.1", 6734, true), 0);
    register(&mut db, &mut mgr, request("n2", "10.0.0.2", 6734, true), 0);
    assert_eq!(list(&db, &mut mgr, false, 0), vec!["n1", "n2"]);
    // n2 keeps registering every ten seconds, n1 does not
    assert_eq!(register(&mut db, &mut mgr, request("n2", "10.0.0.2", 6734, true), 10 * SEC), 0);
    assert_eq!(sweep(&mut db, &mut mgr, 10 * SEC), 0);
    assert_eq!(sweep(&mut db, &mut mgr, 15 * SEC), 0);
    assert_eq!(sweep(&mut db, &mut mgr, 20 * SEC), 1);
    let row = db.select_one("node", Some("n1"), None, None).unwrap();
    assert_eq!(row.sub_key, "offline");
    assert_eq!(list(&db, &mut mgr, false, 20 * SEC), vec!["n2"]);
    assert_eq!(list(&db, &mut mgr, true, 20 * SEC), vec!["n1", "n2"]);
}

#[test]
fn offline_node_comes_back_with_a_heartbeat() {
    let mut db = DbSet::new();
    let mut mgr = NodeManager::new();
    register(&mut db, &mut mgr, request("n1", "10.0.0.1", 6734, true), 0);
    lookup(&db, &mut mgr, "n1", 0);
    assert_eq!(sweep(&mut db, &mut mgr, 16 * SEC), 1);
    mgr.refresh_node_heartbeat("n1", 17 * SEC);
    let changes = mgr.pending_status_changes(18 * SEC);
    assert_eq!(changes.len(), 1);
    assert_eq!(changes[0].name, "n1");
    assert!(changes[0].online);
    assert_eq!(sweep(&mut db, &mut mgr, 18 * SEC), 1);
    assert!(mgr.get_node("n1").unwrap().online());
    assert_eq!(db.select_one("node", Some("n1"), None, None).unwrap().sub_key, "online");
}

#[test]
fn listing_with_no_rows_empties_the_registry() {
    let mut db = DbSet::new();
    let mut mgr = NodeManager::new();
    register(&mut db, &mut mgr, request("n1", "10.0.0.1", 6734, false), 0);
    lookup(&db, &mut mgr, "n1", 0);
    assert_eq!(mgr.len(), 1);
    assert_eq!(list(&db, &mut mgr, false, 1), Vec::<String>::new());
    assert_eq!(mgr.len(), 0);
}

#[test]
fn listing_updates_known_states_in_place() {
    let mut db = DbSet::new();
    let mut mgr = NodeManager::new();
    register(&mut db, &mut mgr, request("n1", "10.0.0.1", 6734, true), 0);
    let first = lookup(&db, &mut mgr, "n1", 5).unwrap();
    db.update_sub_key("node", "n1", "offline", "h|10.0.0.9|1|a|o").unwrap();
    assert_eq!(list(&db, &mut mgr, true, 9), vec!["n1"]);
    let s = mgr.get_node("n1").unwrap();
    assert_eq!(s.node.ip, "10.0.0.9");
    assert!(!s.node.status);
    assert_eq!(s.get_instance(), first.get_instance());
    assert_eq!(s.get_last_heartbeat(), 5);
}

#[test]
fn refresh_of_unknown_node_does_nothing() {
    let mut mgr = NodeManager::new();
    mgr.refresh_node_heartbeat("n1", 5);
    assert_eq!(mgr.len(), 0);
    mgr.set_node_status("n1", true);
    assert_eq!(mgr.len(), 0);
    mgr.delete_node("n1");
    assert_eq!(mgr.len(), 0);
}

#[test]
fn node_addresses() {
    let row = KvsForDb::new("node", "n1", "online", "");
    let mut decoded = Node::default();
    decoded.ip = "10.0.0.1".to_string();
    decoded.port = 6734;
    let s = NodeState::create(&row, decoded, 3, 4);
    assert_eq!(s.get_node_ip(), "10.0.0.1");
    assert_eq!(s.get_node_port(), 6734);
    assert_eq!(s.get_node_host(), "http://10.0.0.1:6734");
    assert_eq!(s.get_node_agent(), "http://10.0.0.1:6734/rekcod.agent");
    assert_eq!(s.docker.client_addr, "http://10.0.0.1:6734");
    assert_eq!(s.docker.path_prefix, "/proxy.docker");
    assert_eq!(s.docker.timeout, 40);
    assert_eq!(s.get_last_heartbeat(), 3);
    assert_eq!(s.get_instance(), 4);
    assert_eq!(host_url("h", 0), "http://h:0");
    assert_eq!(host_url("h", 65535), "http://h:65535");
}

#[test]
fn node_item_has_no_token() {
    let mut req = request("n1", "10.0.0.1", 6734, true);
    req.token = "secret".to_string();
    req.os_long_version = "long".to_string();
    let node = Node::from_request(req);
    assert_eq!(node.token, "secret");
    let item = node.into_response();
    assert_eq!(item.name, "n1");
    assert_eq!(item.ip, "10.0.0.1");
    assert_eq!(item.port, 6734);
    assert!(item.status);
}

#[test]
fn node_row_carries_status_as_sub_key() {
    let node = Node::from_request(request("n1", "10.0.0.1", 6734, false));
    let row = node.to_kvs("v");
    assert_eq!(row.module, "node");
    assert_eq!(row.key, "n1");
    assert_eq!(row.sub_key, "offline");
    assert_eq!(row.third_key, "");
    assert_eq!(row.value, "v");
}

#[test]
fn node_status_texts() {
    assert_eq!(NodeStatus::from("online"), NodeStatus::Online);
    assert_eq!(NodeStatus::from("offline"), NodeStatus::Offline);
    assert_eq!(NodeStatus::from("anything"), NodeStatus::Offline);
    assert_eq!(NodeStatus::from(""), NodeStatus::Offline);
    assert_eq!(NodeStatus::Online.to_string(), "online");
    assert_eq!(NodeStatus::Offline.to_string(), "offline");
    assert_eq!(NodeStatus::from_bool(true), NodeStatus::Online);
    assert!(!NodeStatus::Offline.is_online());
}

#[test]
fn two_lookups_that_both_missed_get_the_same_state() {
    let mut db = DbSet::new();
    let mut mgr = NodeManager::new();
    register(&mut db, &mut mgr, request("n1", "10.0.0.1", 6734, true), 0);
    // both handlers found the registry empty and read the row
    let row = db.select_one("node", Some("n1"), None, None).unwrap();
    let first = mgr.get_or_load_node(&row, decode(&row.value), 5);
    let second = mgr.get_or_load_node(&row, decode(&row.value), 9);
    assert_eq!(first.get_instance(), second.get_instance());
    assert_eq!(second.get_last_heartbeat(), 5);
    assert_eq!(mgr.len(), 1);
    // loading outright makes another materialization
    mgr.load_node(&row, decode(&row.value), 11);
    assert!(mgr.get_node("n1").unwrap().get_instance() != first.get_instance());
}

#[test]
fn listing_reads_online_rows_unless_all() {
    assert_eq!(list_sub_key(false), Some("online"));
    assert_eq!(list_sub_key(true), None);
}

#[test]
fn flips_of_a_sweep_are_written_to_the_store() {
    let mut db = DbSet::new();
    let mut mgr = NodeManager::new();
    register(&mut db, &mut mgr, request("n1", "10.0.0.1", 6734, true), 0);
    register(&mut db, &mut mgr, request("n2", "10.0.0.2", 6734, true), 0);
    lookup(&db, &mut mgr, "n1", 0);
    lookup(&db, &mut mgr, "n2", 10 * SEC);
    let changes = mgr.monitor_nodes(20 * SEC);
    assert_eq!(changes.len(), 1);
    let values: Vec<String> = changes.iter().map(|c| format!("v-{}", c.name)).collect();
    persist_status_changes(&mut db, &changes, &values);
    let online: Vec<String> = select_nodes(&db, false).into_iter().map(|r| r.key).collect();
    assert_eq!(online, vec!["n2"]);
    let all: Vec<(String, String, String)> = select_nodes(&db, true)
        .into_iter()
        .map(|r| (r.key, r.sub_key, r.value))
        .collect();
    assert_eq!(all[0], ("n1".to_string(), "offline".to_string(), "v-n1".to_string()));
    assert_eq!(all[1].1, "online");
    assert!(!mgr.get_node("n1").unwrap().online());
    assert!(mgr.get_node("n2").unwrap().online());
}
