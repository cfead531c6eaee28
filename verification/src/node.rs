//! Node records and the registry that caches them.
//!
//! A node is persisted as one row of the store: module `node`, the node's
//! name as `key`, its liveness as `sub_key`, and the serialized record as
//! `value`. What the registry caches for a node is derived from that row:
//! the name comes from `key` and the status from `sub_key`, whatever the
//! value says.

use vstd::prelude::*;
use vstd::string::*;
use vstd::std_specs::cmp::PartialEqSpecImpl;
use crate::api::req::{RegisterNodeRequest, RegisterNodeRequestView};
use crate::api::resp::{NodeItemResponse, NodeItemResponseView};
use crate::constants::{
    DOCKER_PROXY_PATH,
    HEARTBEAT_TIMEOUT_NANOS,
    MODULE_NODE,
    REKCOD_AGENT_PREFIX_PATH,
};
use crate::kvs::{KvsForDb, KvsView};
use crate::obj::{status_of, NodeStatus};
use crate::text::{append_decimal, decimal, str_eq};

pub mod monitor;

verus! {

/// A node of the fleet.
#[derive(Debug)]
pub struct Node {
    pub name: String,
    pub host_name: String,
    pub ip: String,
    pub port: u16,
    pub token: String,
    pub version: String,
    pub arch: String,
    pub os: String,
    pub os_version: String,
    pub os_kernel: String,
    pub status: bool,
}

/// A node as a mathematical value.
pub struct NodeView {
    pub name: Seq<char>,
    pub host_name: Seq<char>,
    pub ip: Seq<char>,
    pub port: u16,
    pub token: Seq<char>,
    pub version: Seq<char>,
    pub arch: Seq<char>,
    pub os: Seq<char>,
    pub os_version: Seq<char>,
    pub os_kernel: Seq<char>,
    pub status: bool,
}

impl View for Node {
    type V = NodeView;

    open spec fn view(&self) -> NodeView {
        NodeView {
            name: self.name@,
            host_name: self.host_name@,
            ip: self.ip@,
            port: self.port,
            token: self.token@,
            version: self.version@,
            arch: self.arch@,
            os: self.os@,
            os_version: self.os_version@,
            os_kernel: self.os_kernel@,
            status: self.status,
        }
    }
}

impl Clone for Node {
    fn clone(&self) -> (r: Self)
        ensures
            r@ == self@,
    {
        Node {
            name: self.name.clone(),
            host_name: self.host_name.clone(),
            ip: self.ip.clone(),
            port: self.port,
            token: self.token.clone(),
            version: self.version.clone(),
            arch: self.arch.clone(),
            os: self.os.clone(),
            os_version: self.os_version.clone(),
            os_kernel: self.os_kernel.clone(),
            status: self.status,
        }
    }
}

impl PartialEq for Node {
    fn eq(&self, other: &Self) -> (r: bool) {
        self.name == other.name && self.host_name == other.host_name && self.ip == other.ip
            && self.port == other.port && self.token == other.token && self.version
            == other.version && self.arch == other.arch && self.os == other.os && self.os_version
            == other.os_version && self.os_kernel == other.os_kernel && self.status
            == other.status
    }
}

impl PartialEqSpecImpl for Node {
    open spec fn obeys_eq_spec() -> bool {
        true
    }

    open spec fn eq_spec(&self, other: &Self) -> bool {
        self@ == other@
    }
}

impl Default for Node {
    fn default() -> (r: Self)
        ensures
            r@ == (NodeView {
                name: Seq::empty(),
                host_name: Seq::empty(),
                ip: Seq::empty(),
                port: 0,
                token: Seq::empty(),
                version: Seq::empty(),
                arch: Seq::empty(),
                os: Seq::empty(),
                os_version: Seq::empty(),
                os_kernel: Seq::empty(),
                status: false,
            }),
    {
        Node {
            name: String::new(),
            host_name: String::new(),
            ip: String::new(),
            port: 0,
            token: String::new(),
            version: String::new(),
            arch: String::new(),
            os: String::new(),
            os_version: String::new(),
            os_kernel: String::new(),
            status: false,
        }
    }
}

/// The node that a row stands for, given what its value decodes to: the name
/// is the row's `key`, the status is read from its `sub_key`.
pub open spec fn node_from_kvs(kvs: KvsView, decoded: NodeView) -> NodeView {
    NodeView { name: kvs.key, status: status_of(kvs.sub_key) == NodeStatus::Online, ..decoded }
}

/// The node that a registration describes.
pub open spec fn node_from_request(req: RegisterNodeRequestView) -> NodeView {
    NodeView {
        name: req.name,
        host_name: req.host_name,
        ip: req.ip,
        port: req.port,
        token: req.token,
        version: req.version,
        arch: req.arch,
        os: req.os,
        os_version: req.os_version,
        os_kernel: req.os_kernel,
        status: req.status,
    }
}

/// What operators are told of a node: everything but the token.
pub open spec fn node_item(node: NodeView) -> NodeItemResponseView {
    NodeItemResponseView {
        name: node.name,
        host_name: node.host_name,
        ip: node.ip,
        port: node.port,
        version: node.version,
        arch: node.arch,
        os: node.os,
        os_version: node.os_version,
        os_kernel: node.os_kernel,
        status: node.status,
    }
}

/// The `sub_key` of a node that is, or is not, online.
pub open spec fn status_text(online: bool) -> Seq<char> {
    if online {
        "online"@
    } else {
        "offline"@
    }
}

/// The row under which a node is stored, but for its `id`.
pub open spec fn node_row(node: NodeView, value: Seq<char>) -> KvsView {
    KvsView {
        id: 0,
        module: MODULE_NODE@,
        key: node.name,
        sub_key: status_text(node.status),
        third_key: Seq::empty(),
        value,
    }
}

/// `http://<ip>:<port>`.
pub open spec fn node_host(ip: Seq<char>, port: u16) -> Seq<char> {
    "http://"@ + ip + ":"@ + decimal(port as nat)
}

/// The `sub_key` of a node that is, or is not, online.
pub fn status_sub_key(online: bool) -> (r: &'static str)
    ensures
        r@ == status_text(online),
{
    if online {
        "online"
    } else {
        "offline"
    }
}

/// The `sub_key` by which the rows of a listing are selected: every row
/// where all nodes are asked for, else the rows of the nodes that are
/// online.
pub fn list_sub_key(all: bool) -> (r: Option<&'static str>)
    ensures
        match r {
            Some(k) => !all && k@ == status_text(true),
            None => all,
        },
{
    if all {
        None
    } else {
        Some(status_sub_key(true))
    }
}

/// Builds `http://<ip>:<port>`.
pub fn host_url(ip: &str, port: u16) -> (r: String)
    ensures
        r@ == node_host(ip@, port),
{
    let mut r = "http://".to_owned();
    r.append(ip);
    r.append(":");
    append_decimal(&mut r, port as u64);
    r
}

impl Node {
    /// The node that a row stands for. `decoded` is what the row's value
    /// holds; its name and status give way to the row's `key` and `sub_key`.
    pub fn from_kvs(kvs: &KvsForDb, decoded: Node) -> (node: Node)
        ensures
            node@ == node_from_kvs(kvs@, decoded@),
    {
        let mut node = decoded;
        node.name = kvs.key.clone();
        node.status = NodeStatus::from(kvs.sub_key.as_str()).is_online();
        node
    }

    /// The node that a registration describes.
    pub fn from_request(req: RegisterNodeRequest) -> (node: Node)
        ensures
            node@ == node_from_request(req@),
    {
        Node {
            name: req.name,
            host_name: req.host_name,
            ip: req.ip,
            port: req.port,
            token: req.token,
            version: req.version,
            arch: req.arch,
            os: req.os,
            os_version: req.os_version,
            os_kernel: req.os_kernel,
            status: req.status,
        }
    }

    /// What operators are told of this node. The token is left out.
    pub fn into_response(self) -> (item: NodeItemResponse)
        ensures
            item@ == node_item(self@),
    {
        NodeItemResponse {
            name: self.name,
            host_name: self.host_name,
            ip: self.ip,
            port: self.port,
            version: self.version,
            arch: self.arch,
            os: self.os,
            os_version: self.os_version,
            os_kernel: self.os_kernel,
            status: self.status,
        }
    }

    /// This node with another status.
    pub fn with_status(self, status: bool) -> (node: Node)
        ensures
            node@ == (NodeView { status, ..self@ }),
    {
        let mut node = self;
        node.status = status;
        node
    }

    /// The row to store this node under, with `value` as its serialized form.
    pub fn to_kvs(&self, value: &str) -> (row: KvsForDb)
        ensures
            row@ == node_row(self@, value@),
    {
        KvsForDb::new(MODULE_NODE, self.name.as_str(), status_sub_key(self.status), value)
    }
}

/// Where the engine client of a node connects, and how.
#[derive(Debug)]
pub struct EngineTarget {
    /// Base address, `http://<ip>:<port>`.
    pub client_addr: String,
    /// Prefix put before the path of every request.
    pub path_prefix: String,
    /// Seconds after which a control request is given up.
    pub timeout: u64,
}

/// An engine target as a mathematical value.
pub struct EngineTargetView {
    pub client_addr: Seq<char>,
    pub path_prefix: Seq<char>,
    pub timeout: u64,
}

impl View for EngineTarget {
    type V = EngineTargetView;

    open spec fn view(&self) -> EngineTargetView {
        EngineTargetView {
            client_addr: self.client_addr@,
            path_prefix: self.path_prefix@,
            timeout: self.timeout,
        }
    }
}

/// Seconds after which a control request to an engine is given up.
pub const ENGINE_TIMEOUT_SECS: u64 = 40;

/// The engine target of the node at `ip` and `port`.
pub open spec fn engine_target(ip: Seq<char>, port: u16) -> EngineTargetView {
    EngineTargetView {
        client_addr: node_host(ip, port),
        path_prefix: DOCKER_PROXY_PATH@,
        timeout: ENGINE_TIMEOUT_SECS,
    }
}

/// What the registry holds for one node.
#[derive(Debug)]
pub struct NodeState {
    pub node: Node,
    /// Where this node's engine client connects.
    pub docker: EngineTarget,
    last_heartbeat: u64,
    instance: u64,
}

/// A node state as a mathematical value.
pub struct NodeStateView {
    pub node: NodeView,
    pub docker: EngineTargetView,
    /// Nanoseconds on the registry's clock at which the node was last heard of.
    pub last_heartbeat: u64,
    /// Tells one materialization of a node from another.
    pub instance: u64,
}

impl View for NodeState {
    type V = NodeStateView;

    closed spec fn view(&self) -> NodeStateView {
        NodeStateView {
            node: self.node@,
            docker: self.docker@,
            last_heartbeat: self.last_heartbeat,
            instance: self.instance,
        }
    }
}

/// The state that a row materializes to at time `now`.
pub open spec fn created_state(
    kvs: KvsView,
    decoded: NodeView,
    now: u64,
    instance: u64,
) -> NodeStateView {
    NodeStateView {
        node: node_from_kvs(kvs, decoded),
        docker: engine_target(decoded.ip, decoded.port),
        last_heartbeat: now,
        instance,
    }
}

/// Nanoseconds from `last` to `now`; none where `last` is the later one.
pub open spec fn elapsed(now: u64, last: u64) -> int {
    if now >= last {
        now - last
    } else {
        0
    }
}

/// Whether a node last heard of at `last` counts as alive at `now`.
pub open spec fn alive(now: u64, last: u64) -> bool {
    elapsed(now, last) <= HEARTBEAT_TIMEOUT_NANOS
}

/// Whether a node last heard of at `last` counts as alive at `now`: it does
/// until more than the timeout has passed.
pub fn is_alive(now: u64, last: u64) -> (r: bool)
    ensures
        r == alive(now, last),
{
    let since = if now >= last {
        now - last
    } else {
        0
    };
    since <= HEARTBEAT_TIMEOUT_NANOS
}

impl NodeState {
    /// Materializes the state of the node that a row stands for.
    pub fn create(kvs: &KvsForDb, decoded: Node, now: u64, instance: u64) -> (state: NodeState)
        ensures
            state@ == created_state(kvs@, decoded@, now, instance),
    {
        let client_addr = host_url(decoded.ip.as_str(), decoded.port);
        let node = Node::from_kvs(kvs, decoded);
        NodeState {
            node,
            docker: EngineTarget {
                client_addr,
                path_prefix: DOCKER_PROXY_PATH.to_owned(),
                timeout: ENGINE_TIMEOUT_SECS,
            },
            last_heartbeat: now,
            instance,
        }
    }

    /// The node's record.
    pub fn get_node(&self) -> (r: &Node)
        ensures
            r@ == self@.node,
    {
        &self.node
    }

    /// The node's name.
    pub fn get_node_name(&self) -> (r: &str)
        ensures
            r@ == self@.node.name,
    {
        self.node.name.as_str()
    }

    /// Where the node's engine client connects.
    pub fn get_docker(&self) -> (r: &EngineTarget)
        ensures
            r@ == self@.docker,
    {
        &self.docker
    }

    pub fn get_node_ip(&self) -> (r: &str)
        ensures
            r@ == self@.node.ip,
    {
        self.node.ip.as_str()
    }

    pub fn get_node_port(&self) -> (r: u16)
        ensures
            r == self@.node.port,
    {
        self.node.port
    }

    /// When the node was last heard of.
    pub fn get_last_heartbeat(&self) -> (r: u64)
        ensures
            r == self@.last_heartbeat,
    {
        self.last_heartbeat
    }

    /// Which materialization of the node this is.
    pub fn get_instance(&self) -> (r: u64)
        ensures
            r == self@.instance,
    {
        self.instance
    }

    /// Whether the node counts as online.
    pub fn online(&self) -> (r: bool)
        ensures
            r == self@.node.status,
    {
        self.node.status
    }

    /// Notes that the node was heard of at `now`.
    pub fn refresh_heartbeat(&mut self, now: u64)
        ensures
            final(self)@ == (NodeStateView { last_heartbeat: now, ..old(self)@ }),
    {
        self.last_heartbeat = now;
    }

    /// `http://<ip>:<port>` of the node's agent.
    pub fn get_node_host(&self) -> (r: String)
        ensures
            r@ == node_host(self@.node.ip, self@.node.port),
    {
        host_url(self.node.ip.as_str(), self.node.port)
    }

    /// Base address of the agent's own endpoints.
    pub fn get_node_agent(&self) -> (r: String)
        ensures
            r@ == node_host(self@.node.ip, self@.node.port) + REKCOD_AGENT_PREFIX_PATH@,
    {
        let mut r = self.get_node_host();
        r.append(REKCOD_AGENT_PREFIX_PATH);
        r
    }
}

impl Clone for EngineTarget {
    fn clone(&self) -> (r: Self)
        ensures
            r@ == self@,
    {
        EngineTarget {
            client_addr: self.client_addr.clone(),
            path_prefix: self.path_prefix.clone(),
            timeout: self.timeout,
        }
    }
}

impl Clone for NodeState {
    fn clone(&self) -> (r: Self)
        ensures
            r@ == self@,
    {
        NodeState {
            node: self.node.clone(),
            docker: self.docker.clone(),
            last_heartbeat: self.last_heartbeat,
            instance: self.instance,
        }
    }
}

/// A flip of one node's status that the liveness sweep asks to persist.
#[derive(Debug)]
pub struct StatusChange {
    pub name: String,
    /// The node's new status.
    pub online: bool,
}

/// A status change as a mathematical value.
pub struct StatusChangeView {
    pub name: Seq<char>,
    pub online: bool,
}

impl View for StatusChange {
    type V = StatusChangeView;

    open spec fn view(&self) -> StatusChangeView {
        StatusChangeView { name: self.name@, online: self.online }
    }
}

/// What a registration asks of the store.
#[derive(Debug)]
pub enum RegisterAction {
    /// The node is known as described: nothing is written.
    Unchanged,
    /// The node is known and differs: its row is rewritten from this record.
    Update(Node),
    /// The node is new: this record is inserted.
    Insert(Node),
}

/// A register action as a mathematical value.
pub enum RegisterActionView {
    Unchanged,
    Update(NodeView),
    Insert(NodeView),
}

impl View for RegisterAction {
    type V = RegisterActionView;

    open spec fn view(&self) -> RegisterActionView {
        match self {
            RegisterAction::Unchanged => RegisterActionView::Unchanged,
            RegisterAction::Update(n) => RegisterActionView::Update(n@),
            RegisterAction::Insert(n) => RegisterActionView::Insert(n@),
        }
    }
}

/// What a registration asks of the store, given what is known of the node.
pub open spec fn register_action(
    known: Option<NodeView>,
    req: RegisterNodeRequestView,
) -> RegisterActionView {
    match known {
        Some(node) => if node == node_from_request(req) {
            RegisterActionView::Unchanged
        } else {
            RegisterActionView::Update(node_from_request(req))
        },
        None => RegisterActionView::Insert(node_from_request(req)),
    }
}

/// Decides what a registration asks of the store. `known` is the node as the
/// registry, or else the store, has it.
pub fn register_node(known: Option<&Node>, req: RegisterNodeRequest) -> (action: RegisterAction)
    ensures
        action@ == register_action(
            match known {
                Some(n) => Some(n@),
                None => None,
            },
            req@,
        ),
{
    let reg_node = Node::from_request(req);
    match known {
        Some(node) => {
            if *node == reg_node {
                RegisterAction::Unchanged
            } else {
                RegisterAction::Update(reg_node)
            }
        },
        None => RegisterAction::Insert(reg_node),
    }
}

/// The views of a vector of node states.
pub open spec fn state_views(v: Seq<NodeState>) -> Seq<NodeStateView> {
    v.map_values(|s: NodeState| s@)
}

/// The views of rows paired with what their values decode to.
pub open spec fn pair_views(v: Seq<(KvsForDb, Node)>) -> Seq<(KvsView, NodeView)> {
    v.map_values(|p: (KvsForDb, Node)| (p.0@, p.1@))
}

/// Whether position `i` holds the state of the node `name`.
pub open spec fn named(states: Seq<NodeStateView>, name: Seq<char>, i: int) -> bool {
    0 <= i < states.len() && states[i].node.name == name
}

/// Whether the node `name` has a state.
pub open spec fn holds(states: Seq<NodeStateView>, name: Seq<char>) -> bool {
    exists|i: int| named(states, name, i)
}

/// A position of the node `name`.
pub open spec fn index_of(states: Seq<NodeStateView>, name: Seq<char>) -> int {
    choose|i: int| named(states, name, i)
}

/// The state of the node `name`, if it has one.
pub open spec fn cached(states: Seq<NodeStateView>, name: Seq<char>) -> Option<NodeStateView> {
    if holds(states, name) {
        Some(states[index_of(states, name)])
    } else {
        None
    }
}

/// No two states are of the same node.
pub open spec fn unique_names(states: Seq<NodeStateView>) -> bool {
    forall|i: int, j: int|
        0 <= i < j < states.len() ==> (#[trigger] states[i]).node.name != (
        #[trigger] states[j]).node.name
}

/// No two states are the same materialization, and each is older than `next`.
pub open spec fn unique_instances(states: Seq<NodeStateView>, next: int) -> bool {
    &&& forall|i: int| 0 <= i < states.len() ==> (#[trigger] states[i]).instance < next
    &&& forall|i: int, j: int|
        0 <= i < j < states.len() ==> (#[trigger] states[i]).instance != (
        #[trigger] states[j]).instance
}

/// The states without that of the node `name`.
pub open spec fn without(states: Seq<NodeStateView>, name: Seq<char>) -> Seq<NodeStateView> {
    if holds(states, name) {
        states.remove(index_of(states, name))
    } else {
        states
    }
}

/// `s` heard of at `now`.
pub open spec fn heard(s: NodeStateView, now: u64) -> NodeStateView {
    NodeStateView { last_heartbeat: now, ..s }
}

/// `s` with another status.
pub open spec fn with_status(s: NodeStateView, online: bool) -> NodeStateView {
    NodeStateView { node: NodeView { status: online, ..s.node }, ..s }
}

/// `s` with another node record.
pub open spec fn with_node(s: NodeStateView, node: NodeView) -> NodeStateView {
    NodeStateView { node, ..s }
}

/// The states after the node `name` was heard of at `now`.
pub open spec fn refreshed(states: Seq<NodeStateView>, name: Seq<char>, now: u64) -> Seq<
    NodeStateView,
> {
    states.map_values(
        |s: NodeStateView|
            if s.node.name == name {
                heard(s, now)
            } else {
                s
            },
    )
}

/// The states after the node `name` was given a status.
pub open spec fn status_set(states: Seq<NodeStateView>, name: Seq<char>, online: bool) -> Seq<
    NodeStateView,
> {
    states.map_values(
        |s: NodeStateView|
            if s.node.name == name {
                with_status(s, online)
            } else {
                s
            },
    )
}

/// The states after a sweep at `now`: each node is online exactly if it is
/// alive.
pub open spec fn swept(states: Seq<NodeStateView>, now: u64) -> Seq<NodeStateView> {
    states.map_values(|s: NodeStateView| with_status(s, alive(now, s.last_heartbeat)))
}

/// The flips that a sweep at `now` makes, in the order of the states.
pub open spec fn status_changes(states: Seq<NodeStateView>, now: u64) -> Seq<StatusChangeView>
    decreases states.len(),
{
    if states.len() == 0 {
        Seq::empty()
    } else {
        let rest = status_changes(states.drop_last(), now);
        let s = states.last();
        if s.node.status != alive(now, s.last_heartbeat) {
            rest.push(StatusChangeView { name: s.node.name, online: alive(now, s.last_heartbeat) })
        } else {
            rest
        }
    }
}

/// The views of a vector of status changes.
pub open spec fn change_views(v: Seq<StatusChange>) -> Seq<StatusChangeView> {
    v.map_values(|c: StatusChange| c@)
}

/// The states, and the next instance, after one row was reconciled: a node
/// that has a state takes the record of the row and keeps the rest; another
/// is materialized.
pub open spec fn reconciled_one(
    states: Seq<NodeStateView>,
    next: int,
    kv: KvsView,
    decoded: NodeView,
    now: u64,
) -> (Seq<NodeStateView>, int) {
    if holds(states, kv.key) {
        let i = index_of(states, kv.key);
        (states.update(i, with_node(states[i], node_from_kvs(kv, decoded))), next)
    } else {
        (states.push(created_state(kv, decoded, now, next as u64)), next + 1)
    }
}

/// The states, and the next instance, after the rows were reconciled one
/// after the other.
pub open spec fn reconciled(
    states: Seq<NodeStateView>,
    next: int,
    rows: Seq<(KvsView, NodeView)>,
    now: u64,
) -> (Seq<NodeStateView>, int)
    decreases rows.len(),
{
    if rows.len() == 0 {
        (states, next)
    } else {
        let before = reconciled(states, next, rows.drop_last(), now);
        reconciled_one(before.0, before.1, rows.last().0, rows.last().1, now)
    }
}

/// The registry: at most one state for each node name.
pub struct NodeManager {
    nodes: Vec<NodeState>,
    next_instance: u64,
}

impl View for NodeManager {
    type V = Seq<NodeStateView>;

    closed spec fn view(&self) -> Seq<NodeStateView> {
        state_views(self.nodes@)
    }
}

impl NodeManager {
    /// The instance that the next materialized state gets.
    pub closed spec fn next_instance(&self) -> int {
        self.next_instance as int
    }

    /// The invariant of the registry.
    pub open spec fn wf(&self) -> bool {
        &&& unique_names(self@)
        &&& unique_instances(self@, self.next_instance())
        &&& 0 <= self.next_instance() <= u64::MAX
    }

    /// An empty registry.
    pub fn new() -> (m: NodeManager)
        ensures
            m.wf(),
            m@ == Seq::<NodeStateView>::empty(),
            m.next_instance() == 0,
    {
        let m = NodeManager { nodes: Vec::new(), next_instance: 0 };
        assert(m@ =~= Seq::<NodeStateView>::empty());
        m
    }

    /// How many nodes have a state.
    pub fn len(&self) -> (n: usize)
        ensures
            n == self@.len(),
    {
        self.nodes.len()
    }

    /// Whether `n` more states can be materialized.
    pub fn can_materialize(&self, n: usize) -> (r: bool)
        ensures
            r == (self.next_instance() + n <= u64::MAX),
    {
        n as u128 + self.next_instance as u128 <= u64::MAX as u128
    }

    fn position(&self, name: &str) -> (r: Option<usize>)
        ensures
            match r {
                Some(i) => named(self@, name@, i as int),
                None => !holds(self@, name@),
            },
    {
        let mut i: usize = 0;
        while i < self.nodes.len()
            invariant
                i <= self.nodes.len(),
                forall|j: int| 0 <= j < i ==> !named(self@, name@, j),
            decreases self.nodes.len() - i,
        {
            if str_eq(name, self.nodes[i].node.name.as_str()) {
                return Some(i);
            }
            i += 1;
        }
        None
    }

    /// The state of the node `name`, if the registry holds one.
    pub fn get_node(&self, name: &str) -> (r: Option<&NodeState>)
        requires
            self.wf(),
        ensures
            match r {
                Some(s) => cached(self@, name@) == Some(s@),
                None => cached(self@, name@) is None,
            },
    {
        match self.position(name) {
            Some(i) => {
                proof {
                    lemma_index_of(self@, name@, i as int);
                }
                Some(&self.nodes[i])
            },
            None => None,
        }
    }

    /// Drops the state of the node `name`. The store is not touched.
    pub fn delete_node(&mut self, node_name: &str)
        requires
            old(self).wf(),
        ensures
            final(self).wf(),
            final(self)@ == without(old(self)@, node_name@),
            final(self).next_instance() == old(self).next_instance(),
    {
        match self.position(node_name) {
            Some(i) => {
                proof {
                    lemma_index_of(self@, node_name@, i as int);
                }
                let _gone = self.nodes.remove(i);
                proof {
                    assert(self@ =~= old(self)@.remove(i as int));
                }
            },
            None => {},
        }
    }

    /// Drops every state.
    pub fn clear(&mut self)
        requires
            old(self).wf(),
        ensures
            final(self).wf(),
            final(self)@ == Seq::<NodeStateView>::empty(),
            final(self).next_instance() == old(self).next_instance(),
    {
        self.nodes = Vec::new();
        assert(self@ =~= Seq::<NodeStateView>::empty());
    }

    /// Materializes the node that a row stands for and holds it from now on,
    /// in place of any state that its name had. `decoded` is what the row's
    /// value holds.
    pub fn load_node(&mut self, kvs: &KvsForDb, decoded: Node, now: u64)
        requires
            old(self).wf(),
            old(self).next_instance() < u64::MAX,
        ensures
            final(self).wf(),
            final(self)@ == without(old(self)@, kvs@.key).push(
                created_state(kvs@, decoded@, now, old(self).next_instance() as u64),
            ),
            final(self).next_instance() == old(self).next_instance() + 1,
    {
        self.delete_node(kvs.key.as_str());
        let ghost mid = self@;
        proof {
            lemma_without_drops(old(self)@, kvs@.key);
        }
        let state = NodeState::create(kvs, decoded, now, self.next_instance);
        self.nodes.push(state);
        self.next_instance = self.next_instance + 1;
        proof {
            assert(self@ =~= mid.push(state@));
            assert forall|i: int, j: int| 0 <= i < j < self@.len() implies (#[trigger] self@[i]).node.name
                != (#[trigger] self@[j]).node.name by {
                if j == mid.len() {
                    assert(!named(mid, kvs@.key, i));
                }
            }
        }
    }

    /// The state of the node that a row stands for: the state that the
    /// registry holds for it, which stays as it is, or else a state that is
    /// materialized from the row and held from now on. `decoded` is what the
    /// row's value holds. Two callers that both found the node missing and
    /// both read its row get the same state: the second finds what the first
    /// materialized.
    pub fn get_or_load_node(&mut self, kvs: &KvsForDb, decoded: Node, now: u64) -> (state:
        NodeState)
        requires
            old(self).wf(),
            old(self).next_instance() < u64::MAX,
        ensures
            final(self).wf(),
            cached(final(self)@, kvs@.key) == Some(state@),
            match cached(old(self)@, kvs@.key) {
                Some(held) => {
                    &&& state@ == held
                    &&& final(self)@ == old(self)@
                    &&& final(self).next_instance() == old(self).next_instance()
                },
                None => {
                    &&& state@ == created_state(
                        kvs@,
                        decoded@,
                        now,
                        old(self).next_instance() as u64,
                    )
                    &&& final(self)@ == old(self)@.push(state@)
                    &&& final(self).next_instance() == old(self).next_instance() + 1
                },
            },
    {
        match self.position(kvs.key.as_str()) {
            Some(i) => {
                proof {
                    lemma_index_of(self@, kvs@.key, i as int);
                }
                self.nodes[i].clone()
            },
            None => {
                let ghost before = self@;
                let state = NodeState::create(kvs, decoded, now, self.next_instance);
                let copy = state.clone();
                self.nodes.push(state);
                self.next_instance = self.next_instance + 1;
                proof {
                    assert(self@ =~= before.push(copy@));
                    assert forall|a: int, b: int| 0 <= a < b < self@.len() implies (
                    #[trigger] self@[a]).node.name != (#[trigger] self@[b]).node.name by {
                        if b == before.len() {
                            assert(!named(before, kvs@.key, a));
                        }
                    }
                    lemma_index_of(self@, kvs@.key, before.len() as int);
                }
                copy
            },
        }
    }

    /// Notes that the node `name` was heard of at `now`. Nothing happens where
    /// the registry holds no state for it.
    pub fn refresh_node_heartbeat(&mut self, node_name: &str, now: u64)
        requires
            old(self).wf(),
        ensures
            final(self).wf(),
            final(self)@ == refreshed(old(self)@, node_name@, now),
            final(self).next_instance() == old(self).next_instance(),
    {
        match self.position(node_name) {
            Some(i) => {
                let mut state = self.nodes[i].clone();
                state.refresh_heartbeat(now);
                self.nodes.set(i, state);
                proof {
                    assert forall|j: int| 0 <= j < old(self)@.len() && j != i implies (
                    #[trigger] old(self)@[j]).node.name != node_name@ by {
                        if j < i {
                            assert(old(self)@[j].node.name != old(self)@[i as int].node.name);
                        } else {
                            assert(old(self)@[i as int].node.name != old(self)@[j].node.name);
                        }
                    }
                    assert(self@ =~= refreshed(old(self)@, node_name@, now));
                }
            },
            None => {
                proof {
                    assert forall|j: int| 0 <= j < old(self)@.len() implies (
                    #[trigger] old(self)@[j]).node.name != node_name@ by {
                        assert(!named(old(self)@, node_name@, j));
                    }
                    assert(self@ =~= refreshed(old(self)@, node_name@, now));
                }
            },
        }
    }

    /// Gives the node `name` a status. Nothing happens where the registry
    /// holds no state for it.
    pub fn set_node_status(&mut self, node_name: &str, online: bool)
        requires
            old(self).wf(),
        ensures
            final(self).wf(),
            final(self)@ == status_set(old(self)@, node_name@, online),
            final(self).next_instance() == old(self).next_instance(),
    {
        match self.position(node_name) {
            Some(i) => {
                let mut state = self.nodes[i].clone();
                state.node.status = online;
                self.nodes.set(i, state);
                proof {
                    assert forall|j: int| 0 <= j < old(self)@.len() && j != i implies (
                    #[trigger] old(self)@[j]).node.name != node_name@ by {
                        if j < i {
                            assert(old(self)@[j].node.name != old(self)@[i as int].node.name);
                        } else {
                            assert(old(self)@[i as int].node.name != old(self)@[j].node.name);
                        }
                    }
                    assert(self@ =~= status_set(old(self)@, node_name@, online));
                }
            },
            None => {
                proof {
                    assert forall|j: int| 0 <= j < old(self)@.len() implies (
                    #[trigger] old(self)@[j]).node.name != node_name@ by {
                        assert(!named(old(self)@, node_name@, j));
                    }
                    assert(self@ =~= status_set(old(self)@, node_name@, online));
                }
            },
        }
    }
}

impl NodeManager {
    /// The flips that a sweep at `now` would make, in the order of the states.
    /// The registry is left as it is.
    pub fn pending_status_changes(&self, now: u64) -> (changes: Vec<StatusChange>)
        ensures
            change_views(changes@) == status_changes(self@, now),
    {
        let mut changes: Vec<StatusChange> = Vec::new();
        let mut i: usize = 0;
        proof {
            assert(self@.take(0) =~= Seq::<NodeStateView>::empty());
            assert(change_views(changes@) =~= status_changes(self@.take(0), now));
        }
        while i < self.nodes.len()
            invariant
                i <= self.nodes.len(),
                change_views(changes@) == status_changes(self@.take(i as int), now),
            decreases self.nodes.len() - i,
        {
            let state = &self.nodes[i];
            let up = is_alive(now, state.last_heartbeat);
            proof {
                assert(self@.take(i as int + 1).drop_last() =~= self@.take(i as int));
                assert(self@.take(i as int + 1).last() == self@[i as int]);
            }
            if state.node.status != up {
                let ghost before = change_views(changes@);
                changes.push(StatusChange { name: state.node.name.clone(), online: up });
                proof {
                    assert(change_views(changes@) =~= before.push(
                        StatusChangeView { name: self@[i as int].node.name, online: up },
                    ));
                }
            }
            i += 1;
        }
        proof {
            assert(self@.take(i as int) =~= self@);
        }
        changes
    }

    /// The liveness sweep at `now`: every node that was last heard of more
    /// than the timeout ago goes offline, every other node online. Returns
    /// the flips, which are to be persisted.
    pub fn monitor_nodes(&mut self, now: u64) -> (changes: Vec<StatusChange>)
        requires
            old(self).wf(),
        ensures
            final(self).wf(),
            final(self)@ == swept(old(self)@, now),
            change_views(changes@) == status_changes(old(self)@, now),
            final(self).next_instance() == old(self).next_instance(),
    {
        let changes = self.pending_status_changes(now);
        let mut i: usize = 0;
        while i < self.nodes.len()
            invariant
                i <= self.nodes.len(),
                self.nodes.len() == old(self).nodes.len(),
                self.next_instance == old(self).next_instance,
                forall|j: int|
                    i <= j < self.nodes.len() ==> (#[trigger] self.nodes@[j])@ == old(self)@[j],
                forall|j: int|
                    0 <= j < i ==> (#[trigger] self.nodes@[j])@ == swept(old(self)@, now)[j],
            decreases self.nodes.len() - i,
        {
            let up = is_alive(now, self.nodes[i].last_heartbeat);
            if self.nodes[i].node.status != up {
                let mut state = self.nodes[i].clone();
                state.node.status = up;
                self.nodes.set(i, state);
            }
            i += 1;
        }
        proof {
            assert(self@ =~= swept(old(self)@, now));
        }
        changes
    }

    /// A registration of a node, as far as the registry goes. The registry
    /// must hold what the store has of the node, if anything. A node that is
    /// known as described is noted as heard of; one that is new or differs
    /// loses its state, so that the next lookup reads the row that the
    /// returned action asks to write.
    pub fn register(&mut self, req: RegisterNodeRequest, now: u64) -> (action: RegisterAction)
        requires
            old(self).wf(),
        ensures
            final(self).wf(),
            final(self).next_instance() == old(self).next_instance(),
            action@ == register_action(
                match cached(old(self)@, req@.name) {
                    Some(s) => Some(s.node),
                    None => None,
                },
                req@,
            ),
            final(self)@ == (match action@ {
                RegisterActionView::Unchanged => refreshed(old(self)@, req@.name, now),
                _ => without(old(self)@, req@.name),
            }),
    {
        let name = req.name.clone();
        let action = match self.get_node(name.as_str()) {
            Some(state) => register_node(Some(&state.node), req),
            None => register_node(None, req),
        };
        match &action {
            RegisterAction::Unchanged => {
                self.refresh_node_heartbeat(name.as_str(), now);
            },
            _ => {
                self.delete_node(name.as_str());
            },
        }
        action
    }

    /// Reconciles the registry with the rows that the store returned, each
    /// with what its value decodes to. With no rows the registry is emptied.
    /// Otherwise each row's node takes the row's record and keeps its
    /// heartbeat and instance, or is materialized where it had no state.
    /// Returns, row by row, the state that the row's node then had.
    pub fn get_all_nodes(&mut self, db_node: Vec<(KvsForDb, Node)>, now: u64) -> (r: Vec<
        NodeState,
    >)
        requires
            old(self).wf(),
            old(self).next_instance() + db_node@.len() <= u64::MAX,
        ensures
            final(self).wf(),
            r@.len() == db_node@.len(),
            db_node@.len() == 0 ==> final(self)@ == Seq::<NodeStateView>::empty()
                && final(self).next_instance() == old(self).next_instance(),
            db_node@.len() > 0 ==> (final(self)@, final(self).next_instance()) == reconciled(
                old(self)@,
                old(self).next_instance(),
                pair_views(db_node@),
                now,
            ),
            forall|k: int|
                0 <= k < r@.len() ==> cached(
                    reconciled(
                        old(self)@,
                        old(self).next_instance(),
                        pair_views(db_node@).take(k + 1),
                        now,
                    ).0,
                    db_node@[k].0@.key,
                ) == Some((#[trigger] r@[k])@),
            forall|k: int|
                0 <= k < r@.len() ==> (#[trigger] r@[k])@.node == node_from_kvs(
                    db_node@[k].0@,
                    db_node@[k].1@,
                ),
    {
        let mut out: Vec<NodeState> = Vec::new();
        if db_node.len() == 0 {
            self.clear();
            return out;
        }
        let ghost rows = pair_views(db_node@);
        let mut i: usize = 0;
        while i < db_node.len()
            invariant
                i <= db_node.len(),
                self.wf(),
                rows == pair_views(db_node@),
                old(self).next_instance() + db_node@.len() <= u64::MAX,
                self.next_instance() <= old(self).next_instance() + i,
                (self@, self.next_instance()) == reconciled(
                    old(self)@,
                    old(self).next_instance(),
                    rows.take(i as int),
                    now,
                ),
                out@.len() == i,
                forall|k: int|
                    0 <= k < i ==> cached(
                        reconciled(
                            old(self)@,
                            old(self).next_instance(),
                            rows.take(k + 1),
                            now,
                        ).0,
                        db_node@[k].0@.key,
                    ) == Some((#[trigger] out@[k])@),
                forall|k: int|
                    0 <= k < i ==> (#[trigger] out@[k])@.node == node_from_kvs(
                        db_node@[k].0@,
                        db_node@[k].1@,
                    ),
            decreases db_node.len() - i,
        {
            let kv = &db_node[i].0;
            let decoded = db_node[i].1.clone();
            let ghost before = self@;
            let ghost next = self.next_instance();
            proof {
                assert(rows.take(i as int + 1).drop_last() =~= rows.take(i as int));
                assert(rows.take(i as int + 1).last() == rows[i as int]);
                assert(rows[i as int] == (kv@, decoded@));
            }
            match self.position(kv.key.as_str()) {
                Some(p) => {
                    proof {
                        lemma_index_of(self@, kv@.key, p as int);
                    }
                    let mut state = self.nodes[p].clone();
                    state.node = Node::from_kvs(kv, decoded);
                    out.push(state.clone());
                    self.nodes.set(p, state);
                    proof {
                        assert(self@ =~= before.update(
                            p as int,
                            with_node(before[p as int], node_from_kvs(kv@, decoded@)),
                        ));
                        lemma_update_keeps_wf(before, next, p as int, node_from_kvs(kv@, decoded@));
                        lemma_index_of(self@, kv@.key, p as int);
                    }
                },
                None => {
                    let state = NodeState::create(kv, decoded, now, self.next_instance);
                    out.push(state.clone());
                    self.nodes.push(state);
                    self.next_instance = self.next_instance + 1;
                    proof {
                        assert(self@ =~= before.push(
                            created_state(kv@, decoded@, now, next as u64),
                        ));
                        assert forall|a: int, b: int| 0 <= a < b < self@.len() implies (
                        #[trigger] self@[a]).node.name != (#[trigger] self@[b]).node.name by {
                            if b == before.len() {
                                assert(!named(before, kv@.key, a));
                            }
                        }
                        lemma_index_of(self@, kv@.key, before.len() as int);
                    }
                },
            }
            i += 1;
        }
        proof {
            assert(rows.take(i as int) =~= rows);
        }
        out
    }
}

/// Giving a state another record of the same name keeps the registry's
/// invariant.
pub proof fn lemma_update_keeps_wf(states: Seq<NodeStateView>, next: int, i: int, node: NodeView)
    requires
        unique_names(states),
        unique_instances(states, next),
        0 <= i < states.len(),
        node.name == states[i].node.name,
    ensures
        unique_names(states.update(i, with_node(states[i], node))),
        unique_instances(states.update(i, with_node(states[i], node)), next),
{
    let after = states.update(i, with_node(states[i], node));
    assert forall|a: int, b: int| 0 <= a < b < after.len() implies (#[trigger] after[a]).node.name
        != (#[trigger] after[b]).node.name by {
        assert(states[a].node.name != states[b].node.name);
    }
    assert forall|a: int| 0 <= a < after.len() implies (#[trigger] after[a]).instance < next by {
        assert(states[a].instance < next);
    }
    assert forall|a: int, b: int| 0 <= a < b < after.len() implies (#[trigger] after[a]).instance
        != (#[trigger] after[b]).instance by {
        assert(states[a].instance != states[b].instance);
    }
}

/// Under unique names a node has one position only.
pub proof fn lemma_index_of(states: Seq<NodeStateView>, name: Seq<char>, i: int)
    requires
        unique_names(states),
        named(states, name, i),
    ensures
        holds(states, name),
        index_of(states, name) == i,
{
    let k = index_of(states, name);
    assert(named(states, name, k));
    if k < i {
        assert(states[k].node.name != states[i].node.name);
    } else if i < k {
        assert(states[i].node.name != states[k].node.name);
    }
}

/// Without the state of a node, the node has no state; names and instances
/// stay unique.
pub proof fn lemma_without_drops(states: Seq<NodeStateView>, name: Seq<char>)
    requires
        unique_names(states),
    ensures
        !holds(without(states, name), name),
        unique_names(without(states, name)),
        forall|next: int|
            unique_instances(states, next) ==> unique_instances(
                #[trigger] without(states, name),
                next,
            ),
{
    let after = without(states, name);
    if holds(states, name) {
        let i = index_of(states, name);
        assert(named(states, name, i));
        assert forall|k: int| !named(after, name, k) by {
            if 0 <= k < after.len() {
                if k < i {
                    assert(after[k] == states[k]);
                    assert(states[k].node.name != states[i].node.name);
                } else {
                    assert(after[k] == states[k + 1]);
                    assert(states[i].node.name != states[k + 1].node.name);
                }
            }
        }
        assert forall|a: int, b: int| 0 <= a < b < after.len() implies (#[trigger] after[a]).node.name
            != (#[trigger] after[b]).node.name by {
            let a2 = if a < i { a } else { a + 1 };
            let b2 = if b < i { b } else { b + 1 };
            assert(after[a] == states[a2]);
            assert(after[b] == states[b2]);
        }
        assert forall|next: int| unique_instances(states, next) implies unique_instances(
            #[trigger] without(states, name),
            next,
        ) by {
            assert forall|a: int| 0 <= a < after.len() implies (#[trigger] after[a]).instance
                < next by {
                let a2 = if a < i { a } else { a + 1 };
                assert(after[a] == states[a2]);
            }
            assert forall|a: int, b: int| 0 <= a < b < after.len() implies (
            #[trigger] after[a]).instance != (#[trigger] after[b]).instance by {
                let a2 = if a < i { a } else { a + 1 };
                let b2 = if b < i { b } else { b + 1 };
                assert(after[a] == states[a2]);
                assert(after[b] == states[b2]);
            }
        }
    }
}

/// Hearing of a node, sweeping and setting a status leave every state the
/// materialization that it was: a lookup gives the same instance before and
/// after.
pub proof fn lemma_instance_is_stable(
    states: Seq<NodeStateView>,
    name: Seq<char>,
    other: Seq<char>,
    now: u64,
    online: bool,
)
    requires
        unique_names(states),
        holds(states, name),
    ensures
        cached(refreshed(states, other, now), name) is Some,
        cached(refreshed(states, other, now), name)->Some_0.instance == cached(
            states,
            name,
        )->Some_0.instance,
        cached(swept(states, now), name) is Some,
        cached(swept(states, now), name)->Some_0.instance == cached(states, name)->Some_0.instance,
        cached(status_set(states, other, online), name) is Some,
        cached(status_set(states, other, online), name)->Some_0.instance == cached(
            states,
            name,
        )->Some_0.instance,
{
    let i = index_of(states, name);
    assert(named(states, name, i));
    let a = refreshed(states, other, now);
    let b = swept(states, now);
    let c = status_set(states, other, online);
    assert(named(a, name, i));
    assert(named(b, name, i));
    assert(named(c, name, i));
    assert forall|x: int, y: int| 0 <= x < y < states.len() implies (#[trigger] a[x]).node.name != (
    #[trigger] a[y]).node.name by {
        assert(states[x].node.name != states[y].node.name);
    }
    assert forall|x: int, y: int| 0 <= x < y < states.len() implies (#[trigger] b[x]).node.name != (
    #[trigger] b[y]).node.name by {
        assert(states[x].node.name != states[y].node.name);
    }
    assert forall|x: int, y: int| 0 <= x < y < states.len() implies (#[trigger] c[x]).node.name != (
    #[trigger] c[y]).node.name by {
        assert(states[x].node.name != states[y].node.name);
    }
    lemma_index_of(a, name, i);
    lemma_index_of(b, name, i);
    lemma_index_of(c, name, i);
}

/// A state that is materialized after the node's state was dropped is
/// another materialization than any that the registry held before.
pub proof fn lemma_rematerialized_is_new(
    states: Seq<NodeStateView>,
    next: int,
    kvs: KvsView,
    decoded: NodeView,
    now: u64,
    i: int,
)
    requires
        unique_instances(states, next),
        0 <= next <= u64::MAX,
        0 <= i < states.len(),
    ensures
        created_state(kvs, decoded, now, next as u64).instance != states[i].instance,
{
}

/// The row that a node is stored under gives the node back: its name as
/// key, its status as `sub_key`.
pub proof fn lemma_node_row_round_trip(node: NodeView, value: Seq<char>)
    ensures
        node_from_kvs(node_row(node, value), node) == node,
{
    reveal_strlit("online");
    reveal_strlit("offline");
    assert("online"@.len() == 6 && "offline"@.len() == 7);
}

/// Registering a node a second time with the same attributes asks nothing
/// of the store and leaves the registry's state of the node in place: once
/// the first registration is stored and read back, the second finds the
/// node as described.
pub proof fn lemma_register_twice(req: RegisterNodeRequestView, value: Seq<char>)
    ensures
        register_action(
            Some(node_from_kvs(node_row(node_from_request(req), value), node_from_request(req))),
            req,
        ) == RegisterActionView::Unchanged,
{
    lemma_node_row_round_trip(node_from_request(req), value);
}

} // verus!
