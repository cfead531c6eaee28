//! What an agent decides: which exited containers to restart, what it tells
//! the server of its node, and what a shell request runs.

use vstd::prelude::*;
use vstd::string::*;
use vstd::seq_lib::*;
use crate::api::req::{RegisterNodeRequest, RegisterNodeRequestView};
use crate::api::resp::{SystemDiskInfo, SystemNetworkInfo};
use crate::constants::{NANOS_PER_SEC, REKCOD_SERVER_PREFIX_PATH};
use crate::text::string_pairs;
use crate::text::{clone_strings, decimal, str_eq, strs, u64_to_string};

verus! {

/// Seconds for which a container that was restarted is left alone.
pub const DEBOUNCE_SECS: u64 = 60;

/// Seconds between two looks at the engine's exited containers.
pub const HEALTH_INTERVAL_SECS: u64 = 10;

/// Seconds between two registrations of an agent.
pub const REGISTER_INTERVAL_SECS: u64 = 10;

/// Seconds between two looks at the engine's events; each look asks for the
/// events of this many seconds.
pub const EVENTS_INTERVAL_SECS: u64 = 5;

/// Text for what an agent does not know of its machine.
pub const UNKNOWN: &'static str = "unknown";

/// Address that an agent gives where it cannot tell its own.
pub const LOOPBACK_IP: &'static str = "127.0.0.1";

/// Whether a restart at `timeout` is long enough ago at `now`: more than
/// sixty whole seconds. Times are nanoseconds on the wall clock; a restart
/// that lies ahead of `now` is not long enough ago.
pub open spec fn expired(timeout: u64, now: u64) -> bool {
    now >= timeout && (now - timeout) / (NANOS_PER_SEC as int) > DEBOUNCE_SECS
}

/// When a container was last restarted.
#[derive(Debug, Clone, Copy, PartialEq, Eq, Structural)]
pub struct DebounceState {
    pub timeout: u64,
}

impl DebounceState {
    /// Whether the restart is long enough ago for another one.
    pub fn expire(&self, now: u64) -> (r: bool)
        ensures
            r == expired(self.timeout, now),
    {
        if now < self.timeout {
            return false;
        }
        (now - self.timeout) / NANOS_PER_SEC > DEBOUNCE_SECS
    }
}

/// An exited container.
#[derive(Debug)]
pub struct ContainerInfo {
    pub id: String,
    pub name: String,
}

/// What the engine's list says of a container that is worth a restart: its
/// id and the first of its names. A container without id or names is
/// passed over; one with an empty list of names has the empty name.
pub fn container_info(id: Option<String>, names: Option<Vec<String>>) -> (r: Option<
    ContainerInfo,
>)
    ensures
        match (id, names) {
            (Some(i), Some(n)) => r is Some && r->Some_0.id@ == i@ && r->Some_0.name@ == (if n@.len()
                > 0 {
                n@[0]@
            } else {
                Seq::empty()
            }),
            _ => r is None,
        },
{
    match (id, names) {
        (Some(i), Some(n)) => {
            let name = if n.len() > 0 {
                n[0].clone()
            } else {
                String::new()
            };
            Some(ContainerInfo { id: i, name })
        },
        _ => None,
    }
}

/// The views of the restarts that are remembered: container id and time.
pub open spec fn restart_views(v: Seq<(String, DebounceState)>) -> Seq<(Seq<char>, u64)> {
    v.map_values(|e: (String, DebounceState)| (e.0@, e.1.timeout))
}

/// Whether position `i` remembers the container `id`.
pub open spec fn remembered_at(entries: Seq<(Seq<char>, u64)>, id: Seq<char>, i: int) -> bool {
    0 <= i < entries.len() && entries[i].0 == id
}

/// Whether the container `id` is remembered.
pub open spec fn remembered(entries: Seq<(Seq<char>, u64)>, id: Seq<char>) -> bool {
    exists|i: int| remembered_at(entries, id, i)
}

/// A position of the container `id`.
pub open spec fn remembered_index(entries: Seq<(Seq<char>, u64)>, id: Seq<char>) -> int {
    choose|i: int| remembered_at(entries, id, i)
}

/// No container is remembered twice.
pub open spec fn unique_containers(entries: Seq<(Seq<char>, u64)>) -> bool {
    forall|i: int, j: int|
        0 <= i < j < entries.len() ==> (#[trigger] entries[i]).0 != (#[trigger] entries[j]).0
}

/// Whether an exited container is restarted at `now`: it is, unless it was
/// restarted and that is not long enough ago.
pub open spec fn restarts(entries: Seq<(Seq<char>, u64)>, id: Seq<char>, now: u64) -> bool {
    remembered(entries, id) ==> expired(entries[remembered_index(entries, id)].1, now)
}

/// What is remembered once the container `id` came up at `now`: a restart
/// at `now`, where it is restarted; else what was remembered before.
pub open spec fn noted(entries: Seq<(Seq<char>, u64)>, id: Seq<char>, now: u64) -> Seq<
    (Seq<char>, u64),
> {
    if !restarts(entries, id, now) {
        entries
    } else if remembered(entries, id) {
        entries.update(remembered_index(entries, id), (id, now))
    } else {
        entries.push((id, now))
    }
}

/// What is still remembered at `now`: the restarts that are not long enough
/// ago.
pub open spec fn pruned(entries: Seq<(Seq<char>, u64)>, now: u64) -> Seq<(Seq<char>, u64)> {
    entries.filter(|e: (Seq<char>, u64)| !expired(e.1, now))
}

/// The restarts that an agent remembers, so as not to restart a container
/// over and over.
pub struct Debouncer {
    remaining: Vec<(String, DebounceState)>,
}

impl View for Debouncer {
    type V = Seq<(Seq<char>, u64)>;

    closed spec fn view(&self) -> Seq<(Seq<char>, u64)> {
        restart_views(self.remaining@)
    }
}

/// Under unique ids a container has one position only.
pub proof fn lemma_remembered_index(entries: Seq<(Seq<char>, u64)>, id: Seq<char>, i: int)
    requires
        unique_containers(entries),
        remembered_at(entries, id, i),
    ensures
        remembered(entries, id),
        remembered_index(entries, id) == i,
{
    let k = remembered_index(entries, id);
    assert(remembered_at(entries, id, k));
    if k < i {
        assert(entries[k].0 != entries[i].0);
    } else if i < k {
        assert(entries[i].0 != entries[k].0);
    }
}

impl Debouncer {
    /// The invariant: no container is remembered twice.
    pub open spec fn wf(&self) -> bool {
        unique_containers(self@)
    }

    /// Nothing remembered.
    pub fn new() -> (d: Debouncer)
        ensures
            d.wf(),
            d@ == Seq::<(Seq<char>, u64)>::empty(),
    {
        let d = Debouncer { remaining: Vec::new() };
        assert(d@ =~= Seq::<(Seq<char>, u64)>::empty());
        d
    }

    /// How many restarts are remembered.
    pub fn len(&self) -> (n: usize)
        ensures
            n == self@.len(),
    {
        self.remaining.len()
    }

    fn position(&self, id: &str) -> (r: Option<usize>)
        ensures
            match r {
                Some(i) => remembered_at(self@, id@, i as int),
                None => !remembered(self@, id@),
            },
    {
        let mut i: usize = 0;
        while i < self.remaining.len()
            invariant
                i <= self.remaining.len(),
                forall|j: int| 0 <= j < i ==> !remembered_at(self@, id@, j),
            decreases self.remaining.len() - i,
        {
            if str_eq(id, self.remaining[i].0.as_str()) {
                return Some(i);
            }
            i += 1;
        }
        None
    }

    /// Takes an exited container that came up at `now` and says whether to
    /// restart it. A restart is remembered.
    pub fn docker_health_monitor(&mut self, container: &ContainerInfo, now: u64) -> (restart: bool)
        requires
            old(self).wf(),
        ensures
            final(self).wf(),
            restart == restarts(old(self)@, container.id@, now),
            final(self)@ == noted(old(self)@, container.id@, now),
    {
        let ghost id = container.id@;
        match self.position(container.id.as_str()) {
            Some(i) => {
                proof {
                    lemma_remembered_index(self@, id, i as int);
                }
                if !self.remaining[i].1.expire(now) {
                    return false;
                }
                self.remaining.set(i, (container.id.clone(), DebounceState { timeout: now }));
                proof {
                    assert(self@ =~= old(self)@.update(i as int, (id, now)));
                    assert forall|x: int, y: int| 0 <= x < y < self@.len() implies (
                    #[trigger] self@[x]).0 != (#[trigger] self@[y]).0 by {
                        assert(old(self)@[x].0 != old(self)@[y].0);
                    }
                }
                true
            },
            None => {
                self.remaining.push((container.id.clone(), DebounceState { timeout: now }));
                proof {
                    assert(self@ =~= old(self)@.push((id, now)));
                    assert forall|x: int, y: int| 0 <= x < y < self@.len() implies (
                    #[trigger] self@[x]).0 != (#[trigger] self@[y]).0 by {
                        if y == old(self)@.len() {
                            assert(!remembered_at(old(self)@, id, x));
                        } else {
                            assert(old(self)@[x].0 != old(self)@[y].0);
                        }
                    }
                }
                true
            },
        }
    }

    /// Forgets the restarts that are long enough ago at `now`.
    pub fn prune(&mut self, now: u64)
        requires
            old(self).wf(),
        ensures
            final(self).wf(),
            final(self)@ == pruned(old(self)@, now),
    {
        let ghost pred = |e: (Seq<char>, u64)| !expired(e.1, now);
        let ghost all = self@;
        let mut kept: Vec<(String, DebounceState)> = Vec::new();
        let mut i: usize = 0;
        proof {
            assert(all.take(0) =~= Seq::<(Seq<char>, u64)>::empty());
            reveal(Seq::filter);
            assert(restart_views(kept@) =~= all.take(0).filter(pred));
        }
        while i < self.remaining.len()
            invariant
                i <= self.remaining.len(),
                all == self@,
                *self == *old(self),
                pred == (|e: (Seq<char>, u64)| !expired(e.1, now)),
                restart_views(kept@) == all.take(i as int).filter(pred),
            decreases self.remaining.len() - i,
        {
            proof {
                all.take(i as int).lemma_filter_push(all[i as int], pred);
                assert(all.take(i as int + 1) =~= all.take(i as int).push(all[i as int]));
            }
            if !self.remaining[i].1.expire(now) {
                let ghost before = restart_views(kept@);
                kept.push((self.remaining[i].0.clone(), self.remaining[i].1));
                proof {
                    assert(restart_views(kept@) =~= before.push(all[i as int]));
                }
            }
            i += 1;
        }
        proof {
            assert(all.take(i as int) =~= all);
            lemma_filter_keeps_unique(all, now);
        }
        self.remaining = kept;
    }
}

/// Forgetting restarts leaves no container remembered twice.
pub proof fn lemma_filter_keeps_unique(entries: Seq<(Seq<char>, u64)>, now: u64)
    requires
        unique_containers(entries),
    ensures
        unique_containers(pruned(entries, now)),
    decreases entries.len(),
{
    let pred = |e: (Seq<char>, u64)| !expired(e.1, now);
    reveal(Seq::filter);
    if entries.len() > 0 {
        let head = entries.drop_last();
        assert forall|i: int, j: int| 0 <= i < j < head.len() implies (#[trigger] head[i]).0 != (
        #[trigger] head[j]).0 by {
            assert(entries[i].0 != entries[j].0);
        }
        lemma_filter_keeps_unique(head, now);
        let sub = head.filter(pred);
        if pred(entries.last()) {
            let after = sub.push(entries.last());
            assert(entries.filter(pred) == after);
            assert forall|i: int, j: int| 0 <= i < j < after.len() implies (#[trigger] after[i]).0
                != (#[trigger] after[j]).0 by {
                if j == sub.len() {
                    head.lemma_filter_contains_rev(pred, sub[i]);
                    assert(head.contains(sub[i]));
                    let k = choose|k: int| 0 <= k < head.len() && head[k] == sub[i];
                    assert(entries[k].0 != entries[entries.len() - 1].0);
                }
            }
        }
    }
}

/// The span of time whose events an agent asks its engine for at `now`,
/// in seconds since the epoch: from one interval ago until now.
pub fn docker_event_monitor(now: u64) -> (r: (String, String))
    ensures
        r.0@ == decimal(
            (if now >= EVENTS_INTERVAL_SECS {
                now - EVENTS_INTERVAL_SECS
            } else {
                0
            }) as nat,
        ),
        r.1@ == decimal(now as nat),
{
    let since = if now >= EVENTS_INTERVAL_SECS {
        now - EVENTS_INTERVAL_SECS
    } else {
        0
    };
    (u64_to_string(since), u64_to_string(now))
}

/// What an agent knows of its machine for good.
#[derive(Debug)]
pub struct GlobalSysInfo {
    pub system_name: Option<String>,
    pub kernel_version: Option<String>,
    pub os_version: Option<String>,
    pub long_os_version: Option<String>,
    pub host_name: Option<String>,
    pub cpu_arch: Option<String>,
}

/// What is told of a fact that may not be known.
pub open spec fn or_unknown(v: Option<String>) -> Seq<char> {
    match v {
        Some(s) => s@,
        None => UNKNOWN@,
    }
}

fn known(v: &Option<String>) -> (r: String)
    ensures
        r@ == or_unknown(*v),
{
    match v {
        Some(s) => s.clone(),
        None => UNKNOWN.to_owned(),
    }
}

/// Where an agent registers: `http://<server>/rekcod.server/node/register`.
pub fn register_url(master_host: &str) -> (r: String)
    ensures
        r@ == "http://"@ + master_host@ + REKCOD_SERVER_PREFIX_PATH@ + "/node/register"@,
{
    let mut r = "http://".to_owned();
    r.append(master_host);
    r.append(REKCOD_SERVER_PREFIX_PATH);
    r.append("/node/register");
    r
}

/// What an agent tells the server of its node. The node is named by its
/// address, the loopback address where that is not known; it is reported as
/// up, without token and version.
pub fn register_node(local_ip: Option<String>, sys: &GlobalSysInfo, api_port: u16) -> (req:
    RegisterNodeRequest)
    ensures
        req@ == (RegisterNodeRequestView {
            name: match local_ip {
                Some(ip) => ip@,
                None => LOOPBACK_IP@,
            },
            host_name: or_unknown(sys.host_name),
            ip: match local_ip {
                Some(ip) => ip@,
                None => LOOPBACK_IP@,
            },
            port: api_port,
            token: Seq::empty(),
            version: Seq::empty(),
            arch: or_unknown(sys.cpu_arch),
            os: or_unknown(sys.system_name),
            os_version: or_unknown(sys.os_version),
            os_long_version: or_unknown(sys.long_os_version),
            os_kernel: or_unknown(sys.kernel_version),
            status: true,
        }),
{
    let my_local_ip = match local_ip {
        Some(ip) => ip,
        None => LOOPBACK_IP.to_owned(),
    };
    RegisterNodeRequest {
        name: my_local_ip.clone(),
        host_name: known(&sys.host_name),
        ip: my_local_ip,
        port: api_port,
        token: String::new(),
        version: String::new(),
        arch: known(&sys.cpu_arch),
        os: known(&sys.system_name),
        os_version: known(&sys.os_version),
        os_long_version: known(&sys.long_os_version),
        os_kernel: known(&sys.kernel_version),
        status: true,
    }
}

/// Asks an agent to run a command in a shell.
#[derive(Debug)]
pub struct ShellRequest {
    /// Variables added to the environment of the run.
    pub env: Option<Vec<(String, String)>>,
    /// The command.
    pub run: String,
    /// The shell, `bash` unless another is named.
    pub bash: Option<String>,
}

/// Asks an agent for a file.
#[derive(Debug, Default, Clone, PartialEq, Eq)]
pub struct DownloadRequest {
    pub path: String,
}

/// A run of a shell.
#[derive(Debug)]
pub struct ShellCommand {
    pub program: String,
    pub args: Vec<String>,
    pub envs: Vec<(String, String)>,
}

/// What a shell request runs: the shell with `-c` and the command, in the
/// environment that the request adds.
pub fn shell_stream(req: ShellRequest) -> (c: ShellCommand)
    ensures
        c.program@ == (match req.bash {
            Some(b) => b@,
            None => "bash"@,
        }),
        strs(c.args@) == seq!["-c"@, req.run@],
        string_pairs(c.envs@) == (match req.env {
            Some(e) => string_pairs(e@),
            None => Seq::empty(),
        }),
{
    let program = match req.bash {
        Some(b) => b,
        None => "bash".to_owned(),
    };
    let mut args: Vec<String> = Vec::new();
    args.push("-c".to_owned());
    args.push(req.run);
    assert(strs(args@) =~= seq!["-c"@, req.run@]);
    let envs = match req.env {
        Some(e) => e,
        None => {
            let e: Vec<(String, String)> = Vec::new();
            assert(string_pairs(e@) =~= Seq::<(Seq<char>, Seq<char>)>::empty());
            e
        },
    };
    ShellCommand { program, args, envs }
}

/// A disk as an agent measures it.
#[derive(Debug)]
pub struct SysDisk {
    pub name: String,
    pub total: u64,
    pub free: u64,
    pub mount: String,
    pub removable: bool,
}

/// A network interface as an agent measures it.
#[derive(Debug)]
pub struct SysNetwork {
    pub name: String,
    pub ips: Vec<String>,
    pub mac: String,
    pub total_out: u64,
    pub total_in: u64,
}

impl SysDisk {
    /// The disk as it is reported.
    pub fn to_info(&self) -> (r: SystemDiskInfo)
        ensures
            r.name@ == self.name@,
            r.free == self.free,
            r.total == self.total,
            r.mount@ == self.mount@,
            r.removeable == self.removable,
    {
        SystemDiskInfo {
            name: self.name.clone(),
            free: self.free,
            total: self.total,
            mount: self.mount.clone(),
            removeable: self.removable,
        }
    }
}

impl SysNetwork {
    /// The interface as it is reported.
    pub fn to_info(&self) -> (r: SystemNetworkInfo)
        ensures
            r.name@ == self.name@,
            strs(r.ips@) == strs(self.ips@),
            r.mac@ == self.mac@,
            r.total_out == self.total_out,
            r.total_in == self.total_in,
    {
        SystemNetworkInfo {
            name: self.name.clone(),
            ips: clone_strings(&self.ips),
            mac: self.mac.clone(),
            total_out: self.total_out,
            total_in: self.total_in,
        }
    }
}

} // verus!
