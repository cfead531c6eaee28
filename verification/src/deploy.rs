//! Deploying an application bundle to a node.
//!
//! A deployment is the named materialization of a bundle on one node. What
//! is known of it is kept as one row of the store. A deploy runs in three
//! steps, with the work on the network and the file system in between:
//! [`deploy`] decides whether an earlier materialization on another node has
//! to go, [`compose_up`] sets up the compose run on the target node, and
//! [`deploy_record`] says what to tell the operator and what to store. A
//! step that fails ends the deploy: what follows it is not done.

use vstd::prelude::*;
use vstd::string::*;
use crate::api::req::{AppDeployRequest, AppDeployRequestView};
use crate::constants::MODULE_APP;
use crate::docker::{custom_headers, docker_host, DockerComposeCli, DockerError};
use crate::text::string_pairs;
use crate::docker::{DOCKER_BUILDKIT_ENV, DOCKER_CUSTOM_HEADERS_ENV, DOCKER_HOST_ENV};
use crate::kvs::{KvsForDb, KvsView};
use crate::node::{cached, holds, NodeManager, NodeStateView};
use crate::text::{chars_of, clone_opt_string, opt_string_view, starts_with, strs};

verus! {

/// What the store keeps of a deployment.
#[derive(Debug)]
pub struct AppDeployInfo {
    pub name: String,
    pub node_name: String,
    pub values: Option<String>,
    pub project: Option<String>,
    pub build: Option<bool>,
}

/// A deployment record as a mathematical value.
pub struct AppDeployInfoView {
    pub name: Seq<char>,
    pub node_name: Seq<char>,
    pub values: Option<Seq<char>>,
    pub project: Option<Seq<char>>,
    pub build: Option<bool>,
}

impl View for AppDeployInfo {
    type V = AppDeployInfoView;

    open spec fn view(&self) -> AppDeployInfoView {
        AppDeployInfoView {
            name: self.name@,
            node_name: self.node_name@,
            values: opt_string_view(self.values),
            project: opt_string_view(self.project),
            build: self.build,
        }
    }
}

impl Clone for AppDeployInfo {
    fn clone(&self) -> (r: Self)
        ensures
            r@ == self@,
    {
        AppDeployInfo {
            name: self.name.clone(),
            node_name: self.node_name.clone(),
            values: clone_opt_string(&self.values),
            project: clone_opt_string(&self.project),
            build: self.build,
        }
    }
}

/// The record of a deployment that is made for the first time.
pub open spec fn first_info(req: AppDeployRequestView) -> AppDeployInfoView {
    AppDeployInfoView {
        name: req.name,
        node_name: req.node_name,
        values: req.values,
        project: req.project,
        build: req.build,
    }
}

/// The record of a deployment that is made again: node, values, project
/// and build flag are those of the request; the name stays.
pub open spec fn renewed_info(info: AppDeployInfoView, req: AppDeployRequestView) -> AppDeployInfoView {
    AppDeployInfoView {
        node_name: req.node_name,
        values: req.values,
        project: req.project,
        build: req.build,
        ..info
    }
}

/// `stop app <name> on node <node>`.
pub open spec fn stop_log(name: Seq<char>, node: Seq<char>) -> Seq<char> {
    "stop app "@ + name + " on node "@ + node
}

/// `deploy app <name> on node <node> success`.
pub open spec fn success_log(name: Seq<char>, node: Seq<char>) -> Seq<char> {
    "deploy app "@ + name + " on node "@ + node + " success"@
}

/// An earlier materialization that has to go before the deploy.
#[derive(Debug)]
pub struct StopOld {
    /// The node it runs on.
    pub node_name: String,
    /// The container to remove, by force. A failure to remove it is noted and
    /// does not stop the deploy.
    pub container: String,
    pub force: bool,
    /// What to tell the operator.
    pub log: String,
}

/// What a deploy starts from.
#[derive(Debug)]
pub struct DeployPlan {
    /// Whether the deployment is made for the first time.
    pub insert: bool,
    /// What is known of the deployment: the stored record, or one made from
    /// the request.
    pub info: AppDeployInfo,
    /// The earlier materialization to remove, where the deployment moves to
    /// another node.
    pub stop_old: Option<StopOld>,
}

impl DeployPlan {
    /// Hands out the removal of the earlier materialization, which is to be
    /// carried out now: the compose run of the deploy is set up only for a
    /// plan that holds no removal any more.
    pub fn take_stop_old(&mut self) -> (stop: Option<StopOld>)
        ensures
            stop == old(self).stop_old,
            final(self).stop_old is None,
            final(self).insert == old(self).insert,
            final(self).info == old(self).info,
    {
        let mut stop: Option<StopOld> = None;
        std::mem::swap(&mut stop, &mut self.stop_old);
        stop
    }
}

/// Whether a deployment that is made again moves to another node.
pub open spec fn moves(db_app: Option<AppDeployInfoView>, req: AppDeployRequestView) -> bool {
    db_app matches Some(info) && info.node_name != req.node_name
}

/// Begins a deploy. `db_app` is the stored record of the deployment, if
/// there is one. Where it names another node than the request, the
/// container of the deployment's name is to be removed there first.
pub fn deploy(req: &AppDeployRequest, db_app: Option<AppDeployInfo>) -> (plan: DeployPlan)
    ensures
        plan.insert == (db_app is None),
        plan.info@ == (match db_app {
            Some(info) => info@,
            None => first_info(req@),
        }),
        match plan.stop_old {
            Some(stop) => {
                &&& moves(
                    match db_app {
                        Some(info) => Some(info@),
                        None => None,
                    },
                    req@,
                )
                &&& stop.node_name@ == plan.info@.node_name
                &&& stop.container@ == req@.name
                &&& stop.force
                &&& stop.log@ == stop_log(req@.name, plan.info@.node_name)
            },
            None => !moves(
                match db_app {
                    Some(info) => Some(info@),
                    None => None,
                },
                req@,
            ),
        },
{
    let (insert, info) = match db_app {
        Some(info) => (false, info),
        None => (
            true,
            AppDeployInfo {
                name: req.name.clone(),
                node_name: req.node_name.clone(),
                values: clone_opt_string(&req.values),
                project: clone_opt_string(&req.project),
                build: req.build,
            },
        ),
    };
    let stop_old = if !insert && info.node_name != req.node_name {
        let mut log = "stop app ".to_owned();
        log.append(req.name.as_str());
        log.append(" on node ");
        log.append(info.node_name.as_str());
        Some(
            StopOld {
                node_name: info.node_name.clone(),
                container: req.name.clone(),
                force: true,
                log,
            },
        )
    } else {
        None
    };
    DeployPlan { insert, info, stop_old }
}

/// The arguments of the compose run: the file comes from standard input,
/// the project is brought up in the background, and images are built first
/// where the request says so.
pub open spec fn compose_args(build: Option<bool>) -> Seq<Seq<char>> {
    if build == Some(true) {
        seq!["-f"@, "-"@, "up"@, "-d"@, "--build"@]
    } else {
        seq!["-f"@, "-"@, "up"@, "-d"@]
    }
}

/// The arguments of the compose run.
pub fn compose_cli_args(build: Option<bool>) -> (args: Vec<String>)
    ensures
        strs(args@) == compose_args(build),
{
    let mut args: Vec<String> = Vec::new();
    args.push("-f".to_owned());
    args.push("-".to_owned());
    args.push("up".to_owned());
    args.push("-d".to_owned());
    if let Some(true) = build {
        args.push("--build".to_owned());
        assert(strs(args@) =~= seq!["-f"@, "-"@, "up"@, "-d"@, "--build"@]);
    } else {
        assert(strs(args@) =~= seq!["-f"@, "-"@, "up"@, "-d"@]);
    }
    args
}

/// The working directory of the compose run: the one that the request
/// names, else the bundle's own `project` directory where it exists, else
/// none.
pub fn project_dir(requested: &Option<String>, bundle_project: Option<String>) -> (r: Option<
    String,
>)
    ensures
        opt_string_view(r) == (match *requested {
            Some(p) => Some(p@),
            None => opt_string_view(bundle_project),
        }),
{
    match requested {
        Some(p) => Some(p.clone()),
        None => bundle_project,
    }
}

/// Whether a rendered file is the compose file: its name begins with
/// `docker-compose` and it is not empty.
pub open spec fn is_compose_file(name: Seq<char>, content: Seq<char>) -> bool {
    "docker-compose"@.is_prefix_of(name) && content.len() > 0
}

/// Whether entry `i` is the first compose file among the rendered files.
pub open spec fn first_compose_file(files: Seq<(String, String)>, i: int) -> bool {
    &&& 0 <= i < files.len()
    &&& is_compose_file(files[i].0@, files[i].1@)
    &&& forall|j: int| 0 <= j < i ==> !is_compose_file((#[trigger] files[j]).0@, files[j].1@)
}

/// Whether none of the rendered files is a compose file.
pub open spec fn no_compose_file(files: Seq<(String, String)>) -> bool {
    forall|j: int| 0 <= j < files.len() ==> !is_compose_file((#[trigger] files[j]).0@, files[j].1@)
}

/// The position of the compose file among the rendered files, if there is
/// one: the first whose name begins with `docker-compose` and that is not
/// empty.
pub fn compose_file_index(files: &Vec<(String, String)>) -> (r: Option<usize>)
    ensures
        match r {
            Some(i) => first_compose_file(files@, i as int),
            None => no_compose_file(files@),
        },
{
    let prefix = chars_of("docker-compose");
    let mut i: usize = 0;
    while i < files.len()
        invariant
            i <= files.len(),
            prefix@ == "docker-compose"@,
            forall|j: int| 0 <= j < i ==> !is_compose_file((#[trigger] files@[j]).0@, files@[j].1@),
        decreases files.len() - i,
    {
        let name = chars_of(files[i].0.as_str());
        if starts_with(&name, &prefix) && files[i].1.as_str().unicode_len() > 0 {
            return Some(i);
        }
        i += 1;
    }
    None
}

/// The text of the compose file among the rendered files, if there is one.
pub fn get_docker_compose_file(files: &Vec<(String, String)>) -> (r: Option<&str>)
    ensures
        match r {
            Some(text) => exists|i: int| first_compose_file(files@, i) && text@ == files@[i].1@,
            None => no_compose_file(files@),
        },
{
    match compose_file_index(files) {
        Some(i) => Some(files[i].1.as_str()),
        None => None,
    }
}

/// A compose run and what it reads from standard input.
#[derive(Debug)]
pub struct ComposeRun {
    pub cli: DockerComposeCli,
    /// The rendered compose file.
    pub stdin: String,
}

/// Why no compose run can be set up for a deploy, if anything: the target
/// node is not registered, or, for a registered node, no compose program
/// was found.
pub open spec fn compose_failure(
    states: Seq<NodeStateView>,
    req: AppDeployRequestView,
    program: Result<String, DockerError>,
) -> Option<DockerError> {
    if !holds(states, req.node_name) {
        Some(DockerError::NodeNotFound)
    } else {
        match program {
            Ok(_) => None,
            Err(e) => Some(e),
        }
    }
}

/// Sets up the compose run of a deploy. `plan` is the plan of the deploy,
/// whose removal of an earlier materialization must have been handed out:
/// the old app goes before the new one comes. `nodes` is the registry, in
/// which the target node is looked up; `files` are the rendered files of
/// the bundle by name, `bundle_project` is the bundle's `project` directory
/// where it exists, and `program` the compose program that was found. A
/// target node that the registry does not hold is a failure, and so is a
/// registered node without a compose program: the deploy ends there and
/// nothing is stored. Nothing is run where the bundle renders no compose
/// file.
pub fn compose_up(
    req: &AppDeployRequest,
    plan: &DeployPlan,
    nodes: &NodeManager,
    files: &Vec<(String, String)>,
    bundle_project: Option<String>,
    program: Result<String, DockerError>,
    token: &str,
) -> (r: Result<Option<ComposeRun>, DockerError>)
    requires
        nodes.wf(),
        plan.stop_old is None,
    ensures
        match compose_failure(nodes@, req@, program) {
            Some(e) => r == Err::<Option<ComposeRun>, DockerError>(e),
            None => r is Ok && (match r->Ok_0 {
                None => no_compose_file(files@),
                Some(run) => {
                    let n = cached(nodes@, req@.node_name)->Some_0;
                    &&& exists|i: int| first_compose_file(files@, i) && run.stdin@ == files@[i].1@
                    &&& run.cli.program@ == program->Ok_0@
                    &&& strs(run.cli.args@) == compose_args(req@.build)
                    &&& string_pairs(run.cli.envs@) == seq![
                        (DOCKER_HOST_ENV@, docker_host(n.node.ip, n.node.port)),
                        (DOCKER_CUSTOM_HEADERS_ENV@, custom_headers(token@)),
                        (DOCKER_BUILDKIT_ENV@, "0"@),
                    ]
                    &&& opt_string_view(run.cli.current_dir) == (match req@.project {
                        Some(d) => Some(d),
                        None => opt_string_view(bundle_project),
                    })
                },
            }),
        },
{
    let n = match nodes.get_node(req.node_name.as_str()) {
        Some(n) => n,
        None => return Err(DockerError::NodeNotFound),
    };
    let p = match program {
        Ok(p) => p,
        Err(e) => return Err(e),
    };
    let dir = project_dir(&req.project, bundle_project);
    let args = compose_cli_args(req.build);
    let cli = DockerComposeCli::new(
        p.as_str(),
        n.get_node_ip(),
        n.get_node_port(),
        token,
        &args,
        dir,
    );
    match get_docker_compose_file(files) {
        Some(text) => Ok(Some(ComposeRun { cli, stdin: text.to_owned() })),
        None => Ok(None),
    }
}

/// What a deploy leaves in the store.
#[derive(Debug)]
pub enum DeployWrite {
    /// A new row for the deployment.
    Insert(AppDeployInfo),
    /// A new value for the deployment's row.
    Update(AppDeployInfo),
}

/// What a deploy ends with.
#[derive(Debug)]
pub struct DeployRecord {
    /// What to tell the operator.
    pub log: String,
    pub write: DeployWrite,
}

/// Ends a deploy: the operator is told of the success, and the record of
/// the deployment is stored, new or renewed from the request.
pub fn deploy_record(plan: DeployPlan, req: &AppDeployRequest) -> (r: DeployRecord)
    ensures
        r.log@ == success_log(req@.name, plan.info@.node_name),
        match r.write {
            DeployWrite::Insert(info) => plan.insert && info@ == plan.info@,
            DeployWrite::Update(info) => !plan.insert && info@ == renewed_info(plan.info@, req@),
        },
{
    let mut log = "deploy app ".to_owned();
    log.append(req.name.as_str());
    log.append(" on node ");
    log.append(plan.info.node_name.as_str());
    log.append(" success");
    let mut info = plan.info;
    if plan.insert {
        DeployRecord { log, write: DeployWrite::Insert(info) }
    } else {
        info.node_name = req.node_name.clone();
        info.values = clone_opt_string(&req.values);
        info.project = clone_opt_string(&req.project);
        info.build = req.build;
        DeployRecord { log, write: DeployWrite::Update(info) }
    }
}

/// The row under which a deployment is stored, but for its `id`.
pub open spec fn deploy_row(name: Seq<char>, value: Seq<char>) -> KvsView {
    KvsView {
        id: 0,
        module: MODULE_APP@,
        key: name,
        sub_key: Seq::empty(),
        third_key: Seq::empty(),
        value,
    }
}

/// The row to store a deployment under, with `value` as the serialized
/// record.
pub fn deploy_kvs(name: &str, value: &str) -> (row: KvsForDb)
    ensures
        row@ == deploy_row(name@, value@),
{
    let row = KvsForDb::new(MODULE_APP, name, "", value);
    proof {
        reveal_strlit("");
        assert(""@ =~= Seq::<char>::empty());
    }
    row
}

/// Once the compose run of a deploy was set up without failure, the record
/// that the deploy stores, new or renewed, names a node that the registry
/// holds.
pub proof fn lemma_stored_node_is_registered(
    states: Seq<NodeStateView>,
    info: AppDeployInfoView,
    req: AppDeployRequestView,
    program: Result<String, DockerError>,
)
    requires
        compose_failure(states, req, program) is None,
    ensures
        holds(states, first_info(req).node_name),
        holds(states, renewed_info(info, req).node_name),
{
}

} // verus!
