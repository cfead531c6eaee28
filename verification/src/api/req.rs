//! Request bodies.

use vstd::prelude::*;
use vstd::string::*;
use crate::text::{clone_opt_string, opt_string_view};

verus! {

/// What an agent sends to register its node, and again as a heartbeat.
#[derive(Debug, Default)]
pub struct RegisterNodeRequest {
    /// Node name, unique in the fleet.
    pub name: String,
    /// Host name of the machine.
    pub host_name: String,
    pub ip: String,
    /// Port the agent listens on.
    pub port: u16,
    pub token: String,
    /// Version of the agent.
    pub version: String,
    pub arch: String,
    pub os: String,
    pub os_version: String,
    pub os_long_version: String,
    pub os_kernel: String,
    /// Whether the agent is up.
    pub status: bool,
}

/// A registration as a mathematical value.
pub struct RegisterNodeRequestView {
    pub name: Seq<char>,
    pub host_name: Seq<char>,
    pub ip: Seq<char>,
    pub port: u16,
    pub token: Seq<char>,
    pub version: Seq<char>,
    pub arch: Seq<char>,
    pub os: Seq<char>,
    pub os_version: Seq<char>,
    pub os_long_version: Seq<char>,
    pub os_kernel: Seq<char>,
    pub status: bool,
}

impl View for RegisterNodeRequest {
    type V = RegisterNodeRequestView;

    open spec fn view(&self) -> RegisterNodeRequestView {
        RegisterNodeRequestView {
            name: self.name@,
            host_name: self.host_name@,
            ip: self.ip@,
            port: self.port,
            token: self.token@,
            version: self.version@,
            arch: self.arch@,
            os: self.os@,
            os_version: self.os_version@,
            os_long_version: self.os_long_version@,
            os_kernel: self.os_kernel@,
            status: self.status,
        }
    }
}

/// Asks for the nodes; `all` includes those that are offline.
#[derive(Debug, Default, Clone, PartialEq, Eq)]
pub struct NodeListRequest {
    pub all: bool,
}

/// Asks for one node by name.
#[derive(Debug, Default, Clone, PartialEq, Eq)]
pub struct NodeInfoRequest {
    pub name: String,
}

/// Names the node an engine request is meant for.
#[derive(Debug, Default, Clone, PartialEq, Eq)]
pub struct NodeDockerQueryRequest {
    pub node_name: String,
}

/// Asks for the system figures of one node.
#[derive(Debug, Default, Clone, PartialEq, Eq)]
pub struct NodeSysInfoRequest {
    pub name: String,
}

/// A template and the values to render it with.
#[derive(Debug, Default, Clone, PartialEq, Eq)]
pub struct RenderTmplRequest {
    pub tmpl_context: String,
    pub tmpl_values: String,
}

/// Asks to deploy the bundle `app_name` as `name` on `node_name`.
#[derive(Debug, Default)]
pub struct AppDeployRequest {
    pub name: String,
    pub app_name: String,
    pub node_name: String,
    /// Working directory of the compose run, in place of the bundle's own.
    pub project: Option<String>,
    /// Values document, as YAML.
    pub values: Option<String>,
    pub build: Option<bool>,
}

/// A deploy request as a mathematical value.
pub struct AppDeployRequestView {
    pub name: Seq<char>,
    pub app_name: Seq<char>,
    pub node_name: Seq<char>,
    pub project: Option<Seq<char>>,
    pub values: Option<Seq<char>>,
    pub build: Option<bool>,
}

impl View for AppDeployRequest {
    type V = AppDeployRequestView;

    open spec fn view(&self) -> AppDeployRequestView {
        AppDeployRequestView {
            name: self.name@,
            app_name: self.app_name@,
            node_name: self.node_name@,
            project: opt_string_view(self.project),
            values: opt_string_view(self.values),
            build: self.build,
        }
    }
}

impl Clone for AppDeployRequest {
    fn clone(&self) -> (r: Self)
        ensures
            r@ == self@,
    {
        AppDeployRequest {
            name: self.name.clone(),
            app_name: self.app_name.clone(),
            node_name: self.node_name.clone(),
            project: clone_opt_string(&self.project),
            values: clone_opt_string(&self.values),
            build: self.build,
        }
    }
}

/// Asks a node to fetch an image, from a peer where one has it.
#[derive(Debug, Default, Clone, PartialEq, Eq)]
pub struct DockerImagePullAutoRequest {
    pub node_name: String,
    pub image_name: String,
}

/// The text of the global environment.
#[derive(Debug, Default, Clone, PartialEq, Eq)]
pub struct EnvRequest {
    pub values: String,
}

impl Clone for RegisterNodeRequest {
    fn clone(&self) -> (r: Self)
        ensures
            r@ == self@,
    {
        RegisterNodeRequest {
            name: self.name.clone(),
            host_name: self.host_name.clone(),
            ip: self.ip.clone(),
            port: self.port,
            token: self.token.clone(),
            version: self.version.clone(),
            arch: self.arch.clone(),
            os: self.os.clone(),
            os_version: self.os_version.clone(),
            os_long_version: self.os_long_version.clone(),
            os_kernel: self.os_kernel.clone(),
            status: self.status,
        }
    }
}

} // verus!
