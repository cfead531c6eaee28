//! What a server, an agent and the command line are started with.

use vstd::prelude::*;
use vstd::string::*;
use crate::constants::{REKCOD_DATA_APP_ROOT, REKCOD_SERVER_PREFIX_PATH};
use crate::obj::RekcodType;
use crate::text::{append_decimal, chars_of, decimal};
use crate::auth::LOCAL_HOST;

verus! {

/// `child` below `base`, by the rules of paths that are separated by `/`:
/// an absolute `child` stands alone, and a separator is put between the two
/// unless `base` is empty or ends with one.
pub open spec fn joined(base: Seq<char>, child: Seq<char>) -> Seq<char> {
    if child.len() > 0 && child[0] == '/' {
        child
    } else if base.len() == 0 || base.last() == '/' {
        base + child
    } else {
        base + "/"@ + child
    }
}

/// `child` below `base`.
pub fn join_path(base: &str, child: &str) -> (r: String)
    ensures
        r@ == joined(base@, child@),
{
    let b = chars_of(base);
    let c = chars_of(child);
    if c.len() > 0 && c[0] == '/' {
        return child.to_owned();
    }
    let mut r = base.to_owned();
    if b.len() > 0 && b[b.len() - 1] != '/' {
        r.append("/");
    }
    r.append(child);
    r
}

/// What a server is started with.
#[derive(Debug)]
pub struct RekcodServerConfig {
    pub db_url: String,
    pub config_path: String,
    pub data_path: String,
    pub api_port: u16,
    pub dashboard: bool,
    pub dashboard_base_url: Option<String>,
}

impl RekcodServerConfig {
    /// The directory of the application bundles.
    pub fn get_app_root_path(&self) -> (r: String)
        ensures
            r@ == joined(self.data_path@, REKCOD_DATA_APP_ROOT@),
    {
        join_path(self.data_path.as_str(), REKCOD_DATA_APP_ROOT)
    }
}

/// Sets the server's configuration. It can be set once only.
pub fn init_rekcod_server_config(cell: &mut Option<RekcodServerConfig>, config: RekcodServerConfig)
    requires
        *old(cell) is None,
    ensures
        *final(cell) == Some(config),
{
    *cell = Some(config);
}

/// The server's configuration. It must have been set.
pub fn rekcod_server_config(cell: &Option<RekcodServerConfig>) -> (r: &RekcodServerConfig)
    requires
        *cell is Some,
    ensures
        *cell == Some(*r),
{
    cell.as_ref().unwrap()
}

/// What an agent is started with.
#[derive(Debug)]
pub struct RekcodAgentConfig {
    pub data_path: String,
    pub config_path: String,
    /// `host:port` of the server.
    pub master_host: String,
    pub api_port: u16,
    pub typ: RekcodType,
}

/// Sets the agent's configuration. It can be set once only.
pub fn init_rekcod_agent_config(cell: &mut Option<RekcodAgentConfig>, config: RekcodAgentConfig)
    requires
        *old(cell) is None,
    ensures
        *final(cell) == Some(config),
{
    *cell = Some(config);
}

/// The agent's configuration. It must have been set.
pub fn rekcod_agent_config(cell: &Option<RekcodAgentConfig>) -> (r: &RekcodAgentConfig)
    requires
        *cell is Some,
    ensures
        *cell == Some(*r),
{
    cell.as_ref().unwrap()
}

/// What the command line is started with.
#[derive(Debug)]
pub struct RekcodCliConfig {
    /// `host:port` of the server.
    pub host: String,
}

impl RekcodCliConfig {
    /// Base address of the server's agent-facing routes.
    pub fn http_server_host(&self) -> (r: String)
        ensures
            r@ == "http://"@ + self.host@ + REKCOD_SERVER_PREFIX_PATH@,
    {
        let mut r = "http://".to_owned();
        r.append(self.host.as_str());
        r.append(REKCOD_SERVER_PREFIX_PATH);
        r
    }
}

/// Sets the command line's configuration. It can be set once only.
pub fn init_rekcod_cli_config(cell: &mut Option<RekcodCliConfig>, config: RekcodCliConfig)
    requires
        *old(cell) is None,
    ensures
        *final(cell) == Some(config),
{
    *cell = Some(config);
}

/// The command line's configuration. It must have been set.
pub fn rekcod_cli_config(cell: &Option<RekcodCliConfig>) -> (r: &RekcodCliConfig)
    requires
        *cell is Some,
    ensures
        *cell == Some(*r),
{
    cell.as_ref().unwrap()
}

/// Arguments of `server`.
#[derive(Debug)]
pub struct ServerArgs {
    pub port: u16,
    pub db_url: String,
    pub data_path: String,
    pub config_path: String,
    pub dashboard: bool,
    pub dashboard_base_url: Option<String>,
}

/// Arguments of `agent`.
#[derive(Debug)]
pub struct AgentArgs {
    pub port: u16,
    pub data_path: String,
    pub master_host: String,
    pub config_path: String,
    pub token: String,
}

impl ServerArgs {
    /// The configuration of the server that these arguments start.
    pub fn into_server_config(self) -> (c: RekcodServerConfig)
        ensures
            c.db_url@ == self.db_url@,
            c.config_path@ == self.config_path@,
            c.data_path@ == self.data_path@,
            c.api_port == self.port,
            c.dashboard == self.dashboard,
            c.dashboard_base_url == self.dashboard_base_url,
    {
        RekcodServerConfig {
            db_url: self.db_url,
            config_path: self.config_path,
            api_port: self.port,
            dashboard: self.dashboard,
            dashboard_base_url: self.dashboard_base_url,
            data_path: self.data_path,
        }
    }

    /// The configuration of the agent that runs inside the server: it
    /// registers with the server in its own process.
    pub fn into_agent_config(self) -> (c: RekcodAgentConfig)
        ensures
            c.data_path@ == self.data_path@,
            c.config_path@ == self.config_path@,
            c.master_host@ == LOCAL_HOST@ + decimal(self.port as nat),
            c.api_port == self.port,
            c.typ == RekcodType::Master,
    {
        let mut master_host = LOCAL_HOST.to_owned();
        append_decimal(&mut master_host, self.port as u64);
        RekcodAgentConfig {
            data_path: self.data_path,
            master_host,
            typ: RekcodType::Master,
            api_port: self.port,
            config_path: self.config_path,
        }
    }
}

impl AgentArgs {
    /// The configuration of the agent that these arguments start.
    pub fn into_agent_config(self) -> (c: RekcodAgentConfig)
        ensures
            c.data_path@ == self.data_path@,
            c.config_path@ == self.config_path@,
            c.master_host@ == self.master_host@,
            c.api_port == self.port,
            c.typ == RekcodType::Agent,
    {
        RekcodAgentConfig {
            data_path: self.data_path,
            master_host: self.master_host,
            typ: RekcodType::Agent,
            api_port: self.port,
            config_path: self.config_path,
        }
    }
}

} // verus!
