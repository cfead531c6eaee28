//! The command line: its arguments, where it finds its configuration, and
//! how it reads the server's answers.

use vstd::prelude::*;
use vstd::string::*;
use crate::api::resp::{ApiJsonResponse, NodeItemResponse};
use crate::config::{join_path, joined};
use crate::constants::{REKCOD_CONFIG_DEFAULT_PATH, REKCOD_CONFIG_FILE_NAME};
use crate::text::concat2;

verus! {

/// Arguments of `node list`.
#[derive(Debug, Default, Clone, Copy, PartialEq, Eq)]
pub struct ListNodeArgs {
    /// Whether offline nodes are listed too.
    pub all: bool,
}

/// The `node` commands.
#[derive(Debug, Clone, Copy, PartialEq, Eq)]
pub enum NodeArgs {
    List(ListNodeArgs),
}

/// Arguments of `docker` and `docker-compose`: the node, and what is handed
/// on to the program.
#[derive(Debug, Default, Clone, PartialEq, Eq)]
pub struct DockerArgs {
    pub node: String,
    pub sub_command: Vec<String>,
}

/// Why the command line gives up.
#[derive(Debug)]
pub enum CliError {
    /// No configuration was named and there is none at the usual place.
    NoConfigPath,
    /// The server answered with an error; its message.
    Server(String),
    /// The server does not know the node of this name.
    NodeNotFound(String),
}

/// The usual place of the configuration.
pub open spec fn default_config_path() -> Seq<char> {
    joined(REKCOD_CONFIG_DEFAULT_PATH@, REKCOD_CONFIG_FILE_NAME@)
}

/// Where the configuration is read from: the path that was given as an
/// argument, else the one in `REKCOD_CONFIG`, else the usual place where a
/// file is there.
pub fn get_rekcod_config_path(
    rekcod_config: Option<String>,
    env_config: Option<String>,
    default_exists: bool,
) -> (r: Result<String, CliError>)
    ensures
        match (rekcod_config, env_config) {
            (Some(p), _) => r is Ok && r->Ok_0@ == p@,
            (None, Some(p)) => r is Ok && r->Ok_0@ == p@,
            (None, None) => if default_exists {
                r is Ok && r->Ok_0@ == default_config_path()
            } else {
                r is Err && r->Err_0 is NoConfigPath
            },
        },
{
    if let Some(path) = rekcod_config {
        return Ok(path);
    }
    if let Some(path) = env_config {
        return Ok(path);
    }
    if default_exists {
        return Ok(join_path(REKCOD_CONFIG_DEFAULT_PATH, REKCOD_CONFIG_FILE_NAME));
    }
    Err(CliError::NoConfigPath)
}

/// Where the command line asks for a node.
pub fn node_info_url(http_server_host: &str) -> (r: String)
    ensures
        r@ == http_server_host@ + "/node/info"@,
{
    concat2(http_server_host, "/node/info")
}

/// Where the command line asks for the nodes.
pub fn node_list_url(http_server_host: &str) -> (r: String)
    ensures
        r@ == http_server_host@ + "/node/list"@,
{
    concat2(http_server_host, "/node/list")
}

/// Reads the server's answer to the question for the node `node`: a code
/// other than 0 is the server's error, an answer without a node means that
/// the node is not known.
pub fn inner_run(resp: ApiJsonResponse<NodeItemResponse>, node: &str) -> (r: Result<
    NodeItemResponse,
    CliError,
>)
    ensures
        if resp.spec_code() != 0 {
            r is Err && (r->Err_0 matches CliError::Server(m) && m@ == resp.spec_msg())
        } else {
            match resp.spec_data() {
                Some(d) => r == Ok::<NodeItemResponse, CliError>(d),
                None => r is Err && (r->Err_0 matches CliError::NodeNotFound(n) && n@ == node@),
            }
        },
{
    if resp.code() != 0 {
        return Err(CliError::Server(resp.msg().to_owned()));
    }
    match resp.into_data() {
        Some(d) => Ok(d),
        None => Err(CliError::NodeNotFound(node.to_owned())),
    }
}

} // verus!
