//! How the engine of a node is reached: through the node's agent, under the
//! proxy prefix and with the shared token, both by the server's own client
//! and by the `docker` and `docker compose` programs that are run for it.

use vstd::prelude::*;
use vstd::string::*;
use crate::constants::{DOCKER_PROXY_PATH, TOEKN_HEADER_KEY};
use crate::text::{
    append_decimal,
    clone_strings,
    decimal,
    opt_string_view,
    string_pairs,
    strs,
};

verus! {

/// Connections to an agent are not kept for reuse: an upgraded connection
/// cannot be used again.
pub const POOL_MAX_IDLE_PER_HOST: usize = 0;

/// Name of the variable that tells the programs where the engine is.
pub const DOCKER_HOST_ENV: &'static str = "DOCKER_HOST";

/// Name of the variable that makes the programs send the token.
pub const DOCKER_CUSTOM_HEADERS_ENV: &'static str = "DOCKER_CUSTOM_HEADERS";

/// Name of the variable that switches the newer builder off.
pub const DOCKER_BUILDKIT_ENV: &'static str = "DOCKER_BUILDKIT";

/// The path of a request as it is sent to an agent: the prefix, then the
/// path and query that the engine is asked for.
pub fn prefixed_path(path_prefix: &str, path_and_query: &str) -> (r: String)
    ensures
        r@ == path_prefix@ + path_and_query@,
{
    let mut r = path_prefix.to_owned();
    r.append(path_and_query);
    r
}

/// `tcp://<ip>:<port>/proxy.docker`.
pub open spec fn docker_host(ip: Seq<char>, port: u16) -> Seq<char> {
    "tcp://"@ + ip + ":"@ + decimal(port as nat) + DOCKER_PROXY_PATH@
}

/// `X-REKCOD-TOKEN=<token>`.
pub open spec fn custom_headers(token: Seq<char>) -> Seq<char> {
    TOEKN_HEADER_KEY@ + "="@ + token
}

/// The value of `DOCKER_HOST` for the node at `ip` and `port`.
pub fn docker_host_value(ip: &str, port: u16) -> (r: String)
    ensures
        r@ == docker_host(ip@, port),
{
    let mut r = "tcp://".to_owned();
    r.append(ip);
    r.append(":");
    append_decimal(&mut r, port as u64);
    r.append(DOCKER_PROXY_PATH);
    r
}

/// The value of `DOCKER_CUSTOM_HEADERS` for a token.
pub fn custom_headers_value(token: &str) -> (r: String)
    ensures
        r@ == custom_headers(token@),
{
    let mut r = TOEKN_HEADER_KEY.to_owned();
    r.append("=");
    r.append(token);
    r
}

/// A run of the `docker` program against the engine of one node.
#[derive(Debug)]
pub struct DockerCli {
    /// The program to run.
    pub program: String,
    /// Variables added to the environment of the run.
    pub envs: Vec<(String, String)>,
    pub args: Vec<String>,
}

impl DockerCli {
    /// The run of `program` with `args` against the node at `ip` and `port`.
    pub fn new(program: &str, ip: &str, port: u16, token: &str, args: &Vec<String>) -> (c:
        DockerCli)
        ensures
            c.program@ == program@,
            string_pairs(c.envs@) == seq![
                (DOCKER_HOST_ENV@, docker_host(ip@, port)),
                (DOCKER_CUSTOM_HEADERS_ENV@, custom_headers(token@)),
            ],
            strs(c.args@) == strs(args@),
    {
        let mut envs: Vec<(String, String)> = Vec::new();
        envs.push((DOCKER_HOST_ENV.to_owned(), docker_host_value(ip, port)));
        envs.push((DOCKER_CUSTOM_HEADERS_ENV.to_owned(), custom_headers_value(token)));
        assert(string_pairs(envs@) =~= seq![
            (DOCKER_HOST_ENV@, docker_host(ip@, port)),
            (DOCKER_CUSTOM_HEADERS_ENV@, custom_headers(token@)),
        ]);
        DockerCli { program: program.to_owned(), envs, args: clone_strings(args) }
    }
}

/// Why a compose run cannot be set up.
#[derive(Debug, Clone, Copy, PartialEq, Eq, Structural)]
pub enum DockerError {
    /// Neither `docker compose` nor `docker-compose` is installed.
    ComposeNotInstalled,
    /// The node to run against is not registered.
    NodeNotFound,
}

/// The programs that are looked for to run compose, in this order.
pub fn compose_candidates() -> (r: Vec<String>)
    ensures
        strs(r@) == seq!["docker compose"@, "docker-compose"@],
{
    let mut r: Vec<String> = Vec::new();
    r.push("docker compose".to_owned());
    r.push("docker-compose".to_owned());
    assert(strs(r@) =~= seq!["docker compose"@, "docker-compose"@]);
    r
}

/// Picks the compose program: what was found for `docker compose`, else
/// what was found for `docker-compose`.
pub fn choose_compose_program(plugin: Option<String>, standalone: Option<String>) -> (r: Result<
    String,
    DockerError,
>)
    ensures
        match (plugin, standalone) {
            (Some(p), _) => r == Ok::<String, DockerError>(p),
            (None, Some(s)) => r == Ok::<String, DockerError>(s),
            (None, None) => r == Err::<String, DockerError>(DockerError::ComposeNotInstalled),
        },
{
    match plugin {
        Some(p) => Ok(p),
        None => match standalone {
            Some(s) => Ok(s),
            None => Err(DockerError::ComposeNotInstalled),
        },
    }
}

/// A run of compose against the engine of one node.
#[derive(Debug)]
pub struct DockerComposeCli {
    /// The program to run.
    pub program: String,
    /// Variables added to the environment of the run.
    pub envs: Vec<(String, String)>,
    pub args: Vec<String>,
    /// Working directory of the run, where it is not the server's own.
    pub current_dir: Option<String>,
}

impl DockerComposeCli {
    /// The run of `program` with `args` against the node at `ip` and `port`.
    /// The newer builder is switched off.
    pub fn new(
        program: &str,
        ip: &str,
        port: u16,
        token: &str,
        args: &Vec<String>,
        current_dir: Option<String>,
    ) -> (c: DockerComposeCli)
        ensures
            c.program@ == program@,
            string_pairs(c.envs@) == seq![
                (DOCKER_HOST_ENV@, docker_host(ip@, port)),
                (DOCKER_CUSTOM_HEADERS_ENV@, custom_headers(token@)),
                (DOCKER_BUILDKIT_ENV@, "0"@),
            ],
            strs(c.args@) == strs(args@),
            opt_string_view(c.current_dir) == opt_string_view(current_dir),
    {
        let mut envs: Vec<(String, String)> = Vec::new();
        envs.push((DOCKER_HOST_ENV.to_owned(), docker_host_value(ip, port)));
        envs.push((DOCKER_CUSTOM_HEADERS_ENV.to_owned(), custom_headers_value(token)));
        envs.push((DOCKER_BUILDKIT_ENV.to_owned(), "0".to_owned()));
        assert(string_pairs(envs@) =~= seq![
            (DOCKER_HOST_ENV@, docker_host(ip@, port)),
            (DOCKER_CUSTOM_HEADERS_ENV@, custom_headers(token@)),
            (DOCKER_BUILDKIT_ENV@, "0"@),
        ]);
        DockerComposeCli { program: program.to_owned(), envs, args: clone_strings(args), current_dir }
    }
}

} // verus!
