//! Where proxied requests go.
//!
//! The server passes `/node/proxy/<tail>` on to the agent of the node that
//! the request names, as `/rekcod.agent<tail>`. An agent passes
//! `/proxy.docker<tail>` on to its local engine, over a socket whose path is
//! written into the host part of the target in hexadecimal.

use vstd::prelude::*;
use vstd::string::*;
use vstd::utf8::encode_utf8;
use crate::constants::{DOCKER_PROXY_PATH, REKCOD_AGENT_PREFIX_PATH};
use crate::node::{node_host, NodeState};
use crate::text::{
    chars_of,
    contains,
    find,
    occurs_at,
    occurs_in,
    opt_view,
    starts_with,
    substring,
};

verus! {

/// Status of an answer to a request that cannot be passed on.
pub const BAD_REQUEST: u16 = 400;

/// Status with which an engine switches protocols.
pub const SWITCHING_PROTOCOLS: u16 = 101;

/// Prefix of the operator route that is passed on to agents.
pub const NODE_PROXY_PREFIX: &'static str = "/node/proxy";

/// Where the engine listens unless `DOCKER_HOST` says otherwise.
pub const DEFAULT_DOCKER_HOST: &'static str = "unix:///var/run/docker.sock";

/// Scheme of a socket address.
pub const UNIX_SCHEME: &'static str = "unix://";

/// Scheme of a named-pipe address.
pub const NAMED_PIPE_SCHEME: &'static str = "net.pipe";

/// The engine's named pipe.
pub const NAMED_PIPE_PATH: &'static str = "//./pipe/docker_engine";

/// Whether `i` is the first position at which `prefix` stands in `input`.
pub open spec fn first_at(input: Seq<char>, prefix: Seq<char>, i: int) -> bool {
    occurs_at(input, prefix, i) && forall|j: int| j < i ==> !occurs_at(input, prefix, j)
}

/// Whether `r` is what follows the first occurrence of `prefix` in `input`,
/// or all of `input` where `prefix` does not occur.
pub open spec fn is_extracted(prefix: Seq<char>, input: Seq<char>, r: Seq<char>) -> bool {
    ||| exists|i: int| first_at(input, prefix, i) && r == input.skip(i + prefix.len())
    ||| (forall|j: int| !occurs_at(input, prefix, j)) && r == input
}

/// What follows the first occurrence of `prefix` in `input`; all of `input`
/// where `prefix` does not occur.
pub fn extract_path(prefix: &str, input: &str) -> (r: String)
    ensures
        is_extracted(prefix@, input@, r@),
{
    let hay = chars_of(input);
    let needle = chars_of(prefix);
    let n = hay.len();
    match find(&hay, &needle) {
        Some(index) => {
            assert(occurs_at(hay@, needle@, index as int));
            let start_index = index + needle.len();
            let r = substring(input, start_index, n);
            proof {
                assert(first_at(input@, prefix@, index as int));
                assert(r@ =~= input@.skip(index + prefix@.len()));
            }
            r
        },
        None => input.to_owned(),
    }
}

/// Where a request for a node is passed on to.
#[derive(Debug)]
pub struct ProxyTarget {
    /// Address of the request at the node's agent.
    pub uri: String,
    /// The shared token, sent along in the token header.
    pub token: String,
}

/// The node that a request names, or the status to answer with where it
/// names none. `node_name` is the node-name header where it is there and
/// readable.
pub fn proxied_node_name<'a>(node_name: Option<&'a str>) -> (r: Result<&'a str, u16>)
    ensures
        match node_name {
            Some(n) => r == Ok::<&str, u16>(n),
            None => r == Err::<&str, u16>(BAD_REQUEST),
        },
{
    match node_name {
        Some(n) => Ok(n),
        None => Err(BAD_REQUEST),
    }
}

/// Decides where a request to the node proxy goes. `path_and_query` is the
/// request's path with its query, `path` the path alone; `node` is what the
/// registry holds for the node that the request names. A request for an
/// unknown node is answered with 400, so as not to tell which nodes exist.
pub fn node_proxy_handler(
    path: &str,
    path_and_query: Option<&str>,
    node: Option<&NodeState>,
    token: &str,
) -> (r: Result<ProxyTarget, u16>)
    ensures
        match node {
            None => r == Err::<ProxyTarget, u16>(BAD_REQUEST),
            Some(n) => r is Ok && r->Ok_0.token@ == token@ && exists|tail: Seq<char>|
                r->Ok_0.uri@ == node_host(n@.node.ip, n@.node.port) + REKCOD_AGENT_PREFIX_PATH@
                    + tail && (match path_and_query {
                    Some(v) => is_extracted(NODE_PROXY_PREFIX@, v@, tail),
                    None => tail == path@,
                }),
        },
{
    let path_query = match path_and_query {
        Some(v) => extract_path(NODE_PROXY_PREFIX, v),
        None => path.to_owned(),
    };
    match node {
        None => Err(BAD_REQUEST),
        Some(n) => {
            let mut uri = n.get_node_agent();
            uri.append(path_query.as_str());
            Ok(ProxyTarget { uri, token: token.to_owned() })
        },
    }
}

/// What an agent passes to its engine: the path and query without the proxy
/// prefix, or `path` as it is where they do not begin with the prefix.
pub open spec fn engine_path(path: Seq<char>, path_and_query: Option<Seq<char>>) -> Seq<char> {
    match path_and_query {
        Some(v) => if DOCKER_PROXY_PATH@.is_prefix_of(v) {
            v.skip(DOCKER_PROXY_PATH@.len() as int)
        } else {
            path
        },
        None => path,
    }
}

/// The path and query that an agent passes to its engine.
pub fn strip_docker_prefix(path: &str, path_and_query: Option<&str>) -> (r: String)
    ensures
        r@ == engine_path(path@, opt_view(path_and_query)),
{
    match path_and_query {
        Some(v) => {
            let hay = chars_of(v);
            let needle = chars_of(DOCKER_PROXY_PATH);
            if starts_with(&hay, &needle) {
                let r = substring(v, needle.len(), hay.len());
                proof {
                    assert(r@ =~= v@.skip(DOCKER_PROXY_PATH@.len() as int));
                }
                r
            } else {
                path.to_owned()
            }
        },
        None => path.to_owned(),
    }
}

/// The lower-case form of an ASCII letter; any other character as it is.
pub open spec fn ascii_lower(c: char) -> char {
    if 'A' <= c && c <= 'Z' {
        ((c as u8) + 32) as char
    } else {
        c
    }
}

/// A text with its ASCII letters in lower case.
pub open spec fn ascii_lowered(s: Seq<char>) -> Seq<char> {
    s.map_values(|c: char| ascii_lower(c))
}

/// Whether a `Connection` header asks for an upgrade: whether it holds
/// `upgrade`, in whatever case.
pub open spec fn asks_upgrade(connection: Option<Seq<char>>) -> bool {
    match connection {
        Some(v) => occurs_in(ascii_lowered(v), "upgrade"@),
        None => false,
    }
}

/// Whether a request asks for an upgrade. `connection` is its `Connection`
/// header where it is there and readable.
pub fn is_upgrade_request(connection: Option<&str>) -> (r: bool)
    ensures
        r == asks_upgrade(opt_view(connection)),
{
    match connection {
        None => false,
        Some(v) => {
            let chars = chars_of(v);
            let mut lowered: Vec<char> = Vec::new();
            let mut i: usize = 0;
            while i < chars.len()
                invariant
                    i <= chars.len(),
                    lowered@.len() == i,
                    forall|j: int| 0 <= j < i ==> lowered@[j] == ascii_lower(chars@[j]),
                decreases chars.len() - i,
            {
                let c = chars[i];
                let l = if 'A' <= c && c <= 'Z' {
                    ((c as u8) + 32) as char
                } else {
                    c
                };
                lowered.push(l);
                i += 1;
            }
            proof {
                assert(lowered@ =~= ascii_lowered(v@));
            }
            let needle = chars_of("upgrade");
            let r = contains(&lowered, &needle);
            r
        },
    }
}

/// What an agent does with the engine's answer to a proxied request.
#[derive(Debug, Clone, Copy, PartialEq, Eq, Structural)]
pub enum ProxyOutcome {
    /// The answer is passed back as it is.
    Relay,
    /// Both sides have switched protocols: the two connections are joined
    /// and bytes are copied both ways until one side closes.
    Splice,
}

/// Decides what to do with the engine's answer: the connections are joined
/// exactly if the request asked for an upgrade and the engine switched
/// protocols.
pub fn proxy_outcome(upgrade_requested: bool, upstream_status: u16) -> (r: ProxyOutcome)
    ensures
        r == (if upgrade_requested && upstream_status == SWITCHING_PROTOCOLS {
            ProxyOutcome::Splice
        } else {
            ProxyOutcome::Relay
        }),
{
    if upgrade_requested && upstream_status == SWITCHING_PROTOCOLS {
        ProxyOutcome::Splice
    } else {
        ProxyOutcome::Relay
    }
}

/// The character of a hexadecimal digit, in lower case.
pub open spec fn hex_digit(n: int) -> char {
    "0123456789abcdef"@[n]
}

/// Bytes in hexadecimal: two lower-case digits for each byte, the high one
/// first.
pub open spec fn hex_text(bytes: Seq<u8>) -> Seq<char>
    decreases bytes.len(),
{
    if bytes.len() == 0 {
        Seq::empty()
    } else {
        hex_text(bytes.drop_last()) + seq![
            hex_digit(bytes.last() as int / 16),
            hex_digit(bytes.last() as int % 16),
        ]
    }
}

/// Calls `hex::encode`, which writes each byte as two lower-case
/// hexadecimal digits, the high one first.
#[verifier::external_body]
fn hex_encode(data: &[u8]) -> (r: String)
    ensures
        r@ == hex_text(data@),
{
    hex::encode(data)
}

/// Why an agent cannot reach its engine.
#[derive(Debug, Clone, Copy, PartialEq, Eq, Structural)]
pub enum ProxyError {
    /// `DOCKER_HOST` does not name a socket.
    UnsupportedDockerHost,
}

/// How an agent reaches its local engine.
#[derive(Debug, Clone, Copy, PartialEq, Eq, Structural)]
pub enum DockerProxyClient {
    /// Over a socket in the file system.
    Unix,
    /// Over a named pipe.
    Windows,
}

/// The address of a socket or pipe as a request target: the scheme, the
/// path in hexadecimal as host, port 0, then the path and query.
pub open spec fn socket_uri(scheme: Seq<char>, socket: Seq<u8>, path_query: Seq<char>) -> Seq<
    char,
> {
    scheme + hex_text(socket) + ":0"@ + path_query
}

/// The target of a request that an agent passes to its engine, or why
/// there is none. Over a socket, `docker_host` must begin with `unix://`,
/// and what follows is the socket's path.
pub open spec fn engine_uri(
    client: DockerProxyClient,
    path_query: Seq<char>,
    docker_host: Option<Seq<char>>,
) -> Result<Seq<char>, ProxyError> {
    match client {
        DockerProxyClient::Windows => Ok(
            socket_uri(NAMED_PIPE_SCHEME@ + "://"@, encode_utf8(NAMED_PIPE_PATH@), path_query),
        ),
        DockerProxyClient::Unix => {
            let host = match docker_host {
                Some(h) => h,
                None => DEFAULT_DOCKER_HOST@,
            };
            if UNIX_SCHEME@.is_prefix_of(host) {
                Ok(
                    socket_uri(
                        UNIX_SCHEME@,
                        encode_utf8(host.skip(UNIX_SCHEME@.len() as int)),
                        path_query,
                    ),
                )
            } else {
                Err(ProxyError::UnsupportedDockerHost)
            }
        },
    }
}

impl DockerProxyClient {
    /// The client for this kind of machine.
    pub fn new(windows: bool) -> (c: DockerProxyClient)
        ensures
            c == (if windows {
                DockerProxyClient::Windows
            } else {
                DockerProxyClient::Unix
            }),
    {
        if windows {
            DockerProxyClient::Windows
        } else {
            DockerProxyClient::Unix
        }
    }

    /// The target of a request to the engine. `docker_host` is the value of
    /// `DOCKER_HOST`, where it is set.
    pub fn uri(&self, path_query: &str, docker_host: Option<&str>) -> (r: Result<
        String,
        ProxyError,
    >)
        ensures
            match engine_uri(*self, path_query@, opt_view(docker_host)) {
                Ok(u) => r is Ok && r->Ok_0@ == u,
                Err(e) => r == Err::<String, ProxyError>(e),
            },
    {
        match self {
            DockerProxyClient::Windows => {
                let mut uri = NAMED_PIPE_SCHEME.to_owned();
                uri.append("://");
                uri.append(hex_encode(NAMED_PIPE_PATH.as_bytes()).as_str());
                uri.append(":0");
                uri.append(path_query);
                Ok(uri)
            },
            DockerProxyClient::Unix => {
                let host = match docker_host {
                    Some(h) => h,
                    None => DEFAULT_DOCKER_HOST,
                };
                let chars = chars_of(host);
                let scheme = chars_of(UNIX_SCHEME);
                if !starts_with(&chars, &scheme) {
                    return Err(ProxyError::UnsupportedDockerHost);
                }
                let client_addr = substring(host, scheme.len(), chars.len());
                let mut uri = UNIX_SCHEME.to_owned();
                uri.append(hex_encode(client_addr.as_str().as_bytes()).as_str());
                uri.append(":0");
                uri.append(path_query);
                proof {
                    assert(client_addr@ =~= host@.skip(UNIX_SCHEME@.len() as int));
                }
                Ok(uri)
            },
        }
    }
}

/// A request as an agent passes it to its engine.
#[derive(Debug)]
pub struct EngineRequest {
    /// The target at the engine's socket or pipe.
    pub uri: String,
    /// Whether the request asks for an upgrade, so that the answer may have
    /// to be followed by joining the two connections.
    pub upgrade: bool,
}

/// Decides how an agent passes a request on to its engine: the proxy prefix
/// is taken off, the target is the engine's socket or pipe, and a request
/// for an upgrade is marked. Where the engine cannot be addressed the
/// request is answered with 400.
pub fn docker_proxy_handler(
    client: &DockerProxyClient,
    path: &str,
    path_and_query: Option<&str>,
    connection: Option<&str>,
    docker_host: Option<&str>,
) -> (r: Result<EngineRequest, u16>)
    ensures
        match engine_uri(
            *client,
            engine_path(path@, opt_view(path_and_query)),
            opt_view(docker_host),
        ) {
            Ok(u) => r is Ok && r->Ok_0.uri@ == u && r->Ok_0.upgrade == asks_upgrade(
                opt_view(connection),
            ),
            Err(_) => r == Err::<EngineRequest, u16>(BAD_REQUEST),
        },
{
    let path_query = strip_docker_prefix(path, path_and_query);
    let upgrade = is_upgrade_request(connection);
    match client.uri(path_query.as_str(), docker_host) {
        Ok(uri) => Ok(EngineRequest { uri, upgrade }),
        Err(_) => Err(BAD_REQUEST),
    }
}

} // verus!
