//! Paths, header names and limits that the server, the agents and the
//! command line agree on.

use vstd::prelude::*;

verus! {

/// Prefix under which an agent passes requests on to its local engine.
pub const DOCKER_PROXY_PATH: &'static str = "/proxy.docker";

/// Prefix of an agent's own endpoints.
pub const REKCOD_AGENT_PREFIX_PATH: &'static str = "/rekcod.agent";

/// Prefix of the channel that agents use towards the server.
pub const REKCOD_SERVER_PREFIX_PATH: &'static str = "/rekcod.server";

/// Prefix of the operator endpoints.
pub const REKCOD_API_PREFIX_PATH: &'static str = "/api";

/// Where the server keeps its data unless told otherwise.
pub const REKCOD_DATA_DEFAULT_PATH: &'static str = "/home/rekcod/data";

/// Directory of the application bundles below the data path.
pub const REKCOD_DATA_APP_ROOT: &'static str = "app";

/// Where the configuration is kept unless told otherwise.
pub const REKCOD_CONFIG_DEFAULT_PATH: &'static str = "/etc/rekcod";

/// Name of the configuration file.
pub const REKCOD_CONFIG_FILE_NAME: &'static str = "rekcod.json";

/// Header that names the node a proxied request is meant for.
pub const REKCOD_API_NODE_NAME_HEADER_KEY: &'static str = "X-NODE-NAME";

/// Header that carries the shared token.
pub const TOEKN_HEADER_KEY: &'static str = "X-REKCOD-TOKEN";

/// Store module of the node rows.
pub const MODULE_NODE: &'static str = "node";

/// Store module of the deployment rows.
pub const MODULE_APP: &'static str = "app";

/// Store module of the environment row.
pub const MODULE_ENV: &'static str = "env";

/// Key of the one environment row.
pub const ENV_GLOBAL_KEY: &'static str = "global";

/// A node that has not been heard of for longer than this is offline.
pub const HEARTBEAT_TIMEOUT_NANOS: u64 = 15_000_000_000;

/// Seconds between two liveness sweeps.
pub const MONITOR_INTERVAL_SECS: u64 = 5;

/// Most connections that the store's pool holds.
pub const DB_MAX_CONNECTIONS: u32 = 50;

/// Fewest connections that the store's pool holds.
pub const DB_MIN_CONNECTIONS: u32 = 3;

/// Seconds after which waiting for a connection of the pool is given up.
pub const DB_ACQUIRE_TIMEOUT_SECS: u64 = 10;

/// Nanoseconds in a second.
pub const NANOS_PER_SEC: u64 = 1_000_000_000;

} // verus!
