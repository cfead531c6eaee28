//! Small value types shared by server, agent and command line.

use vstd::prelude::*;
use vstd::string::*;
use crate::text::str_eq;

verus! {

/// The role a process runs in.
#[derive(Debug, Clone, Copy, PartialEq, Eq, Structural)]
pub enum RekcodType {
    /// Server and agent in one process.
    Master,
    /// Agent only.
    Agent,
}

/// What the configuration file holds.
#[derive(Debug)]
pub struct RekcodCfg {
    pub host: String,
    pub token: String,
}

/// Liveness of a node, as the store's `sub_key` records it.
#[derive(Debug, Clone, Copy, PartialEq, Eq, Structural)]
pub enum NodeStatus {
    Online,
    Offline,
}

/// The status that a `sub_key` stands for: anything but `online` is offline.
pub open spec fn status_of(sub_key: Seq<char>) -> NodeStatus {
    if sub_key == "online"@ {
        NodeStatus::Online
    } else {
        NodeStatus::Offline
    }
}

impl NodeStatus {
    /// The text written into `sub_key`.
    pub open spec fn text(self) -> Seq<char> {
        match self {
            NodeStatus::Online => "online"@,
            NodeStatus::Offline => "offline"@,
        }
    }

    /// Reads a `sub_key`.
    pub fn from(status: &str) -> (s: NodeStatus)
        ensures
            s == status_of(status@),
    {
        if str_eq(status, "online") {
            NodeStatus::Online
        } else {
            NodeStatus::Offline
        }
    }

    /// The status of a node that is, or is not, alive.
    pub fn from_bool(online: bool) -> (s: NodeStatus)
        ensures
            s == (if online {
                NodeStatus::Online
            } else {
                NodeStatus::Offline
            }),
    {
        if online {
            NodeStatus::Online
        } else {
            NodeStatus::Offline
        }
    }

    /// Whether this is `Online`.
    pub fn is_online(&self) -> (r: bool)
        ensures
            r == (*self == NodeStatus::Online),
    {
        match self {
            NodeStatus::Online => true,
            NodeStatus::Offline => false,
        }
    }

    /// The text written into `sub_key`.
    pub fn as_str(&self) -> (r: &'static str)
        ensures
            r@ == self.text(),
    {
        match self {
            NodeStatus::Online => "online",
            NodeStatus::Offline => "offline",
        }
    }

    /// The text written into `sub_key`, owned.
    pub fn to_string(&self) -> (r: String)
        ensures
            r@ == self.text(),
    {
        self.as_str().to_owned()
    }
}

/// Writing a status and reading it back gives the same status.
pub proof fn lemma_status_round_trip(s: NodeStatus)
    ensures
        status_of(s.text()) == s,
{
    reveal_strlit("online");
    reveal_strlit("offline");
    if s == NodeStatus::Offline {
        assert("offline"@.len() == 7);
        assert("online"@.len() == 6);
    }
}

} // verus!
