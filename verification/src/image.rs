//! Where a node gets an image from: from a peer that has it, else from the
//! registry.

use vstd::prelude::*;
use vstd::string::*;
use crate::node::{state_views, NodeState, NodeStateView};
use crate::text::str_eq;

verus! {

/// Whether a node's answer to the question for an image says that it has
/// it: the question was answered, and with at least one image. `listed` is
/// the number of images in the answer, where there was one.
pub fn has_image(listed: Option<usize>) -> (r: bool)
    ensures
        r == (listed matches Some(n) && n > 0),
{
    match listed {
        Some(n) => n > 0,
        None => false,
    }
}

/// Whether node `i` can hand the image on: it is not the node that asks,
/// and it has the image.
pub open spec fn is_source(
    nodes: Seq<NodeStateView>,
    listed: Seq<Option<usize>>,
    expect_name: Seq<char>,
    i: int,
) -> bool {
    &&& 0 <= i < nodes.len()
    &&& i < listed.len()
    &&& nodes[i].node.name != expect_name
    &&& (listed[i] matches Some(n) && n > 0)
}

/// Whether node `i` is the first that can hand the image on.
pub open spec fn first_source(
    nodes: Seq<NodeStateView>,
    listed: Seq<Option<usize>>,
    expect_name: Seq<char>,
    i: int,
) -> bool {
    is_source(nodes, listed, expect_name, i) && forall|j: int|
        0 <= j < i ==> !is_source(nodes, listed, expect_name, j)
}

/// Whether no node can hand the image on.
pub open spec fn no_source(
    nodes: Seq<NodeStateView>,
    listed: Seq<Option<usize>>,
    expect_name: Seq<char>,
) -> bool {
    forall|j: int| !is_source(nodes, listed, expect_name, j)
}

/// Picks the peer to take an image from: the first of the nodes, in their
/// order, that is not the node `expect_name` and has the image. `listed`
/// holds, node by node, the number of images in the node's answer, where it
/// gave one.
pub fn select_has_docker_image_node(
    nodes: &Vec<NodeState>,
    listed: &Vec<Option<usize>>,
    expect_name: &str,
) -> (r: Option<usize>)
    ensures
        match r {
            Some(i) => first_source(state_views(nodes@), listed@, expect_name@, i as int),
            None => no_source(state_views(nodes@), listed@, expect_name@),
        },
{
    let mut i: usize = 0;
    while i < nodes.len() && i < listed.len()
        invariant
            i <= nodes.len(),
            i <= listed.len(),
            forall|j: int| 0 <= j < i ==> !is_source(state_views(nodes@), listed@, expect_name@, j),
        decreases nodes.len() - i,
    {
        proof {
            assert(state_views(nodes@)[i as int] == nodes@[i as int]@);
        }
        if !str_eq(nodes[i].get_node_name(), expect_name) && has_image(listed[i]) {
            return Some(i);
        }
        i += 1;
    }
    None
}

/// Where an image comes from.
#[derive(Debug, Clone, Copy, PartialEq, Eq, Structural)]
pub enum PullPlan {
    /// The node that asks is not known: nothing is pulled.
    Nothing,
    /// From the peer at this position: the image is exported there and
    /// imported here.
    FromPeer(usize),
    /// From the registry.
    FromRegistry,
}

/// Decides where a node gets an image from.
pub fn docker_image_pull_auto(target_known: bool, source: Option<usize>) -> (r: PullPlan)
    ensures
        r == (if !target_known {
            PullPlan::Nothing
        } else {
            match source {
                Some(i) => PullPlan::FromPeer(i),
                None => PullPlan::FromRegistry,
            }
        }),
{
    if !target_known {
        return PullPlan::Nothing;
    }
    match source {
        Some(i) => PullPlan::FromPeer(i),
        None => PullPlan::FromRegistry,
    }
}

} // verus!
