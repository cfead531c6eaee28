//! The endpoints that tell of nodes.

use vstd::prelude::*;
use crate::api::resp::{ApiJsonResponse, NodeItemResponse, NodeItemResponseView};
use crate::node::{node_item, state_views, NodeState, NodeStateView};

verus! {

/// The views of a sequence of node items.
pub open spec fn item_views(v: Seq<NodeItemResponse>) -> Seq<NodeItemResponseView> {
    v.map_values(|i: NodeItemResponse| i@)
}

/// What operators are told of the states, one item for each.
pub open spec fn node_items(states: Seq<NodeStateView>) -> Seq<NodeItemResponseView> {
    states.map_values(|s: NodeStateView| node_item(s.node))
}

/// Answers the question for the nodes: one item for each state, in order,
/// without the tokens.
pub fn list_node(nodes: &Vec<NodeState>) -> (r: ApiJsonResponse<Vec<NodeItemResponse>>)
    ensures
        r.spec_code() == 0,
        r.spec_msg() == Seq::<char>::empty(),
        r.spec_data() is Some,
        item_views(r.spec_data()->Some_0@) == node_items(state_views(nodes@)),
{
    let mut items: Vec<NodeItemResponse> = Vec::new();
    let mut i: usize = 0;
    while i < nodes.len()
        invariant
            i <= nodes.len(),
            items@.len() == i,
            forall|j: int| 0 <= j < i ==> (#[trigger] items@[j])@ == node_item(nodes@[j]@.node),
        decreases nodes.len() - i,
    {
        items.push(nodes[i].get_node().clone().into_response());
        i += 1;
    }
    proof {
        assert(item_views(items@) =~= node_items(state_views(nodes@)));
    }
    ApiJsonResponse::success(items)
}

/// Answers the question for one node: its item, or success without a
/// payload where the node is not known.
pub fn info_node(node: Option<&NodeState>) -> (r: ApiJsonResponse<NodeItemResponse>)
    ensures
        r.spec_code() == 0,
        r.spec_msg() == Seq::<char>::empty(),
        match node {
            Some(s) => r.spec_data() is Some && r.spec_data()->Some_0@ == node_item(s@.node),
            None => r.spec_data() is None,
        },
{
    match node {
        Some(s) => ApiJsonResponse::success_optional(Some(s.get_node().clone().into_response())),
        None => ApiJsonResponse::success_optional(None),
    }
}

} // verus!
