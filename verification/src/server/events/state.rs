//! The shape in which the whole graph is sent to web clients.
use vstd::prelude::*;

use crate::pipewire::node::{LinkValueView, NodeValueView};
use crate::pipewire::state::{keys_of, StateValue as GraphValue};
use crate::server::events::node::{lists, lists_in_order, shows_node, LinkValue, NodeRecordView, NodeValue};

verus! {

broadcast use vstd::std_specs::hash::group_hash_axioms;

/// Every node and every link of the graph, as lists.
#[derive(Debug, PartialEq)]
pub struct StateValue {
    pub nodes: Vec<NodeValue>,
    pub links: Vec<LinkValue>,
}

/// `records` shows the nodes of `nodes`, each once, in the order of `keys`.
pub open spec fn shows_nodes_in_order(
    records: Seq<NodeRecordView>,
    nodes: Map<u32, NodeValueView>,
    keys: Seq<u32>,
) -> bool {
    &&& keys.no_duplicates()
    &&& keys.to_set() == nodes.dom()
    &&& keys.len() == records.len()
    &&& forall|i: int| 0 <= i < records.len() ==> shows_node(#[trigger] records[i], nodes[keys[i]])
}

/// `records` shows the nodes of `nodes`, each once, in some order.
pub open spec fn shows_nodes(records: Seq<NodeRecordView>, nodes: Map<u32, NodeValueView>) -> bool {
    exists|keys: Seq<u32>| shows_nodes_in_order(records, nodes, keys)
}

impl StateValue {
    /// The nodes and links of the graph, each listed once, in the order the
    /// maps yield them.
    pub fn from(value: GraphValue) -> (r: StateValue)
        ensures
            shows_nodes(r.nodes@.map_values(|n: NodeValue| n@), value@.nodes),
            lists(r.links@.map_values(|l: LinkValue| l@), value@.links),
    {
        let ghost source = value@;
        let node_keys = keys_of(&value.nodes);
        let mut nodes: Vec<NodeValue> = Vec::new();
        let mut i: usize = 0;
        while i < node_keys.len()
            invariant
                source == value@,
                node_keys@.to_set() == value.nodes@.dom(),
                i <= node_keys@.len(),
                nodes@.len() == i,
                forall|j: int| 0 <= j < i ==> shows_node(#[trigger] nodes@[j]@, source.nodes[node_keys@[j]]),
            decreases node_keys@.len() - i,
        {
            let k = node_keys[i];
            assert(node_keys@.to_set().contains(k));
            match value.nodes.get(&k) {
                Some(n) => {
                    nodes.push(NodeValue::from(n.value()));
                },
                Option::None => {},
            }
            i = i + 1;
        }
        let link_keys = keys_of(&value.links);
        let mut links: Vec<LinkValue> = Vec::new();
        let mut i: usize = 0;
        while i < link_keys.len()
            invariant
                source == value@,
                link_keys@.to_set() == value.links@.dom(),
                i <= link_keys@.len(),
                links@.len() == i,
                forall|j: int| 0 <= j < i ==> #[trigger] links@[j]@ == source.links[link_keys@[j]],
            decreases link_keys@.len() - i,
        {
            let k = link_keys[i];
            assert(link_keys@.to_set().contains(k));
            match value.links.get(&k) {
                Some(l) => {
                    links.push(LinkValue::from(l.value()));
                },
                Option::None => {},
            }
            i = i + 1;
        }
        let r = StateValue { nodes, links };
        assert(source.nodes.dom() =~= value.nodes@.dom());
        assert(source.links.dom() =~= value.links@.dom());
        assert(shows_nodes_in_order(r.nodes@.map_values(|n: NodeValue| n@), source.nodes, node_keys@));
        assert(lists_in_order(r.links@.map_values(|l: LinkValue| l@), source.links, link_keys@));
        r
    }
}

} // verus!
