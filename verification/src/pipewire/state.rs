//! The whole graph: every node and link by id, which node each port
//! belongs to, and the announcements of nodes and links as they appear.
use std::collections::HashMap;
use tokio::sync::broadcast::Receiver;
use vstd::prelude::*;

use crate::broadcast::Chan;
use crate::pipewire::node::{
    lemma_link_diff_settles, lemma_link_diff_with_itself, lemma_node_diff_settles,
    lemma_node_diff_with_itself, diffed_link, diffed_node, link_diff_events, link_state_events, node_diff_events,
    node_state_events, port_event, remove_port_events, Link, LinkChangeEventView, LinkState,
    LinkStateView, LinkValue, LinkValueView, Node, NodeChangeEventView, NodeState, NodeStateView,
    NodeValue, NodeValueView, Port, PortView,
};

verus! {

broadcast use vstd::std_specs::hash::group_hash_axioms;

/// A node or a link that has appeared in the graph.
pub enum StateChangeEvent {
    AddNode(Node),
    AddLink(Link),
}

/// An appearance as mathematical data: the value the newcomer had.
pub enum StateChangeEventView {
    AddNode(NodeValueView),
    AddLink(LinkValueView),
}

impl View for StateChangeEvent {
    type V = StateChangeEventView;

    open spec fn view(&self) -> StateChangeEventView {
        match self {
            StateChangeEvent::AddNode(n) => StateChangeEventView::AddNode(n@),
            StateChangeEvent::AddLink(l) => StateChangeEventView::AddLink(l@),
        }
    }
}

impl Clone for StateChangeEvent {
    fn clone(&self) -> (r: Self)
        ensures
            r@ == self@,
    {
        match self {
            StateChangeEvent::AddNode(n) => StateChangeEvent::AddNode(n.clone()),
            StateChangeEvent::AddLink(l) => StateChangeEvent::AddLink(l.clone()),
        }
    }
}

/// Every node and every link by id.
pub struct StateValue {
    pub nodes: HashMap<u32, Node>,
    pub links: HashMap<u32, Link>,
}

/// The nodes and links of a graph as mathematical data.
pub struct StateValueView {
    pub nodes: Map<u32, NodeValueView>,
    pub links: Map<u32, LinkValueView>,
}

/// The views of the values of a map.
pub open spec fn map_views<V: View>(m: Map<u32, V>) -> Map<u32, V::V> {
    m.map_values(|v: V| v@)
}

impl View for StateValue {
    type V = StateValueView;

    open spec fn view(&self) -> StateValueView {
        StateValueView { nodes: map_views(self.nodes@), links: map_views(self.links@) }
    }
}

/// The keys of a map, each once.
pub(crate) fn keys_of<V>(m: &HashMap<u32, V>) -> (r: Vec<u32>)
    ensures
        r@.to_set() == m@.dom(),
        r@.no_duplicates(),
        r@.len() == m@.dom().len(),
{
    let mut r: Vec<u32> = Vec::new();
    for k in it: m.keys()
        invariant
            r@ == it.seq().take(it.index()).unref(),
            it.seq().unref().to_set() == m@.dom(),
        ensures
            r@ == it.seq().unref(),
    {
        r.push(*k);
    }
    r
}

/// A value with a channel that can be copied with its view and the record
/// of its channel kept.
pub trait Duplicate: View + Sized {
    /// What a change handed to the channel is, as mathematical data.
    type Change;

    /// The changes handed to the value's channel, oldest first.
    spec fn record(&self) -> Seq<Self::Change>;

    /// A copy with the same view and record.
    fn duplicate(&self) -> (r: Self)
        ensures
            r@ == self@,
            r.record() == self.record(),
    ;
}

impl Duplicate for Node {
    type Change = NodeChangeEventView;

    open spec fn record(&self) -> Seq<NodeChangeEventView> {
        self.sent()
    }

    fn duplicate(&self) -> (r: Self) {
        self.clone()
    }
}

impl Duplicate for Link {
    type Change = LinkChangeEventView;

    open spec fn record(&self) -> Seq<LinkChangeEventView> {
        self.sent()
    }

    fn duplicate(&self) -> (r: Self) {
        self.clone()
    }
}

/// The records of the values of a map.
pub open spec fn map_records<V: Duplicate>(m: Map<u32, V>) -> Map<u32, Seq<V::Change>> {
    m.map_values(|v: V| v.record())
}

fn copy_map<V: Duplicate>(m: &HashMap<u32, V>) -> (r: HashMap<u32, V>)
    ensures
        map_views(r@) == map_views(m@),
        map_records(r@) == map_records(m@),
{
    let keys = keys_of(m);
    let mut r: HashMap<u32, V> = HashMap::new();
    let mut i: usize = 0;
    while i < keys.len()
        invariant
            keys@.to_set() == m@.dom(),
            i <= keys@.len(),
            forall|j: u32| #[trigger] r@.contains_key(j) <==> keys@.take(i as int).contains(j),
            forall|j: u32| #[trigger] r@.contains_key(j) ==> m@.contains_key(j) && r@[j]@ == m@[j]@
                && r@[j].record() == m@[j].record(),
        decreases keys@.len() - i,
    {
        let k = keys[i];
        assert(keys@.to_set().contains(k));
        assert(keys@.take(i + 1) =~= keys@.take(i as int).push(k));
        match m.get(&k) {
            Some(v) => {
                r.insert(k, v.duplicate());
            },
            Option::None => {},
        }
        proof {
            let before = keys@.take(i as int);
            let after = keys@.take(i + 1);
            assert forall|j: u32| #[trigger] r@.contains_key(j) <==> after.contains(j) by {
                if after.contains(j) {
                    let idx = choose|idx: int| 0 <= idx < after.len() && after[idx] == j;
                    if idx < i {
                        assert(before[idx] == j);
                    }
                }
                if before.contains(j) {
                    let idx = choose|idx: int| 0 <= idx < before.len() && before[idx] == j;
                    assert(after[idx] == j);
                }
                assert(after[i as int] == k);
            }
        }
        i = i + 1;
    }
    assert(keys@.take(i as int) =~= keys@);
    assert forall|j: u32| r@.contains_key(j) <==> m@.contains_key(j) by {
        if m@.contains_key(j) {
            assert(keys@.to_set().contains(j));
        }
    }
    assert(map_views(r@) =~= map_views(m@));
    assert(map_records(r@) =~= map_records(m@));
    r
}

impl Clone for StateValue {
    /// A copy of every node and link value; the copies have sending ends on
    /// the same channels, and later changes do not reach their values.
    fn clone(&self) -> (r: Self)
        ensures
            r@ == self@,
            map_records(r.nodes@) == map_records(self.nodes@),
            map_records(r.links@) == map_records(self.links@),
    {
        let nodes = copy_map(&self.nodes);
        let links = copy_map(&self.links);
        StateValue { nodes, links }
    }
}

/// The graph as mathematical data: nodes and links by id, what was handed to
/// the channel of each of them, the node that each known port belongs to,
/// and what was handed to the graph's own channel.
pub struct StateView {
    pub nodes: Map<u32, NodeValueView>,
    pub node_sent: Map<u32, Seq<NodeChangeEventView>>,
    pub links: Map<u32, LinkValueView>,
    pub link_sent: Map<u32, Seq<LinkChangeEventView>>,
    pub port_map: Map<u32, u32>,
    pub announced: Seq<StateChangeEventView>,
}

impl StateView {
    /// The graph with another port map.
    pub open spec fn with_port_map(self, port_map: Map<u32, u32>) -> StateView {
        StateView { port_map, ..self }
    }

    /// The graph where a known node `id` takes the value `value` and `events`
    /// are handed to its channel; unchanged if the node is unknown.
    pub open spec fn update_node(
        self,
        id: u32,
        value: NodeValueView,
        events: Seq<NodeChangeEventView>,
    ) -> StateView {
        if self.nodes.contains_key(id) {
            StateView {
                nodes: self.nodes.insert(id, value),
                node_sent: self.node_sent.insert(id, self.node_sent[id] + events),
                ..self
            }
        } else {
            self
        }
    }

    /// The graph where a known link `id` takes the value `value` and `events`
    /// are handed to its channel; unchanged if the link is unknown.
    pub open spec fn update_link(
        self,
        id: u32,
        value: LinkValueView,
        events: Seq<LinkChangeEventView>,
    ) -> StateView {
        if self.links.contains_key(id) {
            StateView {
                links: self.links.insert(id, value),
                link_sent: self.link_sent.insert(id, self.link_sent[id] + events),
                ..self
            }
        } else {
            self
        }
    }

    /// The graph after news of `node`: a known node takes over its name,
    /// direction and state and its channel gets the differences; an unknown
    /// one is added with a fresh channel and its appearance goes to the
    /// graph's channel.
    pub open spec fn after_change_node(self, node: NodeValueView) -> StateView {
        if self.nodes.contains_key(node.id) {
            self.update_node(
                node.id,
                diffed_node(self.nodes[node.id], node),
                node_diff_events(self.nodes[node.id], node),
            )
        } else {
            StateView {
                nodes: self.nodes.insert(node.id, node),
                node_sent: self.node_sent.insert(node.id, Seq::empty()),
                announced: self.announced.push(StateChangeEventView::AddNode(node)),
                ..self
            }
        }
    }

    /// The graph after news of `link`, as for nodes.
    pub open spec fn after_change_link(self, link: LinkValueView) -> StateView {
        if self.links.contains_key(link.id) {
            self.update_link(
                link.id,
                diffed_link(self.links[link.id], link),
                link_diff_events(self.links[link.id], link),
            )
        } else {
            StateView {
                links: self.links.insert(link.id, link),
                link_sent: self.link_sent.insert(link.id, Seq::empty()),
                announced: self.announced.push(StateChangeEventView::AddLink(link)),
                ..self
            }
        }
    }

    /// The graph without node `id`.
    pub open spec fn without_node(self, id: u32) -> StateView {
        StateView { nodes: self.nodes.remove(id), node_sent: self.node_sent.remove(id), ..self }
    }

    /// The graph without link `id`.
    pub open spec fn without_link(self, id: u32) -> StateView {
        StateView { links: self.links.remove(id), link_sent: self.link_sent.remove(id), ..self }
    }

    /// The graph after a known node takes over `state`; its channel gets the
    /// state if it differs.
    pub open spec fn after_node_state(self, id: u32, state: NodeStateView) -> StateView {
        self.update_node(
            id,
            self.nodes[id].with_state(state),
            node_state_events(self.nodes[id].state, state),
        )
    }

    /// The graph after a known node stores `port`; its channel gets the port
    /// as added or modified.
    pub open spec fn after_node_port(self, id: u32, port: PortView) -> StateView {
        self.update_node(
            id,
            self.nodes[id].with_ports(self.nodes[id].ports.insert(port.id, port)),
            seq![port_event(self.nodes[id], port)],
        )
    }

    /// The graph after a known node drops port `port_id`; its channel gets the
    /// removal if it had the port.
    pub open spec fn after_remove_node_port(self, id: u32, port_id: u32) -> StateView {
        self.update_node(
            id,
            self.nodes[id].with_ports(self.nodes[id].ports.remove(port_id)),
            remove_port_events(self.nodes[id], port_id),
        )
    }

    /// The graph after a known link takes over `state`; its channel gets the
    /// state if it differs.
    pub open spec fn after_link_state(self, id: u32, state: LinkStateView) -> StateView {
        self.update_link(
            id,
            self.links[id].with_state(state),
            link_state_events(self.links[id].state, state),
        )
    }
}

/// Every node and every link is stored under its own id.
pub open spec fn keyed_by_id(s: StateView) -> bool {
    &&& forall|k: u32| #[trigger] s.nodes.contains_key(k) ==> s.nodes[k].id == k
    &&& forall|k: u32| #[trigger] s.links.contains_key(k) ==> s.links[k].id == k
}

/// The nodes and links of the graph, each stored under its own id.
struct Graph {
    nodes: HashMap<u32, Node>,
    links: HashMap<u32, Link>,
}

impl Graph {
    #[verifier::type_invariant]
    spec fn stored_by_id(self) -> bool {
        &&& forall|k: u32| #[trigger] self.nodes@.contains_key(k) ==> self.nodes@[k]@.id == k
        &&& forall|k: u32| #[trigger] self.links@.contains_key(k) ==> self.links@[k]@.id == k
    }

    /// Takes node `id` out, if it is there.
    fn take_node(&mut self, id: u32) -> (r: Option<Node>)
        ensures
            final(self).nodes@ == old(self).nodes@.remove(id),
            final(self).links@ == old(self).links@,
            r == (if old(self).nodes@.contains_key(id) {
                Some(old(self).nodes@[id])
            } else {
                Option::<Node>::None
            }),
            r matches Some(n) ==> n@.id == id,
    {
        proof {
            use_type_invariant(&*self);
        }
        let mut nodes = HashMap::new();
        std::mem::swap(&mut nodes, &mut self.nodes);
        let r = nodes.remove(&id);
        self.nodes = nodes;
        r
    }

    /// Stores `node` under its id.
    fn put_node(&mut self, id: u32, node: Node)
        requires
            node@.id == id,
        ensures
            final(self).nodes@ == old(self).nodes@.insert(id, node),
            final(self).links@ == old(self).links@,
    {
        proof {
            use_type_invariant(&*self);
        }
        let mut nodes = HashMap::new();
        std::mem::swap(&mut nodes, &mut self.nodes);
        nodes.insert(id, node);
        self.nodes = nodes;
    }

    /// Takes link `id` out, if it is there.
    fn take_link(&mut self, id: u32) -> (r: Option<Link>)
        ensures
            final(self).links@ == old(self).links@.remove(id),
            final(self).nodes@ == old(self).nodes@,
            r == (if old(self).links@.contains_key(id) {
                Some(old(self).links@[id])
            } else {
                Option::<Link>::None
            }),
            r matches Some(l) ==> l@.id == id,
    {
        proof {
            use_type_invariant(&*self);
        }
        let mut links = HashMap::new();
        std::mem::swap(&mut links, &mut self.links);
        let r = links.remove(&id);
        self.links = links;
        r
    }

    /// Stores `link` under its id.
    fn put_link(&mut self, id: u32, link: Link)
        requires
            link@.id == id,
        ensures
            final(self).links@ == old(self).links@.insert(id, link),
            final(self).nodes@ == old(self).nodes@,
    {
        proof {
            use_type_invariant(&*self);
        }
        let mut links = HashMap::new();
        std::mem::swap(&mut links, &mut self.links);
        links.insert(id, link);
        self.links = links;
    }

    /// A copy of every node and link, with the same values and records.
    fn copy(&self) -> (r: StateValue)
        ensures
            map_views(r.nodes@) == map_views(self.nodes@),
            map_records(r.nodes@) == map_records(self.nodes@),
            map_views(r.links@) == map_views(self.links@),
            map_records(r.links@) == map_records(self.links@),
    {
        StateValue { nodes: copy_map(&self.nodes), links: copy_map(&self.links) }
    }
}

/// The graph, the port map, and the channel on which appearances are
/// broadcast. Every node and link is stored under its own id.
pub struct State {
    graph: Graph,
    port_map: HashMap<u32, u32>,
    broadcast: Chan<StateChangeEvent>,
}

impl View for State {
    type V = StateView;

    closed spec fn view(&self) -> StateView {
        StateView {
            nodes: map_views(self.graph.nodes@),
            node_sent: map_records(self.graph.nodes@),
            links: map_views(self.graph.links@),
            link_sent: map_records(self.graph.links@),
            port_map: self.port_map@,
            announced: self.broadcast.log(),
        }
    }
}

impl State {
    /// Every node and link of the graph is stored under its own id.
    pub(crate) fn keyed(&self)
        ensures
            keyed_by_id(self@),
    {
        proof {
            use_type_invariant(&self.graph);
        }
    }

    /// An empty graph.
    pub fn new() -> (r: State)
        ensures
            r@.nodes == Map::<u32, NodeValueView>::empty(),
            r@.node_sent == Map::<u32, Seq<NodeChangeEventView>>::empty(),
            r@.links == Map::<u32, LinkValueView>::empty(),
            r@.link_sent == Map::<u32, Seq<LinkChangeEventView>>::empty(),
            r@.port_map == Map::<u32, u32>::empty(),
            r@.announced == Seq::<StateChangeEventView>::empty(),
            keyed_by_id(r@),
    {
        let r = State {
            graph: Graph { nodes: HashMap::new(), links: HashMap::new() },
            port_map: HashMap::new(),
            broadcast: Chan::new(),
        };
        assert(map_views(r.graph.nodes@) =~= Map::empty());
        assert(map_records(r.graph.nodes@) =~= Map::empty());
        assert(map_views(r.graph.links@) =~= Map::empty());
        assert(map_records(r.graph.links@) =~= Map::empty());
        r
    }

    /// Takes in news of a node: a known node takes over its name, direction
    /// and state and broadcasts the differences; an unknown one is added and
    /// its appearance broadcast on the graph's channel. Hands back the graph.
    pub fn change_node(&mut self, node: NodeValue) -> (r: &Self)
        ensures
            *r == *final(self),
            final(self)@ == old(self)@.after_change_node(node@),
            keyed_by_id(old(self)@),
            keyed_by_id(final(self)@),
    {
        self.keyed();
        let ghost news = node@;
        let id = node.id;
        match self.graph.take_node(id) {
            Some(mut stored) => {
                stored.apply_diff(node);
                self.graph.put_node(id, stored);
            },
            Option::None => {
                let fresh = Node::new(node);
                let announced = fresh.clone();
                self.graph.put_node(id, fresh);
                self.broadcast.send(StateChangeEvent::AddNode(announced));
            },
        }
        assert(map_views(self.graph.nodes@) =~= old(self)@.after_change_node(news).nodes);
        assert(map_records(self.graph.nodes@) =~= old(self)@.after_change_node(news).node_sent);
        self.keyed();
        &*self
    }

    /// A copy of node `node_id`, if it is known, with a sending end on its
    /// channel; later changes of the graph do not reach the copy's value.
    pub fn get_node(&self, node_id: u32) -> (r: Option<Node>)
        ensures
            keyed_by_id(self@),
            match r {
                Some(n) => self@.nodes.contains_key(node_id) && n@ == self@.nodes[node_id]
                    && n.sent() == self@.node_sent[node_id],
                Option::None => !self@.nodes.contains_key(node_id),
            },
    {
        self.keyed();
        match self.graph.nodes.get(&node_id) {
            Some(n) => Some(n.clone()),
            Option::None => Option::None,
        }
    }

    /// Forgets node `node_id`, if it was known, after broadcasting its
    /// removal on its channel; hands back the node as it leaves.
    pub fn remove_node(&mut self, node_id: u32) -> (r: Option<Node>)
        ensures
            final(self)@ == old(self)@.without_node(node_id),
            keyed_by_id(old(self)@),
            keyed_by_id(final(self)@),
            match r {
                Some(n) => old(self)@.nodes.contains_key(node_id) && n@ == old(self)@.nodes[node_id]
                    && n.sent() == old(self)@.node_sent[node_id].push(NodeChangeEventView::Remove),
                Option::None => !old(self)@.nodes.contains_key(node_id),
            },
    {
        self.keyed();
        let removed = self.graph.take_node(node_id);
        assert(map_views(self.graph.nodes@) =~= old(self)@.nodes.remove(node_id));
        assert(map_records(self.graph.nodes@) =~= old(self)@.node_sent.remove(node_id));
        let r = match removed {
            Some(mut node) => {
                node.remove();
                Some(node)
            },
            Option::None => Option::None,
        };
        self.keyed();
        r
    }

    /// Takes in news of a link: a known link takes over its endpoints and
    /// state and broadcasts the differences; an unknown one is added and its
    /// appearance broadcast on the graph's channel. Hands back the graph.
    pub fn change_link(&mut self, link: LinkValue) -> (r: &Self)
        ensures
            *r == *final(self),
            final(self)@ == old(self)@.after_change_link(link@),
            keyed_by_id(old(self)@),
            keyed_by_id(final(self)@),
    {
        self.keyed();
        let ghost news = link@;
        let id = link.id;
        match self.graph.take_link(id) {
            Some(mut stored) => {
                stored.apply_diff(link);
                self.graph.put_link(id, stored);
            },
            Option::None => {
                let fresh = Link::new(link);
                let announced = fresh.clone();
                self.graph.put_link(id, fresh);
                self.broadcast.send(StateChangeEvent::AddLink(announced));
            },
        }
        assert(map_views(self.graph.links@) =~= old(self)@.after_change_link(news).links);
        assert(map_records(self.graph.links@) =~= old(self)@.after_change_link(news).link_sent);
        self.keyed();
        &*self
    }

    /// A copy of link `link_id`, which must be known, with a sending end on
    /// its channel; later changes of the graph do not reach the copy's value.
    pub fn get_link(&self, link_id: u32) -> (r: Link)
        requires
            self@.links.contains_key(link_id),
        ensures
            keyed_by_id(self@),
            r@ == self@.links[link_id],
            r.sent() == self@.link_sent[link_id],
    {
        self.keyed();
        self.graph.links.get(&link_id).unwrap().clone()
    }

    /// Whether link `link_id` is known.
    pub fn contains_link(&self, link_id: u32) -> (r: bool)
        ensures
            keyed_by_id(self@),
            r == self@.links.contains_key(link_id),
    {
        self.keyed();
        self.graph.links.contains_key(&link_id)
    }

    /// Forgets link `link_id`, if it was known, after broadcasting its
    /// removal on its channel; hands back the link as it leaves.
    pub fn remove_link(&mut self, link_id: u32) -> (r: Option<Link>)
        ensures
            final(self)@ == old(self)@.without_link(link_id),
            keyed_by_id(old(self)@),
            keyed_by_id(final(self)@),
            match r {
                Some(l) => old(self)@.links.contains_key(link_id) && l@ == old(self)@.links[link_id]
                    && l.sent() == old(self)@.link_sent[link_id].push(LinkChangeEventView::Remove),
                Option::None => !old(self)@.links.contains_key(link_id),
            },
    {
        self.keyed();
        let removed = self.graph.take_link(link_id);
        assert(map_views(self.graph.links@) =~= old(self)@.links.remove(link_id));
        assert(map_records(self.graph.links@) =~= old(self)@.link_sent.remove(link_id));
        let r = match removed {
            Some(mut link) => {
                link.remove();
                Some(link)
            },
            Option::None => Option::None,
        };
        self.keyed();
        r
    }

    /// Records that port `port_id` belongs to node `node_id`.
    pub fn add_map_port(&mut self, port_id: u32, node_id: u32)
        ensures
            final(self)@ == old(self)@.with_port_map(old(self)@.port_map.insert(port_id, node_id)),
            keyed_by_id(old(self)@),
            keyed_by_id(final(self)@),
    {
        self.keyed();
        self.port_map.insert(port_id, node_id);
        self.keyed();
    }

    /// Moves a port that is already recorded to node `node_id`; a port that
    /// is not recorded stays unrecorded.
    pub fn modify_map_port(&mut self, port_id: u32, node_id: u32)
        ensures
            final(self)@ == (if old(self)@.port_map.contains_key(port_id) {
                old(self)@.with_port_map(old(self)@.port_map.insert(port_id, node_id))
            } else {
                old(self)@
            }),
            keyed_by_id(old(self)@),
            keyed_by_id(final(self)@),
    {
        self.keyed();
        if self.port_map.contains_key(&port_id) {
            self.port_map.insert(port_id, node_id);
        }
        self.keyed();
    }

    /// The node that port `port_id` belongs to, if it is recorded.
    pub fn get_map_port(&self, port_id: u32) -> (r: Option<u32>)
        ensures
            keyed_by_id(self@),
            r == (if self@.port_map.contains_key(port_id) {
                Some(self@.port_map[port_id])
            } else {
                Option::<u32>::None
            }),
    {
        self.keyed();
        match self.port_map.get(&port_id) {
            Some(v) => Some(*v),
            Option::None => Option::None,
        }
    }

    /// A copy of the graph together with a receiver of the appearances
    /// broadcast from now on. Each copied node and link has a sending end on
    /// the channel of the one it copies, and the same record.
    pub fn subscribe(&self) -> (r: (StateValue, Receiver<StateChangeEvent>))
        ensures
            keyed_by_id(self@),
            r.0@.nodes == self@.nodes,
            r.0@.links == self@.links,
            map_records(r.0.nodes@) == self@.node_sent,
            map_records(r.0.links@) == self@.link_sent,
    {
        self.keyed();
        let receiver = self.broadcast.subscribe();
        (self.graph.copy(), receiver)
    }

    /// A copy of the graph. Each copied node and link has a sending end on
    /// the channel of the one it copies, and the same record.
    pub fn get(&self) -> (r: StateValue)
        ensures
            keyed_by_id(self@),
            r@.nodes == self@.nodes,
            r@.links == self@.links,
            map_records(r.nodes@) == self@.node_sent,
            map_records(r.links@) == self@.link_sent,
    {
        self.keyed();
        self.graph.copy()
    }

    /// Node `node_id`, if known, takes over `state` and broadcasts it if it
    /// differs.
    pub fn change_node_state(&mut self, node_id: u32, state: NodeState)
        ensures
            final(self)@ == old(self)@.after_node_state(node_id, state@),
            keyed_by_id(old(self)@),
            keyed_by_id(final(self)@),
    {
        self.keyed();
        let ghost s = state@;
        match self.graph.take_node(node_id) {
            Some(mut node) => {
                node.change_state(state);
                self.graph.put_node(node_id, node);
            },
            Option::None => {},
        }
        assert(map_views(self.graph.nodes@) =~= old(self)@.after_node_state(node_id, s).nodes);
        assert(map_records(self.graph.nodes@) =~= old(self)@.after_node_state(node_id, s).node_sent);
        self.keyed();
    }

    /// Node `node_id`, if known, stores `port` and broadcasts it as added or
    /// modified.
    pub fn replace_or_add_node_port(&mut self, node_id: u32, port: Port)
        ensures
            final(self)@ == old(self)@.after_node_port(node_id, port@),
            keyed_by_id(old(self)@),
            keyed_by_id(final(self)@),
    {
        self.keyed();
        let ghost p = port@;
        match self.graph.take_node(node_id) {
            Some(mut node) => {
                let ghost before = node;
                node.replace_or_add_port(port);
                assert(before.sent() + seq![port_event(before@, p)] =~= node.sent());
                self.graph.put_node(node_id, node);
            },
            Option::None => {},
        }
        assert(map_views(self.graph.nodes@) =~= old(self)@.after_node_port(node_id, p).nodes);
        assert(map_records(self.graph.nodes@) =~= old(self)@.after_node_port(node_id, p).node_sent);
        self.keyed();
    }

    /// Node `node_id`, if known, drops port `port_id` and broadcasts the
    /// removal if it had that port.
    pub fn remove_node_port(&mut self, node_id: u32, port_id: u32)
        ensures
            final(self)@ == old(self)@.after_remove_node_port(node_id, port_id),
            keyed_by_id(old(self)@),
            keyed_by_id(final(self)@),
    {
        self.keyed();
        match self.graph.take_node(node_id) {
            Some(mut node) => {
                node.remove_port(port_id);
                self.graph.put_node(node_id, node);
            },
            Option::None => {},
        }
        assert(map_views(self.graph.nodes@) =~= old(self)@.after_remove_node_port(node_id, port_id).nodes);
        assert(map_records(self.graph.nodes@) =~= old(self)@.after_remove_node_port(node_id, port_id).node_sent);
        self.keyed();
    }

    /// Link `link_id`, if known, takes over `state` and broadcasts it if it
    /// differs.
    pub fn change_link_state(&mut self, link_id: u32, state: LinkState)
        ensures
            final(self)@ == old(self)@.after_link_state(link_id, state@),
            keyed_by_id(old(self)@),
            keyed_by_id(final(self)@),
    {
        self.keyed();
        let ghost s = state@;
        match self.graph.take_link(link_id) {
            Some(mut link) => {
                link.change_state(state);
                self.graph.put_link(link_id, link);
            },
            Option::None => {},
        }
        assert(map_views(self.graph.links@) =~= old(self)@.after_link_state(link_id, s).links);
        assert(map_records(self.graph.links@) =~= old(self)@.after_link_state(link_id, s).link_sent);
        self.keyed();
    }
}

/// News of a node reads back: the graph then holds a node under the news's
/// id with the news's name, direction and state (and that id, where nodes
/// are stored under their ids); no other node, and no other node's channel,
/// is touched.
pub proof fn lemma_change_node_reads_back(s: StateView, node: NodeValueView)
    ensures
        ({
            let t = s.after_change_node(node);
            &&& t.nodes.contains_key(node.id)
            &&& t.nodes[node.id].name == node.name
            &&& t.nodes[node.id].node_type == node.node_type
            &&& t.nodes[node.id].state == node.state
            &&& keyed_by_id(s) ==> t.nodes[node.id].id == node.id
            &&& forall|k: u32| k != node.id ==> #[trigger] t.nodes.contains_key(k) == s.nodes.contains_key(k)
            &&& forall|k: u32| k != node.id && s.nodes.contains_key(k) ==> #[trigger] t.nodes[k] == s.nodes[k]
                && t.node_sent[k] == s.node_sent[k]
            &&& t.links == s.links && t.link_sent == s.link_sent && t.port_map == s.port_map
        }),
{
}

/// News of a link reads back, as for nodes.
pub proof fn lemma_change_link_reads_back(s: StateView, link: LinkValueView)
    ensures
        ({
            let t = s.after_change_link(link);
            &&& t.links.contains_key(link.id)
            &&& t.links[link.id].node_from == link.node_from
            &&& t.links[link.id].node_to == link.node_to
            &&& t.links[link.id].port_from == link.port_from
            &&& t.links[link.id].port_to == link.port_to
            &&& t.links[link.id].state == link.state
            &&& keyed_by_id(s) ==> t.links[link.id].id == link.id
            &&& forall|k: u32| k != link.id ==> #[trigger] t.links.contains_key(k) == s.links.contains_key(k)
            &&& forall|k: u32| k != link.id && s.links.contains_key(k) ==> #[trigger] t.links[k] == s.links[k]
                && t.link_sent[k] == s.link_sent[k]
            &&& t.nodes == s.nodes && t.node_sent == s.node_sent && t.port_map == s.port_map
        }),
{
}

/// A node is announced on the graph's channel once, when it first appears:
/// news of an unknown node adds exactly its appearance there and starts it
/// with an empty record; news of a known node goes to that node's own
/// channel (its differences) and not to the graph's.
pub proof fn lemma_node_appears_once(s: StateView, node: NodeValueView)
    ensures
        ({
            let t = s.after_change_node(node);
            &&& !s.nodes.contains_key(node.id) ==> t.announced == s.announced.push(
                StateChangeEventView::AddNode(node),
            ) && t.nodes[node.id] == node && t.node_sent[node.id] == Seq::<NodeChangeEventView>::empty()
            &&& s.nodes.contains_key(node.id) ==> t.announced == s.announced
                && t.node_sent[node.id] == s.node_sent[node.id] + node_diff_events(s.nodes[node.id], node)
        }),
        ({
            let t = s.after_change_node(node).after_change_node(node);
            t.announced == s.after_change_node(node).announced
        }),
{
}

/// A link is announced on the graph's channel once, as for nodes.
pub proof fn lemma_link_appears_once(s: StateView, link: LinkValueView)
    ensures
        ({
            let t = s.after_change_link(link);
            &&& !s.links.contains_key(link.id) ==> t.announced == s.announced.push(
                StateChangeEventView::AddLink(link),
            ) && t.links[link.id] == link && t.link_sent[link.id] == Seq::<LinkChangeEventView>::empty()
            &&& s.links.contains_key(link.id) ==> t.announced == s.announced
                && t.link_sent[link.id] == s.link_sent[link.id] + link_diff_events(s.links[link.id], link)
        }),
        ({
            let t = s.after_change_link(link).after_change_link(link);
            t.announced == s.after_change_link(link).announced
        }),
{
}

/// The same node news taken in twice: the second time changes no value and
/// hands nothing to any channel.
pub proof fn lemma_change_node_twice(s: StateView, node: NodeValueView)
    ensures
        s.after_change_node(node).after_change_node(node) == s.after_change_node(node),
{
    let t = s.after_change_node(node);
    let id = node.id;
    if s.nodes.contains_key(id) {
        lemma_node_diff_settles(s.nodes[id], node);
    } else {
        lemma_node_diff_with_itself(node);
    }
    assert(t.node_sent[id] + Seq::<NodeChangeEventView>::empty() =~= t.node_sent[id]);
    assert(t.after_change_node(node).nodes =~= t.nodes);
    assert(t.after_change_node(node).node_sent =~= t.node_sent);
}

/// The same link news taken in twice: the second time changes no value and
/// hands nothing to any channel.
pub proof fn lemma_change_link_twice(s: StateView, link: LinkValueView)
    ensures
        s.after_change_link(link).after_change_link(link) == s.after_change_link(link),
{
    let t = s.after_change_link(link);
    let id = link.id;
    if s.links.contains_key(id) {
        lemma_link_diff_settles(s.links[id], link);
    } else {
        lemma_link_diff_with_itself(link);
    }
    assert(t.link_sent[id] + Seq::<LinkChangeEventView>::empty() =~= t.link_sent[id]);
    assert(t.after_change_link(link).links =~= t.links);
    assert(t.after_change_link(link).link_sent =~= t.link_sent);
}

/// A node that was removed and is then heard of again is announced anew.
pub proof fn lemma_removed_node_reappears(s: StateView, node: NodeValueView)
    ensures
        s.without_node(node.id).after_change_node(node).announced == s.announced.push(
            StateChangeEventView::AddNode(node),
        ),
        s.without_node(node.id).after_change_node(node).nodes[node.id] == node,
{
}

/// A link that was removed and is then heard of again is announced anew.
pub proof fn lemma_removed_link_reappears(s: StateView, link: LinkValueView)
    ensures
        s.without_link(link.id).after_change_link(link).announced == s.announced.push(
            StateChangeEventView::AddLink(link),
        ),
        s.without_link(link.id).after_change_link(link).links[link.id] == link,
{
}

} // verus!
