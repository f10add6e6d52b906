//! What the graph does with the news that PipeWire's registry sends: nodes,
//! ports and links that appear, change and go away.
pub mod node;
pub mod state;

use std::collections::HashMap;
use vstd::prelude::*;

use crate::pipewire::node::{
    Link, LinkChangeEventView, Node, NodeChangeEventView, direction_of, format_of, media_of, text_of, Direction, Format, LinkState, LinkStateView,
    LinkValue, LinkValueView, Media, NodeState, NodeStateView, NodeTypeDirection, NodeValue,
    NodeValueView, Port, PortView,
};
use crate::pipewire::state::{keyed_by_id, State, StateChangeEventView, StateView};
use crate::text::{parse_u32, parsed_u32};

verus! {

broadcast use vstd::std_specs::hash::group_hash_axioms;

/// The properties of a node that the graph reads.
pub struct NodeProps {
    pub name: Option<String>,
    pub media_class: Option<String>,
}

/// The properties of a port's registry entry that the graph reads.
pub struct GlobalProps {
    pub node_id: Option<String>,
}

/// The properties of a port that the graph reads.
pub struct PortProps {
    pub name: Option<String>,
    pub node_id: Option<String>,
    pub format: Option<String>,
}

/// One piece of news from the registry, with the properties it carried.
#[allow(inconsistent_fields)]
pub enum RegistryEvent {
    /// A node's info changed; the flags tell which parts of it.
    NodeInfo {
        id: u32,
        props_changed: bool,
        state_changed: bool,
        props: Option<NodeProps>,
        state: NodeState,
    },
    /// A node went away.
    NodeRemoved { id: u32 },
    /// A port appeared in the registry.
    PortAdded { id: u32, props: Option<GlobalProps> },
    /// A port's info changed. The direction is `None` when PipeWire reports
    /// one that is neither input nor output.
    PortInfo {
        id: u32,
        props_changed: bool,
        props: Option<PortProps>,
        direction: Option<Direction>,
    },
    /// A port went away.
    PortRemoved { id: u32 },
    /// A link's info changed; the flags tell which parts of it.
    LinkInfo {
        id: u32,
        props_changed: bool,
        state_changed: bool,
        node_from: u32,
        node_to: u32,
        port_from: u32,
        port_to: u32,
        state: LinkState,
    },
    /// A link went away.
    LinkRemoved { id: u32 },
}

/// Why a piece of news could not be taken in.
#[derive(Clone, Copy, Debug, PartialEq, Eq, Structural)]
pub enum RegistryError {
    NoProps,
    NoName,
    NoNodeId,
    InvalidNodeId,
}

/// The characters of an optional owned text.
pub open spec fn owned_text(value: Option<String>) -> Option<Seq<char>> {
    match value {
        Some(v) => Some(v@),
        Option::None => Option::None,
    }
}

/// Registry news as mathematical data.
#[allow(inconsistent_fields)]
pub enum RegistryEventView {
    NodeInfo {
        id: u32,
        props_changed: bool,
        state_changed: bool,
        props: Option<(Option<Seq<char>>, Option<Seq<char>>)>,
        state: NodeStateView,
    },
    NodeRemoved { id: u32 },
    PortAdded { id: u32, props: Option<Option<Seq<char>>> },
    PortInfo {
        id: u32,
        props_changed: bool,
        props: Option<(Option<Seq<char>>, Option<Seq<char>>, Option<Seq<char>>)>,
        direction: Option<Direction>,
    },
    PortRemoved { id: u32 },
    LinkInfo {
        id: u32,
        props_changed: bool,
        state_changed: bool,
        node_from: u32,
        node_to: u32,
        port_from: u32,
        port_to: u32,
        state: LinkStateView,
    },
    LinkRemoved { id: u32 },
}

impl View for RegistryEvent {
    type V = RegistryEventView;

    open spec fn view(&self) -> RegistryEventView {
        match self {
            RegistryEvent::NodeInfo { id, props_changed, state_changed, props, state } => {
                RegistryEventView::NodeInfo {
                    id: *id,
                    props_changed: *props_changed,
                    state_changed: *state_changed,
                    props: match props {
                        Some(p) => Some((owned_text(p.name), owned_text(p.media_class))),
                        Option::None => Option::None,
                    },
                    state: state@,
                }
            },
            RegistryEvent::NodeRemoved { id } => RegistryEventView::NodeRemoved { id: *id },
            RegistryEvent::PortAdded { id, props } => RegistryEventView::PortAdded {
                id: *id,
                props: match props {
                    Some(p) => Some(owned_text(p.node_id)),
                    Option::None => Option::None,
                },
            },
            RegistryEvent::PortInfo { id, props_changed, props, direction } => {
                RegistryEventView::PortInfo {
                    id: *id,
                    props_changed: *props_changed,
                    props: match props {
                        Some(p) => Some(
                            (owned_text(p.name), owned_text(p.node_id), owned_text(p.format)),
                        ),
                        Option::None => Option::None,
                    },
                    direction: *direction,
                }
            },
            RegistryEvent::PortRemoved { id } => RegistryEventView::PortRemoved { id: *id },
            RegistryEvent::LinkInfo {
                id,
                props_changed,
                state_changed,
                node_from,
                node_to,
                port_from,
                port_to,
                state,
            } => RegistryEventView::LinkInfo {
                id: *id,
                props_changed: *props_changed,
                state_changed: *state_changed,
                node_from: *node_from,
                node_to: *node_to,
                port_from: *port_from,
                port_to: *port_to,
                state: state@,
            },
            RegistryEvent::LinkRemoved { id } => RegistryEventView::LinkRemoved { id: *id },
        }
    }
}

/// The value of a node first described by its name, media class and state:
/// no ports yet, media kind and direction read from the class.
pub open spec fn described_node(
    id: u32,
    name: Seq<char>,
    class: Option<Seq<char>>,
    state: NodeStateView,
) -> NodeValueView {
    NodeValueView {
        id,
        name,
        state,
        media: media_of(class),
        ports: Map::empty(),
        node_type: direction_of(class),
    }
}

/// News of a node's info: new properties describe the node afresh (its name
/// is required); otherwise a new state is taken over.
pub open spec fn node_info_step(
    s: StateView,
    id: u32,
    props_changed: bool,
    state_changed: bool,
    props: Option<(Option<Seq<char>>, Option<Seq<char>>)>,
    state: NodeStateView,
) -> Result<StateView, RegistryError> {
    if props_changed {
        match props {
            Option::None => Err(RegistryError::NoProps),
            Some((name, class)) => match name {
                Option::None => Err(RegistryError::NoName),
                Some(n) => Ok(s.after_change_node(described_node(id, n, class, state))),
            },
        }
    } else if state_changed {
        Ok(s.after_node_state(id, state))
    } else {
        Ok(s)
    }
}

/// News of a port in the registry: its node id, read as a number, is
/// recorded for it.
pub open spec fn port_added_step(
    s: StateView,
    id: u32,
    props: Option<Option<Seq<char>>>,
) -> Result<StateView, RegistryError> {
    match props {
        Option::None => Err(RegistryError::NoProps),
        Some(node_id) => match node_id {
            Option::None => Err(RegistryError::NoNodeId),
            Some(t) => match parsed_u32(t) {
                Option::None => Err(RegistryError::InvalidNodeId),
                Some(n) => Ok(s.with_port_map(s.port_map.insert(id, n))),
            },
        },
    }
}

/// The graph after port `id` is re-recorded under node `new_node`: the
/// record moves (only if the port was recorded), and the node it was
/// recorded under before, if another, drops the port.
pub open spec fn moved_port(s: StateView, id: u32, new_node: u32) -> StateView {
    let s1 = if s.port_map.contains_key(id) {
        s.with_port_map(s.port_map.insert(id, new_node))
    } else {
        s
    };
    if s.port_map.contains_key(id) && s.port_map[id] != new_node {
        s1.after_remove_node_port(s.port_map[id], id)
    } else {
        s1
    }
}

/// News of a port's info: with new properties (name and node id required),
/// the port moves to the node they name and is stored there.
pub open spec fn port_info_step(
    s: StateView,
    id: u32,
    props_changed: bool,
    props: Option<(Option<Seq<char>>, Option<Seq<char>>, Option<Seq<char>>)>,
    direction: Option<Direction>,
) -> Result<StateView, RegistryError> {
    if !props_changed {
        Ok(s)
    } else {
        match props {
            Option::None => Err(RegistryError::NoProps),
            Some((name, node_id, format)) => match name {
                Option::None => Err(RegistryError::NoName),
                Some(n) => match node_id {
                    Option::None => Err(RegistryError::NoNodeId),
                    Some(t) => match parsed_u32(t) {
                        Option::None => Err(RegistryError::InvalidNodeId),
                        Some(new_node) => {
                            let port = PortView {
                                id,
                                name: n,
                                direction: direction->0,
                                format: format_of(format),
                            };
                            Ok(moved_port(s, id, new_node).after_node_port(new_node, port))
                        },
                    },
                },
            },
        }
    }
}

/// News that a port went away: the node it is recorded under drops it.
pub open spec fn port_removed_step(s: StateView, id: u32) -> StateView {
    if s.port_map.contains_key(id) {
        s.after_remove_node_port(s.port_map[id], id)
    } else {
        s
    }
}

/// What the graph makes of one piece of registry news, with everything
/// handed to its channels, or why the news was refused (the graph then stays
/// as it was).
pub open spec fn registry_step(s: StateView, e: RegistryEventView) -> Result<
    StateView,
    RegistryError,
> {
    match e {
        RegistryEventView::NodeInfo { id, props_changed, state_changed, props, state } => {
            node_info_step(s, id, props_changed, state_changed, props, state)
        },
        RegistryEventView::NodeRemoved { id } => Ok(s.without_node(id)),
        RegistryEventView::PortAdded { id, props } => port_added_step(s, id, props),
        RegistryEventView::PortInfo { id, props_changed, props, direction } => port_info_step(
            s,
            id,
            props_changed,
            props,
            direction,
        ),
        RegistryEventView::PortRemoved { id } => Ok(port_removed_step(s, id)),
        RegistryEventView::LinkInfo {
            id,
            props_changed,
            state_changed,
            node_from,
            node_to,
            port_from,
            port_to,
            state,
        } => if props_changed {
            Ok(s.after_change_link(LinkValueView { id, node_from, node_to, port_from, port_to, state }))
        } else if state_changed {
            Ok(s.after_link_state(id, state))
        } else {
            Ok(s)
        },
        RegistryEventView::LinkRemoved { id } => Ok(s.without_link(id)),
    }
}

/// What leaves the graph with a piece of registry news: the node or link it
/// removes, as its last change (the removal) has been handed to its channel.
pub enum Retired {
    Nothing,
    Node(Node),
    Link(Link),
}

/// `r` is what leaves graph `s` with news `e`.
pub open spec fn retired_by(s: StateView, e: RegistryEventView, r: Retired) -> bool {
    match e {
        RegistryEventView::NodeRemoved { id } => if s.nodes.contains_key(id) {
            r matches Retired::Node(n) && n@ == s.nodes[id] && n.sent() == s.node_sent[id].push(
                NodeChangeEventView::Remove,
            )
        } else {
            r is Nothing
        },
        RegistryEventView::LinkRemoved { id } => if s.links.contains_key(id) {
            r matches Retired::Link(l) && l@ == s.links[id] && l.sent() == s.link_sent[id].push(
                LinkChangeEventView::Remove,
            )
        } else {
            r is Nothing
        },
        _ => r is Nothing,
    }
}

/// The news a port's info carries reaches its direction: new properties
/// with a name and a node id that reads as a number.
pub open spec fn port_info_reaches_direction(
    props_changed: bool,
    props: Option<(Option<Seq<char>>, Option<Seq<char>>, Option<Seq<char>>)>,
) -> bool {
    props_changed && match props {
        Some((name, node_id, _)) => name is Some && match node_id {
            Some(t) => parsed_u32(t) is Some,
            Option::None => false,
        },
        Option::None => false,
    }
}

/// News that a link's state alone changed is taken in only for a known
/// link; news of a port whose properties are read through to its direction
/// must carry an input or output direction.
pub open spec fn registry_event_allowed(s: StateView, e: RegistryEventView) -> bool {
    match e {
        RegistryEventView::LinkInfo { id, props_changed, state_changed, .. } => !props_changed
            && state_changed ==> s.links.contains_key(id),
        RegistryEventView::PortInfo { props_changed, props, direction, .. } => {
            port_info_reaches_direction(props_changed, props) ==> direction is Some
        },
        _ => true,
    }
}

fn as_text(value: &Option<String>) -> (r: Option<&str>)
    ensures
        text_of(r) == owned_text(*value),
{
    match value {
        Some(v) => Some(v.as_str()),
        Option::None => Option::None,
    }
}

impl State {
    /// Takes in one piece of registry news: updates the graph and broadcasts
    /// what changed, or refuses news that lacks a property it needs. Hands
    /// back the node or link the news removes.
    pub fn handle_registry_event(&mut self, event: RegistryEvent) -> (r: Result<Retired, RegistryError>)
        requires
            registry_event_allowed(old(self)@, event@),
        ensures
            keyed_by_id(old(self)@),
            keyed_by_id(final(self)@),
            match registry_step(old(self)@, event@) {
                Ok(s) => r matches Ok(retired) && final(self)@ == s && retired_by(
                    old(self)@,
                    event@,
                    retired,
                ),
                Err(err) => r matches Err(e) && e == err && final(self)@ == old(self)@,
            },
    {
        self.keyed();
        let r = match event {
            RegistryEvent::NodeInfo { id, props_changed, state_changed, props, state } => {
                match self.handle_node_info(id, props_changed, state_changed, props, state) {
                    Ok(()) => Ok(Retired::Nothing),
                    Err(e) => Err(e),
                }
            },
            RegistryEvent::NodeRemoved { id } => match self.remove_node(id) {
                Some(n) => Ok(Retired::Node(n)),
                Option::None => Ok(Retired::Nothing),
            },
            RegistryEvent::PortAdded { id, props } => match self.handle_port_added(id, props) {
                Ok(()) => Ok(Retired::Nothing),
                Err(e) => Err(e),
            },
            RegistryEvent::PortInfo { id, props_changed, props, direction } => {
                match self.handle_port_info(id, props_changed, props, direction) {
                    Ok(()) => Ok(Retired::Nothing),
                    Err(e) => Err(e),
                }
            },
            RegistryEvent::PortRemoved { id } => {
                match self.get_map_port(id) {
                    Some(node_id) => self.remove_node_port(node_id, id),
                    Option::None => {},
                }
                Ok(Retired::Nothing)
            },
            RegistryEvent::LinkInfo {
                id,
                props_changed,
                state_changed,
                node_from,
                node_to,
                port_from,
                port_to,
                state,
            } => {
                if props_changed {
                    self.change_link(LinkValue { id, node_from, node_to, port_from, port_to, state });
                } else if state_changed {
                    self.change_link_state(id, state);
                }
                Ok(Retired::Nothing)
            },
            RegistryEvent::LinkRemoved { id } => match self.remove_link(id) {
                Some(l) => Ok(Retired::Link(l)),
                Option::None => Ok(Retired::Nothing),
            },
        };
        self.keyed();
        r
    }

    fn handle_node_info(
        &mut self,
        id: u32,
        props_changed: bool,
        state_changed: bool,
        props: Option<NodeProps>,
        state: NodeState,
    ) -> (r: Result<(), RegistryError>)
        ensures
            match node_info_step(
                old(self)@,
                id,
                props_changed,
                state_changed,
                match props {
                    Some(p) => Some((owned_text(p.name), owned_text(p.media_class))),
                    Option::None => Option::None,
                },
                state@,
            ) {
                Ok(s) => r is Ok && final(self)@ == s,
                Err(err) => r == Err::<(), RegistryError>(err) && final(self)@ == old(self)@,
            },
    {
        if props_changed {
            match props {
                Option::None => Err(RegistryError::NoProps),
                Some(p) => {
                    let NodeProps { name, media_class } = p;
                    match name {
                        Option::None => Err(RegistryError::NoName),
                        Some(n) => {
                            let class = as_text(&media_class);
                            let value = NodeValue {
                                id,
                                name: n,
                                state,
                                media: Media::from(class),
                                ports: HashMap::new(),
                                node_type: NodeTypeDirection::from(class),
                            };
                            assert(value@.ports =~= Map::<u32, PortView>::empty());
                            self.change_node(value);
                            Ok(())
                        },
                    }
                },
            }
        } else if state_changed {
            self.change_node_state(id, state);
            Ok(())
        } else {
            Ok(())
        }
    }

    fn handle_port_added(&mut self, id: u32, props: Option<GlobalProps>) -> (r: Result<
        (),
        RegistryError,
    >)
        ensures
            match port_added_step(
                old(self)@,
                id,
                match props {
                    Some(p) => Some(owned_text(p.node_id)),
                    Option::None => Option::None,
                },
            ) {
                Ok(s) => r is Ok && final(self)@ == s,
                Err(err) => r == Err::<(), RegistryError>(err) && final(self)@ == old(self)@,
            },
    {
        match props {
            Option::None => Err(RegistryError::NoProps),
            Some(p) => match p.node_id {
                Option::None => Err(RegistryError::NoNodeId),
                Some(t) => match parse_u32(t.as_str()) {
                    Option::None => Err(RegistryError::InvalidNodeId),
                    Some(node_id) => {
                        self.add_map_port(id, node_id);
                        Ok(())
                    },
                },
            },
        }
    }

    fn handle_port_info(
        &mut self,
        id: u32,
        props_changed: bool,
        props: Option<PortProps>,
        direction: Option<Direction>,
    ) -> (r: Result<(), RegistryError>)
        requires
            port_info_reaches_direction(
                props_changed,
                match props {
                    Some(p) => Some(
                        (owned_text(p.name), owned_text(p.node_id), owned_text(p.format)),
                    ),
                    Option::None => Option::None,
                },
            ) ==> direction is Some,
        ensures
            match port_info_step(
                old(self)@,
                id,
                props_changed,
                match props {
                    Some(p) => Some(
                        (owned_text(p.name), owned_text(p.node_id), owned_text(p.format)),
                    ),
                    Option::None => Option::None,
                },
                direction,
            ) {
                Ok(s) => r is Ok && final(self)@ == s,
                Err(err) => r == Err::<(), RegistryError>(err) && final(self)@ == old(self)@,
            },
    {
        if !props_changed {
            return Ok(());
        }
        match props {
            Option::None => Err(RegistryError::NoProps),
            Some(p) => {
                let PortProps { name, node_id, format } = p;
                match name {
                    Option::None => Err(RegistryError::NoName),
                    Some(n) => match node_id {
                        Option::None => Err(RegistryError::NoNodeId),
                        Some(t) => match parse_u32(t.as_str()) {
                            Option::None => Err(RegistryError::InvalidNodeId),
                            Some(new_node) => {
                                let ghost s0 = self@;
                                let port = Port {
                                    id,
                                    name: n,
                                    direction: direction.unwrap(),
                                    format: Format::from(as_text(&format)),
                                };
                                let old_node = self.get_map_port(id);
                                self.modify_map_port(id, new_node);
                                match old_node {
                                    Some(previous) => {
                                        if previous != new_node {
                                            self.remove_node_port(previous, id);
                                        }
                                    },
                                    Option::None => {},
                                }
                                assert(self@ == moved_port(s0, id, new_node));
                                self.replace_or_add_node_port(new_node, port);
                                Ok(())
                            },
                        },
                    },
                }
            },
        }
    }
}

/// Every piece of registry news that is taken in keeps nodes and links
/// stored under their own ids.
pub proof fn lemma_registry_keeps_keys(s: StateView, e: RegistryEventView)
    requires
        keyed_by_id(s),
    ensures
        match registry_step(s, e) {
            Ok(next) => keyed_by_id(next),
            Err(_) => true,
        },
{
}

/// When news of a port's properties names node `new_node` and is taken in:
/// a known `new_node` holds the port as described; the port's record, if it
/// had one, now names `new_node`; and a known node the port was recorded
/// under before, if another, no longer holds it.
pub proof fn lemma_port_moves(
    s: StateView,
    id: u32,
    name: Seq<char>,
    node_text: Seq<char>,
    format: Option<Seq<char>>,
    direction: Direction,
    new_node: u32,
)
    requires
        parsed_u32(node_text) == Some(new_node),
    ensures
        ({
            let step = port_info_step(
                s,
                id,
                true,
                Some((Some(name), Some(node_text), format)),
                Some(direction),
            );
            let port = PortView { id, name, direction, format: format_of(format) };
            &&& step is Ok
            &&& s.nodes.contains_key(new_node) ==> step->Ok_0.nodes[new_node].ports.contains_key(id)
                && step->Ok_0.nodes[new_node].ports[id] == port
            &&& s.port_map.contains_key(id) ==> step->Ok_0.port_map[id] == new_node
            &&& !s.port_map.contains_key(id) ==> step->Ok_0.port_map == s.port_map
            &&& (s.port_map.contains_key(id) && s.port_map[id] != new_node && s.nodes.contains_key(
                s.port_map[id],
            )) ==> !step->Ok_0.nodes[s.port_map[id]].ports.contains_key(id)
        }),
{
}

/// News of a port's properties that names the node the port is already
/// recorded under (a known node): that node stores the port as described and
/// its channel gets exactly one event, the port as modified if the node held
/// it and as added otherwise. No other node, no other channel and the port's
/// record change; in particular no removal is sent anywhere.
pub proof fn lemma_port_news_on_its_own_node(
    s: StateView,
    id: u32,
    name: Seq<char>,
    node_text: Seq<char>,
    format: Option<Seq<char>>,
    direction: Direction,
    node: u32,
)
    requires
        parsed_u32(node_text) == Some(node),
        s.port_map.contains_key(id),
        s.port_map[id] == node,
        s.nodes.contains_key(node),
    ensures
        ({
            let e = RegistryEventView::PortInfo {
                id,
                props_changed: true,
                props: Some((Some(name), Some(node_text), format)),
                direction: Some(direction),
            };
            let port = PortView { id, name, direction, format: format_of(format) };
            let event = if s.nodes[node].ports.contains_key(id) {
                NodeChangeEventView::ModifyPort(port)
            } else {
                NodeChangeEventView::AddPort(port)
            };
            match registry_step(s, e) {
                Ok(t) => {
                    &&& t.nodes.contains_key(node)
                    &&& t.nodes[node] == NodeValueView {
                        ports: s.nodes[node].ports.insert(id, port),
                        ..s.nodes[node]
                    }
                    &&& t.node_sent[node] == s.node_sent[node].push(event)
                    &&& forall|k: u32|
                        k != node ==> (#[trigger] t.nodes.contains_key(k) == s.nodes.contains_key(k)
                            && t.nodes[k] == s.nodes[k] && t.node_sent[k] == s.node_sent[k])
                    &&& t.port_map == s.port_map
                    &&& t.announced == s.announced
                    &&& t.links == s.links
                    &&& t.link_sent == s.link_sent
                },
                Err(_) => false,
            }
        }),
{
    let port = PortView { id, name, direction, format: format_of(format) };
    let t = port_info_step(
        s,
        id,
        true,
        Some((Some(name), Some(node_text), format)),
        Some(direction),
    )->Ok_0;
    assert(s.port_map.insert(id, node) =~= s.port_map);
    assert(t.node_sent[node] =~= s.node_sent[node].push(
        if s.nodes[node].ports.contains_key(id) {
            NodeChangeEventView::ModifyPort(port)
        } else {
            NodeChangeEventView::AddPort(port)
        },
    ));
}

/// News of a port's properties that names another node than the one the
/// port is recorded under: the old node's channel gets exactly the removal
/// of the port if it held it (and nothing otherwise) and no longer holds it;
/// the new node, if known, stores the port and its channel gets exactly the
/// port as added or modified; the record now names the new node; the graph's
/// channel gets nothing.
pub proof fn lemma_port_news_moves_it(
    s: StateView,
    id: u32,
    name: Seq<char>,
    node_text: Seq<char>,
    format: Option<Seq<char>>,
    direction: Direction,
    node: u32,
)
    requires
        parsed_u32(node_text) == Some(node),
        s.port_map.contains_key(id),
        s.port_map[id] != node,
        s.nodes.contains_key(s.port_map[id]),
    ensures
        ({
            let e = RegistryEventView::PortInfo {
                id,
                props_changed: true,
                props: Some((Some(name), Some(node_text), format)),
                direction: Some(direction),
            };
            let port = PortView { id, name, direction, format: format_of(format) };
            let old_node = s.port_map[id];
            match registry_step(s, e) {
                Ok(t) => {
                    &&& t.nodes.contains_key(old_node)
                    &&& t.nodes[old_node] == NodeValueView {
                        ports: s.nodes[old_node].ports.remove(id),
                        ..s.nodes[old_node]
                    }
                    &&& t.node_sent[old_node] == s.node_sent[old_node] + (
                    if s.nodes[old_node].ports.contains_key(id) {
                        seq![NodeChangeEventView::RemovePort(id)]
                    } else {
                        Seq::<NodeChangeEventView>::empty()
                    })
                    &&& s.nodes.contains_key(node) ==> t.nodes[node] == NodeValueView {
                        ports: s.nodes[node].ports.insert(id, port),
                        ..s.nodes[node]
                    } && t.node_sent[node] == s.node_sent[node].push(
                        if s.nodes[node].ports.contains_key(id) {
                            NodeChangeEventView::ModifyPort(port)
                        } else {
                            NodeChangeEventView::AddPort(port)
                        },
                    )
                    &&& t.nodes.contains_key(node) == s.nodes.contains_key(node)
                    &&& t.port_map == s.port_map.insert(id, node)
                    &&& t.announced == s.announced
                },
                Err(_) => false,
            }
        }),
{
    let port = PortView { id, name, direction, format: format_of(format) };
    let ev = if s.nodes.contains_key(node) && s.nodes[node].ports.contains_key(id) {
        NodeChangeEventView::ModifyPort(port)
    } else {
        NodeChangeEventView::AddPort(port)
    };
    let t0 = moved_port(s, id, node);
    assert(t0.node_sent[node] + seq![ev] =~= t0.node_sent[node].push(ev));
}

/// News of the properties of a node that is already known: the node keeps
/// its id, media kind and ports and takes over the name, the direction its
/// class names and the state; its channel gets exactly the name, the
/// direction and the state, in that order, each only where it differs; the
/// graph's channel gets nothing; no other node, link or record changes.
pub proof fn lemma_known_node_news(
    s: StateView,
    id: u32,
    name: Seq<char>,
    class: Option<Seq<char>>,
    state_changed: bool,
    state: NodeStateView,
)
    requires
        s.nodes.contains_key(id),
    ensures
        ({
            let e = RegistryEventView::NodeInfo {
                id,
                props_changed: true,
                state_changed,
                props: Some((Some(name), class)),
                state,
            };
            let c = s.nodes[id];
            let d = direction_of(class);
            match registry_step(s, e) {
                Ok(t) => {
                    &&& t.nodes.contains_key(id)
                    &&& t.nodes[id] == NodeValueView { name, node_type: d, state, ..c }
                    &&& t.node_sent[id] == s.node_sent[id] + (if c.name == name {
                        Seq::<NodeChangeEventView>::empty()
                    } else {
                        seq![NodeChangeEventView::Name(name)]
                    }) + (if c.node_type == d {
                        Seq::<NodeChangeEventView>::empty()
                    } else {
                        seq![NodeChangeEventView::NodeType(d)]
                    }) + (if c.state == state {
                        Seq::<NodeChangeEventView>::empty()
                    } else {
                        seq![NodeChangeEventView::State(state)]
                    })
                    &&& t.announced == s.announced
                    &&& forall|k: u32|
                        k != id ==> (#[trigger] t.nodes.contains_key(k) == s.nodes.contains_key(k)
                            && t.nodes[k] == s.nodes[k] && t.node_sent[k] == s.node_sent[k])
                    &&& t.links == s.links
                    &&& t.link_sent == s.link_sent
                    &&& t.port_map == s.port_map
                },
                Err(_) => false,
            }
        }),
{
}

/// News of the properties of a node that is not known: the node is added
/// with the name, the media kind and direction its class names, the state,
/// and no ports; it starts with nothing sent on its channel, and the graph's
/// channel gets exactly its appearance.
pub proof fn lemma_new_node_news(
    s: StateView,
    id: u32,
    name: Seq<char>,
    class: Option<Seq<char>>,
    state_changed: bool,
    state: NodeStateView,
)
    requires
        !s.nodes.contains_key(id),
    ensures
        ({
            let e = RegistryEventView::NodeInfo {
                id,
                props_changed: true,
                state_changed,
                props: Some((Some(name), class)),
                state,
            };
            let v = NodeValueView {
                id,
                name,
                state,
                media: media_of(class),
                ports: Map::empty(),
                node_type: direction_of(class),
            };
            match registry_step(s, e) {
                Ok(t) => {
                    &&& t.nodes == s.nodes.insert(id, v)
                    &&& t.node_sent == s.node_sent.insert(id, Seq::empty())
                    &&& t.announced == s.announced.push(StateChangeEventView::AddNode(v))
                    &&& t.links == s.links
                    &&& t.link_sent == s.link_sent
                    &&& t.port_map == s.port_map
                },
                Err(_) => false,
            }
        }),
{
}

/// News of the properties of a link that is already known: the link keeps
/// its id and takes over the endpoints and the state; its channel gets
/// exactly the source node, target node, target port, source port and state,
/// in that order, each only where it differs (never a removal); the graph's
/// channel gets nothing; no other link, node or record changes.
pub proof fn lemma_known_link_news(
    s: StateView,
    id: u32,
    state_changed: bool,
    node_from: u32,
    node_to: u32,
    port_from: u32,
    port_to: u32,
    state: LinkStateView,
)
    requires
        s.links.contains_key(id),
    ensures
        ({
            let e = RegistryEventView::LinkInfo {
                id,
                props_changed: true,
                state_changed,
                node_from,
                node_to,
                port_from,
                port_to,
                state,
            };
            let c = s.links[id];
            match registry_step(s, e) {
                Ok(t) => {
                    &&& t.links.contains_key(id)
                    &&& t.links[id] == LinkValueView {
                        id: c.id,
                        node_from,
                        node_to,
                        port_from,
                        port_to,
                        state,
                    }
                    &&& t.link_sent[id] == s.link_sent[id] + (if c.node_from == node_from {
                        Seq::<LinkChangeEventView>::empty()
                    } else {
                        seq![LinkChangeEventView::NodeFrom(node_from)]
                    }) + (if c.node_to == node_to {
                        Seq::<LinkChangeEventView>::empty()
                    } else {
                        seq![LinkChangeEventView::NodeTo(node_to)]
                    }) + (if c.port_to == port_to {
                        Seq::<LinkChangeEventView>::empty()
                    } else {
                        seq![LinkChangeEventView::PortTo(port_to)]
                    }) + (if c.port_from == port_from {
                        Seq::<LinkChangeEventView>::empty()
                    } else {
                        seq![LinkChangeEventView::PortFrom(port_from)]
                    }) + (if c.state == state {
                        Seq::<LinkChangeEventView>::empty()
                    } else {
                        seq![LinkChangeEventView::State(state)]
                    })
                    &&& t.announced == s.announced
                    &&& forall|k: u32|
                        k != id ==> (#[trigger] t.links.contains_key(k) == s.links.contains_key(k)
                            && t.links[k] == s.links[k] && t.link_sent[k] == s.link_sent[k])
                    &&& t.nodes == s.nodes
                    &&& t.node_sent == s.node_sent
                    &&& t.port_map == s.port_map
                },
                Err(_) => false,
            }
        }),
{
}

/// News of the properties of a link that is not known: the link is added
/// with the endpoints and state, starts with nothing sent on its channel,
/// and the graph's channel gets exactly its appearance.
pub proof fn lemma_new_link_news(
    s: StateView,
    id: u32,
    state_changed: bool,
    node_from: u32,
    node_to: u32,
    port_from: u32,
    port_to: u32,
    state: LinkStateView,
)
    requires
        !s.links.contains_key(id),
    ensures
        ({
            let e = RegistryEventView::LinkInfo {
                id,
                props_changed: true,
                state_changed,
                node_from,
                node_to,
                port_from,
                port_to,
                state,
            };
            let v = LinkValueView { id, node_from, node_to, port_from, port_to, state };
            match registry_step(s, e) {
                Ok(t) => {
                    &&& t.links == s.links.insert(id, v)
                    &&& t.link_sent == s.link_sent.insert(id, Seq::empty())
                    &&& t.announced == s.announced.push(StateChangeEventView::AddLink(v))
                    &&& t.nodes == s.nodes
                    &&& t.node_sent == s.node_sent
                    &&& t.port_map == s.port_map
                },
                Err(_) => false,
            }
        }),
{
}

/// News that only a node's state changed: a known node takes over the state
/// and its channel gets exactly that state if it differs (nothing
/// otherwise); nothing else changes, and news of an unknown node changes
/// nothing at all.
pub proof fn lemma_node_state_news(
    s: StateView,
    id: u32,
    props: Option<(Option<Seq<char>>, Option<Seq<char>>)>,
    state: NodeStateView,
)
    ensures
        ({
            let e = RegistryEventView::NodeInfo {
                id,
                props_changed: false,
                state_changed: true,
                props,
                state,
            };
            match registry_step(s, e) {
                Ok(t) => if s.nodes.contains_key(id) {
                    &&& t.nodes == s.nodes.insert(id, NodeValueView { state, ..s.nodes[id] })
                    &&& t.node_sent == s.node_sent.insert(
                        id,
                        if s.nodes[id].state == state {
                            s.node_sent[id]
                        } else {
                            s.node_sent[id].push(NodeChangeEventView::State(state))
                        },
                    )
                    &&& t.announced == s.announced
                    &&& t.links == s.links
                    &&& t.link_sent == s.link_sent
                    &&& t.port_map == s.port_map
                } else {
                    t == s
                },
                Err(_) => false,
            }
        }),
{
    if s.nodes.contains_key(id) {
        assert(s.node_sent[id] + Seq::<NodeChangeEventView>::empty() =~= s.node_sent[id]);
        assert(s.node_sent[id] + seq![NodeChangeEventView::State(state)] =~= s.node_sent[id].push(
            NodeChangeEventView::State(state),
        ));
    }
}

/// Node news that changes neither properties nor state changes nothing.
pub proof fn lemma_empty_node_news(
    s: StateView,
    id: u32,
    props: Option<(Option<Seq<char>>, Option<Seq<char>>)>,
    state: NodeStateView,
)
    ensures
        registry_step(
            s,
            RegistryEventView::NodeInfo { id, props_changed: false, state_changed: false, props, state },
        ) == Ok::<StateView, RegistryError>(s),
{
}

/// Node property news without properties, or without a name, is refused
/// (for that reason) and the graph stays as it was.
pub proof fn lemma_node_news_refused(
    s: StateView,
    id: u32,
    state_changed: bool,
    class: Option<Seq<char>>,
    state: NodeStateView,
)
    ensures
        registry_step(
            s,
            RegistryEventView::NodeInfo { id, props_changed: true, state_changed, props: Option::None, state },
        ) == Err::<StateView, RegistryError>(RegistryError::NoProps),
        registry_step(
            s,
            RegistryEventView::NodeInfo {
                id,
                props_changed: true,
                state_changed,
                props: Some((Option::None, class)),
                state,
            },
        ) == Err::<StateView, RegistryError>(RegistryError::NoName),
{
}

/// News that a node went away forgets the node and its record and nothing
/// else; a known node is handed back with its value and with the removal as
/// the last thing sent on its channel, and the graph's channel gets nothing.
pub proof fn lemma_node_removed_news(s: StateView, id: u32, retired: Retired)
    ensures
        ({
            let e = RegistryEventView::NodeRemoved { id };
            &&& match registry_step(s, e) {
                Ok(t) => {
                    &&& t.nodes == s.nodes.remove(id)
                    &&& t.node_sent == s.node_sent.remove(id)
                    &&& t.announced == s.announced
                    &&& t.links == s.links
                    &&& t.link_sent == s.link_sent
                    &&& t.port_map == s.port_map
                },
                Err(_) => false,
            }
            &&& retired_by(s, e, retired) ==> if s.nodes.contains_key(id) {
                retired matches Retired::Node(n) && n@ == s.nodes[id] && n.sent() == s.node_sent[id].push(
                    NodeChangeEventView::Remove,
                )
            } else {
                retired is Nothing
            }
        }),
{
}

/// News that a link went away forgets the link and its record and nothing
/// else; a known link is handed back with its value and with the removal as
/// the last thing sent on its channel, and the graph's channel gets nothing.
pub proof fn lemma_link_removed_news(s: StateView, id: u32, retired: Retired)
    ensures
        ({
            let e = RegistryEventView::LinkRemoved { id };
            &&& match registry_step(s, e) {
                Ok(t) => {
                    &&& t.links == s.links.remove(id)
                    &&& t.link_sent == s.link_sent.remove(id)
                    &&& t.announced == s.announced
                    &&& t.nodes == s.nodes
                    &&& t.node_sent == s.node_sent
                    &&& t.port_map == s.port_map
                },
                Err(_) => false,
            }
            &&& retired_by(s, e, retired) ==> if s.links.contains_key(id) {
                retired matches Retired::Link(l) && l@ == s.links[id] && l.sent() == s.link_sent[id].push(
                    LinkChangeEventView::Remove,
                )
            } else {
                retired is Nothing
            }
        }),
{
}

/// News that only a known link's state changed: the link takes over the
/// state and its channel gets exactly that state if it differs (nothing
/// otherwise); nothing else changes.
pub proof fn lemma_link_state_news(
    s: StateView,
    id: u32,
    node_from: u32,
    node_to: u32,
    port_from: u32,
    port_to: u32,
    state: LinkStateView,
)
    requires
        s.links.contains_key(id),
    ensures
        ({
            let e = RegistryEventView::LinkInfo {
                id,
                props_changed: false,
                state_changed: true,
                node_from,
                node_to,
                port_from,
                port_to,
                state,
            };
            match registry_step(s, e) {
                Ok(t) => {
                    &&& t.links == s.links.insert(id, LinkValueView { state, ..s.links[id] })
                    &&& t.link_sent == s.link_sent.insert(
                        id,
                        if s.links[id].state == state {
                            s.link_sent[id]
                        } else {
                            s.link_sent[id].push(LinkChangeEventView::State(state))
                        },
                    )
                    &&& t.announced == s.announced
                    &&& t.nodes == s.nodes
                    &&& t.node_sent == s.node_sent
                    &&& t.port_map == s.port_map
                },
                Err(_) => false,
            }
        }),
{
    assert(s.link_sent[id] + Seq::<LinkChangeEventView>::empty() =~= s.link_sent[id]);
    assert(s.link_sent[id] + seq![LinkChangeEventView::State(state)] =~= s.link_sent[id].push(
        LinkChangeEventView::State(state),
    ));
}

/// News of a port in the registry records, for the port, the node whose id
/// its properties give as a decimal number, and changes nothing else; it is
/// refused, changing nothing, without properties, without a node id, or
/// with one that is not such a number.
pub proof fn lemma_port_added_news(s: StateView, id: u32, node_text: Seq<char>)
    ensures
        match parsed_u32(node_text) {
            Some(n) => registry_step(
                s,
                RegistryEventView::PortAdded { id, props: Some(Some(node_text)) },
            ) == Ok::<StateView, RegistryError>(StateView { port_map: s.port_map.insert(id, n), ..s }),
            Option::None => registry_step(
                s,
                RegistryEventView::PortAdded { id, props: Some(Some(node_text)) },
            ) == Err::<StateView, RegistryError>(RegistryError::InvalidNodeId),
        },
        registry_step(s, RegistryEventView::PortAdded { id, props: Some(Option::None) }) == Err::<
            StateView,
            RegistryError,
        >(RegistryError::NoNodeId),
        registry_step(s, RegistryEventView::PortAdded { id, props: Option::None }) == Err::<
            StateView,
            RegistryError,
        >(RegistryError::NoProps),
{
}

/// News that a port went away: the known node it is recorded under drops it
/// and that node's channel gets exactly the removal if it held the port
/// (nothing otherwise); no other node, channel or record changes (the record
/// of the port stays); news of an unrecorded port changes nothing.
pub proof fn lemma_port_removed_news(s: StateView, id: u32)
    ensures
        match registry_step(s, RegistryEventView::PortRemoved { id }) {
            Ok(t) => if s.port_map.contains_key(id) && s.nodes.contains_key(s.port_map[id]) {
                let n = s.port_map[id];
                &&& t.nodes == s.nodes.insert(n, NodeValueView { ports: s.nodes[n].ports.remove(id), ..s.nodes[n] })
                &&& t.node_sent == s.node_sent.insert(
                    n,
                    if s.nodes[n].ports.contains_key(id) {
                        s.node_sent[n].push(NodeChangeEventView::RemovePort(id))
                    } else {
                        s.node_sent[n]
                    },
                )
                &&& t.port_map == s.port_map
                &&& t.announced == s.announced
                &&& t.links == s.links
                &&& t.link_sent == s.link_sent
            } else {
                t == s
            },
            Err(_) => false,
        },
{
    if s.port_map.contains_key(id) && s.nodes.contains_key(s.port_map[id]) {
        let n = s.port_map[id];
        assert(s.node_sent[n] + Seq::<NodeChangeEventView>::empty() =~= s.node_sent[n]);
        assert(s.node_sent[n] + seq![NodeChangeEventView::RemovePort(id)] =~= s.node_sent[n].push(
            NodeChangeEventView::RemovePort(id),
        ));
    }
}

} // verus!
