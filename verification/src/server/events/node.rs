//! The shapes in which nodes, links and their changes are sent to web
//! clients: the same data as the graph holds, with a node's ports as a list.
use vstd::prelude::*;

use crate::pipewire::node as graph;
use crate::pipewire::node::{
    FormatView, LinkChangeEventView, LinkStateView, LinkValueView, MediaView,
    NodeChangeEventView, NodeStateView, PortView,
};
use crate::pipewire::state::keys_of;

verus! {

broadcast use vstd::std_specs::hash::group_hash_axioms;

/// A change of node `id`.
#[derive(Debug, PartialEq)]
pub struct NodeEvent {
    pub id: u32,
    pub event: NodeChangeEvent,
}

/// Which way data flows through a node.
#[derive(Clone, Copy, Debug, PartialEq, Eq, Structural)]
pub enum NodeTypeDirection {
    In,
    Out,
    Both,
    Neither,
}

impl View for NodeTypeDirection {
    type V = graph::NodeTypeDirection;

    open spec fn view(&self) -> graph::NodeTypeDirection {
        match self {
            NodeTypeDirection::In => graph::NodeTypeDirection::In,
            NodeTypeDirection::Out => graph::NodeTypeDirection::Out,
            NodeTypeDirection::Both => graph::NodeTypeDirection::Both,
            NodeTypeDirection::Neither => graph::NodeTypeDirection::Neither,
        }
    }
}

impl NodeTypeDirection {
    /// The same direction.
    pub fn from(value: graph::NodeTypeDirection) -> (r: NodeTypeDirection)
        ensures
            r@ == value,
    {
        match value {
            graph::NodeTypeDirection::In => NodeTypeDirection::In,
            graph::NodeTypeDirection::Out => NodeTypeDirection::Out,
            graph::NodeTypeDirection::Both => NodeTypeDirection::Both,
            graph::NodeTypeDirection::Neither => NodeTypeDirection::Neither,
        }
    }
}

/// A node's run state.
#[derive(Debug, PartialEq)]
pub enum NodeState {
    Creating,
    Suspended,
    Idle,
    Running,
    Error(String),
}

impl View for NodeState {
    type V = NodeStateView;

    open spec fn view(&self) -> NodeStateView {
        match self {
            NodeState::Creating => NodeStateView::Creating,
            NodeState::Suspended => NodeStateView::Suspended,
            NodeState::Idle => NodeStateView::Idle,
            NodeState::Running => NodeStateView::Running,
            NodeState::Error(e) => NodeStateView::Error(e@),
        }
    }
}

impl NodeState {
    /// The same state.
    pub fn from(value: graph::NodeState) -> (r: NodeState)
        ensures
            r@ == value@,
    {
        match value {
            graph::NodeState::Creating => NodeState::Creating,
            graph::NodeState::Suspended => NodeState::Suspended,
            graph::NodeState::Idle => NodeState::Idle,
            graph::NodeState::Running => NodeState::Running,
            graph::NodeState::Error(e) => NodeState::Error(e),
        }
    }
}

/// A node's media kind.
#[derive(Debug, PartialEq)]
pub enum Media {
    Audio,
    Video,
    Midi,
    Unknow(String),
    Unspecified,
}

impl View for Media {
    type V = MediaView;

    open spec fn view(&self) -> MediaView {
        match self {
            Media::Audio => MediaView::Audio,
            Media::Video => MediaView::Video,
            Media::Midi => MediaView::Midi,
            Media::Unknow(s) => MediaView::Unknow(s@),
            Media::Unspecified => MediaView::Unspecified,
        }
    }
}

impl Media {
    /// The same media kind.
    pub fn from(value: graph::Media) -> (r: Media)
        ensures
            r@ == value@,
    {
        match value {
            graph::Media::Audio => Media::Audio,
            graph::Media::Video => Media::Video,
            graph::Media::Midi => Media::Midi,
            graph::Media::Unknow(s) => Media::Unknow(s),
            graph::Media::Unspecified => Media::Unspecified,
        }
    }
}

/// A port's sample format.
#[derive(Debug, PartialEq)]
pub enum Format {
    Audio,
    Video,
    Midi,
    Unknow(String),
    Unspecified,
}

impl View for Format {
    type V = FormatView;

    open spec fn view(&self) -> FormatView {
        match self {
            Format::Audio => FormatView::Audio,
            Format::Video => FormatView::Video,
            Format::Midi => FormatView::Midi,
            Format::Unknow(s) => FormatView::Unknow(s@),
            Format::Unspecified => FormatView::Unspecified,
        }
    }
}

impl Format {
    /// The same format.
    pub fn from(value: graph::Format) -> (r: Format)
        ensures
            r@ == value@,
    {
        match value {
            graph::Format::Audio => Format::Audio,
            graph::Format::Video => Format::Video,
            graph::Format::Midi => Format::Midi,
            graph::Format::Unknow(s) => Format::Unknow(s),
            graph::Format::Unspecified => Format::Unspecified,
        }
    }
}

/// Which way a port carries data.
#[derive(Clone, Copy, Debug, PartialEq, Eq, Structural)]
pub enum Direction {
    In,
    Out,
}

impl View for Direction {
    type V = graph::Direction;

    open spec fn view(&self) -> graph::Direction {
        match self {
            Direction::In => graph::Direction::In,
            Direction::Out => graph::Direction::Out,
        }
    }
}

impl Direction {
    /// The same direction.
    pub fn from(value: graph::Direction) -> (r: Direction)
        ensures
            r@ == value,
    {
        match value {
            graph::Direction::In => Direction::In,
            graph::Direction::Out => Direction::Out,
        }
    }
}

/// A port of a node.
#[derive(Debug, PartialEq)]
pub struct Port {
    pub id: u32,
    pub name: String,
    pub direction: Direction,
    pub format: Format,
}

impl View for Port {
    type V = PortView;

    open spec fn view(&self) -> PortView {
        PortView { id: self.id, name: self.name@, direction: self.direction@, format: self.format@ }
    }
}

impl Port {
    /// The same port.
    pub fn from(value: graph::Port) -> (r: Port)
        ensures
            r@ == value@,
    {
        Port {
            id: value.id,
            name: value.name,
            direction: Direction::from(value.direction),
            format: Format::from(value.format),
        }
    }
}

/// A node change.
#[derive(Debug, PartialEq)]
pub enum NodeChangeEvent {
    Name(String),
    State(NodeState),
    AddPort(Port),
    ModifyPort(Port),
    RemovePort(u32),
    NodeType(NodeTypeDirection),
    Remove,
}

impl View for NodeChangeEvent {
    type V = NodeChangeEventView;

    open spec fn view(&self) -> NodeChangeEventView {
        match self {
            NodeChangeEvent::Name(n) => NodeChangeEventView::Name(n@),
            NodeChangeEvent::State(s) => NodeChangeEventView::State(s@),
            NodeChangeEvent::AddPort(p) => NodeChangeEventView::AddPort(p@),
            NodeChangeEvent::ModifyPort(p) => NodeChangeEventView::ModifyPort(p@),
            NodeChangeEvent::RemovePort(id) => NodeChangeEventView::RemovePort(*id),
            NodeChangeEvent::NodeType(t) => NodeChangeEventView::NodeType(t@),
            NodeChangeEvent::Remove => NodeChangeEventView::Remove,
        }
    }
}

impl NodeChangeEvent {
    /// The same change.
    pub fn from(value: graph::NodeChangeEvent) -> (r: NodeChangeEvent)
        ensures
            r@ == value@,
    {
        match value {
            graph::NodeChangeEvent::Name(n) => NodeChangeEvent::Name(n),
            graph::NodeChangeEvent::State(s) => NodeChangeEvent::State(NodeState::from(s)),
            graph::NodeChangeEvent::AddPort(p) => NodeChangeEvent::AddPort(Port::from(p)),
            graph::NodeChangeEvent::ModifyPort(p) => NodeChangeEvent::ModifyPort(Port::from(p)),
            graph::NodeChangeEvent::RemovePort(id) => NodeChangeEvent::RemovePort(id),
            graph::NodeChangeEvent::NodeType(t) => NodeChangeEvent::NodeType(
                NodeTypeDirection::from(t),
            ),
            graph::NodeChangeEvent::Remove => NodeChangeEvent::Remove,
        }
    }
}

/// A node with its ports as a list.
#[derive(Debug, PartialEq)]
pub struct NodeValue {
    pub id: u32,
    pub name: String,
    pub state: NodeState,
    pub media: Media,
    pub ports: Vec<Port>,
    pub node_type: NodeTypeDirection,
}

/// A node with its ports as a list, as mathematical data.
pub struct NodeRecordView {
    pub id: u32,
    pub name: Seq<char>,
    pub state: NodeStateView,
    pub media: MediaView,
    pub ports: Seq<PortView>,
    pub node_type: graph::NodeTypeDirection,
}

impl View for NodeValue {
    type V = NodeRecordView;

    open spec fn view(&self) -> NodeRecordView {
        NodeRecordView {
            id: self.id,
            name: self.name@,
            state: self.state@,
            media: self.media@,
            ports: self.ports@.map_values(|p: Port| p@),
            node_type: self.node_type@,
        }
    }
}

/// `list` holds the entries of `map`, each once, in the order of `keys`.
pub open spec fn lists_in_order<V>(list: Seq<V>, map: Map<u32, V>, keys: Seq<u32>) -> bool {
    &&& keys.no_duplicates()
    &&& keys.to_set() == map.dom()
    &&& keys.len() == list.len()
    &&& forall|i: int| 0 <= i < list.len() ==> #[trigger] list[i] == map[keys[i]]
}

/// `list` holds the entries of `map`, each once, in some order.
pub open spec fn lists<V>(list: Seq<V>, map: Map<u32, V>) -> bool {
    exists|keys: Seq<u32>| lists_in_order(list, map, keys)
}

/// `record` shows the node `node`: the same data, its ports as a list.
pub open spec fn shows_node(record: NodeRecordView, node: graph::NodeValueView) -> bool {
    &&& record.id == node.id
    &&& record.name == node.name
    &&& record.state == node.state
    &&& record.media == node.media
    &&& record.node_type == node.node_type
    &&& lists(record.ports, node.ports)
}

impl NodeValue {
    /// The same node, its ports listed in the order the map yields them.
    pub fn from(value: graph::NodeValue) -> (r: NodeValue)
        ensures
            shows_node(r@, value@),
    {
        let graph::NodeValue { id, name, state, media, ports, node_type } = value;
        let ghost source = graph::ports_view(ports@);
        let keys = keys_of(&ports);
        let mut ports = ports;
        assert(source.dom() =~= ports@.dom());
        let mut list: Vec<Port> = Vec::new();
        let mut i: usize = 0;
        while i < keys.len()
            invariant
                keys@.no_duplicates(),
                keys@.to_set() == source.dom(),
                i <= keys@.len(),
                list@.len() == i,
                forall|j: int| 0 <= j < i ==> #[trigger] list@[j]@ == source[keys@[j]],
                forall|k: u32|
                    #[trigger] ports@.contains_key(k) <==> (source.contains_key(k)
                        && !keys@.take(i as int).contains(k)),
                forall|k: u32| #[trigger] ports@.contains_key(k) ==> ports@[k]@ == source[k],
            decreases keys@.len() - i,
        {
            let k = keys[i];
            assert(keys@.to_set().contains(k));
            assert(!keys@.take(i as int).contains(k)) by {
                if keys@.take(i as int).contains(k) {
                    let j = choose|j: int| 0 <= j < i && keys@.take(i as int)[j] == k;
                    assert(keys@[j] == keys@[i as int]);
                }
            }
            match ports.remove(&k) {
                Some(p) => {
                    list.push(Port::from(p));
                },
                Option::None => {},
            }
            proof {
                let before = keys@.take(i as int);
                let after = keys@.take(i + 1);
                assert(after =~= before.push(k));
                assert forall|x: u32| #[trigger] ports@.contains_key(x) <==> (source.contains_key(x)
                    && !after.contains(x)) by {
                    if after.contains(x) && x != k {
                        let j = choose|j: int| 0 <= j < after.len() && after[j] == x;
                        assert(before[j] == x);
                    }
                    if before.contains(x) {
                        let j = choose|j: int| 0 <= j < before.len() && before[j] == x;
                        assert(after[j] == x);
                    }
                    assert(after[i as int] == k);
                }
            }
            i = i + 1;
        }
        let r = NodeValue {
            id,
            name,
            state: NodeState::from(state),
            media: Media::from(media),
            ports: list,
            node_type: NodeTypeDirection::from(node_type),
        };
        assert(lists_in_order(r@.ports, source, keys@));
        r
    }
}

/// A change of link `id`.
#[derive(Debug, PartialEq)]
pub struct LinkEvent {
    pub id: u32,
    pub event: LinkChangeEvent,
}

/// A link change.
#[derive(Debug, PartialEq)]
pub enum LinkChangeEvent {
    NodeFrom(u32),
    NodeTo(u32),
    PortFrom(u32),
    PortTo(u32),
    State(LinkState),
    Remove,
}

impl View for LinkChangeEvent {
    type V = LinkChangeEventView;

    open spec fn view(&self) -> LinkChangeEventView {
        match self {
            LinkChangeEvent::NodeFrom(v) => LinkChangeEventView::NodeFrom(*v),
            LinkChangeEvent::NodeTo(v) => LinkChangeEventView::NodeTo(*v),
            LinkChangeEvent::PortFrom(v) => LinkChangeEventView::PortFrom(*v),
            LinkChangeEvent::PortTo(v) => LinkChangeEventView::PortTo(*v),
            LinkChangeEvent::State(s) => LinkChangeEventView::State(s@),
            LinkChangeEvent::Remove => LinkChangeEventView::Remove,
        }
    }
}

impl LinkChangeEvent {
    /// The same change.
    pub fn from(value: graph::LinkChangeEvent) -> (r: LinkChangeEvent)
        ensures
            r@ == value@,
    {
        match value {
            graph::LinkChangeEvent::NodeFrom(v) => LinkChangeEvent::NodeFrom(v),
            graph::LinkChangeEvent::NodeTo(v) => LinkChangeEvent::NodeTo(v),
            graph::LinkChangeEvent::PortFrom(v) => LinkChangeEvent::PortFrom(v),
            graph::LinkChangeEvent::PortTo(v) => LinkChangeEvent::PortTo(v),
            graph::LinkChangeEvent::State(s) => LinkChangeEvent::State(LinkState::from(s)),
            graph::LinkChangeEvent::Remove => LinkChangeEvent::Remove,
        }
    }
}

/// A link.
#[derive(Debug, PartialEq)]
pub struct LinkValue {
    pub id: u32,
    pub node_from: u32,
    pub node_to: u32,
    pub port_from: u32,
    pub port_to: u32,
    pub state: LinkState,
}

impl View for LinkValue {
    type V = LinkValueView;

    open spec fn view(&self) -> LinkValueView {
        LinkValueView {
            id: self.id,
            node_from: self.node_from,
            node_to: self.node_to,
            port_from: self.port_from,
            port_to: self.port_to,
            state: self.state@,
        }
    }
}

impl LinkValue {
    /// The same link.
    pub fn from(value: graph::LinkValue) -> (r: LinkValue)
        ensures
            r@ == value@,
    {
        LinkValue {
            id: value.id,
            node_from: value.node_from,
            node_to: value.node_to,
            port_from: value.port_from,
            port_to: value.port_to,
            state: LinkState::from(value.state),
        }
    }
}

/// A link's state.
#[derive(Debug, PartialEq)]
pub enum LinkState {
    Error(String),
    Unlinked,
    Init,
    Negotiating,
    Allocating,
    Paused,
    Active,
}

impl View for LinkState {
    type V = LinkStateView;

    open spec fn view(&self) -> LinkStateView {
        match self {
            LinkState::Error(e) => LinkStateView::Error(e@),
            LinkState::Unlinked => LinkStateView::Unlinked,
            LinkState::Init => LinkStateView::Init,
            LinkState::Negotiating => LinkStateView::Negotiating,
            LinkState::Allocating => LinkStateView::Allocating,
            LinkState::Paused => LinkStateView::Paused,
            LinkState::Active => LinkStateView::Active,
        }
    }
}

impl LinkState {
    /// The same state.
    pub fn from(value: graph::LinkState) -> (r: LinkState)
        ensures
            r@ == value@,
    {
        match value {
            graph::LinkState::Error(e) => LinkState::Error(e),
            graph::LinkState::Unlinked => LinkState::Unlinked,
            graph::LinkState::Init => LinkState::Init,
            graph::LinkState::Negotiating => LinkState::Negotiating,
            graph::LinkState::Allocating => LinkState::Allocating,
            graph::LinkState::Paused => LinkState::Paused,
            graph::LinkState::Active => LinkState::Active,
        }
    }
}

} // verus!
