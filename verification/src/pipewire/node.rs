//! The graph objects that PipeWire reports (nodes, their ports, and links),
//! nodes and links together with the channels on which they broadcast their
//! changes, and those change events.
use std::collections::HashMap;
use tokio::sync::broadcast::Receiver;
use vstd::prelude::*;

use crate::broadcast::Chan;
use crate::text::{contains_str, has_infix, str_equals};

verus! {

broadcast use vstd::std_specs::hash::group_hash_axioms;

// ---------------------------------------------------------------------------
// Plain enums without text
// ---------------------------------------------------------------------------

/// Which way audio flows through a node, as its media class tells.
#[derive(Clone, Copy, Debug, PartialEq, Eq, Structural)]
pub enum NodeTypeDirection {
    In,
    Out,
    Both,
    Neither,
}

/// Which way a port carries data.
#[derive(Clone, Copy, Debug, PartialEq, Eq, Structural)]
pub enum Direction {
    In,
    Out,
}

// ---------------------------------------------------------------------------
// Enums that carry text, with their mathematical views
// ---------------------------------------------------------------------------

/// The run state of a node.
#[derive(Debug, PartialEq)]
pub enum NodeState {
    Creating,
    Suspended,
    Idle,
    Running,
    Error(String),
}

/// A node state with its error text as a sequence of characters.
pub enum NodeStateView {
    Creating,
    Suspended,
    Idle,
    Running,
    Error(Seq<char>),
}

impl View for NodeState {
    type V = NodeStateView;

    open spec fn view(&self) -> NodeStateView {
        match self {
            NodeState::Creating => NodeStateView::Creating,
            NodeState::Suspended => NodeStateView::Suspended,
            NodeState::Idle => NodeStateView::Idle,
            NodeState::Running => NodeStateView::Running,
            NodeState::Error(e) => NodeStateView::Error(e@),
        }
    }
}

impl Clone for NodeState {
    fn clone(&self) -> (r: Self)
        ensures
            r@ == self@,
    {
        match self {
            NodeState::Creating => NodeState::Creating,
            NodeState::Suspended => NodeState::Suspended,
            NodeState::Idle => NodeState::Idle,
            NodeState::Running => NodeState::Running,
            NodeState::Error(e) => NodeState::Error(e.clone()),
        }
    }
}

impl NodeState {
    /// Whether two node states are the same state (with the same error text).
    pub fn same_as(&self, other: &NodeState) -> (r: bool)
        ensures
            r == (self@ == other@),
    {
        match (self, other) {
            (NodeState::Creating, NodeState::Creating) => true,
            (NodeState::Suspended, NodeState::Suspended) => true,
            (NodeState::Idle, NodeState::Idle) => true,
            (NodeState::Running, NodeState::Running) => true,
            (NodeState::Error(a), NodeState::Error(b)) => a.eq(b),
            _ => false,
        }
    }
}

/// The kind of media a node handles, as its media class tells.
#[derive(Debug, PartialEq)]
pub enum Media {
    Audio,
    Video,
    Midi,
    Unknow(String),
    Unspecified,
}

/// A media kind with its unrecognised class as a sequence of characters.
pub enum MediaView {
    Audio,
    Video,
    Midi,
    Unknow(Seq<char>),
    Unspecified,
}

impl View for Media {
    type V = MediaView;

    open spec fn view(&self) -> MediaView {
        match self {
            Media::Audio => MediaView::Audio,
            Media::Video => MediaView::Video,
            Media::Midi => MediaView::Midi,
            Media::Unknow(s) => MediaView::Unknow(s@),
            Media::Unspecified => MediaView::Unspecified,
        }
    }
}

impl Clone for Media {
    fn clone(&self) -> (r: Self)
        ensures
            r@ == self@,
    {
        match self {
            Media::Audio => Media::Audio,
            Media::Video => Media::Video,
            Media::Midi => Media::Midi,
            Media::Unknow(s) => Media::Unknow(s.clone()),
            Media::Unspecified => Media::Unspecified,
        }
    }
}

/// The sample format of a port, as its DSP format text tells.
#[derive(Debug, PartialEq)]
pub enum Format {
    Audio,
    Video,
    Midi,
    Unknow(String),
    Unspecified,
}

/// A port format with its unrecognised text as a sequence of characters.
pub enum FormatView {
    Audio,
    Video,
    Midi,
    Unknow(Seq<char>),
    Unspecified,
}

impl View for Format {
    type V = FormatView;

    open spec fn view(&self) -> FormatView {
        match self {
            Format::Audio => FormatView::Audio,
            Format::Video => FormatView::Video,
            Format::Midi => FormatView::Midi,
            Format::Unknow(s) => FormatView::Unknow(s@),
            Format::Unspecified => FormatView::Unspecified,
        }
    }
}

impl Clone for Format {
    fn clone(&self) -> (r: Self)
        ensures
            r@ == self@,
    {
        match self {
            Format::Audio => Format::Audio,
            Format::Video => Format::Video,
            Format::Midi => Format::Midi,
            Format::Unknow(s) => Format::Unknow(s.clone()),
            Format::Unspecified => Format::Unspecified,
        }
    }
}

/// The state of a link between two ports.
#[derive(Debug, PartialEq)]
pub enum LinkState {
    Error(String),
    Unlinked,
    Init,
    Negotiating,
    Allocating,
    Paused,
    Active,
}

/// A link state with its error text as a sequence of characters.
pub enum LinkStateView {
    Error(Seq<char>),
    Unlinked,
    Init,
    Negotiating,
    Allocating,
    Paused,
    Active,
}

impl View for LinkState {
    type V = LinkStateView;

    open spec fn view(&self) -> LinkStateView {
        match self {
            LinkState::Error(e) => LinkStateView::Error(e@),
            LinkState::Unlinked => LinkStateView::Unlinked,
            LinkState::Init => LinkStateView::Init,
            LinkState::Negotiating => LinkStateView::Negotiating,
            LinkState::Allocating => LinkStateView::Allocating,
            LinkState::Paused => LinkStateView::Paused,
            LinkState::Active => LinkStateView::Active,
        }
    }
}

impl Clone for LinkState {
    fn clone(&self) -> (r: Self)
        ensures
            r@ == self@,
    {
        match self {
            LinkState::Error(e) => LinkState::Error(e.clone()),
            LinkState::Unlinked => LinkState::Unlinked,
            LinkState::Init => LinkState::Init,
            LinkState::Negotiating => LinkState::Negotiating,
            LinkState::Allocating => LinkState::Allocating,
            LinkState::Paused => LinkState::Paused,
            LinkState::Active => LinkState::Active,
        }
    }
}

impl LinkState {
    /// Whether two link states are the same state (with the same error text).
    pub fn same_as(&self, other: &LinkState) -> (r: bool)
        ensures
            r == (self@ == other@),
    {
        match (self, other) {
            (LinkState::Error(a), LinkState::Error(b)) => a.eq(b),
            (LinkState::Unlinked, LinkState::Unlinked) => true,
            (LinkState::Init, LinkState::Init) => true,
            (LinkState::Negotiating, LinkState::Negotiating) => true,
            (LinkState::Allocating, LinkState::Allocating) => true,
            (LinkState::Paused, LinkState::Paused) => true,
            (LinkState::Active, LinkState::Active) => true,
            _ => false,
        }
    }
}

// ---------------------------------------------------------------------------
// Reading PipeWire property texts
// ---------------------------------------------------------------------------

/// The characters of an optional property text.
pub open spec fn text_of(value: Option<&str>) -> Option<Seq<char>> {
    match value {
        Some(v) => Some(v@),
        Option::None => Option::None,
    }
}

/// The media kind that a media class names: the first of "Audio", "Midi"
/// and "Video" that occurs in it, else the class itself as unknown.
pub open spec fn media_of(class: Option<Seq<char>>) -> MediaView {
    match class {
        Some(v) => if has_infix(v, "Audio"@) {
            MediaView::Audio
        } else if has_infix(v, "Midi"@) {
            MediaView::Midi
        } else if has_infix(v, "Video"@) {
            MediaView::Video
        } else {
            MediaView::Unknow(v)
        },
        Option::None => MediaView::Unspecified,
    }
}

/// The direction that a media class names: "Sink" or "Input" make a node
/// one that takes data in, "Source" or "Output" one that puts data out.
pub open spec fn direction_of(class: Option<Seq<char>>) -> NodeTypeDirection {
    match class {
        Some(v) => if has_infix(v, "Sink"@) || has_infix(v, "Input"@) {
            NodeTypeDirection::In
        } else if has_infix(v, "Source"@) || has_infix(v, "Output"@) {
            NodeTypeDirection::Out
        } else {
            NodeTypeDirection::Neither
        },
        Option::None => NodeTypeDirection::Neither,
    }
}

/// The port format that a DSP format text names, by exact match.
pub open spec fn format_of(text: Option<Seq<char>>) -> FormatView {
    match text {
        Some(v) => if v == "32 bit float mono audio"@ {
            FormatView::Audio
        } else if v == "8 bit raw midi"@ {
            FormatView::Midi
        } else if v == "32 bit float RGBA video"@ {
            FormatView::Video
        } else {
            FormatView::Unknow(v)
        },
        Option::None => FormatView::Unspecified,
    }
}

impl Media {
    /// Classifies a node by its media class.
    pub fn from(value: Option<&str>) -> (r: Media)
        ensures
            r@ == media_of(text_of(value)),
    {
        match value {
            Some(v) => if contains_str(v, "Audio") {
                Media::Audio
            } else if contains_str(v, "Midi") {
                Media::Midi
            } else if contains_str(v, "Video") {
                Media::Video
            } else {
                Media::Unknow(v.to_owned())
            },
            Option::None => Media::Unspecified,
        }
    }
}

impl NodeTypeDirection {
    /// Classifies a node's direction by its media class.
    pub fn from(value: Option<&str>) -> (r: NodeTypeDirection)
        ensures
            r == direction_of(text_of(value)),
            r != NodeTypeDirection::Both,
    {
        match value {
            Some(v) => if contains_str(v, "Sink") || contains_str(v, "Input") {
                NodeTypeDirection::In
            } else if contains_str(v, "Source") || contains_str(v, "Output") {
                NodeTypeDirection::Out
            } else {
                NodeTypeDirection::Neither
            },
            Option::None => NodeTypeDirection::Neither,
        }
    }
}

impl Format {
    /// Classifies a port by its DSP format text.
    pub fn from(value: Option<&str>) -> (r: Format)
        ensures
            r@ == format_of(text_of(value)),
    {
        match value {
            Some(v) => if str_equals(v, "32 bit float mono audio") {
                Format::Audio
            } else if str_equals(v, "8 bit raw midi") {
                Format::Midi
            } else if str_equals(v, "32 bit float RGBA video") {
                Format::Video
            } else {
                Format::Unknow(v.to_owned())
            },
            Option::None => Format::Unspecified,
        }
    }
}

// ---------------------------------------------------------------------------
// Values
// ---------------------------------------------------------------------------

/// A port of a node.
#[derive(Debug, PartialEq)]
pub struct Port {
    pub id: u32,
    pub name: String,
    pub direction: Direction,
    pub format: Format,
}

/// A port with its text as sequences of characters.
pub struct PortView {
    pub id: u32,
    pub name: Seq<char>,
    pub direction: Direction,
    pub format: FormatView,
}

impl View for Port {
    type V = PortView;

    open spec fn view(&self) -> PortView {
        PortView { id: self.id, name: self.name@, direction: self.direction, format: self.format@ }
    }
}

impl Clone for Port {
    fn clone(&self) -> (r: Self)
        ensures
            r@ == self@,
    {
        Port {
            id: self.id,
            name: self.name.clone(),
            direction: self.direction,
            format: self.format.clone(),
        }
    }
}

/// What is known of a node: its identity, name, state, media kind, ports
/// (keyed by port id) and direction.
#[derive(Debug, PartialEq)]
pub struct NodeValue {
    pub id: u32,
    pub name: String,
    pub state: NodeState,
    pub media: Media,
    pub ports: HashMap<u32, Port>,
    pub node_type: NodeTypeDirection,
}

/// A node value as mathematical data.
pub struct NodeValueView {
    pub id: u32,
    pub name: Seq<char>,
    pub state: NodeStateView,
    pub media: MediaView,
    pub ports: Map<u32, PortView>,
    pub node_type: NodeTypeDirection,
}

impl NodeValueView {
    /// This value with another state.
    pub open spec fn with_state(self, state: NodeStateView) -> NodeValueView {
        NodeValueView { state, ..self }
    }

    /// This value with other ports.
    pub open spec fn with_ports(self, ports: Map<u32, PortView>) -> NodeValueView {
        NodeValueView { ports, ..self }
    }
}

/// The views of the ports in a port map.
pub open spec fn ports_view(ports: Map<u32, Port>) -> Map<u32, PortView> {
    ports.map_values(|p: Port| p@)
}

impl View for NodeValue {
    type V = NodeValueView;

    open spec fn view(&self) -> NodeValueView {
        NodeValueView {
            id: self.id,
            name: self.name@,
            state: self.state@,
            media: self.media@,
            ports: ports_view(self.ports@),
            node_type: self.node_type,
        }
    }
}

impl Clone for NodeValue {
    fn clone(&self) -> (r: Self)
        ensures
            r@ == self@,
    {
        NodeValue {
            id: self.id,
            name: self.name.clone(),
            state: self.state.clone(),
            media: self.media.clone(),
            ports: self.ports.clone(),
            node_type: self.node_type,
        }
    }
}

/// What is known of a link: which node and port it leaves from and goes to,
/// and its state.
#[derive(Debug, PartialEq)]
pub struct LinkValue {
    pub id: u32,
    pub node_from: u32,
    pub node_to: u32,
    pub port_from: u32,
    pub port_to: u32,
    pub state: LinkState,
}

/// A link value as mathematical data.
pub struct LinkValueView {
    pub id: u32,
    pub node_from: u32,
    pub node_to: u32,
    pub port_from: u32,
    pub port_to: u32,
    pub state: LinkStateView,
}

impl LinkValueView {
    /// This value with another state.
    pub open spec fn with_state(self, state: LinkStateView) -> LinkValueView {
        LinkValueView { state, ..self }
    }
}

impl View for LinkValue {
    type V = LinkValueView;

    open spec fn view(&self) -> LinkValueView {
        LinkValueView {
            id: self.id,
            node_from: self.node_from,
            node_to: self.node_to,
            port_from: self.port_from,
            port_to: self.port_to,
            state: self.state@,
        }
    }
}

impl Clone for LinkValue {
    fn clone(&self) -> (r: Self)
        ensures
            r@ == self@,
    {
        LinkValue {
            id: self.id,
            node_from: self.node_from,
            node_to: self.node_to,
            port_from: self.port_from,
            port_to: self.port_to,
            state: self.state.clone(),
        }
    }
}

// ---------------------------------------------------------------------------
// Change events
// ---------------------------------------------------------------------------

/// A change of a node, as it is broadcast on the node's channel.
#[derive(Debug, PartialEq)]
pub enum NodeChangeEvent {
    Name(String),
    State(NodeState),
    AddPort(Port),
    ModifyPort(Port),
    RemovePort(u32),
    Remove,
    NodeType(NodeTypeDirection),
}

/// A node change as mathematical data.
pub enum NodeChangeEventView {
    Name(Seq<char>),
    State(NodeStateView),
    AddPort(PortView),
    ModifyPort(PortView),
    RemovePort(u32),
    Remove,
    NodeType(NodeTypeDirection),
}

impl View for NodeChangeEvent {
    type V = NodeChangeEventView;

    open spec fn view(&self) -> NodeChangeEventView {
        match self {
            NodeChangeEvent::Name(n) => NodeChangeEventView::Name(n@),
            NodeChangeEvent::State(s) => NodeChangeEventView::State(s@),
            NodeChangeEvent::AddPort(p) => NodeChangeEventView::AddPort(p@),
            NodeChangeEvent::ModifyPort(p) => NodeChangeEventView::ModifyPort(p@),
            NodeChangeEvent::RemovePort(id) => NodeChangeEventView::RemovePort(*id),
            NodeChangeEvent::Remove => NodeChangeEventView::Remove,
            NodeChangeEvent::NodeType(t) => NodeChangeEventView::NodeType(*t),
        }
    }
}

impl Clone for NodeChangeEvent {
    fn clone(&self) -> (r: Self)
        ensures
            r@ == self@,
    {
        match self {
            NodeChangeEvent::Name(n) => NodeChangeEvent::Name(n.clone()),
            NodeChangeEvent::State(s) => NodeChangeEvent::State(s.clone()),
            NodeChangeEvent::AddPort(p) => NodeChangeEvent::AddPort(p.clone()),
            NodeChangeEvent::ModifyPort(p) => NodeChangeEvent::ModifyPort(p.clone()),
            NodeChangeEvent::RemovePort(id) => NodeChangeEvent::RemovePort(*id),
            NodeChangeEvent::Remove => NodeChangeEvent::Remove,
            NodeChangeEvent::NodeType(t) => NodeChangeEvent::NodeType(*t),
        }
    }
}

/// A change of a link, as it is broadcast on the link's channel.
#[derive(Debug, PartialEq)]
pub enum LinkChangeEvent {
    NodeFrom(u32),
    NodeTo(u32),
    PortFrom(u32),
    PortTo(u32),
    State(LinkState),
    Remove,
}

/// A link change as mathematical data.
pub enum LinkChangeEventView {
    NodeFrom(u32),
    NodeTo(u32),
    PortFrom(u32),
    PortTo(u32),
    State(LinkStateView),
    Remove,
}

impl View for LinkChangeEvent {
    type V = LinkChangeEventView;

    open spec fn view(&self) -> LinkChangeEventView {
        match self {
            LinkChangeEvent::NodeFrom(v) => LinkChangeEventView::NodeFrom(*v),
            LinkChangeEvent::NodeTo(v) => LinkChangeEventView::NodeTo(*v),
            LinkChangeEvent::PortFrom(v) => LinkChangeEventView::PortFrom(*v),
            LinkChangeEvent::PortTo(v) => LinkChangeEventView::PortTo(*v),
            LinkChangeEvent::State(s) => LinkChangeEventView::State(s@),
            LinkChangeEvent::Remove => LinkChangeEventView::Remove,
        }
    }
}

impl Clone for LinkChangeEvent {
    fn clone(&self) -> (r: Self)
        ensures
            r@ == self@,
    {
        match self {
            LinkChangeEvent::NodeFrom(v) => LinkChangeEvent::NodeFrom(*v),
            LinkChangeEvent::NodeTo(v) => LinkChangeEvent::NodeTo(*v),
            LinkChangeEvent::PortFrom(v) => LinkChangeEvent::PortFrom(*v),
            LinkChangeEvent::PortTo(v) => LinkChangeEvent::PortTo(*v),
            LinkChangeEvent::State(s) => LinkChangeEvent::State(s.clone()),
            LinkChangeEvent::Remove => LinkChangeEvent::Remove,
        }
    }
}

// ---------------------------------------------------------------------------
// What a change does to a node value, and what it announces
// ---------------------------------------------------------------------------

/// The node value after a change: name, direction and state come from the
/// change; identity, media kind and ports stay as they were.
pub open spec fn diffed_node(cur: NodeValueView, new: NodeValueView) -> NodeValueView {
    NodeValueView { name: new.name, state: new.state, node_type: new.node_type, ..cur }
}

/// What a state change announces: the new state, if it differs.
pub open spec fn node_state_events(cur: NodeStateView, new: NodeStateView) -> Seq<
    NodeChangeEventView,
> {
    if cur == new {
        seq![]
    } else {
        seq![NodeChangeEventView::State(new)]
    }
}

/// What a change announces, in order: the name, the direction and the
/// state, each only where it differs.
pub open spec fn node_diff_events(cur: NodeValueView, new: NodeValueView) -> Seq<
    NodeChangeEventView,
> {
    (if cur.name == new.name {
        seq![]
    } else {
        seq![NodeChangeEventView::Name(new.name)]
    }) + (if cur.node_type == new.node_type {
        seq![]
    } else {
        seq![NodeChangeEventView::NodeType(new.node_type)]
    }) + node_state_events(cur.state, new.state)
}

/// What adding or replacing a port announces.
pub open spec fn port_event(cur: NodeValueView, port: PortView) -> NodeChangeEventView {
    if cur.ports.contains_key(port.id) {
        NodeChangeEventView::ModifyPort(port)
    } else {
        NodeChangeEventView::AddPort(port)
    }
}

/// What removing a port announces: the port id, if the node had it.
pub open spec fn remove_port_events(cur: NodeValueView, id: u32) -> Seq<NodeChangeEventView> {
    if cur.ports.contains_key(id) {
        seq![NodeChangeEventView::RemovePort(id)]
    } else {
        seq![]
    }
}

/// The link value after a change: every field but the identity comes from
/// the change.
pub open spec fn diffed_link(cur: LinkValueView, new: LinkValueView) -> LinkValueView {
    LinkValueView { id: cur.id, ..new }
}

/// What a link state change announces: the new state, if it differs.
pub open spec fn link_state_events(cur: LinkStateView, new: LinkStateView) -> Seq<
    LinkChangeEventView,
> {
    if cur == new {
        seq![]
    } else {
        seq![LinkChangeEventView::State(new)]
    }
}

/// One announcement if a link endpoint changes.
pub open spec fn endpoint_event(changed: bool, event: LinkChangeEventView) -> Seq<
    LinkChangeEventView,
> {
    if changed {
        seq![event]
    } else {
        seq![]
    }
}

/// What a link change announces, in order: source node, target node, target
/// port, source port and state, each only where it differs.
pub open spec fn link_diff_events(cur: LinkValueView, new: LinkValueView) -> Seq<
    LinkChangeEventView,
> {
    endpoint_event(cur.node_from != new.node_from, LinkChangeEventView::NodeFrom(new.node_from))
        + endpoint_event(cur.node_to != new.node_to, LinkChangeEventView::NodeTo(new.node_to))
        + endpoint_event(cur.port_to != new.port_to, LinkChangeEventView::PortTo(new.port_to))
        + endpoint_event(
        cur.port_from != new.port_from,
        LinkChangeEventView::PortFrom(new.port_from),
    ) + link_state_events(cur.state, new.state)
}

// ---------------------------------------------------------------------------
// Nodes with their channels
// ---------------------------------------------------------------------------

/// A node of the graph with the channel on which its changes are broadcast,
/// and the record of every change handed to that channel.
pub struct Node {
    value: NodeValue,
    broadcast: Chan<NodeChangeEvent>,
}

impl View for Node {
    type V = NodeValueView;

    closed spec fn view(&self) -> NodeValueView {
        self.value@
    }
}

impl Clone for Node {
    /// A copy of the value with another sending end on the same channel; later
    /// changes of either do not reach the other's value.
    fn clone(&self) -> (r: Self)
        ensures
            r@ == self@,
            r.sent() == self.sent(),
    {
        Node { value: self.value.clone(), broadcast: self.broadcast.duplicate() }
    }
}

impl Node {
    /// The changes this node handed to its channel, oldest first; a copy
    /// starts with the record of the node it copies.
    pub closed spec fn sent(&self) -> Seq<NodeChangeEventView> {
        self.broadcast.log()
    }

    /// A node first seen with `node_value`, on a new channel.
    pub fn new(node_value: NodeValue) -> (r: Node)
        ensures
            r@ == node_value@,
            r.sent() == Seq::<NodeChangeEventView>::empty(),
    {
        Node { value: node_value, broadcast: Chan::new() }
    }

    fn emit(&mut self, event: NodeChangeEvent)
        ensures
            final(self)@ == old(self)@,
            final(self).sent() == old(self).sent().push(event@),
    {
        self.broadcast.send(event);
    }

    /// Takes over the name, direction and state of `node`, broadcasting each
    /// one that differs.
    pub fn apply_diff(&mut self, node: NodeValue)
        ensures
            final(self)@ == diffed_node(old(self)@, node@),
            final(self).sent() == old(self).sent() + node_diff_events(old(self)@, node@),
    {
        let ghost start = self.broadcast.log();
        let NodeValue { id: _, name, state, media: _, ports: _, node_type } = node;
        if !self.value.name.eq(&name) {
            self.value.name = name.clone();
            self.emit(NodeChangeEvent::Name(name));
        }
        let ghost after_name = self.broadcast.log();
        if self.value.node_type != node_type {
            self.value.node_type = node_type;
            self.emit(NodeChangeEvent::NodeType(node_type));
        }
        let ghost after_type = self.broadcast.log();
        self.change_state(state);
        proof {
            let n = node@;
            let c = old(self)@;
            assert(after_name == start + (if c.name == n.name {
                seq![]
            } else {
                seq![NodeChangeEventView::Name(n.name)]
            }));
            assert(self.broadcast.log() =~= start + node_diff_events(c, n));
        }
    }

    /// Takes over `state`, broadcasting it if it differs; hands back the node.
    pub fn change_state(&mut self, state: NodeState) -> (r: &Self)
        ensures
            final(self)@ == old(self)@.with_state(state@),
            final(self).sent() == old(self).sent() + node_state_events(old(self)@.state, state@),
            *r == *final(self),
    {
        if !self.value.state.same_as(&state) {
            self.value.state = state.clone();
            self.emit(NodeChangeEvent::State(state));
        } else {
            assert(self.broadcast.log() =~= self.broadcast.log() + node_state_events(old(self)@.state, state@));
        }
        &*self
    }

    /// A copy of the node's value.
    pub fn value(&self) -> (r: NodeValue)
        ensures
            r@ == self@,
    {
        self.value.clone()
    }

    /// A copy of the node's value together with a receiver of the changes
    /// broadcast from now on.
    pub fn subcribe(&self) -> (r: (NodeValue, Receiver<NodeChangeEvent>))
        ensures
            r.0@ == self@,
    {
        let receiver = self.broadcast.subscribe();
        (self.value.clone(), receiver)
    }

    /// Stores `port` under its id, announcing it as modified if the node had
    /// a port with that id and as added otherwise.
    pub fn replace_or_add_port(&mut self, port: Port)
        ensures
            final(self)@ == old(self)@.with_ports(old(self)@.ports.insert(port.id, port@)),
            final(self).sent() == old(self).sent().push(port_event(old(self)@, port@)),
    {
        let id = port.id;
        let announced = port.clone();
        if self.value.ports.contains_key(&id) {
            self.value.ports.insert(id, port);
            assert(ports_view(self.value.ports@) =~= ports_view(old(self).value.ports@).insert(id, port@));
            self.emit(NodeChangeEvent::ModifyPort(announced));
        } else {
            self.value.ports.insert(id, port);
            assert(ports_view(self.value.ports@) =~= ports_view(old(self).value.ports@).insert(id, port@));
            self.emit(NodeChangeEvent::AddPort(announced));
        }
    }

    /// Drops the port `id`, announcing the removal if the node had it.
    pub fn remove_port(&mut self, id: u32)
        ensures
            final(self)@ == old(self)@.with_ports(old(self)@.ports.remove(id)),
            final(self).sent() == old(self).sent() + remove_port_events(old(self)@, id),
    {
        let removed = self.value.ports.remove(&id);
        assert(ports_view(self.value.ports@) =~= ports_view(old(self).value.ports@).remove(id));
        if removed.is_some() {
            self.emit(NodeChangeEvent::RemovePort(id));
        } else {
            assert(self.broadcast.log() =~= self.broadcast.log() + remove_port_events(old(self)@, id));
        }
    }

    /// Announces that the node is gone.
    pub fn remove(&mut self)
        ensures
            final(self)@ == old(self)@,
            final(self).sent() == old(self).sent().push(NodeChangeEventView::Remove),
    {
        self.emit(NodeChangeEvent::Remove);
    }
}

// ---------------------------------------------------------------------------
// Links with their channels
// ---------------------------------------------------------------------------

/// A link of the graph with the channel on which its changes are broadcast,
/// and the record of every change handed to that channel.
pub struct Link {
    value: LinkValue,
    broadcast: Chan<LinkChangeEvent>,
}

impl View for Link {
    type V = LinkValueView;

    closed spec fn view(&self) -> LinkValueView {
        self.value@
    }
}

impl Clone for Link {
    /// A copy of the value with another sending end on the same channel; later
    /// changes of either do not reach the other's value.
    fn clone(&self) -> (r: Self)
        ensures
            r@ == self@,
            r.sent() == self.sent(),
    {
        Link { value: self.value.clone(), broadcast: self.broadcast.duplicate() }
    }
}

impl Link {
    /// The changes this link handed to its channel, oldest first; a copy
    /// starts with the record of the link it copies.
    pub closed spec fn sent(&self) -> Seq<LinkChangeEventView> {
        self.broadcast.log()
    }

    /// A link first seen with `link_value`, on a new channel.
    pub fn new(link_value: LinkValue) -> (r: Link)
        ensures
            r@ == link_value@,
            r.sent() == Seq::<LinkChangeEventView>::empty(),
    {
        Link { value: link_value, broadcast: Chan::new() }
    }

    fn emit(&mut self, event: LinkChangeEvent)
        ensures
            final(self)@ == old(self)@,
            final(self).sent() == old(self).sent().push(event@),
    {
        self.broadcast.send(event);
    }

    /// Takes over the endpoints and the state of `link`, broadcasting each one
    /// that differs.
    pub fn apply_diff(&mut self, link: LinkValue)
        ensures
            final(self)@ == diffed_link(old(self)@, link@),
            final(self).sent() == old(self).sent() + link_diff_events(old(self)@, link@),
    {
        let ghost start = self.broadcast.log();
        let ghost c = old(self)@;
        let ghost n = link@;
        let LinkValue { id: _, node_from, node_to, port_from, port_to, state } = link;
        if self.value.node_from != node_from {
            self.value.node_from = node_from;
            self.emit(LinkChangeEvent::NodeFrom(node_from));
        }
        assert(self.broadcast.log() =~= start + endpoint_event(
            c.node_from != n.node_from,
            LinkChangeEventView::NodeFrom(n.node_from),
        ));
        let ghost s1 = self.broadcast.log();
        if self.value.node_to != node_to {
            self.value.node_to = node_to;
            self.emit(LinkChangeEvent::NodeTo(node_to));
        }
        assert(self.broadcast.log() =~= s1 + endpoint_event(
            c.node_to != n.node_to,
            LinkChangeEventView::NodeTo(n.node_to),
        ));
        let ghost s2 = self.broadcast.log();
        if self.value.port_to != port_to {
            self.value.port_to = port_to;
            self.emit(LinkChangeEvent::PortTo(port_to));
        }
        assert(self.broadcast.log() =~= s2 + endpoint_event(
            c.port_to != n.port_to,
            LinkChangeEventView::PortTo(n.port_to),
        ));
        let ghost s3 = self.broadcast.log();
        if self.value.port_from != port_from {
            self.value.port_from = port_from;
            self.emit(LinkChangeEvent::PortFrom(port_from));
        }
        assert(self.broadcast.log() =~= s3 + endpoint_event(
            c.port_from != n.port_from,
            LinkChangeEventView::PortFrom(n.port_from),
        ));
        self.change_state(state);
        assert(self.broadcast.log() =~= start + link_diff_events(c, n));
    }

    /// Takes over `state`, broadcasting it if it differs.
    pub fn change_state(&mut self, state: LinkState)
        ensures
            final(self)@ == old(self)@.with_state(state@),
            final(self).sent() == old(self).sent() + link_state_events(old(self)@.state, state@),
    {
        if !self.value.state.same_as(&state) {
            self.value.state = state.clone();
            self.emit(LinkChangeEvent::State(state));
        } else {
            assert(self.broadcast.log() =~= self.broadcast.log() + link_state_events(old(self)@.state, state@));
        }
    }

    /// A copy of the link's value.
    pub fn value(&self) -> (r: LinkValue)
        ensures
            r@ == self@,
    {
        self.value.clone()
    }

    /// A copy of the link's value together with a receiver of the changes
    /// broadcast from now on.
    pub fn subcribe(&self) -> (r: (LinkValue, Receiver<LinkChangeEvent>))
        ensures
            r.0@ == self@,
    {
        let receiver = self.broadcast.subscribe();
        (self.value.clone(), receiver)
    }

    /// Announces that the link is gone.
    pub fn remove(&mut self)
        ensures
            final(self)@ == old(self)@,
            final(self).sent() == old(self).sent().push(LinkChangeEventView::Remove),
    {
        self.emit(LinkChangeEvent::Remove);
    }
}

// ---------------------------------------------------------------------------
// Laws of changes
// ---------------------------------------------------------------------------

/// A node's own value, taken over again, changes nothing and announces
/// nothing.
pub proof fn lemma_node_diff_with_itself(v: NodeValueView)
    ensures
        diffed_node(v, v) == v,
        node_diff_events(v, v) == Seq::<NodeChangeEventView>::empty(),
{
    assert(node_diff_events(v, v) =~= Seq::<NodeChangeEventView>::empty());
}

/// The same news taken over twice: the second time changes nothing more and
/// announces nothing.
pub proof fn lemma_node_diff_settles(cur: NodeValueView, new: NodeValueView)
    ensures
        diffed_node(diffed_node(cur, new), new) == diffed_node(cur, new),
        node_diff_events(diffed_node(cur, new), new) == Seq::<NodeChangeEventView>::empty(),
{
    assert(node_diff_events(diffed_node(cur, new), new) =~= Seq::<NodeChangeEventView>::empty());
}

/// A change of a node is announced exactly when it alters the node's value.
pub proof fn lemma_node_diff_announced_iff_changed(cur: NodeValueView, new: NodeValueView)
    ensures
        node_diff_events(cur, new).len() == 0 <==> diffed_node(cur, new) == cur,
{
    if diffed_node(cur, new) == cur {
        assert(node_diff_events(cur, new) =~= Seq::<NodeChangeEventView>::empty());
    }
}

/// A link's own value, taken over again, changes nothing and announces
/// nothing.
pub proof fn lemma_link_diff_with_itself(v: LinkValueView)
    ensures
        diffed_link(v, v) == v,
        link_diff_events(v, v) == Seq::<LinkChangeEventView>::empty(),
{
    assert(link_diff_events(v, v) =~= Seq::<LinkChangeEventView>::empty());
}

/// The same link news taken over twice: the second time changes nothing more
/// and announces nothing.
pub proof fn lemma_link_diff_settles(cur: LinkValueView, new: LinkValueView)
    ensures
        diffed_link(diffed_link(cur, new), new) == diffed_link(cur, new),
        link_diff_events(diffed_link(cur, new), new) == Seq::<LinkChangeEventView>::empty(),
{
    assert(link_diff_events(diffed_link(cur, new), new) =~= Seq::<LinkChangeEventView>::empty());
}

/// A change of a link is announced exactly when it alters the link's value.
pub proof fn lemma_link_diff_announced_iff_changed(cur: LinkValueView, new: LinkValueView)
    ensures
        link_diff_events(cur, new).len() == 0 <==> diffed_link(cur, new) == cur,
{
    if diffed_link(cur, new) == cur {
        assert(link_diff_events(cur, new) =~= Seq::<LinkChangeEventView>::empty());
    }
}

/// Adding a port that a node did not have and then removing it leaves the
/// node's ports as they were; the first is announced as an addition.
pub proof fn lemma_add_then_remove_port(v: NodeValueView, port: PortView)
    requires
        !v.ports.contains_key(port.id),
    ensures
        v.with_ports(v.ports.insert(port.id, port)).ports.remove(port.id) == v.ports,
        port_event(v, port) == NodeChangeEventView::AddPort(port),
        remove_port_events(v.with_ports(v.ports.insert(port.id, port)), port.id) == seq![
            NodeChangeEventView::RemovePort(port.id),
        ],
{
    assert(v.ports.insert(port.id, port).remove(port.id) =~= v.ports);
}

/// A media class is read by the kinds it names, wherever in it they stand:
/// one naming "Audio" is audio; else one naming "Midi" is MIDI; else one
/// naming "Video" is video; one naming none of them is kept as an unknown
/// class; and a node without a class has an unspecified kind.
pub proof fn lemma_media_read_from_class(class: Seq<char>)
    ensures
        has_infix(class, "Audio"@) ==> media_of(Some(class)) == MediaView::Audio,
        !has_infix(class, "Audio"@) && has_infix(class, "Midi"@) ==> media_of(Some(class))
            == MediaView::Midi,
        !has_infix(class, "Audio"@) && !has_infix(class, "Midi"@) && has_infix(class, "Video"@)
            ==> media_of(Some(class)) == MediaView::Video,
        !has_infix(class, "Audio"@) && !has_infix(class, "Midi"@) && !has_infix(class, "Video"@)
            ==> media_of(Some(class)) == MediaView::Unknow(class),
        media_of(Option::None) == MediaView::Unspecified,
{
}

/// A media class is read for its direction by the words it holds, wherever
/// in it they stand and whatever media kind comes before them: one naming
/// "Sink" or "Input" takes data in; else one naming "Source" or "Output"
/// puts data out; else, like a node without a class, it has neither.
pub proof fn lemma_direction_read_from_class(class: Seq<char>)
    ensures
        has_infix(class, "Sink"@) || has_infix(class, "Input"@) ==> direction_of(Some(class))
            == NodeTypeDirection::In,
        !has_infix(class, "Sink"@) && !has_infix(class, "Input"@) && (has_infix(class, "Source"@)
            || has_infix(class, "Output"@)) ==> direction_of(Some(class)) == NodeTypeDirection::Out,
        !has_infix(class, "Sink"@) && !has_infix(class, "Input"@) && !has_infix(class, "Source"@)
            && !has_infix(class, "Output"@) ==> direction_of(Some(class))
            == NodeTypeDirection::Neither,
        direction_of(Option::None) == NodeTypeDirection::Neither,
{
}

/// A port's format is read by its whole text: each of the three known texts
/// names its format and only that text does; any other text is kept as an
/// unknown format, and a port without one has an unspecified format.
pub proof fn lemma_format_read_by_exact_text(text: Seq<char>)
    ensures
        format_of(Some(text)) == FormatView::Audio <==> text == "32 bit float mono audio"@,
        format_of(Some(text)) == FormatView::Midi <==> text == "8 bit raw midi"@,
        format_of(Some(text)) == FormatView::Video <==> text == "32 bit float RGBA video"@,
        text != "32 bit float mono audio"@ && text != "8 bit raw midi"@ && text
            != "32 bit float RGBA video"@ ==> format_of(Some(text)) == FormatView::Unknow(text),
        format_of(Option::None) == FormatView::Unspecified,
{
    reveal_strlit("32 bit float mono audio");
    reveal_strlit("8 bit raw midi");
    reveal_strlit("32 bit float RGBA video");
    assert("32 bit float mono audio"@[0] != "8 bit raw midi"@[0]);
    assert("32 bit float mono audio"@[13] != "32 bit float RGBA video"@[13]);
    assert("8 bit raw midi"@[0] != "32 bit float RGBA video"@[0]);
}

} // verus!
