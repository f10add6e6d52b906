use std::collections::HashMap;

use tokio::sync::broadcast::error::TryRecvError;
use virtual_rack::pipewire::node::{
    Direction, Format, Link, LinkChangeEvent, LinkState, LinkValue, Media, Node, NodeChangeEvent,
    NodeState, NodeTypeDirection, NodeValue, Port,
};

fn node_value(state: NodeState) -> NodeValue {
    NodeValue {
        id: 1,
        name: "test".to_owned(),
        state,
        media: Media::Audio,
        ports: HashMap::new(),
        node_type: NodeTypeDirection::Neither,
    }
}

fn port(id: u32, name: &str) -> Port {
    Port { id, name: name.to_owned(), direction: Direction::Out, format: Format::Audio }
}

fn link_value(state: LinkState) -> LinkValue {
    LinkValue { id: 7, node_from: 1, node_to: 2, port_from: 10, port_to: 20, state }
}

#[test]
fn subcribe_after_change() {
    // Subscribing before the change: the copy shows the old state and the
    // change arrives on the receiver.
    let mut node = Node::new(node_value(NodeState::Idle));
    let (new_node, mut events) = node.subcribe();
    node.change_state(NodeState::Running);
    assert_eq!(new_node, node_value(NodeState::Idle));
    assert_eq!(events.try_recv(), Ok(NodeChangeEvent::State(NodeState::Running)));

    // Subscribing after the change: the copy shows the new state.
    let mut node = Node::new(node_value(NodeState::Idle));
    node.change_state(NodeState::Running);
    let (new_node, mut events) = node.subcribe();
    assert_eq!(new_node, node_value(NodeState::Running));
    assert_eq!(events.try_recv(), Err(TryRecvError::Empty));
}

#[test]
fn change_state_to_same_state_is_silent() {
    let mut node = Node::new(node_value(NodeState::Error("boom".to_owned())));
    let (_, mut events) = node.subcribe();
    node.change_state(NodeState::Error("boom".to_owned()));
    assert_eq!(events.try_recv(), Err(TryRecvError::Empty));
    node.change_state(NodeState::Error("other".to_owned()));
    assert_eq!(
        events.try_recv(),
        Ok(NodeChangeEvent::State(NodeState::Error("other".to_owned())))
    );
    assert_eq!(node.value().state, NodeState::Error("other".to_owned()));
}

#[test]
fn apply_diff_announces_changes_in_order() {
    let mut node = Node::new(node_value(NodeState::Idle));
    let (_, mut events) = node.subcribe();
    let mut news = node_value(NodeState::Running);
    news.name = "renamed".to_owned();
    news.node_type = NodeTypeDirection::Out;
    news.media = Media::Video;
    news.ports.insert(3, port(3, "ignored"));
    node.apply_diff(news);
    assert_eq!(events.try_recv(), Ok(NodeChangeEvent::Name("renamed".to_owned())));
    assert_eq!(events.try_recv(), Ok(NodeChangeEvent::NodeType(NodeTypeDirection::Out)));
    assert_eq!(events.try_recv(), Ok(NodeChangeEvent::State(NodeState::Running)));
    assert_eq!(events.try_recv(), Err(TryRecvError::Empty));
    let value = node.value();
    assert_eq!(value.name, "renamed");
    assert_eq!(value.node_type, NodeTypeDirection::Out);
    assert_eq!(value.state, NodeState::Running);
    // media and ports are not taken over
    assert_eq!(value.media, Media::Audio);
    assert!(value.ports.is_empty());
}

#[test]
fn apply_diff_with_own_value_is_silent() {
    let mut node = Node::new(node_value(NodeState::Idle));
    let (_, mut events) = node.subcribe();
    node.apply_diff(node.value());
    assert_eq!(events.try_recv(), Err(TryRecvError::Empty));
    assert_eq!(node.value(), node_value(NodeState::Idle));
}

#[test]
fn ports_are_added_modified_and_removed() {
    let mut node = Node::new(node_value(NodeState::Idle));
    let (_, mut events) = node.subcribe();
    node.replace_or_add_port(port(5, "out_FL"));
    node.replace_or_add_port(port(5, "out_FR"));
    node.remove_port(5);
    node.remove_port(5);
    assert_eq!(events.try_recv(), Ok(NodeChangeEvent::AddPort(port(5, "out_FL"))));
    assert_eq!(events.try_recv(), Ok(NodeChangeEvent::ModifyPort(port(5, "out_FR"))));
    assert_eq!(events.try_recv(), Ok(NodeChangeEvent::RemovePort(5)));
    assert_eq!(events.try_recv(), Err(TryRecvError::Empty));
    assert!(node.value().ports.is_empty());
}

#[test]
fn replaced_port_is_stored() {
    let mut node = Node::new(node_value(NodeState::Idle));
    node.replace_or_add_port(port(5, "out_FL"));
    node.replace_or_add_port(port(6, "out_FR"));
    node.replace_or_add_port(port(5, "monitor"));
    let value = node.value();
    assert_eq!(value.ports.len(), 2);
    assert_eq!(value.ports.get(&5), Some(&port(5, "monitor")));
    assert_eq!(value.ports.get(&6), Some(&port(6, "out_FR")));
}

#[test]
fn node_remove_is_announced() {
    let mut node = Node::new(node_value(NodeState::Idle));
    let (_, mut events) = node.subcribe();
    node.remove();
    assert_eq!(events.try_recv(), Ok(NodeChangeEvent::Remove));
}

#[test]
fn cloned_node_shares_the_channel() {
    let mut node = Node::new(node_value(NodeState::Idle));
    let copy = node.clone();
    assert_eq!(copy.value(), node.value());
    let (_, mut events) = copy.subcribe();
    node.change_state(NodeState::Suspended);
    assert_eq!(events.try_recv(), Ok(NodeChangeEvent::State(NodeState::Suspended)));
    // the copy keeps the value it was made with
    assert_eq!(copy.value().state, NodeState::Idle);
}

#[test]
fn link_apply_diff_announces_in_order() {
    let mut link = Link::new(link_value(LinkState::Init));
    let (first, mut events) = link.subcribe();
    assert_eq!(first, link_value(LinkState::Init));
    link.apply_diff(LinkValue {
        id: 7,
        node_from: 3,
        node_to: 4,
        port_from: 30,
        port_to: 40,
        state: LinkState::Active,
    });
    assert_eq!(events.try_recv(), Ok(LinkChangeEvent::NodeFrom(3)));
    assert_eq!(events.try_recv(), Ok(LinkChangeEvent::NodeTo(4)));
    assert_eq!(events.try_recv(), Ok(LinkChangeEvent::PortTo(40)));
    assert_eq!(events.try_recv(), Ok(LinkChangeEvent::PortFrom(30)));
    assert_eq!(events.try_recv(), Ok(LinkChangeEvent::State(LinkState::Active)));
    assert_eq!(events.try_recv(), Err(TryRecvError::Empty));
    assert_eq!(
        link.value(),
        LinkValue { id: 7, node_from: 3, node_to: 4, port_from: 30, port_to: 40, state: LinkState::Active }
    );
}

#[test]
fn link_apply_diff_keeps_id_and_skips_equal_fields() {
    let mut link = Link::new(link_value(LinkState::Init));
    let (_, mut events) = link.subcribe();
    let mut news = link_value(LinkState::Init);
    news.id = 99;
    news.port_to = 21;
    link.apply_diff(news);
    assert_eq!(events.try_recv(), Ok(LinkChangeEvent::PortTo(21)));
    assert_eq!(events.try_recv(), Err(TryRecvError::Empty));
    assert_eq!(link.value().id, 7);
    assert_eq!(link.value().port_to, 21);
}

#[test]
fn link_state_and_remove_are_announced() {
    let mut link = Link::new(link_value(LinkState::Init));
    let (_, mut events) = link.subcribe();
    link.change_state(LinkState::Init);
    link.change_state(LinkState::Error("broken".to_owned()));
    link.remove();
    assert_eq!(
        events.try_recv(),
        Ok(LinkChangeEvent::State(LinkState::Error("broken".to_owned())))
    );
    assert_eq!(events.try_recv(), Ok(LinkChangeEvent::Remove));
    assert_eq!(events.try_recv(), Err(TryRecvError::Empty));
}

#[test]
fn same_as_compares_error_text() {
    assert!(NodeState::Error("a".to_owned()).same_as(&NodeState::Error("a".to_owned())));
    assert!(!NodeState::Error("a".to_owned()).same_as(&NodeState::Error("b".to_owned())));
    assert!(!NodeState::Idle.same_as(&NodeState::Running));
    assert!(LinkState::Paused.same_as(&LinkState::Paused));
    assert!(!LinkState::Error("x".to_owned()).same_as(&LinkState::Unlinked));
}

#[test]
fn media_is_read_from_the_class() {
    assert_eq!(Media::from(Some("Audio/Sink")), Media::Audio);
    assert_eq!(Media::from(Some("Stream/Output/Audio")), Media::Audio);
    assert_eq!(Media::from(Some("Midi/Bridge")), Media::Midi);
    assert_eq!(Media::from(Some("Video/Source")), Media::Video);
    assert_eq!(Media::from(Some("Audio/Midi")), Media::Audio);
    assert_eq!(Media::from(Some("Midi/Video")), Media::Midi);
    assert_eq!(Media::from(Some("audio/sink")), Media::Unknow("audio/sink".to_owned()));
    assert_eq!(Media::from(Some("")), Media::Unknow(String::new()));
    assert_eq!(Media::from(None), Media::Unspecified);
}

#[test]
fn direction_is_read_from_the_class() {
    assert_eq!(NodeTypeDirection::from(Some("Audio/Sink")), NodeTypeDirection::In);
    assert_eq!(NodeTypeDirection::from(Some("Stream/Input/Audio")), NodeTypeDirection::In);
    assert_eq!(NodeTypeDirection::from(Some("Audio/Source")), NodeTypeDirection::Out);
    assert_eq!(NodeTypeDirection::from(Some("Stream/Output/Audio")), NodeTypeDirection::Out);
    assert_eq!(NodeTypeDirection::from(Some("Audio/Source/Sink")), NodeTypeDirection::In);
    assert_eq!(NodeTypeDirection::from(Some("Audio/Duplex")), NodeTypeDirection::Neither);
    assert_eq!(NodeTypeDirection::from(None), NodeTypeDirection::Neither);
}

#[test]
fn format_is_read_by_exact_text() {
    assert_eq!(Format::from(Some("32 bit float mono audio")), Format::Audio);
    assert_eq!(Format::from(Some("8 bit raw midi")), Format::Midi);
    assert_eq!(Format::from(Some("32 bit float RGBA video")), Format::Video);
    assert_eq!(
        Format::from(Some("32 bit float mono audio ")),
        Format::Unknow("32 bit float mono audio ".to_owned())
    );
    assert_eq!(Format::from(Some("8 bit raw MIDI")), Format::Unknow("8 bit raw MIDI".to_owned()));
    assert_eq!(Format::from(None), Format::Unspecified);
}

#[test]
fn value_clones_are_equal() {
    let mut value = node_value(NodeState::Error("e".to_owned()));
    value.ports.insert(1, port(1, "p"));
    assert_eq!(value.clone(), value);
    assert_eq!(link_value(LinkState::Paused).clone(), link_value(LinkState::Paused));
    assert_eq!(Media::Unknow("x".to_owned()).clone(), Media::Unknow("x".to_owned()));
    assert_eq!(
        NodeChangeEvent::AddPort(port(2, "q")).clone(),
        NodeChangeEvent::AddPort(port(2, "q"))
    );
    assert_eq!(LinkChangeEvent::PortTo(3).clone(), LinkChangeEvent::PortTo(3));
}

#[test]
fn same_news_twice_is_announced_once() {
    let mut node = Node::new(node_value(NodeState::Idle));
    let (_, mut events) = node.subcribe();
    let mut news = node_value(NodeState::Running);
    news.name = "other".to_owned();
    node.apply_diff(news);
    let mut again = node_value(NodeState::Running);
    again.name = "other".to_owned();
    node.apply_diff(again);
    assert_eq!(events.try_recv(), Ok(NodeChangeEvent::Name("other".to_owned())));
    assert_eq!(events.try_recv(), Ok(NodeChangeEvent::State(NodeState::Running)));
    assert_eq!(events.try_recv(), Err(TryRecvError::Empty));
}

#[test]
fn same_link_news_twice_is_announced_once() {
    let mut link = Link::new(link_value(LinkState::Init));
    let (_, mut events) = link.subcribe();
    link.apply_diff(link.value());
    assert_eq!(events.try_recv(), Err(TryRecvError::Empty));
    link.apply_diff(link_value(LinkState::Paused));
    link.apply_diff(link_value(LinkState::Paused));
    assert_eq!(events.try_recv(), Ok(LinkChangeEvent::State(LinkState::Paused)));
    assert_eq!(events.try_recv(), Err(TryRecvError::Empty));
}

#[test]
fn link_diff_to_new_target_and_source_port() {
    let mut link = Link::new(LinkValue {
        id: 7,
        node_from: 1,
        node_to: 2,
        port_from: 3,
        port_to: 4,
        state: LinkState::Init,
    });
    let (_, mut events) = link.subcribe();
    let news = LinkValue { id: 7, node_from: 1, node_to: 5, port_from: 6, port_to: 4, state: LinkState::Active };
    link.apply_diff(news.clone());
    assert_eq!(link.value(), news);
    assert_eq!(events.try_recv(), Ok(LinkChangeEvent::NodeTo(5)));
    assert_eq!(events.try_recv(), Ok(LinkChangeEvent::PortFrom(6)));
    assert_eq!(events.try_recv(), Ok(LinkChangeEvent::State(LinkState::Active)));
    assert_eq!(events.try_recv(), Err(TryRecvError::Empty));
    link.apply_diff(news.clone());
    assert_eq!(link.value(), news);
    assert_eq!(events.try_recv(), Err(TryRecvError::Empty));
}

#[test]
fn change_state_hands_back_the_node() {
    let mut node = Node::new(node_value(NodeState::Idle));
    let (_, mut events) = node.subcribe();
    assert_eq!(node.change_state(NodeState::Running).value().state, NodeState::Running);
    assert_eq!(events.try_recv(), Ok(NodeChangeEvent::State(NodeState::Running)));
    assert_eq!(events.try_recv(), Err(TryRecvError::Empty));
}
