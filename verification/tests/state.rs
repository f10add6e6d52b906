use std::collections::HashMap;

use tokio::sync::broadcast::error::TryRecvError;
use virtual_rack::pipewire::node::{
    Direction, Format, LinkChangeEvent, LinkState, LinkValue, Media, NodeChangeEvent, NodeState,
    NodeTypeDirection, NodeValue, Port,
};
use virtual_rack::pipewire::state::{State, StateChangeEvent};

fn node(id: u32, name: &str, state: NodeState) -> NodeValue {
    NodeValue {
        id,
        name: name.to_owned(),
        state,
        media: Media::Audio,
        ports: HashMap::new(),
        node_type: NodeTypeDirection::In,
    }
}

fn link(id: u32, state: LinkState) -> LinkValue {
    LinkValue { id, node_from: 1, node_to: 2, port_from: 10, port_to: 20, state }
}

fn port(id: u32, name: &str) -> Port {
    Port { id, name: name.to_owned(), direction: Direction::In, format: Format::Midi }
}

#[test]
fn new_state_is_empty() {
    let state = State::new();
    let value = state.get();
    assert!(value.nodes.is_empty());
    assert!(value.links.is_empty());
    assert!(state.get_node(1).is_none());
    assert_eq!(state.get_map_port(1), None);
    assert!(!state.contains_link(1));
}

#[test]
fn new_node_is_announced_once() {
    let mut state = State::new();
    let (snapshot, mut events) = state.subscribe();
    assert!(snapshot.nodes.is_empty());
    state.change_node(node(4, "speaker", NodeState::Idle));
    match events.try_recv() {
        Ok(StateChangeEvent::AddNode(added)) => {
            assert_eq!(added.value(), node(4, "speaker", NodeState::Idle))
        }
        _ => panic!("expected the node's appearance"),
    }
    let (_, mut node_events) = state.get_node(4).unwrap().subcribe();
    state.change_node(node(4, "speaker", NodeState::Running));
    assert!(matches!(events.try_recv(), Err(TryRecvError::Empty)));
    assert_eq!(node_events.try_recv(), Ok(NodeChangeEvent::State(NodeState::Running)));
    assert_eq!(state.get_node(4).unwrap().value().state, NodeState::Running);
}

#[test]
fn known_node_keeps_media_and_ports() {
    let mut state = State::new();
    state.change_node(node(4, "speaker", NodeState::Idle));
    state.replace_or_add_node_port(4, port(9, "in"));
    let mut news = node(4, "speaker 2", NodeState::Idle);
    news.media = Media::Video;
    news.node_type = NodeTypeDirection::Out;
    state.change_node(news);
    let value = state.get_node(4).unwrap().value();
    assert_eq!(value.name, "speaker 2");
    assert_eq!(value.node_type, NodeTypeDirection::Out);
    assert_eq!(value.media, Media::Audio);
    assert_eq!(value.ports.get(&9), Some(&port(9, "in")));
}

#[test]
fn removed_node_is_announced_and_forgotten() {
    let mut state = State::new();
    state.change_node(node(4, "speaker", NodeState::Idle));
    let (_, mut node_events) = state.get_node(4).unwrap().subcribe();
    state.remove_node(4);
    assert_eq!(node_events.try_recv(), Ok(NodeChangeEvent::Remove));
    assert!(state.get_node(4).is_none());
    state.remove_node(4);
    assert!(state.get().nodes.is_empty());
}

#[test]
fn links_appear_change_and_go() {
    let mut state = State::new();
    let (_, mut events) = state.subscribe();
    state.change_link(link(8, LinkState::Init));
    match events.try_recv() {
        Ok(StateChangeEvent::AddLink(added)) => assert_eq!(added.value(), link(8, LinkState::Init)),
        _ => panic!("expected the link's appearance"),
    }
    assert!(state.contains_link(8));
    let (current, mut link_events) = state.get_link(8).subcribe();
    assert_eq!(current, link(8, LinkState::Init));
    state.change_link(link(8, LinkState::Active));
    state.change_link_state(8, LinkState::Paused);
    state.change_link_state(9, LinkState::Paused);
    assert_eq!(link_events.try_recv(), Ok(LinkChangeEvent::State(LinkState::Active)));
    assert_eq!(link_events.try_recv(), Ok(LinkChangeEvent::State(LinkState::Paused)));
    state.remove_link(8);
    assert_eq!(link_events.try_recv(), Ok(LinkChangeEvent::Remove));
    assert!(!state.contains_link(8));
    assert!(matches!(events.try_recv(), Err(TryRecvError::Empty)));
}

#[test]
fn port_map_records_and_moves() {
    let mut state = State::new();
    state.modify_map_port(3, 7);
    assert_eq!(state.get_map_port(3), None);
    state.add_map_port(3, 5);
    assert_eq!(state.get_map_port(3), Some(5));
    state.modify_map_port(3, 7);
    assert_eq!(state.get_map_port(3), Some(7));
}

#[test]
fn node_operations_on_unknown_nodes_do_nothing() {
    let mut state = State::new();
    state.change_node_state(1, NodeState::Running);
    state.replace_or_add_node_port(1, port(2, "x"));
    state.remove_node_port(1, 2);
    assert!(state.get().nodes.is_empty());
}

#[test]
fn node_ports_through_the_state() {
    let mut state = State::new();
    state.change_node(node(1, "mic", NodeState::Idle));
    let (_, mut node_events) = state.get_node(1).unwrap().subcribe();
    state.replace_or_add_node_port(1, port(2, "capture"));
    state.change_node_state(1, NodeState::Running);
    state.remove_node_port(1, 2);
    assert_eq!(node_events.try_recv(), Ok(NodeChangeEvent::AddPort(port(2, "capture"))));
    assert_eq!(node_events.try_recv(), Ok(NodeChangeEvent::State(NodeState::Running)));
    assert_eq!(node_events.try_recv(), Ok(NodeChangeEvent::RemovePort(2)));
    assert!(state.get_node(1).unwrap().value().ports.is_empty());
}

#[test]
fn snapshot_holds_every_node_and_link() {
    let mut state = State::new();
    state.change_node(node(1, "a", NodeState::Idle));
    state.change_node(node(2, "b", NodeState::Running));
    state.change_link(link(3, LinkState::Active));
    let value = state.get();
    assert_eq!(value.nodes.len(), 2);
    assert_eq!(value.nodes.get(&2).unwrap().value(), node(2, "b", NodeState::Running));
    assert_eq!(value.links.get(&3).unwrap().value(), link(3, LinkState::Active));
    let copy = value.clone();
    assert_eq!(copy.nodes.get(&1).unwrap().value(), node(1, "a", NodeState::Idle));
    assert_eq!(copy.links.len(), 1);
}

#[test]
fn nodes_and_links_stay_under_their_own_ids() {
    let mut state = State::new();
    state.change_node(node(1, "a", NodeState::Idle));
    state.change_node(node(1, "b", NodeState::Running));
    state.change_node(node(2, "c", NodeState::Idle));
    state.change_link(link(5, LinkState::Init));
    let mut renamed = link(5, LinkState::Active);
    renamed.node_from = 9;
    state.change_link(renamed);
    state.remove_node(2);
    let value = state.get();
    for (id, n) in value.nodes.iter() {
        assert_eq!(n.value().id, *id);
    }
    for (id, l) in value.links.iter() {
        assert_eq!(l.value().id, *id);
    }
    assert_eq!(state.get_link(5).value().node_from, 9);
}

#[test]
fn removed_node_is_handed_back() {
    let mut state = State::new();
    state.change_node(node(4, "speaker", NodeState::Idle));
    let gone = state.remove_node(4).expect("node 4 was known");
    assert_eq!(gone.value(), node(4, "speaker", NodeState::Idle));
    assert!(state.remove_node(4).is_none());
    assert!(state.remove_node(5).is_none());
}

#[test]
fn removed_link_is_handed_back() {
    let mut state = State::new();
    state.change_link(link(8, LinkState::Init));
    let (_, mut link_events) = state.get_link(8).subcribe();
    let gone = state.remove_link(8).expect("link 8 was known");
    assert_eq!(gone.value(), link(8, LinkState::Init));
    assert_eq!(link_events.try_recv(), Ok(LinkChangeEvent::Remove));
    assert_eq!(link_events.try_recv(), Err(TryRecvError::Empty));
    assert!(state.remove_link(8).is_none());
}

#[test]
fn same_node_news_twice_sends_nothing_more() {
    let mut state = State::new();
    let (_, mut events) = state.subscribe();
    state.change_node(node(4, "speaker", NodeState::Idle));
    let (_, mut node_events) = state.get_node(4).unwrap().subcribe();
    state.change_node(node(4, "speaker 2", NodeState::Running));
    state.change_node(node(4, "speaker 2", NodeState::Running));
    assert!(matches!(events.try_recv(), Ok(StateChangeEvent::AddNode(_))));
    assert!(matches!(events.try_recv(), Err(TryRecvError::Empty)));
    assert_eq!(node_events.try_recv(), Ok(NodeChangeEvent::Name("speaker 2".to_owned())));
    assert_eq!(node_events.try_recv(), Ok(NodeChangeEvent::State(NodeState::Running)));
    assert_eq!(node_events.try_recv(), Err(TryRecvError::Empty));
}

#[test]
fn same_link_news_twice_sends_nothing_more() {
    let mut state = State::new();
    let (_, mut events) = state.subscribe();
    state.change_link(link(8, LinkState::Init));
    let (_, mut link_events) = state.get_link(8).subcribe();
    state.change_link(link(8, LinkState::Active));
    state.change_link(link(8, LinkState::Active));
    assert!(matches!(events.try_recv(), Ok(StateChangeEvent::AddLink(_))));
    assert!(matches!(events.try_recv(), Err(TryRecvError::Empty)));
    assert_eq!(link_events.try_recv(), Ok(LinkChangeEvent::State(LinkState::Active)));
    assert_eq!(link_events.try_recv(), Err(TryRecvError::Empty));
}

#[test]
fn removed_node_is_announced_again_when_it_returns() {
    let mut state = State::new();
    let (_, mut events) = state.subscribe();
    state.change_node(node(4, "speaker", NodeState::Idle));
    state.remove_node(4);
    state.change_node(node(4, "speaker", NodeState::Idle));
    assert!(matches!(events.try_recv(), Ok(StateChangeEvent::AddNode(_))));
    match events.try_recv() {
        Ok(StateChangeEvent::AddNode(again)) => {
            assert_eq!(again.value(), node(4, "speaker", NodeState::Idle))
        },
        _ => panic!("expected the node's second appearance"),
    }
    assert_eq!(state.get_node(4).unwrap().value(), node(4, "speaker", NodeState::Idle));
}

#[test]
fn removed_link_is_announced_again_when_it_returns() {
    let mut state = State::new();
    let (_, mut events) = state.subscribe();
    state.change_link(link(8, LinkState::Init));
    state.remove_link(8);
    state.change_link(link(8, LinkState::Paused));
    assert!(matches!(events.try_recv(), Ok(StateChangeEvent::AddLink(_))));
    match events.try_recv() {
        Ok(StateChangeEvent::AddLink(again)) => assert_eq!(again.value(), link(8, LinkState::Paused)),
        _ => panic!("expected the link's second appearance"),
    }
}

#[test]
fn changes_hand_back_the_graph() {
    let mut state = State::new();
    let named = state.change_node(node(4, "speaker", NodeState::Idle)).get_node(4).unwrap().value().name;
    assert_eq!(named, "speaker");
    assert!(state.change_link(link(8, LinkState::Init)).contains_link(8));
}
