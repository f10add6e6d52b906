use virtual_rack::pipewire::node::{
    Direction, Format, LinkChangeEvent, LinkState, LinkValue, Media, NodeChangeEvent, NodeState,
    NodeTypeDirection, Port,
};
use virtual_rack::pipewire::state::{State, StateChangeEvent};
use virtual_rack::pipewire::{
    GlobalProps, NodeProps, PortProps, RegistryError, RegistryEvent, Retired,
};

fn node_info(id: u32, name: Option<&str>, class: Option<&str>, state: NodeState) -> RegistryEvent {
    RegistryEvent::NodeInfo {
        id,
        props_changed: true,
        state_changed: true,
        props: Some(NodeProps {
            name: name.map(|n| n.to_owned()),
            media_class: class.map(|c| c.to_owned()),
        }),
        state,
    }
}

fn port_added(id: u32, node_id: &str) -> RegistryEvent {
    RegistryEvent::PortAdded {
        id,
        props: Some(GlobalProps { node_id: Some(node_id.to_owned()) }),
    }
}

fn port_info(id: u32, name: &str, node_id: &str, format: Option<&str>) -> RegistryEvent {
    RegistryEvent::PortInfo {
        id,
        props_changed: true,
        props: Some(PortProps {
            name: Some(name.to_owned()),
            node_id: Some(node_id.to_owned()),
            format: format.map(|f| f.to_owned()),
        }),
        direction: Some(Direction::In),
    }
}

#[test]
fn node_info_adds_a_described_node() {
    let mut state = State::new();
    let (_, mut events) = state.subscribe();
    let r = state.handle_registry_event(node_info(
        30,
        Some("alsa_output"),
        Some("Audio/Sink"),
        NodeState::Suspended,
    ));
    assert!(matches!(r, Ok(Retired::Nothing)));
    let value = state.get_node(30).unwrap().value();
    assert_eq!(value.id, 30);
    assert_eq!(value.name, "alsa_output");
    assert_eq!(value.media, Media::Audio);
    assert_eq!(value.node_type, NodeTypeDirection::In);
    assert_eq!(value.state, NodeState::Suspended);
    assert!(value.ports.is_empty());
    assert!(matches!(events.try_recv(), Ok(StateChangeEvent::AddNode(_))));
}

#[test]
fn node_info_without_props_or_name_is_refused() {
    let mut state = State::new();
    let r = state.handle_registry_event(RegistryEvent::NodeInfo {
        id: 1,
        props_changed: true,
        state_changed: false,
        props: None,
        state: NodeState::Idle,
    });
    assert!(matches!(r, Err(RegistryError::NoProps)));
    let r = state.handle_registry_event(node_info(1, None, Some("Audio/Sink"), NodeState::Idle));
    assert!(matches!(r, Err(RegistryError::NoName)));
    assert!(state.get().nodes.is_empty());
}

#[test]
fn node_state_only_news_changes_the_state() {
    let mut state = State::new();
    state
        .handle_registry_event(node_info(2, Some("mic"), None, NodeState::Idle))
        .unwrap();
    let (_, mut node_events) = state.get_node(2).unwrap().subcribe();
    let r = state.handle_registry_event(RegistryEvent::NodeInfo {
        id: 2,
        props_changed: false,
        state_changed: true,
        props: None,
        state: NodeState::Running,
    });
    assert!(matches!(r, Ok(Retired::Nothing)));
    assert_eq!(node_events.try_recv(), Ok(NodeChangeEvent::State(NodeState::Running)));
    let value = state.get_node(2).unwrap().value();
    assert_eq!(value.media, Media::Unspecified);
    assert_eq!(value.node_type, NodeTypeDirection::Neither);
    // news with neither flag does nothing
    let r = state.handle_registry_event(RegistryEvent::NodeInfo {
        id: 2,
        props_changed: false,
        state_changed: false,
        props: None,
        state: NodeState::Idle,
    });
    assert!(matches!(r, Ok(Retired::Nothing)));
    assert_eq!(state.get_node(2).unwrap().value().state, NodeState::Running);
}

#[test]
fn port_added_records_its_node() {
    let mut state = State::new();
    assert!(matches!(state.handle_registry_event(port_added(40, "30")), Ok(Retired::Nothing)));
    assert_eq!(state.get_map_port(40), Some(30));
    assert!(matches!(state.handle_registry_event(port_added(41, "+31")), Ok(Retired::Nothing)));
    assert_eq!(state.get_map_port(41), Some(31));
    assert!(matches!(
        state.handle_registry_event(port_added(42, "thirty")),
        Err(RegistryError::InvalidNodeId)
    ));
    assert_eq!(state.get_map_port(42), None);
    assert!(matches!(
        state.handle_registry_event(RegistryEvent::PortAdded {
            id: 43,
            props: Some(GlobalProps { node_id: None })
        }),
        Err(RegistryError::NoNodeId)
    ));
    assert!(matches!(
        state.handle_registry_event(RegistryEvent::PortAdded { id: 44, props: None }),
        Err(RegistryError::NoProps)
    ));
}

#[test]
fn port_info_stores_the_port_on_its_node() {
    let mut state = State::new();
    state
        .handle_registry_event(node_info(30, Some("sink"), Some("Audio/Sink"), NodeState::Idle))
        .unwrap();
    state.handle_registry_event(port_added(40, "30")).unwrap();
    let (_, mut node_events) = state.get_node(30).unwrap().subcribe();
    let r = state.handle_registry_event(port_info(40, "playback_FL", "30", Some("32 bit float mono audio")));
    assert!(matches!(r, Ok(Retired::Nothing)));
    let expected = Port {
        id: 40,
        name: "playback_FL".to_owned(),
        direction: Direction::In,
        format: Format::Audio,
    };
    assert_eq!(node_events.try_recv(), Ok(NodeChangeEvent::AddPort(expected)));
    assert_eq!(state.get_node(30).unwrap().value().ports.len(), 1);
}

#[test]
fn port_info_moves_the_port_between_nodes() {
    let mut state = State::new();
    state.handle_registry_event(node_info(30, Some("a"), None, NodeState::Idle)).unwrap();
    state.handle_registry_event(node_info(31, Some("b"), None, NodeState::Idle)).unwrap();
    state.handle_registry_event(port_added(40, "30")).unwrap();
    state.handle_registry_event(port_info(40, "p", "30", None)).unwrap();
    let (_, mut old_events) = state.get_node(30).unwrap().subcribe();
    let (_, mut new_events) = state.get_node(31).unwrap().subcribe();
    state.handle_registry_event(port_info(40, "p", "31", None)).unwrap();
    assert_eq!(old_events.try_recv(), Ok(NodeChangeEvent::RemovePort(40)));
    assert!(matches!(new_events.try_recv(), Ok(NodeChangeEvent::AddPort(_))));
    assert_eq!(state.get_map_port(40), Some(31));
    assert!(state.get_node(30).unwrap().value().ports.is_empty());
    assert_eq!(
        state.get_node(31).unwrap().value().ports.get(&40).map(|p| p.format == Format::Unspecified),
        Some(true)
    );
}

#[test]
fn port_info_for_unrecorded_port_stays_unrecorded() {
    let mut state = State::new();
    state.handle_registry_event(node_info(30, Some("a"), None, NodeState::Idle)).unwrap();
    state.handle_registry_event(port_info(50, "p", "30", None)).unwrap();
    assert_eq!(state.get_map_port(50), None);
    assert!(state.get_node(30).unwrap().value().ports.contains_key(&50));
}

#[test]
fn port_info_errors_come_in_order() {
    let mut state = State::new();
    let missing_name = RegistryEvent::PortInfo {
        id: 1,
        props_changed: true,
        props: Some(PortProps { name: None, node_id: Some("x".to_owned()), format: None }),
        direction: Some(Direction::Out),
    };
    assert!(matches!(state.handle_registry_event(missing_name), Err(RegistryError::NoName)));
    let missing_node = RegistryEvent::PortInfo {
        id: 1,
        props_changed: true,
        props: Some(PortProps { name: Some("n".to_owned()), node_id: None, format: None }),
        direction: Some(Direction::Out),
    };
    assert!(matches!(state.handle_registry_event(missing_node), Err(RegistryError::NoNodeId)));
    assert!(matches!(
        state.handle_registry_event(port_info(1, "n", "-3", None)),
        Err(RegistryError::InvalidNodeId)
    ));
    let no_props = RegistryEvent::PortInfo {
        id: 1,
        props_changed: true,
        props: None,
        direction: Some(Direction::Out),
    };
    assert!(matches!(state.handle_registry_event(no_props), Err(RegistryError::NoProps)));
    let unchanged = RegistryEvent::PortInfo {
        id: 1,
        props_changed: false,
        props: None,
        direction: Some(Direction::Out),
    };
    assert!(matches!(state.handle_registry_event(unchanged), Ok(Retired::Nothing)));
}

#[test]
fn port_removed_drops_the_port_from_its_node() {
    let mut state = State::new();
    state.handle_registry_event(node_info(30, Some("a"), None, NodeState::Idle)).unwrap();
    state.handle_registry_event(port_added(40, "30")).unwrap();
    state.handle_registry_event(port_info(40, "p", "30", None)).unwrap();
    let (_, mut events) = state.get_node(30).unwrap().subcribe();
    assert!(matches!(state.handle_registry_event(RegistryEvent::PortRemoved { id: 40 }), Ok(Retired::Nothing)));
    assert_eq!(events.try_recv(), Ok(NodeChangeEvent::RemovePort(40)));
    assert!(state.get_node(30).unwrap().value().ports.is_empty());
    assert!(matches!(state.handle_registry_event(RegistryEvent::PortRemoved { id: 41 }), Ok(Retired::Nothing)));
}

#[test]
fn node_removed_forgets_the_node() {
    let mut state = State::new();
    state.handle_registry_event(node_info(30, Some("a"), None, NodeState::Idle)).unwrap();
    let (_, mut events) = state.get_node(30).unwrap().subcribe();
    let retired = state.handle_registry_event(RegistryEvent::NodeRemoved { id: 30 });
    match retired {
        Ok(Retired::Node(node)) => assert_eq!(node.value().id, 30),
        _ => panic!("the removed node is handed back"),
    }
    assert_eq!(events.try_recv(), Ok(NodeChangeEvent::Remove));
    assert!(state.get_node(30).is_none());
}

#[test]
fn link_news_is_taken_in() {
    let mut state = State::new();
    let info = |props_changed: bool, state_changed: bool, link_state: LinkState| RegistryEvent::LinkInfo {
        id: 60,
        props_changed,
        state_changed,
        node_from: 30,
        node_to: 31,
        port_from: 40,
        port_to: 41,
        state: link_state,
    };
    assert!(matches!(state.handle_registry_event(info(true, true, LinkState::Init)), Ok(Retired::Nothing)));
    assert_eq!(
        state.get_link(60).value(),
        LinkValue { id: 60, node_from: 30, node_to: 31, port_from: 40, port_to: 41, state: LinkState::Init }
    );
    let (_, mut events) = state.get_link(60).subcribe();
    assert!(matches!(state.handle_registry_event(info(false, true, LinkState::Active)), Ok(Retired::Nothing)));
    assert_eq!(events.try_recv(), Ok(LinkChangeEvent::State(LinkState::Active)));
    let retired = state.handle_registry_event(RegistryEvent::LinkRemoved { id: 60 });
    match retired {
        Ok(Retired::Link(link)) => assert_eq!(link.value().id, 60),
        _ => panic!("the removed link is handed back"),
    }
    assert_eq!(events.try_recv(), Ok(LinkChangeEvent::Remove));
    assert!(!state.contains_link(60));
}

#[test]
fn unknown_direction_is_only_read_with_full_port_props() {
    let mut state = State::new();
    let unchanged = RegistryEvent::PortInfo { id: 1, props_changed: false, props: None, direction: None };
    assert!(matches!(state.handle_registry_event(unchanged), Ok(Retired::Nothing)));
    let missing_name = RegistryEvent::PortInfo {
        id: 1,
        props_changed: true,
        props: Some(PortProps { name: None, node_id: Some("3".to_owned()), format: None }),
        direction: None,
    };
    assert!(matches!(state.handle_registry_event(missing_name), Err(RegistryError::NoName)));
    let bad_node = RegistryEvent::PortInfo {
        id: 1,
        props_changed: true,
        props: Some(PortProps { name: Some("n".to_owned()), node_id: Some("three".to_owned()), format: None }),
        direction: None,
    };
    assert!(matches!(state.handle_registry_event(bad_node), Err(RegistryError::InvalidNodeId)));
    assert!(state.get().nodes.is_empty());
}
