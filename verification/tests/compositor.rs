use eucalyptus_twig::compositor::{
    CompositorDriver, DriverEvent, Update, Workspace, WorkspaceCapabilities, WorkspaceEvent,
    WorkspaceState, WorkspaceStyle, display_name, is_clickable, workspace_caps_from_bits,
    workspace_state_from_bits, workspace_style,
};

fn handle(handle: u64, event: WorkspaceEvent) -> DriverEvent {
    DriverEvent::Handle { handle, event }
}

#[test]
fn round_trip_commit_then_remove() {
    let mut d = CompositorDriver::new();
    d.dispatch(DriverEvent::Announce { handle: 7 });
    d.dispatch(handle(7, WorkspaceEvent::Name("web".to_owned())));
    d.dispatch(handle(7, WorkspaceEvent::State(1)));
    assert_eq!(d.view.workspaces.len(), 0, "not visible before capabilities arrive");
    d.dispatch(handle(7, WorkspaceEvent::Capabilities(1)));
    assert_eq!(d.view.workspaces.len(), 1, "exactly one committed workspace");
    let w = d.view.workspaces.get(7).expect("workspace visible");
    assert_eq!(w.name, "web");
    assert!(w.state.active);
    assert!(w.capabilities.activate);
    assert!(d.view.error_message.is_none());

    d.dispatch(handle(7, WorkspaceEvent::Removed));
    assert!(d.view.workspaces.get(7).is_none(), "removed after commit");
    assert_eq!(d.view.workspaces.len(), 0);

    // A second removal for the same handle is a defensive no-op.
    d.dispatch(handle(7, WorkspaceEvent::Removed));
    assert_eq!(d.view.workspaces.len(), 0);
    assert!(d.view.error_message.is_none());
}

#[test]
fn partial_workspace_never_visible() {
    let mut d = CompositorDriver::new();
    d.dispatch(DriverEvent::Announce { handle: 1 });
    d.dispatch(handle(1, WorkspaceEvent::Name("one".to_owned())));
    d.dispatch(handle(1, WorkspaceEvent::Id("stable".to_owned())));
    d.dispatch(handle(1, WorkspaceEvent::Coordinates(vec![0, 1])));
    assert_eq!(d.view.workspaces.len(), 0, "no state/capabilities yet");
    d.dispatch(handle(1, WorkspaceEvent::State(0)));
    assert_eq!(d.view.workspaces.len(), 0, "no capabilities yet");
    d.dispatch(handle(1, WorkspaceEvent::Capabilities(0)));
    assert_eq!(d.view.workspaces.len(), 1);
    let w = d.view.workspaces.get(1).unwrap();
    assert_eq!(w.id.as_deref(), Some("stable"));
    assert_eq!(w.coordinates.as_deref(), Some(&[0u8, 1u8][..]));
}

#[test]
fn removed_while_pending_commits_nothing() {
    let mut d = CompositorDriver::new();
    d.dispatch(DriverEvent::Announce { handle: 3 });
    d.dispatch(handle(3, WorkspaceEvent::Name("gone".to_owned())));
    d.dispatch(handle(3, WorkspaceEvent::Removed));
    // Late events for the discarded handle change nothing.
    d.dispatch(handle(3, WorkspaceEvent::State(1)));
    d.dispatch(handle(3, WorkspaceEvent::Capabilities(1)));
    assert_eq!(d.view.workspaces.len(), 0, "never committed");
    assert!(d.view.error_message.is_none());
}

#[test]
fn undecodable_bitset_is_dropped() {
    let mut d = CompositorDriver::new();
    d.dispatch(DriverEvent::Announce { handle: 2 });
    d.dispatch(handle(2, WorkspaceEvent::Name("n".to_owned())));
    d.dispatch(handle(2, WorkspaceEvent::Capabilities(15)));
    // 0x80 is no known state bit: the event is dropped, nothing commits.
    d.dispatch(handle(2, WorkspaceEvent::State(0x80)));
    assert_eq!(d.view.workspaces.len(), 0);
    // A decodable state then completes the record.
    d.dispatch(handle(2, WorkspaceEvent::State(6)));
    let w = d.view.workspaces.get(2).unwrap();
    assert!(!w.state.active);
    assert!(w.state.urgent);
    assert!(w.state.hidden);
    assert!(w.capabilities.activate && w.capabilities.deactivate);
    assert!(w.capabilities.remove && w.capabilities.assign);
}

#[test]
fn committed_workspace_updates_in_place() {
    let mut d = CompositorDriver::new();
    d.dispatch(DriverEvent::Announce { handle: 4 });
    d.dispatch(handle(4, WorkspaceEvent::Name("old".to_owned())));
    d.dispatch(handle(4, WorkspaceEvent::State(0)));
    d.dispatch(handle(4, WorkspaceEvent::Capabilities(0)));
    d.dispatch(handle(4, WorkspaceEvent::Name("new".to_owned())));
    d.dispatch(handle(4, WorkspaceEvent::State(2)));
    let w = d.view.workspaces.get(4).unwrap();
    assert_eq!(w.name, "new");
    assert!(w.state.urgent);
    // An undecodable update leaves the committed state as it was.
    d.dispatch(handle(4, WorkspaceEvent::State(0x100)));
    let w = d.view.workspaces.get(4).unwrap();
    assert!(w.state.urgent);
}

#[test]
fn event_for_unknown_handle_is_ignored() {
    let mut d = CompositorDriver::new();
    d.dispatch(handle(9, WorkspaceEvent::Name("ghost".to_owned())));
    assert_eq!(d.view.workspaces.len(), 0);
    assert!(d.view.error_message.is_none());
}

#[test]
fn terminal_error_update() {
    let mut d = CompositorDriver::new();
    d.set_error("dispatch failed".to_owned());
    assert_eq!(d.view.error_message.as_deref(), Some("dispatch failed"));
}

#[test]
fn state_bits_decode() {
    assert_eq!(workspace_state_from_bits(0), Some(WorkspaceState { active: false, urgent: false, hidden: false }));
    assert_eq!(workspace_state_from_bits(1), Some(WorkspaceState { active: true, urgent: false, hidden: false }));
    assert_eq!(workspace_state_from_bits(2), Some(WorkspaceState { active: false, urgent: true, hidden: false }));
    assert_eq!(workspace_state_from_bits(4), Some(WorkspaceState { active: false, urgent: false, hidden: true }));
    assert_eq!(workspace_state_from_bits(7), Some(WorkspaceState { active: true, urgent: true, hidden: true }));
    assert_eq!(workspace_state_from_bits(8), None);
    assert_eq!(workspace_state_from_bits(0xffffffff), None);
}

#[test]
fn capability_bits_decode() {
    let c = workspace_caps_from_bits(0b1010).unwrap();
    assert!(!c.activate && c.deactivate && !c.remove && c.assign);
    assert_eq!(workspace_caps_from_bits(16), None);
    let all = workspace_caps_from_bits(15).unwrap();
    assert!(all.activate && all.deactivate && all.remove && all.assign);
}

#[test]
fn style_precedence_urgent_over_active() {
    let st = WorkspaceState { active: true, urgent: true, hidden: false };
    assert_eq!(workspace_style(&st), WorkspaceStyle::Urgent);
    let st = WorkspaceState { active: true, urgent: false, hidden: false };
    assert_eq!(workspace_style(&st), WorkspaceStyle::Active);
    let st = WorkspaceState { active: false, urgent: false, hidden: true };
    assert_eq!(workspace_style(&st), WorkspaceStyle::Neutral);
}

#[test]
fn active_name_is_decorated() {
    let w = Workspace {
        id: None,
        name: "web".to_owned(),
        coordinates: None,
        state: WorkspaceState { active: true, urgent: false, hidden: false },
        capabilities: WorkspaceCapabilities { activate: true, deactivate: false, remove: false, assign: false },
    };
    assert_eq!(display_name(&w), " > web < ");
    assert!(is_clickable(&w));
    let w2 = Workspace { state: WorkspaceState { active: false, urgent: false, hidden: false }, ..w };
    assert_eq!(display_name(&w2), "web");
}

#[test]
fn new_workspace_update_overwrites() {
    let mut d = CompositorDriver::new();
    d.dispatch(DriverEvent::Announce { handle: 5 });
    d.dispatch(handle(5, WorkspaceEvent::Name("a".to_owned())));
    d.dispatch(handle(5, WorkspaceEvent::State(0)));
    d.dispatch(handle(5, WorkspaceEvent::Capabilities(0)));
    // Applying a NewWorkspace update directly replaces the entry.
    let w = Workspace {
        id: None,
        name: "b".to_owned(),
        coordinates: None,
        state: WorkspaceState { active: false, urgent: false, hidden: false },
        capabilities: WorkspaceCapabilities { activate: false, deactivate: false, remove: false, assign: false },
    };
    d.view.apply_update(Update::NewWorkspace { handle: 5, workspace: w });
    assert_eq!(d.view.workspaces.get(5).unwrap().name, "b");
    assert_eq!(d.view.workspaces.len(), 1);
}
