use operator_cockpit::backend::OperatorOverview;
use operator_cockpit::commands::{AvailableCommand, PendingAction, RequestComposer};
use operator_cockpit::keys::{
    composition_checked, handle_key, reorders, suspends, text_checked, Console, Key, KeyOutcome,
    KeyPress,
};
use operator_cockpit::protocol::{
    Attachment, Capabilities, Freshness, FreshnessState, PlatformAction, PlatformCursor,
    PlatformMethod, ResourceAuthority, ResourceCoordinate, ResourceKind, ResourceRecord,
    SessionRecord,
};
use operator_cockpit::state::{CockpitState, ConnectionState, PaneLayout, View};

fn all_methods() -> Vec<PlatformMethod> {
    vec![
        PlatformMethod::Capabilities,
        PlatformMethod::Snapshot,
        PlatformMethod::ListSessions,
        PlatformMethod::Attach,
        PlatformMethod::Detach,
        PlatformMethod::ClaimControl,
        PlatformMethod::ReleaseControl,
        PlatformMethod::Subscribe,
        PlatformMethod::Execute,
        PlatformMethod::GetReceipt,
    ]
}

fn platform_v1() -> Capabilities {
    Capabilities {
        protocol: "automonique.platform".to_string(),
        schema: "automonique.platform/v1".to_string(),
        methods: all_methods(),
    }
}

fn all_actions() -> Vec<PlatformAction> {
    vec![
        PlatformAction::SubmitRequest,
        PlatformAction::FollowUp,
        PlatformAction::Steer,
        PlatformAction::StartRun,
        PlatformAction::StopRun,
        PlatformAction::DecideApproval,
    ]
}

fn cursor(sequence: u64) -> PlatformCursor {
    PlatformCursor {
        authority: ResourceAuthority::Automonique,
        topic: "resources".to_string(),
        sequence,
    }
}

fn record(kind: ResourceKind, id: &str, revision: u64) -> ResourceRecord {
    ResourceRecord {
        resource: ResourceCoordinate {
            authority: ResourceAuthority::Automonique,
            kind,
            id: id.to_string(),
        },
        freshness: Freshness {
            state: FreshnessState::Fresh,
            observed_at: 1,
            revision,
        },
        summary: "ready".to_string(),
    }
}

fn session(id: &str) -> SessionRecord {
    SessionRecord {
        session: record(ResourceKind::Session, id, 1),
        run: None,
        attachable: true,
        controllable: true,
    }
}

fn attachment(session: &SessionRecord) -> Attachment {
    Attachment {
        session: session.session.resource.clone(),
        client: "client-a".to_string(),
        cursor: cursor(1),
    }
}

fn state_with(resources: Vec<ResourceRecord>, sessions: Vec<SessionRecord>) -> CockpitState {
    CockpitState::new(OperatorOverview {
        capabilities: platform_v1(),
        actions: all_actions(),
        resources,
        sessions,
        cursor: cursor(1),
    })
}

fn console(state: CockpitState) -> Console {
    Console {
        state,
        palette: None,
        confirmation: None,
        composer: None,
    }
}

fn plain(key: Key) -> KeyPress {
    KeyPress {
        key,
        shift: false,
        control: false,
        alt: false,
    }
}

fn typed(character: char) -> KeyPress {
    plain(Key::Char(character))
}

fn press(console: &mut Console, character: char) -> KeyOutcome {
    handle_key(typed(character), console)
}

fn pending(console: &Console) -> PendingAction {
    console.confirmation.clone().expect("pending")
}

#[test]
fn number_keys_switch_views() {
    let mut console = console(state_with(
        vec![record(ResourceKind::Run, "run-a", 1)],
        vec![session("session-a")],
    ));
    for (character, view) in [
        ('2', View::Runs),
        ('3', View::Sessions),
        ('4', View::Approvals),
        ('5', View::Models),
        ('6', View::Failures),
        ('7', View::Receipts),
        ('1', View::Overview),
    ] {
        assert_eq!(press(&mut console, character), KeyOutcome::Continue);
        assert_eq!(console.state.view, view);
    }
    press(&mut console, '8');
    press(&mut console, '0');
    assert_eq!(console.state.view, View::Overview);
}

#[test]
fn help_takes_every_key_until_it_is_closed() {
    let mut console = console(state_with(Vec::new(), Vec::new()));
    press(&mut console, '?');
    assert!(console.state.show_help);
    assert_eq!(press(&mut console, 'q'), KeyOutcome::Continue);
    assert!(console.state.show_help);
    handle_key(plain(Key::Esc), &mut console);
    assert!(!console.state.show_help);
    assert_eq!(press(&mut console, 'q'), KeyOutcome::Quit);
}

#[test]
fn letters_change_what_is_shown() {
    let mut console = console(state_with(Vec::new(), Vec::new()));
    press(&mut console, 'h');
    assert!(console.state.high_contrast);
    press(&mut console, 'l');
    assert_eq!(console.state.pane_layout, PaneLayout::Rows);
    press(&mut console, 'P');
    assert_eq!(console.state.status, "no focused session pane");
    press(&mut console, 'r');
    assert_eq!(console.state.connection, ConnectionState::Reconnecting);
    assert_eq!(
        console.state.status,
        "manual authoritative resync requested"
    );
}

#[test]
fn letters_begin_commands() {
    let mut console = console(state_with(Vec::new(), Vec::new()));
    for (character, command) in [
        ('a', AvailableCommand::Attach),
        ('d', AvailableCommand::Detach),
        ('c', AvailableCommand::ClaimControl),
        ('x', AvailableCommand::ReleaseControl),
    ] {
        assert_eq!(
            press(&mut console, character),
            KeyOutcome::Command(command)
        );
    }
}

#[test]
fn arrows_and_brackets_move_selection_and_focus() {
    let first = session("session-a");
    let second = session("session-b");
    let mut state = state_with(Vec::new(), vec![first.clone(), second.clone()]);
    state.attach(first.clone(), attachment(&first));
    state.attach(second.clone(), attachment(&second));
    let mut console = console(state);
    handle_key(plain(Key::Down), &mut console);
    assert_eq!(console.state.selected_index, 1);
    handle_key(plain(Key::Up), &mut console);
    assert_eq!(console.state.selected_index, 0);
    press(&mut console, '[');
    assert_eq!(console.state.focused_pane, 0);
    handle_key(plain(Key::Tab), &mut console);
    assert_eq!(console.state.focused_pane, 1);
    handle_key(plain(Key::BackTab), &mut console);
    assert_eq!(console.state.focused_pane, 0);
    press(&mut console, ']');
    assert_eq!(console.state.focused_pane, 1);
    handle_key(plain(Key::Left), &mut console);
    assert_eq!(console.state.focused_pane, 1);
    let shifted = KeyPress {
        shift: true,
        ..plain(Key::Left)
    };
    handle_key(shifted, &mut console);
    assert_eq!(console.state.focused_pane, 0);
    assert_eq!(
        console.state.panes[0].record.session.resource.id,
        "session-b"
    );
    handle_key(
        KeyPress {
            shift: true,
            ..plain(Key::Right)
        },
        &mut console,
    );
    assert_eq!(console.state.focused_pane, 1);
}

#[test]
fn only_reordering_needs_the_focus_to_stand_on_a_pane() {
    let first = session("session-a");
    let second = session("session-b");
    let mut state = state_with(Vec::new(), vec![first.clone(), second.clone()]);
    state.attach(first.clone(), attachment(&first));
    state.attach(second.clone(), attachment(&second));
    state.focused_pane = 9;
    let mut console = console(state);
    let shifted = KeyPress {
        shift: true,
        ..plain(Key::Left)
    };
    assert!(reorders(shifted, &console));
    assert!(!reorders(plain(Key::Left), &console));
    assert!(!reorders(typed('l'), &console));
    assert_eq!(press(&mut console, '?'), KeyOutcome::Continue);
    assert!(!reorders(shifted, &console));
    assert_eq!(handle_key(shifted, &mut console), KeyOutcome::Continue);
    assert_eq!(console.state.focused_pane, 9);
    assert_eq!(press(&mut console, '?'), KeyOutcome::Continue);
    assert_eq!(press(&mut console, '['), KeyOutcome::Continue);
    assert_eq!(console.state.focused_pane, 1);
}

#[test]
fn the_palette_offers_chooses_and_closes() {
    let mut console = console(state_with(
        vec![record(ResourceKind::Run, "run-a", 1)],
        Vec::new(),
    ));
    press(&mut console, 'p');
    let open = console.palette.clone().expect("palette");
    assert_eq!(
        open.commands,
        vec![
            AvailableCommand::Refresh,
            AvailableCommand::StartRun,
            AvailableCommand::StopRun
        ]
    );
    handle_key(plain(Key::Up), &mut console);
    for _ in 0..5 {
        handle_key(plain(Key::Down), &mut console);
    }
    assert_eq!(console.palette.as_ref().expect("palette").selected, 2);
    assert_eq!(press(&mut console, 'q'), KeyOutcome::Continue);
    assert_eq!(
        handle_key(plain(Key::Enter), &mut console),
        KeyOutcome::Command(AvailableCommand::StopRun)
    );
    assert!(console.palette.is_none());
    press(&mut console, 'p');
    press(&mut console, 'p');
    assert!(console.palette.is_none());
}

#[test]
fn a_request_is_composed_checked_and_confirmed() {
    let mut console = console(state_with(
        vec![record(ResourceKind::Node, "node-a", 3)],
        Vec::new(),
    ));
    press(&mut console, 'i');
    assert!(console.composer.is_some());
    let KeyOutcome::CheckText(candidate) = press(&mut console, 'g') else {
        panic!("a letter asks for a check")
    };
    assert_eq!(candidate, "g");
    text_checked(&mut console, candidate, true);
    let KeyOutcome::CheckText(candidate) = press(&mut console, 'q') else {
        panic!("a letter asks for a check")
    };
    assert_eq!(candidate, "gq");
    text_checked(&mut console, candidate, false);
    assert_eq!(
        console.state.status,
        "request text reached the platform bound"
    );
    assert_eq!(console.composer.as_ref().expect("composer").text, "g");
    let controlled = KeyPress {
        control: true,
        ..typed('u')
    };
    assert_eq!(
        handle_key(controlled, &mut console),
        KeyOutcome::Continue
    );
    let KeyOutcome::Compose(composed) = handle_key(plain(Key::Enter), &mut console) else {
        panic!("enter hands the text over")
    };
    assert!(console.composer.is_none());
    composition_checked(&mut console, composed, true, Some("key-a".to_string()));
    let shown = pending(&console);
    assert_eq!(shown.action, PlatformAction::SubmitRequest);
    assert_eq!(shown.parameter.as_deref(), Some("g"));
    assert_eq!(shown.idempotency_key, "key-a");
    assert_eq!(shown.expected_revision, 3);
    assert_eq!(shown.title, "Submit durable request");
    let view = shown.confirmation_view();
    assert_eq!(view.target, "automonique/node/node-a");
    assert_eq!(view.revision, 3);
    assert_eq!(press(&mut console, 'a'), KeyOutcome::Continue);
    assert_eq!(
        press(&mut console, 'Y'),
        KeyOutcome::Confirmed(shown)
    );
    assert!(console.confirmation.is_none());
}

#[test]
fn compositions_can_be_edited_cancelled_and_refused() {
    let mut console = console(state_with(Vec::new(), vec![session("session-a")]));
    press(&mut console, 'i');
    handle_key(plain(Key::Backspace), &mut console);
    text_checked(&mut console, "ab".to_string(), true);
    handle_key(plain(Key::Backspace), &mut console);
    assert_eq!(console.composer.as_ref().expect("composer").text, "a");
    handle_key(plain(Key::Esc), &mut console);
    assert!(console.composer.is_none());
    assert_eq!(
        console.state.status,
        "composition cancelled before submission"
    );
    press(&mut console, 'i');
    let KeyOutcome::Compose(composed) = handle_key(plain(Key::Enter), &mut console) else {
        panic!("enter hands the text over")
    };
    let view = composed.composer_view();
    assert_eq!(view.operation, "follow_up");
    assert_eq!(view.target, "automonique/session/session-a");
    composition_checked(&mut console, composed.clone(), false, Some("key".to_string()));
    assert!(console.confirmation.is_none());
    assert_eq!(console.state.status, "request text is required");
    composition_checked(&mut console, composed, true, None);
    assert!(console.confirmation.is_none());
}

#[test]
fn a_confirmation_can_be_withdrawn() {
    for key in [Key::Char('n'), Key::Char('N'), Key::Esc] {
        let mut console = console(state_with(Vec::new(), vec![session("session-a")]));
        let composed = RequestComposer {
            action: PlatformAction::FollowUp,
            target: session("session-a").session.resource,
            expected_revision: 1,
            target_label: "automonique/session/session-a".to_string(),
            text: "go".to_string(),
        };
        composition_checked(&mut console, composed, true, Some("key".to_string()));
        assert!(console.confirmation.is_some());
        assert_eq!(
            handle_key(plain(key), &mut console),
            KeyOutcome::Continue
        );
        assert!(console.confirmation.is_none());
        assert_eq!(
            console.state.status,
            "mutation cancelled before submission"
        );
    }
}

#[test]
fn nothing_is_composed_for_other_kinds_or_on_a_stale_state() {
    let mut console = console(state_with(
        vec![record(ResourceKind::Run, "run-a", 1)],
        Vec::new(),
    ));
    press(&mut console, 'i');
    assert_eq!(
        console.state.status,
        "select a node or session before composing"
    );
    console.state = state_with(vec![record(ResourceKind::Node, "node-a", 1)], Vec::new());
    console.state.connection = ConnectionState::Stale;
    press(&mut console, 'i');
    assert!(console.composer.is_none());
    assert_eq!(
        console.state.status,
        "composition disabled while snapshot is stale"
    );
}

#[test]
fn control_z_suspends() {
    assert!(suspends(KeyPress {
        control: true,
        ..typed('z')
    }));
    assert!(!suspends(typed('z')));
    assert!(!suspends(KeyPress {
        control: true,
        ..typed('y')
    }));
}
