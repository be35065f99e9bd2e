use operator_cockpit::backend::OperatorOverview;
use operator_cockpit::commands::{ComposerView, ConfirmationView, PaletteView};
use operator_cockpit::layout::{centered, pane_areas, pane_slots, Rect};
use operator_cockpit::protocol::{
    Attachment, Capabilities, ControlLease, Freshness, FreshnessState, PlatformAction,
    PlatformCursor, PlatformMethod, ResourceAuthority, ResourceCoordinate, ResourceKind,
    ResourceRecord, SessionRecord,
};
use operator_cockpit::render::{render, write_record, Borders, Color, Panel, Style, TextLine};
use operator_cockpit::state::{CockpitState, ConnectionState, PaneLayout, View};
use ratatui::backend::TestBackend;
use ratatui::Terminal;

fn all_methods() -> Vec<PlatformMethod> {
    vec![
        PlatformMethod::Capabilities,
        PlatformMethod::Snapshot,
        PlatformMethod::ListSessions,
        PlatformMethod::Attach,
        PlatformMethod::Detach,
        PlatformMethod::ClaimControl,
        PlatformMethod::ReleaseControl,
        PlatformMethod::Subscribe,
        PlatformMethod::Execute,
        PlatformMethod::GetReceipt,
    ]
}

fn platform_v1() -> Capabilities {
    Capabilities {
        protocol: "automonique.platform".to_string(),
        schema: "automonique.platform/v1".to_string(),
        methods: all_methods(),
    }
}

fn all_actions() -> Vec<PlatformAction> {
    vec![
        PlatformAction::SubmitRequest,
        PlatformAction::FollowUp,
        PlatformAction::Steer,
        PlatformAction::StartRun,
        PlatformAction::StopRun,
        PlatformAction::DecideApproval,
    ]
}

fn state() -> CockpitState {
    let resources = vec![
        record(
            ResourceKind::Node,
            "node-a",
            "daemon ready",
            FreshnessState::Fresh,
        ),
        record(ResourceKind::Run, "run-a", "running", FreshnessState::Fresh),
        record(
            ResourceKind::Approval,
            "approval-a",
            "state=pending",
            FreshnessState::Fresh,
        ),
        record(
            ResourceKind::Model,
            "gpt-test",
            "available=true; default=true",
            FreshnessState::Fresh,
        ),
        record(
            ResourceKind::Run,
            "run-failed",
            "failed",
            FreshnessState::Stale,
        ),
    ];
    CockpitState::new(OperatorOverview {
        capabilities: platform_v1(),
        actions: all_actions(),
        resources,
        sessions: Vec::new(),
        cursor: PlatformCursor {
            authority: ResourceAuthority::Automonique,
            topic: "resources".to_string(),
            sequence: 7,
        },
    })
}

fn record(
    kind: ResourceKind,
    id: &str,
    summary: &str,
    freshness: FreshnessState,
) -> ResourceRecord {
    ResourceRecord {
        resource: ResourceCoordinate {
            authority: if kind == ResourceKind::Model {
                ResourceAuthority::Provider
            } else {
                ResourceAuthority::Automonique
            },
            kind,
            id: id.to_string(),
        },
        freshness: Freshness {
            state: freshness,
            observed_at: 1,
            revision: 1,
        },
        summary: summary.to_string(),
    }
}

fn color(color: Color) -> ratatui::style::Color {
    match color {
        Color::Black => ratatui::style::Color::Black,
        Color::Red => ratatui::style::Color::Red,
        Color::Green => ratatui::style::Color::Green,
        Color::Yellow => ratatui::style::Color::Yellow,
        Color::Cyan => ratatui::style::Color::Cyan,
        Color::Gray => ratatui::style::Color::Gray,
        Color::DarkGray => ratatui::style::Color::DarkGray,
        Color::White => ratatui::style::Color::White,
    }
}

fn style(style: Style) -> ratatui::style::Style {
    let mut drawn = ratatui::style::Style::default();
    if let Some(foreground) = style.foreground {
        drawn = drawn.fg(color(foreground));
    }
    if let Some(background) = style.background {
        drawn = drawn.bg(color(background));
    }
    if style.bold {
        drawn = drawn.add_modifier(ratatui::style::Modifier::BOLD);
    }
    if style.reversed {
        drawn = drawn.add_modifier(ratatui::style::Modifier::REVERSED);
    }
    drawn
}

fn draw(frame: &mut ratatui::Frame<'_>, panel: &Panel) {
    let area = ratatui::layout::Rect {
        x: panel.area.x,
        y: panel.area.y,
        width: panel.area.width,
        height: panel.area.height,
    };
    let lines: Vec<ratatui::text::Line> = panel
        .lines
        .iter()
        .map(|line| match line {
            TextLine::Text { text, style: look } => {
                ratatui::text::Line::styled(text.clone(), style(*look))
            }
            TextLine::Spans(spans) => ratatui::text::Line::from(
                spans
                    .iter()
                    .map(|span| ratatui::text::Span::styled(span.text.clone(), style(span.style)))
                    .collect::<Vec<_>>(),
            ),
        })
        .collect();
    let mut block = ratatui::widgets::Block::default()
        .borders(match panel.borders {
            Borders::All => ratatui::widgets::Borders::ALL,
            Borders::Top => ratatui::widgets::Borders::TOP,
            Borders::Bottom => ratatui::widgets::Borders::BOTTOM,
        })
        .border_style(style(panel.border_style));
    if let Some(title) = &panel.title {
        block = block.title(title.clone());
    }
    let mut paragraph = ratatui::widgets::Paragraph::new(lines)
        .style(style(panel.style))
        .block(block);
    if panel.wraps {
        paragraph = paragraph.wrap(ratatui::widgets::Wrap { trim: false });
    }
    if panel.clears {
        frame.render_widget(ratatui::widgets::Clear, area);
    }
    frame.render_widget(paragraph, area);
}

fn panels_of(width: u16, height: u16, state: &CockpitState) -> Vec<Panel> {
    let area = Rect {
        x: 0,
        y: 0,
        width,
        height,
    };
    render(area, state, None, None, None)
}

fn text_of(width: u16, height: u16, panels: &[Panel]) -> String {
    let backend = TestBackend::new(width, height);
    let mut terminal = Terminal::new(backend).expect("terminal");
    terminal
        .draw(|frame| {
            for panel in panels {
                draw(frame, panel);
            }
        })
        .expect("draw");
    let buffer = terminal.backend().buffer();
    let mut output = String::new();
    for y in 0..height {
        let mut line = String::new();
        for x in 0..width {
            line.push_str(buffer[(x, y)].symbol());
        }
        output.push_str(line.trim_end());
        output.push('\n');
    }
    output
}

fn screen(width: u16, height: u16, state: CockpitState) -> String {
    text_of(width, height, &panels_of(width, height, &state))
}

#[test]
fn wide_golden_contains_navigation_identity_and_state_text() {
    let output = screen(120, 36, state());
    assert!(output.contains("AUTOMONIQUE OPERATOR"));
    assert!(output.contains("LIVE"));
    assert!(output.contains("approval-a"));
    assert!(!output.contains("Exact target"));
}

#[test]
fn narrow_golden_keeps_identity_and_non_colour_status() {
    let output = screen(58, 22, state());
    assert!(output.contains("LIVE"));
    assert!(output.contains("node-a"));
    assert!(output.contains("? help"));
}

#[test]
fn stale_state_is_visibly_read_only() {
    let mut value = state();
    value.connection = ConnectionState::Stale;
    let output = screen(100, 28, value);
    assert!(output.contains("STALE / READ-ONLY"));
}

#[test]
fn high_contrast_draws_without_hiding_status_text() {
    let mut value = state();
    value.high_contrast = true;
    let output = screen(100, 28, value);
    assert!(output.contains("LIVE"));
    assert!(output.contains("overview"));
}

#[test]
fn zero_sized_terminal_waits_for_a_resize_without_panicking() {
    assert!(screen(0, 0, state()).is_empty());
    assert!(panels_of(0, 10, &state()).is_empty());
    assert!(panels_of(10, 0, &state()).is_empty());
}

#[test]
fn the_header_and_the_list_hold_their_exact_text() {
    let panels = panels_of(120, 36, &state());
    let TextLine::Spans(spans) = &panels[0].lines[0] else {
        panic!("the header is made of spans")
    };
    assert_eq!(spans[2].text, "LIVE");
    assert_eq!(spans[3].text, "  cursor=7  panes=0  layout=grid");
    let list = &panels[2];
    assert_eq!(list.title.as_deref(), Some(" overview (5) "));
    assert_eq!(
        list.lines[0],
        TextLine::Text {
            text: "> node       node-a                 [FRESH] daemon ready".to_string(),
            style: Style {
                foreground: None,
                background: None,
                bold: true,
                reversed: true,
            },
        }
    );
    let TextLine::Text { text, .. } = &list.lines[4] else {
        panic!("records are text")
    };
    assert_eq!(text, "  run        run-failed             [STALE] failed");
    assert_eq!(panels.len(), 5);
}

#[test]
fn a_freshness_of_another_name_is_shown_in_capitals() {
    let mut value = state();
    value.overview.resources[0].freshness.state = FreshnessState::Other("straße".to_string());
    value.overview.resources[0].resource.kind = ResourceKind::Run;
    let panels = panels_of(120, 36, &value);
    let TextLine::Text { text, .. } = &panels[2].lines[0] else {
        panic!("records are text")
    };
    assert!(text.contains("[STRASSE]"));
}

#[test]
fn a_record_is_written_with_the_freshness_it_is_given() {
    let run = record(ResourceKind::Run, "run-a", "running", FreshnessState::Fresh);
    assert_eq!(
        write_record(&run, "ODD", false),
        TextLine::Text {
            text: "  run        run-a                  [ODD] running".to_string(),
            style: Style {
                foreground: None,
                background: None,
                bold: false,
                reversed: false,
            },
        }
    );
}

#[test]
fn tabs_are_short_where_room_is_short_and_keep_the_current_view() {
    let mut value = state();
    value.set_view(View::Receipts);
    let panels = panels_of(58, 22, &value);
    let TextLine::Spans(spans) = &panels[1].lines[0] else {
        panic!("tabs are spans")
    };
    let words: Vec<&str> = spans.iter().map(|span| span.text.as_str()).collect();
    assert_eq!(
        words,
        vec![
            " 1:overview ",
            " 2:runs ",
            " 3:sessions ",
            " 4:approvals ",
            " 7:receipts "
        ]
    );
    assert_eq!(spans[4].style.background, Some(Color::Cyan));
    assert_eq!(panels.len(), 4);
    assert_eq!(panels[2].title.as_deref(), Some(" receipts (0) "));
    let output = text_of(58, 22, &panels);
    assert!(output.contains("No authorized records in this view."));
}

fn with_panes(count: usize) -> CockpitState {
    let mut value = state();
    for index in 0..count {
        let session = SessionRecord {
            session: record(
                ResourceKind::Session,
                &format!("session-{index}"),
                "open",
                FreshnessState::Fresh,
            ),
            run: None,
            attachable: true,
            controllable: false,
        };
        let attachment = Attachment {
            session: session.session.resource.clone(),
            client: "client-a".to_string(),
            cursor: value.resource_cursor.clone(),
        };
        value.attach(session, attachment);
    }
    value.set_view(View::Sessions);
    value
}

#[test]
fn panes_show_their_session_and_their_latest_events() {
    let mut value = with_panes(2);
    value.panes[1].pinned = true;
    value.panes[1].unread = 3;
    value.panes[1].control = Some(ControlLease {
        id: "lease-a".to_string(),
        session: value.panes[1].record.session.resource.clone(),
        client: "client-a".to_string(),
        expires_at: 1,
        revision: 1,
    });
    for revision in 0..100 {
        let mut event = record(ResourceKind::Run, "run-a", "step", FreshnessState::Fresh);
        event.freshness.revision = revision;
        value.panes[1].timeline.push_back(event);
    }
    value.pane_layout = PaneLayout::Focused;
    let panels = panels_of(120, 36, &value);
    let pane = &panels[2];
    assert_eq!(
        pane.title.as_deref(),
        Some(" 1 session-1 [CONTROL] unread=3 PINNED ")
    );
    assert_eq!(pane.lines.len(), 1 + (pane.area.height as usize - 4));
    assert_eq!(
        pane.lines[0],
        TextLine::Text {
            text: "state=open attach=true control=false".to_string(),
            style: pane.style,
        }
    );
    let TextLine::Text { text, .. } = &pane.lines[pane.lines.len() - 1] else {
        panic!("events are text")
    };
    assert_eq!(text, "r99 run: step");
    value.pane_layout = PaneLayout::Columns;
    let panels = panels_of(120, 36, &value);
    assert_eq!(
        panels[2].title.as_deref(),
        Some(" 1 session-0 [OBSERVER] unread=0 ")
    );
    assert_eq!(panels.len(), 5);
    let output = text_of(120, 36, &panels);
    assert!(output.contains("session-0"));
    assert!(output.contains("session-1"));
}

#[test]
fn overlays_lie_over_the_cockpit_in_order() {
    let mut value = state();
    value.show_help = true;
    let area = Rect {
        x: 0,
        y: 0,
        width: 120,
        height: 36,
    };
    let commands = ["Reconcile", "Attach"];
    let panels = render(
        area,
        &value,
        Some(ConfirmationView {
            title: "Cancel run",
            target: "automonique/run/run-a",
            revision: 12,
            consequence: "stops",
        }),
        Some(PaletteView {
            commands: &commands,
            selected: 1,
        }),
        Some(ComposerView {
            operation: "follow_up",
            target: "automonique/session/session-a",
            text: "go on",
        }),
    );
    assert_eq!(panels.len(), 9);
    let titles: Vec<&str> = panels[5..]
        .iter()
        .filter_map(|panel| panel.title.as_deref())
        .collect();
    assert_eq!(
        titles,
        vec![
            " Help ",
            " Server-capability actions ",
            " Confirm typed mutation ",
            " Durable request composer "
        ]
    );
    assert!(panels[5..].iter().all(|panel| panel.clears));
    let TextLine::Text { text, .. } = &panels[6].lines[1] else {
        panic!("commands are text")
    };
    assert_eq!(text, "> Attach");
    let TextLine::Spans(spans) = &panels[7].lines[3] else {
        panic!("a revision is labelled")
    };
    assert_eq!(spans[1].text, "12");
    assert_eq!(panels[5].area, centered(area, 76, 24));
    let output = text_of(120, 36, &panels);
    assert!(output.contains("go on"));
}

#[test]
fn places_in_the_middle_keep_a_margin_and_never_vanish() {
    let area = |width: u16, height: u16| Rect {
        x: 3,
        y: 5,
        width,
        height,
    };
    assert_eq!(
        centered(area(100, 40), 76, 24),
        Rect {
            x: 15,
            y: 13,
            width: 76,
            height: 24
        }
    );
    assert_eq!(
        centered(area(10, 2), 76, 24),
        Rect {
            x: 4,
            y: 5,
            width: 8,
            height: 1
        }
    );
    assert_eq!(
        centered(area(1, 1), 76, 24),
        Rect {
            x: 3,
            y: 5,
            width: 1,
            height: 1
        }
    );
}

#[test]
fn every_pane_gets_one_part_of_the_screen() {
    let area = Rect {
        x: 0,
        y: 6,
        width: 90,
        height: 30,
    };
    assert!(pane_areas(area, 0, 0, PaneLayout::Grid, false).is_empty());
    assert_eq!(
        pane_areas(area, 3, 9, PaneLayout::Tabs, false),
        vec![Some((area, 2))]
    );
    assert_eq!(
        pane_areas(area, 3, 1, PaneLayout::Grid, true),
        vec![Some((area, 1))]
    );
    let rows = pane_areas(area, 3, 0, PaneLayout::Rows, false);
    assert_eq!(
        rows,
        vec![
            Some((Rect { x: 0, y: 6, width: 90, height: 10 }, 0)),
            Some((Rect { x: 0, y: 16, width: 90, height: 10 }, 1)),
            Some((Rect { x: 0, y: 26, width: 90, height: 10 }, 2)),
        ]
    );
    let columns = pane_areas(area, 3, 0, PaneLayout::Columns, false);
    assert_eq!(
        columns,
        vec![
            Some((Rect { x: 0, y: 6, width: 30, height: 30 }, 0)),
            Some((Rect { x: 30, y: 6, width: 30, height: 30 }, 1)),
            Some((Rect { x: 60, y: 6, width: 30, height: 30 }, 2)),
        ]
    );
    for (count, parts) in [(1, 1), (2, 2), (3, 4), (4, 4), (5, 6), (7, 9), (12, 12)] {
        let grid = pane_areas(area, count, 0, PaneLayout::Grid, false);
        assert_eq!(grid.len(), parts);
        for (slot, part) in grid.iter().enumerate() {
            match part {
                Some((cell, index)) => {
                    assert_eq!(*index, slot);
                    assert!(cell.x + cell.width <= 90);
                    assert!(cell.y >= 6 && cell.y + cell.height <= 36);
                }
                None => assert!(slot >= count),
            }
        }
    }
}

#[test]
fn parts_are_given_out_in_order() {
    let cell = |x: u16| Rect {
        x,
        y: 0,
        width: 1,
        height: 1,
    };
    assert_eq!(
        pane_slots(&vec![cell(0), cell(1), cell(2)], 2),
        vec![Some((cell(0), 0)), Some((cell(1), 1)), None]
    );
}
