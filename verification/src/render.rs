//! What the screen shows, as panels of styled text.

use vstd::prelude::*;
use vstd::view::View as _;

use crate::commands::{ComposerView, ConfirmationView, PaletteView};
use crate::layout::{
    arranges, centered, centered_in, centered_lies_within, given_out, keeps_to, lays_out,
    layouts_have_room_for_all, pane_areas, shares, shows_one, split, Extent, PaneArea, Rect,
};
use crate::protocol::ResourceRecord;
use crate::state::{CockpitModel, CockpitState, ConnectionState, PaneModel, SessionPane, View};
use crate::text::{decimal, decimal_text, pad_right, padded, to_uppercase, uppercased};

verus! {

/// A colour.
#[derive(Clone, Copy, Debug, PartialEq, Eq, Structural)]
pub enum Color {
    Black,
    Red,
    Green,
    Yellow,
    Cyan,
    Gray,
    DarkGray,
    White,
}

/// How text is drawn.
#[derive(Clone, Copy, Debug, PartialEq, Eq, Structural)]
pub struct Style {
    pub foreground: Option<Color>,
    pub background: Option<Color>,
    pub bold: bool,
    pub reversed: bool,
}

/// Text that is drawn in no particular way.
pub open spec fn plain() -> Style {
    Style { foreground: None, background: None, bold: false, reversed: false }
}

/// Text in a colour.
pub open spec fn colored(color: Color) -> Style {
    Style { foreground: Some(color), ..plain() }
}

/// Bold text in a colour.
pub open spec fn emphasized(color: Color) -> Style {
    Style { bold: true, ..colored(color) }
}

/// Bold text.
pub open spec fn bold() -> Style {
    Style { bold: true, ..plain() }
}

/// Text that stands out as selected.
pub open spec fn selected() -> Style {
    Style { reversed: true, ..bold() }
}

fn plain_style() -> (style: Style)
    ensures
        style == plain(),
{
    Style { foreground: None, background: None, bold: false, reversed: false }
}

fn colored_style(color: Color) -> (style: Style)
    ensures
        style == colored(color),
{
    Style { foreground: Some(color), background: None, bold: false, reversed: false }
}

fn emphasized_style(color: Color) -> (style: Style)
    ensures
        style == emphasized(color),
{
    Style { foreground: Some(color), background: None, bold: true, reversed: false }
}

fn bold_style() -> (style: Style)
    ensures
        style == bold(),
{
    Style { foreground: None, background: None, bold: true, reversed: false }
}

fn selected_style() -> (style: Style)
    ensures
        style == selected(),
{
    Style { foreground: None, background: None, bold: true, reversed: true }
}

/// A run of text in one style.
#[derive(Clone, Debug, PartialEq, Eq)]
pub struct Span {
    pub text: String,
    pub style: Style,
}

/// A run of text in one style, over characters.
#[verifier::ext_equal]
pub struct SpanModel {
    pub text: Seq<char>,
    pub style: Style,
}

impl vstd::view::View for Span {
    type V = SpanModel;

    open spec fn view(&self) -> SpanModel {
        SpanModel { text: self.text@, style: self.style }
    }
}

/// A line: text in one style, or runs of text.
#[derive(Clone, Debug, PartialEq, Eq)]
pub enum TextLine {
    Text { text: String, style: Style },
    Spans(Vec<Span>),
}

/// A line, over characters.
#[verifier::ext_equal]
pub enum LineModel {
    Text { text: Seq<char>, style: Style },
    Spans(Seq<SpanModel>),
}

/// Runs of text, over characters.
pub open spec fn span_models(spans: Seq<Span>) -> Seq<SpanModel> {
    spans.map_values(|span: Span| span@)
}

impl vstd::view::View for TextLine {
    type V = LineModel;

    open spec fn view(&self) -> LineModel {
        match self {
            TextLine::Text { text, style } => LineModel::Text { text: text@, style: *style },
            TextLine::Spans(spans) => LineModel::Spans(span_models(spans@)),
        }
    }
}

/// Lines, over characters.
pub open spec fn line_models(lines: Seq<TextLine>) -> Seq<LineModel> {
    lines.map_values(|line: TextLine| line@)
}

/// Which edges of a panel are drawn.
#[derive(Clone, Copy, Debug, PartialEq, Eq, Structural)]
pub enum Borders {
    All,
    Top,
    Bottom,
}

/// A framed text on a part of the screen.
#[derive(Clone, Debug, PartialEq, Eq)]
pub struct Panel {
    pub area: Rect,
    pub title: Option<String>,
    pub borders: Borders,
    pub border_style: Style,
    pub style: Style,
    pub lines: Vec<TextLine>,
    /// Whether lines that are too long go on below.
    pub wraps: bool,
    /// Whether what stood on the area before is taken away.
    pub clears: bool,
}

/// A framed text on a part of the screen, over characters.
#[verifier::ext_equal]
pub struct PanelModel {
    pub area: Rect,
    pub title: Option<Seq<char>>,
    pub borders: Borders,
    pub border_style: Style,
    pub style: Style,
    pub lines: Seq<LineModel>,
    pub wraps: bool,
    pub clears: bool,
}

impl vstd::view::View for Panel {
    type V = PanelModel;

    open spec fn view(&self) -> PanelModel {
        PanelModel {
            area: self.area,
            title: crate::commands::viewed(self.title),
            borders: self.borders,
            border_style: self.border_style,
            style: self.style,
            lines: line_models(self.lines@),
            wraps: self.wraps,
            clears: self.clears,
        }
    }
}

/// Panels, over characters.
pub open spec fn panel_models(panels: Seq<Panel>) -> Seq<PanelModel> {
    panels.map_values(|panel: Panel| panel@)
}

/// A framed panel with a title.
pub open spec fn framed(area: Rect, title: Seq<char>, lines: Seq<LineModel>) -> PanelModel {
    PanelModel {
        area,
        title: Some(title),
        borders: Borders::All,
        border_style: plain(),
        style: plain(),
        lines,
        wraps: true,
        clears: false,
    }
}

fn framed_panel(area: Rect, title: String, lines: Vec<TextLine>) -> (panel: Panel)
    ensures
        panel@ == framed(area, title@, line_models(lines@)),
{
    Panel {
        area,
        title: Some(title),
        borders: Borders::All,
        border_style: plain_style(),
        style: plain_style(),
        lines,
        wraps: true,
        clears: false,
    }
}

/// A line of text that is drawn in no particular way.
pub open spec fn text_line(text: Seq<char>) -> LineModel {
    LineModel::Text { text, style: plain() }
}

fn write_plain(text: &str) -> (line: TextLine)
    ensures
        line@ == text_line(text@),
{
    TextLine::Text { text: text.to_owned(), style: plain_style() }
}

fn write_styled(text: &str, style: Style) -> (line: TextLine)
    ensures
        line@ == (LineModel::Text { text: text@, style }),
{
    TextLine::Text { text: text.to_owned(), style }
}

/// A line that names a value.
pub open spec fn labelled_line(label: Seq<char>, value: Seq<char>) -> LineModel {
    LineModel::Spans(
        seq![
            SpanModel { text: label, style: emphasized(Color::Cyan) },
            SpanModel { text: value, style: plain() },
        ],
    )
}

fn write_labelled(label: &str, value: &str) -> (line: TextLine)
    ensures
        line@ == labelled_line(label@, value@),
{
    let mut spans: Vec<Span> = Vec::new();
    spans.push(Span { text: label.to_owned(), style: emphasized_style(Color::Cyan) });
    spans.push(Span { text: value.to_owned(), style: plain_style() });
    proof {
        assert(span_models(spans@) =~= seq![
            SpanModel { text: label@, style: emphasized(Color::Cyan) },
            SpanModel { text: value@, style: plain() },
        ]);
    }
    TextLine::Spans(spans)
}

impl CockpitModel {
    /// How the connection is drawn: anything but a live one stands out.
    pub open spec fn connection_style(self) -> Style {
        match self.connection {
            ConnectionState::Live => colored(Color::Green),
            ConnectionState::Stale | ConnectionState::Reconnecting => emphasized(Color::Yellow),
            ConnectionState::UpgradeRequired => emphasized(Color::Red),
        }
    }

    /// The line at the top: who this is, how the connection stands, and where things are.
    pub open spec fn header_line(self) -> LineModel {
        LineModel::Spans(
            seq![
                SpanModel { text: "AUTOMONIQUE OPERATOR"@, style: emphasized(Color::Cyan) },
                SpanModel { text: "  "@, style: plain() },
                SpanModel { text: self.connection.words(), style: self.connection_style() },
                SpanModel {
                    text: "  cursor="@ + decimal_text(self.resource_cursor.sequence as nat)
                        + "  panes="@ + decimal_text(self.panes.len()) + "  layout="@
                        + self.pane_layout.word(),
                    style: plain(),
                },
            ],
        )
    }

    /// The panel at the top.
    pub open spec fn header_panel(self, area: Rect) -> PanelModel {
        PanelModel {
            area,
            title: None,
            borders: Borders::All,
            border_style: plain(),
            style: plain(),
            lines: seq![self.header_line()],
            wraps: false,
            clears: false,
        }
    }

    /// The tab of a view.
    pub open spec fn tab(self, index: int) -> SpanModel {
        let view = View::all()[index];
        SpanModel {
            text: " "@ + decimal_text((index + 1) as nat) + ":"@ + view.word() + " "@,
            style: if view == self.view {
                Style {
                    background: Some(
                        if self.high_contrast {
                            Color::White
                        } else {
                            Color::Cyan
                        },
                    ),
                    ..emphasized(Color::Black)
                }
            } else {
                colored(Color::Gray)
            },
        }
    }

    /// Whether a view has a tab: where room is short, only the first views and the current one.
    pub open spec fn has_tab(self, index: int, compact: bool) -> bool {
        !compact || index <= 3 || View::all()[index] == self.view
    }

    /// The tabs of the first views.
    pub open spec fn tabs(self, count: nat, compact: bool) -> Seq<SpanModel>
        decreases count,
    {
        if count == 0 {
            Seq::empty()
        } else {
            let before = self.tabs((count - 1) as nat, compact);
            if self.has_tab(count - 1, compact) {
                before.push(self.tab(count - 1))
            } else {
                before
            }
        }
    }

    /// The panel with the tabs.
    pub open spec fn tabs_panel(self, area: Rect, compact: bool) -> PanelModel {
        PanelModel {
            area,
            title: None,
            borders: Borders::Bottom,
            border_style: plain(),
            style: plain(),
            lines: seq![LineModel::Spans(self.tabs(View::all().len(), compact))],
            wraps: false,
            clears: false,
        }
    }

    /// The line of a record in the list.
    pub open spec fn list_line(self, index: int) -> LineModel {
        let record = self.shown()[index];
        record_line(record, uppercased(record.freshness.state@), index == self.selected_index)
    }

    /// The panel with the list of records.
    pub open spec fn list_panel(self, area: Rect) -> PanelModel {
        let count = self.shown().len();
        framed(
            area,
            " "@ + self.view.word() + " ("@ + decimal_text(count) + ") "@,
            if count == 0 {
                seq![
                    LineModel::Text {
                        text: "No authorized records in this view."@,
                        style: colored(Color::DarkGray),
                    },
                ]
            } else {
                Seq::new(count, |index: int| self.list_line(index))
            },
        )
    }

    /// The panel with the details of the selected record.
    pub open spec fn detail_panel(self, area: Rect) -> PanelModel {
        framed(
            area,
            " Detail "@,
            match self.selected() {
                Some(record) => detail_lines(record),
                None => seq![
                    text_line("Select a record to inspect its authoritative projection."@),
                ],
            },
        )
    }

    /// The panel at the bottom.
    pub open spec fn footer_panel(self, area: Rect, compact: bool) -> PanelModel {
        PanelModel {
            area,
            title: None,
            borders: Borders::Top,
            border_style: plain(),
            style: colored(Color::Gray),
            lines: seq![
                text_line(
                    if compact {
                        "? help · p commands · q quit"@
                    } else {
                        "↑↓ select · i compose · a attach · d detach · c control · x release · p commands · [ ] focus · P pin · l layout · ? help · q quit"@
                    },
                ),
                text_line(self.status),
            ],
            wraps: false,
            clears: false,
        }
    }
}

/// The details of a record.
pub open spec fn detail_lines(record: ResourceRecord) -> Seq<LineModel> {
    seq![
        labelled_line("Authority: "@, record.resource.authority@.name()),
        labelled_line("Kind:      "@, record.resource.kind@.name()),
        labelled_line("ID:        "@, record.resource.id@),
        labelled_line("Freshness: "@, record.freshness.state@),
        labelled_line("Revision:  "@, decimal_text(record.freshness.revision as nat)),
        text_line(""@),
        text_line(record.summary@),
    ]
}

fn header_panel(state: &CockpitState, area: Rect) -> (panel: Panel)
    ensures
        panel@ == state@.header_panel(area),
{
    let style = match state.connection {
        ConnectionState::Live => colored_style(Color::Green),
        ConnectionState::Stale | ConnectionState::Reconnecting => emphasized_style(Color::Yellow),
        ConnectionState::UpgradeRequired => emphasized_style(Color::Red),
    };
    let mut place = "  cursor=".to_owned();
    place.append(decimal(state.resource_cursor.sequence as u128).as_str());
    place.append("  panes=");
    place.append(decimal(state.panes.len() as u128).as_str());
    place.append("  layout=");
    place.append(state.pane_layout.label());
    let mut spans: Vec<Span> = Vec::new();
    spans.push(
        Span {
            text: "AUTOMONIQUE OPERATOR".to_owned(),
            style: emphasized_style(Color::Cyan),
        },
    );
    spans.push(Span { text: "  ".to_owned(), style: plain_style() });
    spans.push(Span { text: state.connection.label().to_owned(), style });
    spans.push(Span { text: place, style: plain_style() });
    proof {
        assert(LineModel::Spans(span_models(spans@)) =~= state@.header_line());
    }
    let mut lines: Vec<TextLine> = Vec::new();
    lines.push(TextLine::Spans(spans));
    proof {
        assert(line_models(lines@) =~= seq![state@.header_line()]);
    }
    Panel {
        area,
        title: None,
        borders: Borders::All,
        border_style: plain_style(),
        style: plain_style(),
        lines,
        wraps: false,
        clears: false,
    }
}

fn view_tab(state: &CockpitState, index: usize, view: View) -> (tab: Span)
    requires
        index < View::all().len(),
        view == View::all()[index as int],
    ensures
        tab@ == state@.tab(index as int),
{
    let mut text = " ".to_owned();
    text.append(decimal((index + 1) as u128).as_str());
    text.append(":");
    text.append(view.label());
    text.append(" ");
    let style = if view == state.view {
        Style {
            foreground: Some(Color::Black),
            background: Some(
                if state.high_contrast {
                    Color::White
                } else {
                    Color::Cyan
                },
            ),
            bold: true,
            reversed: false,
        }
    } else {
        colored_style(Color::Gray)
    };
    Span { text, style }
}

fn tabs_panel(state: &CockpitState, area: Rect, compact: bool) -> (panel: Panel)
    ensures
        panel@ == state@.tabs_panel(area, compact),
{
    let mut spans: Vec<Span> = Vec::new();
    let mut index: usize = 0;
    proof {
        assert(span_models(spans@) =~= state@.tabs(0, compact));
    }
    while index < 7
        invariant
            index <= 7,
            span_models(spans@) == state@.tabs(index as nat, compact),
        decreases 7 - index,
    {
        if let Some(view) = View::at(index) {
            if !compact || index <= 3 || view == state.view {
                let ghost before = spans@;
                spans.push(view_tab(state, index, view));
                proof {
                    assert(span_models(spans@) =~= span_models(before).push(
                        state@.tab(index as int),
                    ));
                }
            }
        }
        index += 1;
    }
    let mut lines: Vec<TextLine> = Vec::new();
    lines.push(TextLine::Spans(spans));
    proof {
        assert(line_models(lines@) =~= seq![
            LineModel::Spans(state@.tabs(View::all().len(), compact)),
        ]);
    }
    Panel {
        area,
        title: None,
        borders: Borders::Bottom,
        border_style: plain_style(),
        style: plain_style(),
        lines,
        wraps: false,
        clears: false,
    }
}

/// The line of a record in the list, given its freshness in capitals.
pub open spec fn record_line(
    record: ResourceRecord,
    freshness: Seq<char>,
    chosen: bool,
) -> LineModel {
    LineModel::Text {
        text: (if chosen {
            ">"@
        } else {
            " "@
        }) + " "@ + padded(record.resource.kind@.name(), 10) + " "@ + padded(
            record.resource.id@,
            22,
        ) + " ["@ + freshness + "] "@ + record.summary@,
        style: if chosen {
            selected()
        } else {
            plain()
        },
    }
}

/// The line of a record in the list, given its freshness in capitals.
pub fn write_record(record: &ResourceRecord, freshness: &str, chosen: bool) -> (line: TextLine)
    ensures
        line@ == record_line(*record, freshness@, chosen),
{
    let mut text = if chosen {
        ">".to_owned()
    } else {
        " ".to_owned()
    };
    text.append(" ");
    text.append(pad_right(record.resource.kind.as_str(), 10).as_str());
    text.append(" ");
    text.append(pad_right(record.resource.id.as_str(), 22).as_str());
    text.append(" [");
    text.append(freshness);
    text.append("] ");
    text.append(record.summary.as_str());
    TextLine::Text {
        text,
        style: if chosen {
            selected_style()
        } else {
            plain_style()
        },
    }
}

fn list_panel(state: &CockpitState, area: Rect) -> (panel: Panel)
    ensures
        panel@ == state@.list_panel(area),
{
    let records = state.visible_resources();
    let ghost shown = state@.shown();
    let mut lines: Vec<TextLine> = Vec::new();
    let mut index: usize = 0;
    while index < records.len()
        invariant
            index <= records@.len(),
            shown == state@.shown(),
            records@.unref() == shown,
            line_models(lines@) == Seq::new(index as nat, |i: int| state@.list_line(i)),
        decreases records@.len() - index,
    {
        let ghost before = lines@;
        proof {
            assert(records@.unref()[index as int] == *records@[index as int]);
        }
        let freshness = to_uppercase(records[index].freshness.state.as_str());
        lines.push(
            write_record(records[index], freshness.as_str(), index == state.selected_index),
        );
        proof {
            assert(line_models(lines@) =~= line_models(before).push(
                state@.list_line(index as int),
            ));
            assert(line_models(lines@) =~= Seq::new(
                (index + 1) as nat,
                |i: int| state@.list_line(i),
            ));
        }
        index += 1;
    }
    if records.len() == 0 {
        lines.push(
            write_styled("No authorized records in this view.", colored_style(Color::DarkGray)),
        );
        proof {
            assert(line_models(lines@) =~= seq![
                LineModel::Text {
                    text: "No authorized records in this view."@,
                    style: colored(Color::DarkGray),
                },
            ]);
        }
    }
    let mut title = " ".to_owned();
    title.append(state.view.label());
    title.append(" (");
    title.append(decimal(records.len() as u128).as_str());
    title.append(") ");
    framed_panel(area, title, lines)
}

fn detail_panel(state: &CockpitState, area: Rect) -> (panel: Panel)
    ensures
        panel@ == state@.detail_panel(area),
{
    let mut lines: Vec<TextLine> = Vec::new();
    match state.selected_resource() {
        Some(record) => {
            lines.push(write_labelled("Authority: ", record.resource.authority.as_str()));
            lines.push(write_labelled("Kind:      ", record.resource.kind.as_str()));
            lines.push(write_labelled("ID:        ", record.resource.id.as_str()));
            lines.push(write_labelled("Freshness: ", record.freshness.state.as_str()));
            lines.push(
                write_labelled(
                    "Revision:  ",
                    decimal(record.freshness.revision as u128).as_str(),
                ),
            );
            lines.push(write_plain(""));
            lines.push(write_plain(record.summary.as_str()));
            proof {
                assert(line_models(lines@) =~= detail_lines(*record));
            }
        },
        None => {
            lines.push(write_plain("Select a record to inspect its authoritative projection."));
            proof {
                assert(line_models(lines@) =~= seq![
                    text_line("Select a record to inspect its authoritative projection."@),
                ]);
            }
        },
    }
    framed_panel(area, " Detail ".to_owned(), lines)
}

fn footer_panel(state: &CockpitState, area: Rect, compact: bool) -> (panel: Panel)
    ensures
        panel@ == state@.footer_panel(area, compact),
{
    let mut lines: Vec<TextLine> = Vec::new();
    lines.push(
        write_plain(
            if compact {
                "? help · p commands · q quit"
            } else {
                "↑↓ select · i compose · a attach · d detach · c control · x release · p commands · [ ] focus · P pin · l layout · ? help · q quit"
            },
        ),
    );
    lines.push(write_plain(state.status.as_str()));
    proof {
        assert(line_models(lines@) =~= state@.footer_panel(area, compact).lines);
    }
    Panel {
        area,
        title: None,
        borders: Borders::Top,
        border_style: plain_style(),
        style: colored_style(Color::Gray),
        lines,
        wraps: false,
        clears: false,
    }
}

/// A truth value as it is shown.
pub open spec fn truth(value: bool) -> Seq<char> {
    if value {
        "true"@
    } else {
        "false"@
    }
}

fn truth_word(value: bool) -> (word: &'static str)
    ensures
        word@ == truth(value),
{
    if value {
        "true"
    } else {
        "false"
    }
}

/// The line of an event in a pane.
pub open spec fn event_line(event: ResourceRecord) -> LineModel {
    text_line(
        "r"@ + decimal_text(event.freshness.revision as nat) + " "@ + event.resource.kind@.name()
            + ": "@ + event.summary@,
    )
}

fn write_event(event: &ResourceRecord) -> (line: TextLine)
    ensures
        line@ == event_line(*event),
{
    let mut text = "r".to_owned();
    text.append(decimal(event.freshness.revision as u128).as_str());
    text.append(" ");
    text.append(event.resource.kind.as_str());
    text.append(": ");
    text.append(event.summary.as_str());
    TextLine::Text { text, style: plain_style() }
}

/// How many events a pane of the given height has room for.
pub open spec fn event_room(height: u16) -> nat {
    if height > 4 {
        (height - 4) as nat
    } else {
        0
    }
}

/// The latest entries of a history, oldest first.
pub open spec fn latest<T>(history: Seq<T>, room: nat) -> Seq<T> {
    if history.len() <= room {
        history
    } else {
        history.skip(history.len() - room)
    }
}

impl PaneModel {
    /// The line that describes the session of a pane.
    pub open spec fn session_line(self) -> LineModel {
        text_line(
            "state="@ + self.record.session.summary@ + " attach="@ + truth(self.record.attachable)
                + " control="@ + truth(self.record.controllable),
        )
    }

    /// The title of a pane in a slot.
    pub open spec fn title(self, slot: nat) -> Seq<char> {
        " "@ + decimal_text(slot + 1) + " "@ + self.record.session.resource.id@ + " ["@ + (
        if self.control is Some {
            "CONTROL"@
        } else {
            "OBSERVER"@
        }) + "] unread="@ + decimal_text(self.unread as nat) + (if self.pinned {
            " PINNED"@
        } else {
            ""@
        }) + " "@
    }

    /// The panel of a pane: its session, and the latest events that it has room for.
    pub open spec fn panel(self, area: Rect, focused: bool, slot: nat) -> PanelModel {
        PanelModel {
            border_style: if focused {
                emphasized(Color::Cyan)
            } else {
                colored(Color::DarkGray)
            },
            ..framed(
                area,
                self.title(slot),
                seq![self.session_line()] + latest(self.timeline, event_room(area.height)).map_values(
                    |event: ResourceRecord| event_line(event),
                ),
            )
        }
    }
}

fn pane_title(pane: &SessionPane, slot: usize) -> (title: String)
    requires
        slot < usize::MAX,
    ensures
        title@ == pane@.title(slot as nat),
{
    let mut title = " ".to_owned();
    title.append(decimal((slot + 1) as u128).as_str());
    title.append(" ");
    title.append(pane.record.session.resource.id.as_str());
    title.append(" [");
    title.append(
        if pane.control.is_some() {
            "CONTROL"
        } else {
            "OBSERVER"
        },
    );
    title.append("] unread=");
    title.append(decimal(pane.unread as u128).as_str());
    title.append(
        if pane.pinned {
            " PINNED"
        } else {
            ""
        },
    );
    title.append(" ");
    title
}

fn pane_panel(pane: &SessionPane, area: Rect, focused: bool, slot: usize) -> (panel: Panel)
    requires
        slot < usize::MAX,
    ensures
        panel@ == pane@.panel(area, focused, slot as nat),
{
    let ghost events = latest(pane@.timeline, event_room(area.height));
    let ghost first = pane@.session_line();
    let mut text = "state=".to_owned();
    text.append(pane.record.session.summary.as_str());
    text.append(" attach=");
    text.append(truth_word(pane.record.attachable));
    text.append(" control=");
    text.append(truth_word(pane.record.controllable));
    let mut lines: Vec<TextLine> = Vec::new();
    lines.push(write_plain(text.as_str()));
    let room: usize = if area.height > 4 {
        (area.height - 4) as usize
    } else {
        0
    };
    let start: usize = if pane.timeline.len() <= room {
        0
    } else {
        pane.timeline.len() - room
    };
    let ghost rest = pane@.timeline.skip(start as int);
    let mut at: usize = start;
    proof {
        assert(rest =~= events);
        assert(line_models(lines@) =~= seq![first] + rest.take(0).map_values(
            |event: ResourceRecord| event_line(event),
        ));
    }
    while at < pane.timeline.len()
        invariant
            start <= at <= pane.timeline@.len(),
            rest == pane.timeline@.skip(start as int),
            line_models(lines@) == seq![first] + rest.take(at - start).map_values(
                |event: ResourceRecord| event_line(event),
            ),
        decreases pane.timeline@.len() - at,
    {
        let ghost before = lines@;
        lines.push(write_event(&pane.timeline[at]));
        proof {
            assert(rest[at - start] == pane.timeline@[at as int]);
            assert(line_models(lines@) =~= line_models(before).push(
                event_line(rest[at - start]),
            ));
            assert(line_models(lines@) =~= seq![first] + rest.take(at + 1 - start).map_values(
                |event: ResourceRecord| event_line(event),
            ));
        }
        at += 1;
    }
    proof {
        assert(rest.take(at - start) =~= rest);
    }
    let mut panel = framed_panel(area, pane_title(pane, slot), lines);
    panel.border_style = if focused {
        emphasized_style(Color::Cyan)
    } else {
        colored_style(Color::DarkGray)
    };
    panel
}

impl CockpitModel {
    /// The panels of the panes in the first slots.
    pub open spec fn pane_panels(self, slots: Seq<PaneArea>, count: nat) -> Seq<PanelModel>
        decreases count,
    {
        if count == 0 {
            Seq::empty()
        } else {
            let slot = (count - 1) as nat;
            let before = self.pane_panels(slots, slot);
            match slots[slot as int] {
                Some((area, index)) => if index < self.panes.len() {
                    before.push(
                        self.panes[index as int].panel(area, index == self.focused_pane, slot),
                    )
                } else {
                    before
                },
                None => before,
            }
        }
    }
}

fn push_pane_panels(state: &CockpitState, slots: &Vec<PaneArea>, panels: &mut Vec<Panel>)
    ensures
        panel_models(final(panels)@) == panel_models(old(panels)@) + state@.pane_panels(
            slots@,
            slots@.len(),
        ),
{
    let ghost before = panel_models(panels@);
    let mut slot: usize = 0;
    proof {
        assert(panel_models(panels@) =~= before + state@.pane_panels(slots@, 0));
    }
    while slot < slots.len()
        invariant
            slot <= slots@.len(),
            panel_models(panels@) == before + state@.pane_panels(slots@, slot as nat),
        decreases slots@.len() - slot,
    {
        if let Some((area, index)) = slots[slot] {
            if index < state.panes.len() {
                let ghost earlier = panels@;
                panels.push(
                    pane_panel(&state.panes[index], area, index == state.focused_pane, slot),
                );
                proof {
                    assert(state@.panes[index as int] == state.panes@[index as int]@);
                    assert(panel_models(panels@) =~= panel_models(earlier).push(
                        state@.panes[index as int].panel(
                            area,
                            index == state@.focused_pane,
                            slot as nat,
                        ),
                    ));
                    assert(panel_models(panels@) =~= before + state@.pane_panels(
                        slots@,
                        (slot + 1) as nat,
                    ));
                }
            }
        }
        slot += 1;
    }
}

/// What the help says.
pub open spec fn help_lines() -> Seq<LineModel> {
    seq![
        LineModel::Text { text: "Keyboard-only operator help"@, style: bold() },
        text_line(""@),
        text_line("1–7 switch authoritative views; arrows select by durable identity"@),
        text_line("a attach as observer; d detach without affecting the runner"@),
        text_line("c claim an exclusive short control lease; x release it"@),
        text_line("i composes an explicit new request or session follow-up"@),
        text_line("[ / ] focus panes; Shift+Left/Right reorder; P pins; l changes layout"@),
        text_line("p opens capability-driven actions; Enter previews; y executes; n cancels"@),
        text_line("r forces snapshot reconciliation; h toggles high contrast"@),
        text_line(""@),
        text_line("A stale or disconnected client is read-only. Focus never authorizes mutation."@),
        text_line("Closing this client detaches observers and releases its control leases."@),
        text_line(""@),
        text_line("Press ? or Esc to close help."@),
    ]
}

/// The panel with the help.
pub open spec fn help_overlay(area: Rect) -> PanelModel {
    PanelModel { clears: true, ..framed(area, " Help "@, help_lines()) }
}

fn help_panel(area: Rect) -> (panel: Panel)
    ensures
        panel@ == help_overlay(area),
{
    let mut lines: Vec<TextLine> = Vec::new();
    lines.push(write_styled("Keyboard-only operator help", bold_style()));
    lines.push(write_plain(""));
    lines.push(write_plain("1–7 switch authoritative views; arrows select by durable identity"));
    lines.push(write_plain("a attach as observer; d detach without affecting the runner"));
    lines.push(write_plain("c claim an exclusive short control lease; x release it"));
    lines.push(write_plain("i composes an explicit new request or session follow-up"));
    lines.push(
        write_plain("[ / ] focus panes; Shift+Left/Right reorder; P pins; l changes layout"),
    );
    lines.push(
        write_plain("p opens capability-driven actions; Enter previews; y executes; n cancels"),
    );
    lines.push(write_plain("r forces snapshot reconciliation; h toggles high contrast"));
    lines.push(write_plain(""));
    lines.push(
        write_plain("A stale or disconnected client is read-only. Focus never authorizes mutation."),
    );
    lines.push(
        write_plain("Closing this client detaches observers and releases its control leases."),
    );
    lines.push(write_plain(""));
    lines.push(write_plain("Press ? or Esc to close help."));
    proof {
        assert(line_models(lines@) =~= help_lines());
    }
    let mut panel = framed_panel(area, " Help ".to_owned(), lines);
    panel.clears = true;
    panel
}

/// The panel with an open composer.
pub open spec fn composer_overlay(composer: ComposerView<'_>, area: Rect) -> PanelModel {
    PanelModel {
        border_style: colored(Color::Cyan),
        clears: true,
        ..framed(
            area,
            " Durable request composer "@,
            seq![
                labelled_line("Operation: "@, composer.operation@),
                labelled_line("Exact target: "@, composer.target@),
                text_line(""@),
                text_line(composer.text@),
                text_line(""@),
                LineModel::Text {
                    text: "Enter preview · Esc cancel · Backspace edit"@,
                    style: colored(Color::Yellow),
                },
            ],
        )
    }
}

fn composer_panel(composer: &ComposerView<'_>, area: Rect) -> (panel: Panel)
    ensures
        panel@ == composer_overlay(*composer, area),
{
    let mut lines: Vec<TextLine> = Vec::new();
    lines.push(write_labelled("Operation: ", composer.operation));
    lines.push(write_labelled("Exact target: ", composer.target));
    lines.push(write_plain(""));
    lines.push(write_plain(composer.text));
    lines.push(write_plain(""));
    lines.push(
        write_styled(
            "Enter preview · Esc cancel · Backspace edit",
            colored_style(Color::Yellow),
        ),
    );
    proof {
        assert(line_models(lines@) =~= composer_overlay(*composer, area).lines);
    }
    let mut panel = framed_panel(area, " Durable request composer ".to_owned(), lines);
    panel.border_style = colored_style(Color::Cyan);
    panel.clears = true;
    panel
}

/// The line of a command in the palette.
pub open spec fn command_line(command: Seq<char>, chosen: bool) -> LineModel {
    LineModel::Text {
        text: (if chosen {
            ">"@
        } else {
            " "@
        }) + " "@ + command,
        style: if chosen {
            selected()
        } else {
            plain()
        },
    }
}

fn write_command(command: &str, chosen: bool) -> (line: TextLine)
    ensures
        line@ == command_line(command@, chosen),
{
    let mut text = if chosen {
        ">".to_owned()
    } else {
        " ".to_owned()
    };
    text.append(" ");
    text.append(command);
    TextLine::Text {
        text,
        style: if chosen {
            selected_style()
        } else {
            plain_style()
        },
    }
}

/// The panel with an open palette.
pub open spec fn palette_overlay(palette: PaletteView<'_>, area: Rect) -> PanelModel {
    PanelModel {
        wraps: false,
        clears: true,
        ..framed(
            area,
            " Server-capability actions "@,
            Seq::new(
                palette.commands@.len(),
                |index: int| command_line(palette.commands@[index]@, index == palette.selected),
            ),
        )
    }
}

fn palette_panel(palette: &PaletteView<'_>, area: Rect) -> (panel: Panel)
    ensures
        panel@ == palette_overlay(*palette, area),
{
    let ghost commands = palette.commands@;
    let mut lines: Vec<TextLine> = Vec::new();
    let mut index: usize = 0;
    while index < palette.commands.len()
        invariant
            index <= commands.len(),
            commands == palette.commands@,
            line_models(lines@) == Seq::new(
                index as nat,
                |i: int| command_line(commands[i]@, i == palette.selected),
            ),
        decreases commands.len() - index,
    {
        let ghost before = lines@;
        lines.push(write_command(palette.commands[index], index == palette.selected));
        proof {
            assert(line_models(lines@) =~= line_models(before).push(
                command_line(commands[index as int]@, index == palette.selected),
            ));
            assert(line_models(lines@) =~= Seq::new(
                (index + 1) as nat,
                |i: int| command_line(commands[i]@, i == palette.selected),
            ));
        }
        index += 1;
    }
    proof {
        assert(line_models(lines@) =~= palette_overlay(*palette, area).lines);
    }
    let mut panel = framed_panel(area, " Server-capability actions ".to_owned(), lines);
    panel.wraps = false;
    panel.clears = true;
    panel
}

/// The panel with an open confirmation.
pub open spec fn confirmation_overlay(confirmation: ConfirmationView<'_>, area: Rect) -> PanelModel {
    PanelModel {
        border_style: colored(Color::Yellow),
        clears: true,
        ..framed(
            area,
            " Confirm typed mutation "@,
            seq![
                LineModel::Text { text: confirmation.title@, style: bold() },
                text_line(""@),
                labelled_line("Exact target: "@, confirmation.target@),
                labelled_line("Revision:     "@, decimal_text(confirmation.revision as nat)),
                labelled_line("Consequence:  "@, confirmation.consequence@),
                text_line(""@),
                LineModel::Text {
                    text: "y execute once · n/Esc cancel"@,
                    style: colored(Color::Yellow),
                },
            ],
        )
    }
}

fn confirmation_panel(confirmation: &ConfirmationView<'_>, area: Rect) -> (panel: Panel)
    ensures
        panel@ == confirmation_overlay(*confirmation, area),
{
    let mut lines: Vec<TextLine> = Vec::new();
    lines.push(write_styled(confirmation.title, bold_style()));
    lines.push(write_plain(""));
    lines.push(write_labelled("Exact target: ", confirmation.target));
    lines.push(
        write_labelled("Revision:     ", decimal(confirmation.revision as u128).as_str()),
    );
    lines.push(write_labelled("Consequence:  ", confirmation.consequence));
    lines.push(write_plain(""));
    lines.push(write_styled("y execute once · n/Esc cancel", colored_style(Color::Yellow)));
    proof {
        assert(line_models(lines@) =~= confirmation_overlay(*confirmation, area).lines);
    }
    let mut panel = framed_panel(area, " Confirm typed mutation ".to_owned(), lines);
    panel.border_style = colored_style(Color::Yellow);
    panel.clears = true;
    panel
}

/// How the middle of the screen is used.
#[derive(Clone, Debug, PartialEq, Eq)]
pub enum BodyPlan {
    Panes(Vec<PaneArea>),
    List(Rect),
    ListAndDetail(Rect, Rect),
}

/// How the screen is used.
#[derive(Clone, Debug, PartialEq, Eq)]
pub struct FramePlan {
    pub area: Rect,
    pub compact: bool,
    pub header: Rect,
    pub tabs: Rect,
    pub body: BodyPlan,
    pub footer: Rect,
}

/// Whether room is short.
pub open spec fn is_compact(area: Rect) -> bool {
    area.width < 80 || area.height < 24
}

/// The heights of the header, the tabs, the middle and the footer.
pub open spec fn frame_extents(compact: bool) -> Seq<Extent> {
    let bar: u16 = if compact {
        2
    } else {
        3
    };
    seq![Extent::Length(3), Extent::Length(bar), Extent::Min(6), Extent::Length(bar)]
}

/// The widths of the list and of the details beside it.
pub open spec fn body_extents() -> Seq<Extent> {
    seq![Extent::Percentage(44), Extent::Percentage(56)]
}

/// Whether a plan uses an area for a state: the header, the tabs, the middle and the footer share
/// its height, and the middle holds the panes, the list alone where room is short, or the list
/// beside the details.
pub open spec fn plan_fits(plan: FramePlan, area: Rect, state: CockpitModel) -> bool {
    &&& plan.area == area
    &&& plan.compact == is_compact(area)
    &&& exists|rows: Seq<Rect>|
        {
            &&& #[trigger] shares(area, true, frame_extents(plan.compact), rows)
            &&& plan.header == rows[0]
            &&& plan.tabs == rows[1]
            &&& body_fits(plan.body, rows[2], plan.compact, state)
            &&& plan.footer == rows[3]
        }
}

/// Whether a plan uses the middle of the screen for a state.
pub open spec fn body_fits(plan: BodyPlan, body: Rect, compact: bool, state: CockpitModel) -> bool {
    if state.panes.len() > 0 && state.view == View::Sessions {
        plan matches BodyPlan::Panes(slots) && arranges(
            slots@,
            body,
            state.panes.len(),
            state.focused_pane,
            state.pane_layout,
            compact,
        )
    } else if compact {
        plan == BodyPlan::List(body)
    } else {
        plan matches BodyPlan::ListAndDetail(list, detail) && shares(
            body,
            false,
            body_extents(),
            seq![list, detail],
        )
    }
}

fn body_plan(middle: Rect, state: &CockpitState, compact: bool) -> (body: BodyPlan)
    requires
        middle.x + middle.width <= u16::MAX,
        middle.y + middle.height <= u16::MAX,
        state.panes@.len() <= u32::MAX,
    ensures
        body_fits(body, middle, compact, state@),
{
    if state.panes.len() > 0 && matches!(state.view, View::Sessions) {
        return BodyPlan::Panes(
            pane_areas(
                middle,
                state.panes.len(),
                state.focused_pane,
                state.pane_layout,
                compact,
            ),
        );
    }
    if compact {
        return BodyPlan::List(middle);
    }
    let mut extents: Vec<Extent> = Vec::new();
    extents.push(Extent::Percentage(44));
    extents.push(Extent::Percentage(56));
    let columns = split(middle, false, &extents);
    proof {
        assert(extents@ =~= body_extents());
        assert(columns@ =~= seq![columns@[0], columns@[1]]);
    }
    BodyPlan::ListAndDetail(columns[0], columns[1])
}

/// Plans how an area is used for a state. A screen without room waits for a resize.
pub fn plan_frame(area: Rect, state: &CockpitState) -> (plan: Option<FramePlan>)
    requires
        area.x + area.width <= u16::MAX,
        area.y + area.height <= u16::MAX,
        state.panes@.len() <= u32::MAX,
    ensures
        match plan {
            Some(plan) => area.width > 0 && area.height > 0 && plan_fits(plan, area, state@),
            None => area.width == 0 || area.height == 0,
        },
{
    if area.width == 0 || area.height == 0 {
        return None;
    }
    let compact = area.width < 80 || area.height < 24;
    let bar: u16 = if compact {
        2
    } else {
        3
    };
    let mut extents: Vec<Extent> = Vec::new();
    extents.push(Extent::Length(3));
    extents.push(Extent::Length(bar));
    extents.push(Extent::Min(6));
    extents.push(Extent::Length(bar));
    let rows = split(area, true, &extents);
    proof {
        assert(extents@ =~= frame_extents(compact));
        assert(keeps_to(rows@[2], area, true));
    }
    let body = body_plan(rows[2], state, compact);
    let plan = FramePlan { area, compact, header: rows[0], tabs: rows[1], body, footer: rows[3] };
    proof {
        assert(shares(area, true, frame_extents(plan.compact), rows@));
    }
    Some(plan)
}

/// The panels in the middle of the screen.
pub open spec fn body_panels(state: CockpitModel, plan: BodyPlan) -> Seq<PanelModel> {
    match plan {
        BodyPlan::Panes(slots) => state.pane_panels(slots@, slots@.len()),
        BodyPlan::List(area) => seq![state.list_panel(area)],
        BodyPlan::ListAndDetail(list, detail) => seq![
            state.list_panel(list),
            state.detail_panel(detail),
        ],
    }
}

/// One panel, where there is one.
pub open spec fn at_most_one(panel: Option<PanelModel>) -> Seq<PanelModel> {
    match panel {
        Some(panel) => seq![panel],
        None => Seq::empty(),
    }
}

/// The panels that lie over the cockpit, the uppermost last.
pub open spec fn overlays(
    state: CockpitModel,
    area: Rect,
    confirmation: Option<ConfirmationView<'_>>,
    palette: Option<PaletteView<'_>>,
    composer: Option<ComposerView<'_>>,
) -> Seq<PanelModel> {
    at_most_one(
        if state.show_help {
            Some(help_overlay(centered_in(area, 76, 24)))
        } else {
            None
        },
    ) + at_most_one(
        match palette {
            Some(palette) => Some(palette_overlay(palette, centered_in(area, 68, 18))),
            None => None,
        },
    ) + at_most_one(
        match confirmation {
            Some(confirmation) => Some(
                confirmation_overlay(confirmation, centered_in(area, 72, 13)),
            ),
            None => None,
        },
    ) + at_most_one(
        match composer {
            Some(composer) => Some(composer_overlay(composer, centered_in(area, 76, 14))),
            None => None,
        },
    )
}

/// Everything on the screen, in the order in which it is drawn.
pub open spec fn composed_frame(
    state: CockpitModel,
    plan: FramePlan,
    confirmation: Option<ConfirmationView<'_>>,
    palette: Option<PaletteView<'_>>,
    composer: Option<ComposerView<'_>>,
) -> Seq<PanelModel> {
    seq![state.header_panel(plan.header), state.tabs_panel(plan.tabs, plan.compact)]
        + body_panels(state, plan.body) + seq![state.footer_panel(plan.footer, plan.compact)]
        + overlays(state, plan.area, confirmation, palette, composer)
}

fn push_panel(panels: &mut Vec<Panel>, panel: Panel)
    ensures
        panel_models(final(panels)@) == panel_models(old(panels)@).push(panel@),
{
    let ghost before = panels@;
    panels.push(panel);
    proof {
        assert(panel_models(panels@) =~= panel_models(before).push(panel@));
    }
}

fn push_body_panels(panels: &mut Vec<Panel>, state: &CockpitState, plan: &BodyPlan)
    ensures
        panel_models(final(panels)@) == panel_models(old(panels)@) + body_panels(state@, *plan),
{
    let ghost before = panel_models(panels@);
    match plan {
        BodyPlan::Panes(slots) => {
            push_pane_panels(state, slots, panels);
        },
        BodyPlan::List(area) => {
            push_panel(panels, list_panel(state, *area));
        },
        BodyPlan::ListAndDetail(list, detail) => {
            push_panel(panels, list_panel(state, *list));
            push_panel(panels, detail_panel(state, *detail));
        },
    }
    proof {
        assert(panel_models(panels@) =~= before + body_panels(state@, *plan));
    }
}

fn push_overlays(
    panels: &mut Vec<Panel>,
    state: &CockpitState,
    area: Rect,
    confirmation: &Option<ConfirmationView<'_>>,
    palette: &Option<PaletteView<'_>>,
    composer: &Option<ComposerView<'_>>,
)
    requires
        area.x + area.width <= u16::MAX,
        area.y + area.height <= u16::MAX,
    ensures
        panel_models(final(panels)@) == panel_models(old(panels)@) + overlays(
            state@,
            area,
            *confirmation,
            *palette,
            *composer,
        ),
{
    let ghost before = panel_models(panels@);
    if state.show_help {
        push_panel(panels, help_panel(centered(area, 76, 24)));
    }
    if let Some(palette) = palette {
        push_panel(panels, palette_panel(palette, centered(area, 68, 18)));
    }
    if let Some(confirmation) = confirmation {
        push_panel(panels, confirmation_panel(confirmation, centered(area, 72, 13)));
    }
    if let Some(composer) = composer {
        push_panel(panels, composer_panel(composer, centered(area, 76, 14)));
    }
    proof {
        assert(panel_models(panels@) =~= before + overlays(
            state@,
            area,
            *confirmation,
            *palette,
            *composer,
        ));
    }
}

/// Everything on the screen, given how it is used.
pub fn compose_frame(
    state: &CockpitState,
    plan: &FramePlan,
    confirmation: &Option<ConfirmationView<'_>>,
    palette: &Option<PaletteView<'_>>,
    composer: &Option<ComposerView<'_>>,
) -> (panels: Vec<Panel>)
    requires
        plan.area.x + plan.area.width <= u16::MAX,
        plan.area.y + plan.area.height <= u16::MAX,
    ensures
        panel_models(panels@) == composed_frame(
            state@,
            *plan,
            *confirmation,
            *palette,
            *composer,
        ),
{
    let mut panels: Vec<Panel> = Vec::new();
    push_panel(&mut panels, header_panel(state, plan.header));
    push_panel(&mut panels, tabs_panel(state, plan.tabs, plan.compact));
    proof {
        assert(panel_models(panels@) =~= seq![
            state@.header_panel(plan.header),
            state@.tabs_panel(plan.tabs, plan.compact),
        ]);
    }
    push_body_panels(&mut panels, state, &plan.body);
    let ghost before = panel_models(panels@);
    push_panel(&mut panels, footer_panel(state, plan.footer, plan.compact));
    proof {
        assert(panel_models(panels@) =~= before + seq![
            state@.footer_panel(plan.footer, plan.compact),
        ]);
    }
    push_overlays(&mut panels, state, plan.area, confirmation, palette, composer);
    panels
}

/// Everything on a screen of the given size, in the order in which it is drawn. A screen without
/// room shows nothing.
pub fn render(
    area: Rect,
    state: &CockpitState,
    confirmation: Option<ConfirmationView<'_>>,
    palette: Option<PaletteView<'_>>,
    composer: Option<ComposerView<'_>>,
) -> (panels: Vec<Panel>)
    requires
        area.x + area.width <= u16::MAX,
        area.y + area.height <= u16::MAX,
        state.panes@.len() <= u32::MAX,
    ensures
        if area.width == 0 || area.height == 0 {
            panels@.len() == 0
        } else {
            exists|plan: FramePlan|
                #[trigger] plan_fits(plan, area, state@) && panel_models(panels@)
                    == composed_frame(state@, plan, confirmation, palette, composer)
        },
{
    match plan_frame(area, state) {
        Some(plan) => {
            let panels = compose_frame(state, &plan, &confirmation, &palette, &composer);
            proof {
                assert(plan_fits(plan, area, state@));
            }
            panels
        },
        None => Vec::new(),
    }
}

/// How the connection stands is always on the screen, in words: in the line at the top, whatever
/// lies over the cockpit. So is the status, in the panel at the bottom.
pub proof fn connection_and_status_are_always_shown(
    state: CockpitModel,
    plan: FramePlan,
    confirmation: Option<ConfirmationView<'_>>,
    palette: Option<PaletteView<'_>>,
    composer: Option<ComposerView<'_>>,
)
    ensures
        ({
            let frame = composed_frame(state, plan, confirmation, palette, composer);
            let footer = 2 + body_panels(state, plan.body).len();
            &&& frame.len() > footer
            &&& frame[0].lines[0] matches LineModel::Spans(spans)
            &&& spans[2].text == state.connection.words()
            &&& frame[footer as int].lines[1] == text_line(state.status)
        }),
{
    let frame = composed_frame(state, plan, confirmation, palette, composer);
    let footer = (2 + body_panels(state, plan.body).len()) as int;
    assert(frame[0] == state.header_panel(plan.header));
    assert(frame[footer] == state.footer_panel(plan.footer, plan.compact));
}

/// Nothing is drawn outside the screen.
pub proof fn panels_lie_on_the_screen(
    state: CockpitModel,
    area: Rect,
    plan: FramePlan,
    confirmation: Option<ConfirmationView<'_>>,
    palette: Option<PaletteView<'_>>,
    composer: Option<ComposerView<'_>>,
)
    requires
        plan_fits(plan, area, state),
        area.width > 0,
        area.height > 0,
        area.x + area.width <= u16::MAX,
        area.y + area.height <= u16::MAX,
    ensures
        forall|i: int|
            0 <= i < composed_frame(state, plan, confirmation, palette, composer).len()
                ==> #[trigger] composed_frame(
                state,
                plan,
                confirmation,
                palette,
                composer,
            )[i].area.within(area),
{
    let frame = composed_frame(state, plan, confirmation, palette, composer);
    let rows = choose|rows: Seq<Rect>|
        {
            &&& #[trigger] shares(area, true, frame_extents(plan.compact), rows)
            &&& plan.header == rows[0]
            &&& plan.tabs == rows[1]
            &&& body_fits(plan.body, rows[2], plan.compact, state)
            &&& plan.footer == rows[3]
        };
    let body = rows[2];
    assert(keeps_to(rows[0], area, true));
    assert(keeps_to(rows[1], area, true));
    assert(keeps_to(rows[2], area, true));
    assert(keeps_to(rows[3], area, true));
    body_panels_lie_within(state, plan.body, body, plan.compact);
    let panels = body_panels(state, plan.body);
    let over = overlays(state, plan.area, confirmation, palette, composer);
    centered_lies_within(area, 76, 24);
    centered_lies_within(area, 68, 18);
    centered_lies_within(area, 72, 13);
    centered_lies_within(area, 76, 14);
    assert forall|i: int| 0 <= i < over.len() implies #[trigger] over[i].area.within(area) by {}
    assert forall|i: int| 0 <= i < frame.len() implies #[trigger] frame[i].area.within(area) by {
        if 2 <= i < 2 + panels.len() {
            assert(frame[i] == panels[i - 2]);
            assert(panels[i - 2].area.within(body));
        } else if i > 2 + panels.len() {
            assert(frame[i] == over[i - 3 - panels.len()]);
        }
    }
}

proof fn body_panels_lie_within(state: CockpitModel, plan: BodyPlan, body: Rect, compact: bool)
    requires
        body_fits(plan, body, compact, state),
    ensures
        forall|i: int|
            0 <= i < body_panels(state, plan).len() ==> #[trigger] body_panels(
                state,
                plan,
            )[i].area.within(body),
{
    match plan {
        BodyPlan::Panes(slots) => {
            if state.panes.len() > 0 && !shows_one(state.pane_layout, compact) {
                let cells = choose|cells: Seq<Rect>|
                    #[trigger] given_out(slots@, cells, state.panes.len()) && lays_out(
                        cells,
                        body,
                        state.panes.len(),
                        state.pane_layout,
                    );
                layouts_have_room_for_all(cells, body, state.panes.len(), state.pane_layout);
                assert forall|i: int| 0 <= i < slots@.len() implies match #[trigger] slots@[i] {
                    Some((part, _)) => part.within(body),
                    None => true,
                } by {
                    assert(cells[i].within(body));
                }
            }
            pane_panels_lie_within(state, slots@, slots@.len(), body);
        },
        BodyPlan::List(_) => {},
        BodyPlan::ListAndDetail(list, detail) => {
            let columns = seq![list, detail];
            assert(keeps_to(columns[0], body, false));
            assert(keeps_to(columns[1], body, false));
        },
    }
}

proof fn pane_panels_lie_within(
    state: CockpitModel,
    slots: Seq<PaneArea>,
    count: nat,
    body: Rect,
)
    requires
        count <= slots.len(),
        forall|i: int|
            0 <= i < slots.len() ==> match #[trigger] slots[i] {
                Some((part, _)) => part.within(body),
                None => true,
            },
    ensures
        forall|i: int|
            0 <= i < state.pane_panels(slots, count).len() ==> #[trigger] state.pane_panels(
                slots,
                count,
            )[i].area.within(body),
    decreases count,
{
    if count > 0 {
        pane_panels_lie_within(state, slots, (count - 1) as nat, body);
        let slot = slots[count - 1];
        assert(slot matches Some((part, _)) ==> part.within(body));
    }
}

} // verus!
