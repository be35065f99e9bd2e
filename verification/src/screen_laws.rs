//! What stands on the screen, said of the words that can be read there.

use vstd::prelude::*;
use vstd::view::View as _;

use crate::commands::{ComposerView, ConfirmationView, PaletteView};
use crate::layout::{
    arranges, centered_in, given_out, grid_of, grid_rows, keeps_to, lays_out, may_split, row_of,
    shares, squares, Extent, PaneArea, Rect,
};
use crate::protocol::ResourceRecord;
use crate::render::{
    body_fits, body_panels, composed_frame, composer_overlay, confirmation_overlay, event_line,
    help_overlay, latest, overlays, palette_overlay, plan_fits, BodyPlan, Borders, Color,
    FramePlan, LineModel, PanelModel, SpanModel,
};
use crate::state::{CockpitModel, ConnectionState, PaneLayout, PaneModel, View};
use crate::text::{contains_text, decimal_text, stands_at};

verus! {

/// The words of spans, one behind the other.
pub open spec fn spans_read(spans: Seq<SpanModel>) -> Seq<char>
    decreases spans.len(),
{
    if spans.len() == 0 {
        Seq::empty()
    } else {
        spans_read(spans.drop_last()) + spans.last().text
    }
}

/// The words of a line.
pub open spec fn reads(line: LineModel) -> Seq<char> {
    match line {
        LineModel::Text { text, .. } => text,
        LineModel::Spans(spans) => spans_read(spans),
    }
}

/// Whether words can be read on a panel.
pub open spec fn can_be_read(panel: PanelModel, words: Seq<char>) -> bool {
    exists|i: int|
        0 <= i < panel.lines.len() && contains_text(reads(#[trigger] panel.lines[i]), words)
}

proof fn part_is_contained(before: Seq<char>, part: Seq<char>, after: Seq<char>)
    ensures
        contains_text(before + part + after, part),
{
    let whole = before + part + after;
    let at = before.len() as int;
    assert(whole.subrange(at, at + part.len()) =~= part);
    assert(stands_at(whole, part, at));
}

proof fn two_spans_read(first: SpanModel, second: SpanModel)
    ensures
        spans_read(seq![first, second]) == first.text + second.text,
{
    let spans = seq![first, second];
    assert(spans.drop_last() =~= seq![first]);
    assert(seq![first].drop_last() =~= Seq::empty());
    assert(spans_read(seq![first]) =~= first.text) by {
        assert(spans_read(Seq::empty()) =~= Seq::empty());
    }
}

/// The list has one line for each record that the view shows, in order, which names the record's
/// kind, identity and summary. The selected one alone is marked and stands out.
pub proof fn list_names_every_record(state: CockpitModel, area: Rect, place: int)
    requires
        0 <= place < state.shown().len(),
    ensures
        ({
            let panel = state.list_panel(area);
            let record = state.shown()[place];
            let line = panel.lines[place];
            &&& panel.area == area
            &&& panel.lines.len() == state.shown().len()
            &&& contains_text(reads(line), record.resource.kind@.name())
            &&& contains_text(reads(line), record.resource.id@)
            &&& contains_text(reads(line), record.summary@)
            &&& line is Text
            &&& line->style.reversed <==> place == state.selected_index
            &&& reads(line)[0] == '>' <==> place == state.selected_index
        }),
{
    let record = state.shown()[place];
    let line = state.list_panel(area).lines[place];
    let kind = record.resource.kind@.name();
    let id = record.resource.id@;
    let freshness = crate::text::uppercased(record.freshness.state@);
    let marker = if place == state.selected_index {
        ">"@
    } else {
        " "@
    };
    reveal_strlit(">");
    reveal_strlit(" ");
    let kind_part = crate::text::padded(kind, 10);
    let id_part = crate::text::padded(id, 22);
    let kind_fill = kind_part.skip(kind.len() as int);
    let id_fill = id_part.skip(id.len() as int);
    assert(kind_part =~= kind + kind_fill);
    assert(id_part =~= id + id_fill);
    let tail = " ["@ + freshness + "] "@ + record.summary@;
    assert(reads(line) =~= (marker + " "@) + kind + (kind_fill + " "@ + id_part + tail));
    part_is_contained(marker + " "@, kind, kind_fill + " "@ + id_part + tail);
    assert(reads(line) =~= (marker + " "@ + kind_part + " "@) + id + (id_fill + tail));
    part_is_contained(marker + " "@ + kind_part + " "@, id, id_fill + tail);
    let head = marker + " "@ + kind_part + " "@ + id_part + " ["@ + freshness + "] "@;
    assert(reads(line) =~= head + record.summary@ + Seq::empty());
    part_is_contained(head, record.summary@, Seq::empty());
}

/// The freshness of a record stands in its line in brackets and in capitals.
pub proof fn list_tells_freshness(state: CockpitModel, area: Rect, place: int)
    requires
        0 <= place < state.shown().len(),
    ensures
        contains_text(
            reads(state.list_panel(area).lines[place]),
            "["@ + crate::text::uppercased(state.shown()[place].freshness.state@) + "]"@,
        ),
{
    let record = state.shown()[place];
    let line = state.list_panel(area).lines[place];
    let freshness = crate::text::uppercased(record.freshness.state@);
    let marker = if place == state.selected_index {
        ">"@
    } else {
        " "@
    };
    reveal_strlit(" [");
    reveal_strlit("[");
    reveal_strlit("] ");
    reveal_strlit("]");
    reveal_strlit(" ");
    assert(" ["@ =~= " "@ + "["@);
    assert("] "@ =~= "]"@ + " "@);
    let head = marker + " "@ + crate::text::padded(record.resource.kind@.name(), 10) + " "@
        + crate::text::padded(record.resource.id@, 22);
    let shown = "["@ + freshness + "]"@;
    assert(reads(line) =~= (head + " "@) + shown + (" "@ + record.summary@));
    part_is_contained(head + " "@, shown, " "@ + record.summary@);
}

/// A view without records says so, on one line.
pub proof fn empty_list_says_so(state: CockpitModel, area: Rect)
    requires
        state.shown().len() == 0,
    ensures
        state.list_panel(area).lines.len() == 1,
        reads(state.list_panel(area).lines[0]).len() > 0,
{
    reveal_strlit("No authorized records in this view.");
}

/// The details show the authority, the kind, the identity, the freshness, the revision and the
/// summary of the selected record.
pub proof fn details_show_the_selected_record(
    state: CockpitModel,
    area: Rect,
    record: ResourceRecord,
)
    requires
        state.selected() == Some(record),
    ensures
        ({
            let panel = state.detail_panel(area);
            &&& panel.area == area
            &&& can_be_read(panel, record.resource.authority@.name())
            &&& can_be_read(panel, record.resource.kind@.name())
            &&& can_be_read(panel, record.resource.id@)
            &&& can_be_read(panel, record.freshness.state@)
            &&& can_be_read(panel, decimal_text(record.freshness.revision as nat))
            &&& can_be_read(panel, record.summary@)
        }),
{
    let panel = state.detail_panel(area);
    let lines = panel.lines;
    labelled_value_is_read("Authority: "@, record.resource.authority@.name(), lines[0]);
    labelled_value_is_read("Kind:      "@, record.resource.kind@.name(), lines[1]);
    labelled_value_is_read("ID:        "@, record.resource.id@, lines[2]);
    labelled_value_is_read("Freshness: "@, record.freshness.state@, lines[3]);
    labelled_value_is_read(
        "Revision:  "@,
        decimal_text(record.freshness.revision as nat),
        lines[4],
    );
    plain_text_is_read(record.summary@);
    assert(contains_text(reads(lines[6]), record.summary@));
}

proof fn labelled_value_is_read(label: Seq<char>, value: Seq<char>, line: LineModel)
    requires
        line == crate::render::labelled_line(label, value),
    ensures
        contains_text(reads(line), value),
        contains_text(reads(line), label),
{
    let spans = line->Spans_0;
    two_spans_read(spans[0], spans[1]);
    assert(spans =~= seq![spans[0], spans[1]]);
    part_is_contained(label, value, Seq::empty());
    assert(label + value + Seq::empty() =~= label + value);
    part_is_contained(Seq::empty(), label, value);
    assert(Seq::empty() + label + value =~= label + value);
}

proof fn plain_text_is_read(text: Seq<char>)
    ensures
        contains_text(text, text),
{
    part_is_contained(Seq::empty(), text, Seq::empty());
    assert(Seq::empty() + text + Seq::empty() =~= text);
}

/// The title of a pane names its session, whether it is controlled, how much is unread and
/// whether it is pinned.
pub proof fn pane_title_tells_its_state(pane: PaneModel, area: Rect, focused: bool, slot: nat)
    ensures
        ({
            let panel = pane.panel(area, focused, slot);
            let title = panel.title->0;
            &&& panel.area == area
            &&& panel.title is Some
            &&& contains_text(title, pane.record.session.resource.id@)
            &&& pane.control is Some ==> contains_text(title, "[CONTROL]"@)
            &&& pane.control is None ==> contains_text(title, "[OBSERVER]"@)
            &&& contains_text(title, "unread="@ + decimal_text(pane.unread as nat))
            &&& pane.pinned ==> contains_text(title, " PINNED"@)
            &&& focused <==> panel.border_style.bold
        }),
{
    let title = pane.title(slot);
    let id = pane.record.session.resource.id@;
    let number = " "@ + decimal_text(slot + 1) + " "@;
    let control = if pane.control is Some {
        "CONTROL"@
    } else {
        "OBSERVER"@
    };
    let pin = if pane.pinned {
        " PINNED"@
    } else {
        ""@
    };
    let unread = decimal_text(pane.unread as nat);
    reveal_strlit(" [");
    reveal_strlit("] unread=");
    reveal_strlit("[CONTROL]");
    reveal_strlit("[OBSERVER]");
    reveal_strlit("CONTROL");
    reveal_strlit("OBSERVER");
    reveal_strlit("unread=");
    reveal_strlit(" ");
    let bracketed = if pane.control is Some {
        "[CONTROL]"@
    } else {
        "[OBSERVER]"@
    };
    let rest = " ["@ + control + "] unread="@ + unread + pin + " "@;
    assert(title =~= number + id + rest);
    part_is_contained(number, id, rest);
    assert(" ["@ + control + "] unread="@ =~= " "@ + bracketed + (" "@ + "unread="@));
    assert(title =~= (number + id + " "@) + bracketed + (" "@ + "unread="@ + unread + pin + " "@));
    part_is_contained(number + id + " "@, bracketed, " "@ + "unread="@ + unread + pin + " "@);
    let counted = "unread="@ + unread;
    assert(title =~= (number + id + " "@ + bracketed + " "@) + counted + (pin + " "@));
    part_is_contained(number + id + " "@ + bracketed + " "@, counted, pin + " "@);
    if pane.pinned {
        assert(title =~= (number + id + " "@ + bracketed + " "@ + counted) + pin + " "@);
        part_is_contained(number + id + " "@ + bracketed + " "@ + counted, pin, " "@);
    }
}

/// A pane shows its latest events, the newest last, as many as it has room for below its title,
/// its session and its frame; each with its revision and its summary.
pub proof fn pane_shows_its_latest_events(
    pane: PaneModel,
    area: Rect,
    focused: bool,
    slot: nat,
    back: int,
)
    requires
        area.height > 4,
        0 <= back < area.height - 4,
        back < pane.timeline.len(),
    ensures
        ({
            let lines = pane.panel(area, focused, slot).lines;
            let event = pane.timeline[pane.timeline.len() - 1 - back];
            let line = lines[lines.len() - 1 - back];
            &&& lines.len() == 1 + if pane.timeline.len() < area.height - 4 {
                pane.timeline.len() as int
            } else {
                area.height - 4
            }
            &&& contains_text(reads(line), decimal_text(event.freshness.revision as nat))
            &&& contains_text(reads(line), event.resource.kind@.name())
            &&& contains_text(reads(line), event.summary@)
        }),
{
    let room = (area.height - 4) as nat;
    let shown = latest(pane.timeline, room);
    let lines = pane.panel(area, focused, slot).lines;
    let event = pane.timeline[pane.timeline.len() - 1 - back];
    assert(shown[shown.len() - 1 - back] == event);
    let line = lines[lines.len() - 1 - back];
    assert(line == event_line(event));
    let revision = decimal_text(event.freshness.revision as nat);
    let kind = event.resource.kind@.name();
    let text = reads(line);
    assert(text =~= "r"@ + revision + (" "@ + kind + ": "@ + event.summary@));
    part_is_contained("r"@, revision, " "@ + kind + ": "@ + event.summary@);
    assert(text =~= ("r"@ + revision + " "@) + kind + (": "@ + event.summary@));
    part_is_contained("r"@ + revision + " "@, kind, ": "@ + event.summary@);
    assert(text =~= ("r"@ + revision + " "@ + kind + ": "@) + event.summary@ + Seq::empty());
    part_is_contained("r"@ + revision + " "@ + kind + ": "@, event.summary@, Seq::empty());
}

/// A pane without room shows its session alone, whatever it has seen; the session's summary and
/// what it allows are always shown.
pub proof fn pane_always_shows_its_session(pane: PaneModel, area: Rect, focused: bool, slot: nat)
    ensures
        ({
            let lines = pane.panel(area, focused, slot).lines;
            &&& lines.len() >= 1
            &&& area.height <= 4 ==> lines.len() == 1
            &&& contains_text(reads(lines[0]), pane.record.session.summary@)
            &&& pane.record.attachable ==> contains_text(reads(lines[0]), "attach=true"@)
            &&& !pane.record.attachable ==> contains_text(reads(lines[0]), "attach=false"@)
            &&& pane.record.controllable ==> contains_text(reads(lines[0]), "control=true"@)
            &&& !pane.record.controllable ==> contains_text(reads(lines[0]), "control=false"@)
        }),
{
    let lines = pane.panel(area, focused, slot).lines;
    let summary = pane.record.session.summary@;
    let attach = crate::render::truth(pane.record.attachable);
    let control = crate::render::truth(pane.record.controllable);
    reveal_strlit(" attach=");
    reveal_strlit("attach=true");
    reveal_strlit("attach=false");
    reveal_strlit(" control=");
    reveal_strlit("control=true");
    reveal_strlit("control=false");
    reveal_strlit("true");
    reveal_strlit("false");
    reveal_strlit(" ");
    let text = reads(lines[0]);
    let tail = " attach="@ + attach + " control="@ + control;
    assert(text =~= "state="@ + summary + tail);
    part_is_contained("state="@, summary, tail);
    let attaches = if pane.record.attachable {
        "attach=true"@
    } else {
        "attach=false"@
    };
    let controls = if pane.record.controllable {
        "control=true"@
    } else {
        "control=false"@
    };
    assert(" attach="@ + attach =~= " "@ + attaches);
    assert(" control="@ + control =~= " "@ + controls);
    assert(text =~= ("state="@ + summary + " "@) + attaches + (" "@ + controls));
    part_is_contained("state="@ + summary + " "@, attaches, " "@ + controls);
    assert(text =~= ("state="@ + summary + " "@ + attaches + " "@) + controls + Seq::empty());
    part_is_contained("state="@ + summary + " "@ + attaches + " "@, controls, Seq::empty());
}

/// The header tells how the connection stands, from which cursor events are followed, how many
/// panes are open and how they are laid out. Only a live connection is not drawn in bold.
pub proof fn header_tells_the_connection(state: CockpitModel, area: Rect)
    ensures
        ({
            let panel = state.header_panel(area);
            let spans = panel.lines[0]->Spans_0;
            &&& panel.area == area
            &&& panel.lines.len() == 1 && panel.lines[0] is Spans
            &&& exists|i: int|
                0 <= i < spans.len() && (#[trigger] spans[i]).text == state.connection.words()
                    && (spans[i].style.bold <==> state.connection != ConnectionState::Live)
            &&& exists|i: int|
                0 <= i < spans.len() && contains_text(
                    (#[trigger] spans[i]).text,
                    "cursor="@ + decimal_text(state.resource_cursor.sequence as nat),
                ) && contains_text(spans[i].text, "panes="@ + decimal_text(state.panes.len()))
                    && contains_text(spans[i].text, "layout="@ + state.pane_layout.word())
        }),
{
    let spans = state.header_panel(area).lines[0]->Spans_0;
    assert(spans[2].text == state.connection.words());
    let cursor = decimal_text(state.resource_cursor.sequence as nat);
    let panes = decimal_text(state.panes.len());
    let layout = state.pane_layout.word();
    reveal_strlit("  cursor=");
    reveal_strlit("cursor=");
    reveal_strlit("  panes=");
    reveal_strlit("panes=");
    reveal_strlit("  layout=");
    reveal_strlit("layout=");
    reveal_strlit("  ");
    assert("  cursor="@ =~= "  "@ + "cursor="@);
    assert("  panes="@ =~= "  "@ + "panes="@);
    assert("  layout="@ =~= "  "@ + "layout="@);
    let text = spans[3].text;
    assert(text =~= "  "@ + ("cursor="@ + cursor) + ("  panes="@ + panes + "  layout="@ + layout));
    part_is_contained("  "@, "cursor="@ + cursor, "  panes="@ + panes + "  layout="@ + layout);
    assert(text =~= ("  cursor="@ + cursor + "  "@) + ("panes="@ + panes) + ("  layout="@
        + layout));
    part_is_contained("  cursor="@ + cursor + "  "@, "panes="@ + panes, "  layout="@ + layout);
    assert(text =~= ("  cursor="@ + cursor + "  panes="@ + panes + "  "@) + ("layout="@ + layout)
        + Seq::empty());
    part_is_contained(
        "  cursor="@ + cursor + "  panes="@ + panes + "  "@,
        "layout="@ + layout,
        Seq::empty(),
    );
}

/// The footer always shows what the cockpit says.
pub proof fn footer_shows_the_status(state: CockpitModel, area: Rect, compact: bool)
    ensures
        can_be_read(state.footer_panel(area, compact), state.status),
        state.footer_panel(area, compact).area == area,
{
    let panel = state.footer_panel(area, compact);
    plain_text_is_read(state.status);
    assert(contains_text(reads(panel.lines[1]), state.status));
}

/// Where there is room every view has its tab; where there is not, the first four and the current
/// one have. The tab of a view bears its number and its name, and the current one alone stands
/// out.
pub proof fn tabs_name_the_views(state: CockpitModel, place: int)
    requires
        0 <= place < 7,
    ensures
        ({
            let view = View::all()[place];
            let tab = state.tab(place);
            &&& contains_text(tab.text, decimal_text((place + 1) as nat))
            &&& contains_text(tab.text, view.word())
            &&& tab.style.bold <==> view == state.view
            &&& tab.style.background is Some <==> view == state.view
            &&& state.tabs(7, false).contains(tab)
            &&& place < 4 || view == state.view ==> state.tabs(7, true).contains(tab)
            &&& state.tabs(7, false).len() == 7
            &&& state.tabs(7, true).len() <= 5
        }),
{
    let view = View::all()[place];
    let tab = state.tab(place);
    let number = decimal_text((place + 1) as nat);
    assert(tab.text =~= " "@ + number + (":"@ + view.word() + " "@));
    part_is_contained(" "@, number, ":"@ + view.word() + " "@);
    assert(tab.text =~= (" "@ + number + ":"@) + view.word() + " "@);
    part_is_contained(" "@ + number + ":"@, view.word(), " "@);
    tab_is_kept(state, false, place, 7);
    if place < 4 || view == state.view {
        tab_is_kept(state, true, place, 7);
    }
    reveal_with_fuel(CockpitModel::tabs, 8);
}

proof fn tab_is_kept(state: CockpitModel, compact: bool, place: int, count: nat)
    requires
        0 <= place < count <= 7,
        state.has_tab(place, compact),
    ensures
        state.tabs(count, compact).contains(state.tab(place)),
    decreases count,
{
    let tabs = state.tabs(count, compact);
    if place == count - 1 {
        assert(tabs[tabs.len() - 1] == state.tab(place));
    } else {
        let before = state.tabs((count - 1) as nat, compact);
        tab_is_kept(state, compact, place, (count - 1) as nat);
        let at = choose|at: int| 0 <= at < before.len() && before[at] == state.tab(place);
        assert(tabs[at] == state.tab(place));
    }
}

/// A confirmation shows its title, its exact target, the revision and the consequence, over what
/// stood there before.
pub proof fn confirmation_is_shown_in_full(confirmation: ConfirmationView<'_>, area: Rect)
    ensures
        ({
            let panel = confirmation_overlay(confirmation, area);
            &&& panel.area == area && panel.clears
            &&& can_be_read(panel, confirmation.title@)
            &&& can_be_read(panel, confirmation.target@)
            &&& can_be_read(panel, decimal_text(confirmation.revision as nat))
            &&& can_be_read(panel, confirmation.consequence@)
        }),
{
    let panel = confirmation_overlay(confirmation, area);
    let lines = panel.lines;
    plain_text_is_read(confirmation.title@);
    assert(contains_text(reads(lines[0]), confirmation.title@));
    labelled_value_is_read("Exact target: "@, confirmation.target@, lines[2]);
    labelled_value_is_read(
        "Revision:     "@,
        decimal_text(confirmation.revision as nat),
        lines[3],
    );
    labelled_value_is_read("Consequence:  "@, confirmation.consequence@, lines[4]);
}

/// A composer shows its operation, its exact target and its text, over what stood there before.
pub proof fn composer_is_shown_in_full(composer: ComposerView<'_>, area: Rect)
    ensures
        ({
            let panel = composer_overlay(composer, area);
            &&& panel.area == area && panel.clears
            &&& can_be_read(panel, composer.operation@)
            &&& can_be_read(panel, composer.target@)
            &&& can_be_read(panel, composer.text@)
        }),
{
    let lines = composer_overlay(composer, area).lines;
    labelled_value_is_read("Operation: "@, composer.operation@, lines[0]);
    labelled_value_is_read("Exact target: "@, composer.target@, lines[1]);
    plain_text_is_read(composer.text@);
    assert(contains_text(reads(lines[3]), composer.text@));
}

/// A palette has one line for each command, in order, and the chosen one alone is marked and
/// stands out.
pub proof fn palette_shows_every_command(palette: PaletteView<'_>, area: Rect, place: int)
    requires
        0 <= place < palette.commands@.len(),
    ensures
        ({
            let panel = palette_overlay(palette, area);
            let line = panel.lines[place];
            &&& panel.area == area && panel.clears
            &&& panel.lines.len() == palette.commands@.len()
            &&& contains_text(reads(line), palette.commands@[place]@)
            &&& line is Text
            &&& line->style.reversed <==> place == palette.selected
            &&& reads(line)[0] == '>' <==> place == palette.selected
        }),
{
    let line = palette_overlay(palette, area).lines[place];
    let command = palette.commands@[place]@;
    reveal_strlit(">");
    reveal_strlit(" ");
    let marker = if place == palette.selected {
        ">"@
    } else {
        " "@
    };
    assert(reads(line) =~= (marker + " "@) + command + Seq::empty());
    part_is_contained(marker + " "@, command, Seq::empty());
}

/// What lies over the cockpit is drawn last: the help first, then the palette, then the
/// confirmation, and an open composer on top of all.
pub proof fn overlays_lie_in_order(
    state: CockpitModel,
    area: Rect,
    confirmation: Option<ConfirmationView<'_>>,
    palette: Option<PaletteView<'_>>,
    composer: Option<ComposerView<'_>>,
)
    ensures
        ({
            let over = overlays(state, area, confirmation, palette, composer);
            &&& composer matches Some(view) ==> over.len() > 0 && over.last() == composer_overlay(
                view,
                centered_in(area, 76, 14),
            )
            &&& composer is None ==> (confirmation matches Some(view) ==> over.len() > 0
                && over.last() == confirmation_overlay(view, centered_in(area, 72, 13)))
            &&& composer is None && confirmation is None ==> (palette matches Some(view)
                ==> over.len() > 0 && over.last() == palette_overlay(
                view,
                centered_in(area, 68, 18),
            ))
            &&& composer is None && confirmation is None && palette is None && state.show_help
                ==> over.len() == 1 && over[0] == help_overlay(centered_in(area, 76, 24))
            &&& composer is None && confirmation is None && palette is None && !state.show_help
                ==> over.len() == 0
            &&& state.show_help ==> over.len() > 0 && over[0] == help_overlay(
                centered_in(area, 76, 24),
            )
        }),
{
}

/// The middle of the screen shows the panes in the sessions view where there are any; otherwise
/// the list, with the details beside it where the screen is at least 80 wide and 24 high.
pub proof fn middle_shows_panes_or_records(plan: FramePlan, area: Rect, state: CockpitModel)
    requires
        plan_fits(plan, area, state),
    ensures
        plan.body is Panes <==> state.panes.len() > 0 && state.view == View::Sessions,
        plan.body is ListAndDetail <==> !(state.panes.len() > 0 && state.view == View::Sessions)
            && area.width >= 80 && area.height >= 24,
        plan.body is List <==> !(state.panes.len() > 0 && state.view == View::Sessions) && (
        area.width < 80 || area.height < 24),
        plan.area == area,
        plan.header.width == area.width && plan.footer.width == area.width && plan.tabs.width
            == area.width,
        plan.header.within(area) && plan.footer.within(area) && plan.tabs.within(area),
{
    let rows = choose|rows: Seq<Rect>|
        {
            &&& #[trigger] shares(
                area,
                true,
                crate::render::frame_extents(plan.compact),
                rows,
            )
            &&& plan.header == rows[0]
            &&& plan.tabs == rows[1]
            &&& body_fits(plan.body, rows[2], plan.compact, state)
            &&& plan.footer == rows[3]
        };
    assert(keeps_to(rows[0], area, true));
    assert(keeps_to(rows[1], area, true));
    assert(keeps_to(rows[3], area, true));
}

/// The panels of the middle are the list with the details of the selected record beside it, or
/// the list alone.
pub proof fn list_stands_before_the_details(state: CockpitModel, list: Rect, detail: Rect)
    ensures
        body_panels(state, BodyPlan::List(list)).len() == 1,
        body_panels(state, BodyPlan::List(list))[0] == state.list_panel(list),
        body_panels(state, BodyPlan::ListAndDetail(list, detail)).len() == 2,
        body_panels(state, BodyPlan::ListAndDetail(list, detail))[0] == state.list_panel(list),
        body_panels(state, BodyPlan::ListAndDetail(list, detail))[1] == state.detail_panel(detail),
{
}

/// The header comes first on the screen, the tabs second; the footer stands behind the middle and
/// before what lies over it.
pub proof fn frame_has_its_order(
    state: CockpitModel,
    plan: FramePlan,
    confirmation: Option<ConfirmationView<'_>>,
    palette: Option<PaletteView<'_>>,
    composer: Option<ComposerView<'_>>,
)
    ensures
        ({
            let frame = composed_frame(state, plan, confirmation, palette, composer);
            let middle = body_panels(state, plan.body);
            let over = overlays(state, plan.area, confirmation, palette, composer);
            &&& frame.len() == 3 + middle.len() + over.len()
            &&& frame[0] == state.header_panel(plan.header)
            &&& frame[1] == state.tabs_panel(plan.tabs, plan.compact)
            &&& frame.subrange(2, 2 + middle.len() as int) == middle
            &&& frame[2 + middle.len() as int] == state.footer_panel(plan.footer, plan.compact)
            &&& frame.skip(3 + middle.len() as int) == over
        }),
{
    let frame = composed_frame(state, plan, confirmation, palette, composer);
    let middle = body_panels(state, plan.body);
    let over = overlays(state, plan.area, confirmation, palette, composer);
    assert(frame.subrange(2, 2 + middle.len() as int) =~= middle);
    assert(frame.skip(3 + middle.len() as int) =~= over);
}

/// Every pane that has a slot stands on the screen at that slot's place, numbered by the slot.
pub proof fn slots_show_their_panes(state: CockpitModel, slots: Seq<PaneArea>, slot: int)
    requires
        0 <= slot < slots.len(),
        slots[slot] is Some,
        (slots[slot]->0).1 < state.panes.len(),
    ensures
        ({
            let (area, pane) = slots[slot]->0;
            state.pane_panels(slots, slots.len()).contains(
                state.panes[pane as int].panel(area, pane == state.focused_pane, slot as nat),
            )
        }),
{
    slot_is_shown(state, slots, slot, slots.len());
}

proof fn slot_is_shown(state: CockpitModel, slots: Seq<PaneArea>, slot: int, count: nat)
    requires
        0 <= slot < count <= slots.len(),
        slots[slot] is Some,
        (slots[slot]->0).1 < state.panes.len(),
    ensures
        ({
            let (area, pane) = slots[slot]->0;
            state.pane_panels(slots, count).contains(
                state.panes[pane as int].panel(area, pane == state.focused_pane, slot as nat),
            )
        }),
    decreases count,
{
    let (area, pane) = slots[slot]->0;
    let wanted = state.panes[pane as int].panel(area, pane == state.focused_pane, slot as nat);
    let panels = state.pane_panels(slots, count);
    if slot == count - 1 {
        assert(panels[panels.len() - 1] == wanted);
    } else {
        let before = state.pane_panels(slots, (count - 1) as nat);
        slot_is_shown(state, slots, slot, (count - 1) as nat);
        let at = choose|at: int| 0 <= at < before.len() && before[at] == wanted;
        assert(panels[at] == wanted);
    }
}

/// Rows lie below one another and columns side by side: a row takes the whole width and a column
/// the whole height. Tabs, the focused layout and a small screen show the focused pane alone, on
/// the whole area.
pub proof fn layouts_share_the_area(
    slots: Seq<PaneArea>,
    area: Rect,
    count: nat,
    focused: nat,
    layout: PaneLayout,
    compact: bool,
    slot: int,
)
    requires
        arranges(slots, area, count, focused, layout, compact),
        0 < count <= usize::MAX,
        0 <= slot < slots.len(),
    ensures
        compact || layout == PaneLayout::Tabs || layout == PaneLayout::Focused ==> slots.len()
            == 1 && (slots[0] matches Some((place, pane)) && place == area && (focused < count
            ==> pane == focused)),
        !compact && layout == PaneLayout::Rows ==> slots.len() == count && (
        slots[slot] matches Some((place, pane)) && pane == slot && place.x == area.x
            && place.width == area.width),
        !compact && layout == PaneLayout::Columns ==> slots.len() == count && (
        slots[slot] matches Some((place, pane)) && pane == slot && place.y == area.y
            && place.height == area.height),
        !compact && layout == PaneLayout::Grid ==> slots.len() >= count && (slot < count ==> (
        slots[slot] matches Some((_, pane)) && pane == slot)) && (slot >= count
            ==> slots[slot] is None),
{
    if !compact && layout != PaneLayout::Tabs && layout != PaneLayout::Focused {
        let cells = choose|cells: Seq<Rect>|
            #[trigger] given_out(slots, cells, count) && lays_out(cells, area, count, layout);
        crate::layout::layouts_have_room_for_all(cells, area, count, layout);
        if layout == PaneLayout::Rows {
            assert(keeps_to(cells[slot], area, true));
        }
        if layout == PaneLayout::Columns {
            assert(keeps_to(cells[slot], area, false));
        }
    }
}

/// A grid has as many columns as the square root of the number of panes, rounded up, and no row
/// that no pane needs.
pub proof fn grids_are_nearly_square(columns: nat, count: nat)
    requires
        squares(columns, count),
        count > 0,
    ensures
        columns * columns >= count,
        (columns - 1) * (columns - 1) < count,
        grid_rows(columns, count) * columns >= count,
        (grid_rows(columns, count) - 1) * columns < count,
        grid_rows(columns, count) <= columns,
{
    let rows = grid_rows(columns, count);
    assert(rows * columns >= count && (rows - 1) * columns < count) by (nonlinear_arith)
        requires
            columns > 0,
            count > 0,
            rows == (count + columns - 1) as nat / columns,
    ;
    assert(rows <= columns) by (nonlinear_arith)
        requires
            (rows - 1) * columns < count,
            columns * columns >= count,
            columns > 0,
    ;
}

/// The cells of one row of a grid stand at the same height, below those of no later row.
pub proof fn grid_rows_stand_level(
    cells: Seq<Rect>,
    area: Rect,
    rows: nat,
    columns: nat,
    row_areas: Seq<Rect>,
    row: int,
    left: int,
    right: int,
)
    requires
        grid_of(cells, area, rows, columns, row_areas),
        0 <= row < rows,
        0 <= left < columns,
        0 <= right < columns,
    ensures
        cells[row * columns + left].y == cells[row * columns + right].y,
        cells[row * columns + left].height == cells[row * columns + right].height,
{
    let cells_of_row = row_of(cells, row, columns);
    assert(shares(
        row_areas[row],
        false,
        crate::layout::equal_extents(columns),
        cells_of_row,
    ));
    assert(keeps_to(cells_of_row[left], row_areas[row], false));
    assert(keeps_to(cells_of_row[right], row_areas[row], false));
}

/// What is put in the middle takes as much as was asked for where that leaves a margin of one on
/// each side, as much as leaves it where it does not, and stands equally far from both sides, up
/// to one.
pub proof fn middle_keeps_its_margins(area: Rect, max_width: u16, max_height: u16)
    requires
        area.x + area.width <= u16::MAX,
        area.y + area.height <= u16::MAX,
        area.width > 2,
        area.height > 2,
        max_width > 0,
        max_height > 0,
    ensures
        ({
            let place = centered_in(area, max_width, max_height);
            let left = place.x - area.x;
            let right = area.x + area.width - place.x - place.width;
            let above = place.y - area.y;
            let below = area.y + area.height - place.y - place.height;
            &&& max_width + 2 <= area.width ==> place.width == max_width
            &&& max_width + 2 > area.width ==> place.width + 2 == area.width
            &&& max_height + 2 <= area.height ==> place.height == max_height
            &&& max_height + 2 > area.height ==> place.height + 2 == area.height
            &&& left <= right <= left + 1
            &&& above <= below <= above + 1
        }),
{
}

/// A panel's frame, its title and whether it covers what stood there before depend on what it is:
/// what lies over the cockpit covers it, and nothing else does.
pub proof fn panels_have_their_frames(
    state: CockpitModel,
    area: Rect,
    compact: bool,
    pane: PaneModel,
    focused: bool,
    slot: nat,
    composer: ComposerView<'_>,
    confirmation: ConfirmationView<'_>,
    palette: PaletteView<'_>,
)
    ensures
        ({
            let header = state.header_panel(area);
            &&& header.borders == Borders::All && header.title is None && !header.clears
            &&& !header.wraps
        }),
        ({
            let tabs = state.tabs_panel(area, compact);
            &&& tabs.borders == Borders::Bottom && tabs.title is None && !tabs.clears
            &&& tabs.area == area && tabs.lines == seq![LineModel::Spans(state.tabs(7, compact))]
        }),
        ({
            let footer = state.footer_panel(area, compact);
            &&& footer.borders == Borders::Top && footer.title is None && !footer.clears
            &&& footer.style.foreground == Some(Color::Gray)
        }),
        ({
            let list = state.list_panel(area);
            &&& list.borders == Borders::All && !list.clears && list.wraps
            &&& list.title == Some(
                " "@ + state.view.word() + " ("@ + decimal_text(state.shown().len()) + ") "@,
            )
        }),
        ({
            let detail = state.detail_panel(area);
            &&& detail.borders == Borders::All && !detail.clears && detail.wraps
            &&& detail.title == Some(" Detail "@)
        }),
        ({
            let panel = pane.panel(area, focused, slot);
            &&& panel.borders == Borders::All && !panel.clears && panel.wraps
            &&& focused ==> panel.border_style.foreground == Some(Color::Cyan)
            &&& !focused ==> panel.border_style.foreground == Some(Color::DarkGray)
        }),
        ({
            let panel = composer_overlay(composer, area);
            &&& panel.borders == Borders::All && panel.clears && panel.wraps
            &&& panel.title == Some(" Durable request composer "@)
            &&& panel.border_style.foreground == Some(Color::Cyan)
        }),
        ({
            let panel = confirmation_overlay(confirmation, area);
            &&& panel.borders == Borders::All && panel.clears && panel.wraps
            &&& panel.title == Some(" Confirm typed mutation "@)
            &&& panel.border_style.foreground == Some(Color::Yellow)
        }),
        ({
            let panel = palette_overlay(palette, area);
            &&& panel.borders == Borders::All && panel.clears && !panel.wraps
            &&& panel.title == Some(" Server-capability actions "@)
        }),
        ({
            let panel = help_overlay(area);
            &&& panel.borders == Borders::All && panel.clears && panel.wraps
            &&& panel.title == Some(" Help "@)
        }),
{
}

/// A live connection is green, one that is being made again or that is behind is yellow, and one
/// that cannot be used is red. The tab of the current view is white in high contrast.
pub proof fn colors_tell_the_state(state: CockpitModel, area: Rect, place: int)
    requires
        0 <= place < 7,
    ensures
        ({
            let spans = state.header_panel(area).lines[0]->Spans_0;
            &&& spans.len() == 4
            &&& spans[0].text == "AUTOMONIQUE OPERATOR"@
            &&& spans[2].text == state.connection.words()
            &&& state.connection == ConnectionState::Live ==> spans[2].style.foreground == Some(
                Color::Green,
            )
            &&& state.connection == ConnectionState::Stale || state.connection
                == ConnectionState::Reconnecting ==> spans[2].style.foreground == Some(
                Color::Yellow,
            )
            &&& state.connection == ConnectionState::UpgradeRequired
                ==> spans[2].style.foreground == Some(Color::Red)
        }),
        ({
            let style = state.tab(place).style;
            &&& View::all()[place] == state.view && state.high_contrast ==> style.background
                == Some(Color::White)
            &&& View::all()[place] == state.view && !state.high_contrast ==> style.background
                == Some(Color::Cyan)
            &&& View::all()[place] == state.view ==> style.foreground == Some(Color::Black)
            &&& View::all()[place] != state.view ==> style.foreground == Some(Color::Gray)
        }),
{
}

/// The hints tell the keys that can be pressed, and an empty detail says what to do.
pub proof fn hints_are_shown(
    state: CockpitModel,
    area: Rect,
    composer: ComposerView<'_>,
    confirmation: ConfirmationView<'_>,
)
    ensures
        can_be_read(
            composer_overlay(composer, area),
            "Enter preview · Esc cancel · Backspace edit"@,
        ),
        can_be_read(confirmation_overlay(confirmation, area), "y execute once · n/Esc cancel"@),
        can_be_read(state.footer_panel(area, true), "? help · p commands · q quit"@),
        can_be_read(
            state.footer_panel(area, false),
            "↑↓ select · i compose · a attach · d detach · c control · x release · p commands · [ ] focus · P pin · l layout · ? help · q quit"@,
        ),
        state.selected() is None ==> can_be_read(
            state.detail_panel(area),
            "Select a record to inspect its authoritative projection."@,
        ),
        state.shown().len() == 0 ==> can_be_read(
            state.list_panel(area),
            "No authorized records in this view."@,
        ),
{
    let hint = "Enter preview · Esc cancel · Backspace edit"@;
    plain_text_is_read(hint);
    assert(contains_text(reads(composer_overlay(composer, area).lines[5]), hint));
    let hint = "y execute once · n/Esc cancel"@;
    plain_text_is_read(hint);
    assert(contains_text(reads(confirmation_overlay(confirmation, area).lines[6]), hint));
    let hint = "? help · p commands · q quit"@;
    plain_text_is_read(hint);
    assert(contains_text(reads(state.footer_panel(area, true).lines[0]), hint));
    let hint = "↑↓ select · i compose · a attach · d detach · c control · x release · p commands · [ ] focus · P pin · l layout · ? help · q quit"@;
    plain_text_is_read(hint);
    assert(contains_text(reads(state.footer_panel(area, false).lines[0]), hint));
    let hint = "Select a record to inspect its authoritative projection."@;
    plain_text_is_read(hint);
    if state.selected() is None {
        assert(contains_text(reads(state.detail_panel(area).lines[0]), hint));
    }
    let hint = "No authorized records in this view."@;
    plain_text_is_read(hint);
    if state.shown().len() == 0 {
        assert(contains_text(reads(state.list_panel(area).lines[0]), hint));
    }
}

/// In the list, what is told of a record begins at the same place as for every other, as long as
/// kinds and identities are not too long.
pub proof fn list_stands_in_columns(state: CockpitModel, area: Rect, place: int)
    requires
        0 <= place < state.shown().len(),
        state.shown()[place].resource.kind@.name().len() <= 10,
        state.shown()[place].resource.id@.len() <= 22,
    ensures
        ({
            let record = state.shown()[place];
            let text = reads(state.list_panel(area).lines[place]);
            &&& stands_at(text, record.resource.kind@.name(), 2)
            &&& stands_at(text, record.resource.id@, 13)
            &&& stands_at(
                text,
                " ["@ + crate::text::uppercased(record.freshness.state@) + "] "@ + record.summary@,
                35,
            )
        }),
{
    let record = state.shown()[place];
    let text = reads(state.list_panel(area).lines[place]);
    let kind = record.resource.kind@.name();
    let id = record.resource.id@;
    let tail = " ["@ + crate::text::uppercased(record.freshness.state@) + "] "@ + record.summary@;
    reveal_strlit(">");
    reveal_strlit(" ");
    let kind_part = crate::text::padded(kind, 10);
    let id_part = crate::text::padded(id, 22);
    assert(kind_part.len() == 10);
    assert(id_part.len() == 22);
    assert(text.subrange(2int, 2int + kind.len()) =~= kind);
    assert(text.subrange(13int, 13int + id.len()) =~= id);
    assert(text.subrange(35int, 35int + tail.len()) =~= tail);
}

/// Where there is room, the tabs stand in the order of their numbers.
pub proof fn tabs_stand_in_order(state: CockpitModel, place: int)
    requires
        0 <= place < 7,
    ensures
        state.tabs(7, false)[place] == state.tab(place),
        place < 4 ==> state.tabs(7, true)[place] == state.tab(place),
{
    reveal_with_fuel(CockpitModel::tabs, 8);
}

/// A pin is shown by one word in the title, which is not there without it; the number of the slot
/// comes first.
pub proof fn pins_are_shown_where_they_are(pane: PaneModel, slot: nat)
    ensures
        ({
            let pinned = PaneModel { pinned: true, ..pane }.title(slot);
            let unpinned = PaneModel { pinned: false, ..pane }.title(slot);
            &&& pinned == unpinned.drop_last() + " PINNED "@
            &&& stands_at(pinned, decimal_text(slot + 1), 1)
            &&& stands_at(unpinned, decimal_text(slot + 1), 1)
        }),
{
    let pinned = PaneModel { pinned: true, ..pane }.title(slot);
    let unpinned = PaneModel { pinned: false, ..pane }.title(slot);
    reveal_strlit(" PINNED ");
    reveal_strlit(" PINNED");
    reveal_strlit("");
    reveal_strlit(" ");
    assert(" PINNED "@ =~= " PINNED"@ + " "@);
    assert(pinned =~= unpinned.drop_last() + " PINNED "@);
    let number = decimal_text(slot + 1);
    assert(pinned.subrange(1int, 1int + number.len()) =~= number);
    assert(unpinned.subrange(1int, 1int + number.len()) =~= number);
}

/// Slots that all hold a pane make as many panels, in the order of the slots.
pub proof fn slots_are_shown_in_order(state: CockpitModel, slots: Seq<PaneArea>, slot: int)
    requires
        0 <= slot < slots.len(),
        forall|i: int|
            0 <= i < slots.len() ==> (#[trigger] slots[i] matches Some((_, pane)) && pane
                < state.panes.len()),
    ensures
        state.pane_panels(slots, slots.len()).len() == slots.len(),
        ({
            let (area, pane) = slots[slot]->0;
            state.pane_panels(slots, slots.len())[slot] == state.panes[pane as int].panel(
                area,
                pane == state.focused_pane,
                slot as nat,
            )
        }),
{
    slots_are_shown_up_to(state, slots, slot, slots.len());
}

proof fn slots_are_shown_up_to(
    state: CockpitModel,
    slots: Seq<PaneArea>,
    slot: int,
    count: nat,
)
    requires
        count <= slots.len(),
        forall|i: int|
            0 <= i < slots.len() ==> (#[trigger] slots[i] matches Some((_, pane)) && pane
                < state.panes.len()),
    ensures
        state.pane_panels(slots, count).len() == count,
        0 <= slot < count ==> {
            let (area, pane) = slots[slot]->0;
            state.pane_panels(slots, count)[slot] == state.panes[pane as int].panel(
                area,
                pane == state.focused_pane,
                slot as nat,
            )
        },
    decreases count,
{
    if count > 0 {
        slots_are_shown_up_to(state, slots, slot, (count - 1) as nat);
        assert(slots[count - 1] is Some);
    }
}

/// Rows and columns ask for parts of equal size, one for each pane.
pub proof fn equal_parts_are_asked_for(cells: Seq<Rect>, area: Rect, count: nat) -> (asked: Seq<
    Extent,
>)
    requires
        0 < count <= u32::MAX,
    ensures
        asked.len() == count,
        forall|i: int| 0 <= i < count ==> #[trigger] asked[i] == Extent::Ratio(1, count as u32),
        lays_out(cells, area, count, PaneLayout::Rows) ==> may_split(area, true, asked, cells),
        lays_out(cells, area, count, PaneLayout::Columns) ==> may_split(area, false, asked, cells),
{
    let asked = Seq::new(count, |i: int| Extent::Ratio(1, count as u32));
    assert(asked =~= crate::layout::equal_extents(count));
    asked
}

/// The screen asks for a header of three lines, tabs and a footer of three lines, or of two on a
/// small screen, and leaves the rest to the middle; there the list asks for less than the half and
/// the details for the rest.
pub proof fn frame_asks_for_its_parts(plan: FramePlan, area: Rect, state: CockpitModel) -> (rows: Seq<
    Rect,
>)
    requires
        plan_fits(plan, area, state),
    ensures
        ({
            let bar: u16 = if area.width < 80 || area.height < 24 {
                2
            } else {
                3
            };
            may_split(
                area,
                true,
                seq![Extent::Length(3), Extent::Length(bar), Extent::Min(6), Extent::Length(bar)],
                rows,
            )
        }),
        rows.len() == 4,
        plan.header == rows[0],
        plan.tabs == rows[1],
        plan.footer == rows[3],
        plan.body matches BodyPlan::List(list) ==> list == rows[2],
        plan.body matches BodyPlan::ListAndDetail(list, detail) ==> may_split(
            rows[2],
            false,
            seq![Extent::Percentage(44), Extent::Percentage(56)],
            seq![list, detail],
        ),
        plan.body matches BodyPlan::Panes(slots) ==> arranges(
            slots@,
            rows[2],
            state.panes.len(),
            state.focused_pane,
            state.pane_layout,
            area.width < 80 || area.height < 24,
        ),
{
    choose|rows: Seq<Rect>|
        {
            &&& #[trigger] shares(area, true, crate::render::frame_extents(plan.compact), rows)
            &&& plan.header == rows[0]
            &&& plan.tabs == rows[1]
            &&& body_fits(plan.body, rows[2], plan.compact, state)
            &&& plan.footer == rows[3]
        }
}

/// Without panes there are no slots. A focus that stands on no pane shows the last one where panes
/// are shown one at a time.
pub proof fn lost_focus_shows_the_last_pane(
    slots: Seq<PaneArea>,
    area: Rect,
    count: nat,
    focused: nat,
    layout: PaneLayout,
    compact: bool,
)
    requires
        arranges(slots, area, count, focused, layout, compact),
        count <= usize::MAX,
    ensures
        count == 0 ==> slots.len() == 0,
        count > 0 && focused >= count && (compact || layout == PaneLayout::Tabs || layout
            == PaneLayout::Focused) ==> slots.len() == 1 && (slots[0] matches Some((_, pane))
            && pane == count - 1),
{
}

/// A grid has as many columns as the square root of the number of panes, rounded up, and its rows
/// are full but for the last. The panes of one row stand level.
pub proof fn grid_fills_row_by_row(
    slots: Seq<PaneArea>,
    area: Rect,
    count: nat,
    focused: nat,
    left: int,
    right: int,
) -> (columns: nat)
    requires
        arranges(slots, area, count, focused, PaneLayout::Grid, false),
        0 < count <= usize::MAX,
        0 <= left < count,
        0 <= right < count,
    ensures
        columns > 0,
        columns * columns >= count,
        (columns - 1) * (columns - 1) < count,
        slots.len() < count + columns,
        slots.len() == grid_rows(columns, count) * columns,
        left / (columns as int) == right / (columns as int) ==> (slots[left]->0).0.y == (
        slots[right]->0).0.y && (slots[left]->0).0.height == (slots[right]->0).0.height,
{
    let cells = choose|cells: Seq<Rect>|
        #[trigger] given_out(slots, cells, count) && lays_out(
            cells,
            area,
            count,
            PaneLayout::Grid,
        );
    let (columns, row_areas) = choose|columns: nat, row_areas: Seq<Rect>|
        {
            &&& #[trigger] squares(columns, count)
            &&& #[trigger] grid_of(cells, area, grid_rows(columns, count), columns, row_areas)
        };
    grids_are_nearly_square(columns, count);
    let rows = grid_rows(columns, count);
    assert(rows * columns < count + columns) by (nonlinear_arith)
        requires
            (rows - 1) * columns < count,
    ;
    if left / (columns as int) == right / (columns as int) {
        let width = columns as int;
        let row = left / width;
        assert(0 <= row < rows && left == row * width + left % width && right == row * width
            + right % width && 0 <= left % width < width && 0 <= right % width < width)
            by (nonlinear_arith)
            requires
                width > 0,
                row == left / width,
                row == right / width,
                0 <= left < count,
                rows * width >= count,
        ;
        grid_rows_stand_level(cells, area, rows, columns, row_areas, row, left % width, right % width);
        assert(cells[left] == cells[row * columns + left % width]);
        assert(cells[right] == cells[row * columns + right % width]);
        assert(slots[left] == Some((cells[left], left as usize)));
        assert(slots[right] == Some((cells[right], right as usize)));
    }
    columns
}

/// Where an area has no room for a margin, what is put in its middle is still one cell wide and
/// high.
pub proof fn middle_is_never_nothing(area: Rect, max_width: u16, max_height: u16)
    ensures
        area.width <= 2 ==> centered_in(area, max_width, max_height).width == 1,
        area.height <= 2 ==> centered_in(area, max_width, max_height).height == 1,
        centered_in(area, max_width, max_height).width >= 1,
        centered_in(area, max_width, max_height).height >= 1,
{
}

} // verus!
