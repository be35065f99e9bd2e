//! What each key does, said of what is on the screen.

use vstd::prelude::*;
use vstd::view::View as _;

use crate::commands::{AvailableCommand, ComposerModel, PendingModel};
use crate::keys::{ConsoleModel, Decision, Key, KeyPress};
use crate::state::{CockpitModel, ConnectionState, PaneLayout, View};

verus! {

/// Whether nothing lies over the cockpit.
pub open spec fn is_bare(console: ConsoleModel) -> bool {
    &&& console.composer is None
    &&& console.confirmation is None
    &&& console.palette is None
    &&& !console.state.show_help
}

/// Where nothing lies over the cockpit, letters begin the commands that the help names and change
/// nothing themselves.
pub proof fn letters_begin_their_commands(console: ConsoleModel, press: KeyPress)
    requires
        is_bare(console),
    ensures
        press.key == Key::Char('a') ==> console.pressed(press) == (
            console,
            Decision::Command(AvailableCommand::Attach),
        ),
        press.key == Key::Char('d') ==> console.pressed(press) == (
            console,
            Decision::Command(AvailableCommand::Detach),
        ),
        press.key == Key::Char('c') ==> console.pressed(press) == (
            console,
            Decision::Command(AvailableCommand::ClaimControl),
        ),
        press.key == Key::Char('x') ==> console.pressed(press) == (
            console,
            Decision::Command(AvailableCommand::ReleaseControl),
        ),
        press.key == Key::Char('q') ==> console.pressed(press) == (console, Decision::Quit),
{
}

/// Where nothing lies over the cockpit, the number keys show the seven views.
pub proof fn numbers_show_the_views(console: ConsoleModel, press: KeyPress)
    requires
        is_bare(console),
    ensures
        ({
            let shown = console.pressed(press).0.state.view;
            &&& press.key == Key::Char('1') ==> shown == View::Overview
            &&& press.key == Key::Char('2') ==> shown == View::Runs
            &&& press.key == Key::Char('3') ==> shown == View::Sessions
            &&& press.key == Key::Char('4') ==> shown == View::Approvals
            &&& press.key == Key::Char('5') ==> shown == View::Models
            &&& press.key == Key::Char('6') ==> shown == View::Failures
            &&& press.key == Key::Char('7') ==> shown == View::Receipts
            &&& press.key == Key::Char('8') || press.key == Key::Char('0') || press.key
                == Key::Char('9') ==> console.pressed(press).0 == console
        }),
{
}

/// Where nothing lies over the cockpit, the arrows move the selection, the brackets and the tab
/// keys move the focus, and a shifted arrow moves the focused pane.
pub proof fn arrows_and_brackets_move(console: ConsoleModel, press: KeyPress)
    requires
        is_bare(console),
    ensures
        ({
            let after = console.pressed(press).0.state;
            let state = console.state;
            &&& press.key == Key::Up ==> after == state.moved_selection(-1)
            &&& press.key == Key::Down ==> after == state.moved_selection(1)
            &&& press.key == Key::Char(']') || press.key == Key::Tab ==> after
                == state.focus_moved(1)
            &&& press.key == Key::Char('[') || press.key == Key::BackTab ==> after
                == state.focus_moved(-1)
            &&& press.key == Key::Left && press.shift ==> after == state.focus_reordered(-1)
            &&& press.key == Key::Right && press.shift ==> after == state.focus_reordered(1)
            &&& (press.key == Key::Left || press.key == Key::Right) && !press.shift ==> after
                == state
            &&& press.key == Key::Enter || press.key == Key::Esc || press.key == Key::Backspace
                || press.key == Key::Other ==> console.pressed(press) == (
                console,
                Decision::Continue,
            )
            &&& !(press.key is Char) ==> console.pressed(press).1 == Decision::Continue
        }),
{
}

/// Where nothing lies over the cockpit, `?` opens the help, `h` turns the contrast over, `r`
/// reconnects, `l` changes the layout and `P` turns the focused pin over.
pub proof fn letters_change_the_screen(console: ConsoleModel, press: KeyPress)
    requires
        is_bare(console),
    ensures
        ({
            let (after, decision) = console.pressed(press);
            let state = console.state;
            &&& press.key == Key::Char('?') ==> after.state == CockpitModel {
                show_help: true,
                ..state
            }
            &&& press.key == Key::Char('h') ==> after.state == CockpitModel {
                high_contrast: !state.high_contrast,
                ..state
            }
            &&& press.key == Key::Char('r') ==> after.state.connection
                == ConnectionState::Reconnecting && after.state.panes == state.panes
                && after.state.overview == state.overview
            &&& press.key == Key::Char('l') ==> after.state.pane_layout != state.pane_layout
                && after.state.panes == state.panes
            &&& press.key == Key::Char('P') ==> after.state == state.pin_toggled()
            &&& press.key == Key::Char('p') ==> after.palette is Some && after.palette->0.selected
                == 0 && after.palette->0.commands == state.offers() && after.state == state
            &&& press.key == Key::Char('i') ==> match state.composed_for_selection() {
                Ok(composer) => after.composer == Some(composer) && after.state == state,
                Err(_) => after.composer is None && after.state.panes == state.panes,
            }
            &&& press.key == Key::Char('?') || press.key == Key::Char('h') || press.key
                == Key::Char('r') || press.key == Key::Char('l') || press.key == Key::Char('P')
                || press.key == Key::Char('p') || press.key == Key::Char('i') ==> decision
                == Decision::Continue
        }),
{
}

/// The layouts come round in five steps and no fewer: grid, rows, columns, tabs, focused.
pub proof fn layouts_come_in_order()
    ensures
        PaneLayout::Grid.successor() == PaneLayout::Rows,
        PaneLayout::Rows.successor() == PaneLayout::Columns,
        PaneLayout::Columns.successor() == PaneLayout::Tabs,
        PaneLayout::Tabs.successor() == PaneLayout::Focused,
        PaneLayout::Focused.successor() == PaneLayout::Grid,
{
}

/// What lies on top takes the key: an open composer before a confirmation, that before the
/// palette, that before the help. What lies below stays as it is.
pub proof fn the_top_takes_the_key(console: ConsoleModel, press: KeyPress)
    ensures
        ({
            let after = console.pressed(press).0;
            &&& console.composer is Some ==> after.confirmation == console.confirmation
                && after.palette == console.palette
            &&& console.composer is None && console.confirmation is Some ==> after.composer is None
                && after.palette == console.palette
            &&& console.composer is None && console.confirmation is None && console.palette is Some
                ==> after.composer is None && after.confirmation is None
            &&& console.composer is Some || console.confirmation is Some || console.palette is Some
                ==> {
                &&& after.state.show_help == console.state.show_help
                &&& after.state.view == console.state.view
                &&& after.state.panes == console.state.panes
                &&& after.state.focused_pane == console.state.focused_pane
                &&& after.state.connection == console.state.connection
                &&& after.state.selected_index == console.state.selected_index
                &&& console.pressed(press).1 != Decision::Quit
            }
        }),
{
}

/// While a text is composed, a character without control or alt asks to be added behind it, a
/// backspace takes the last one away, enter asks to confirm the text and closes the composer, and
/// escape drops it.
pub proof fn composer_edits_its_text(console: ConsoleModel, press: KeyPress, open: ComposerModel)
    requires
        console.composer == Some(open),
    ensures
        ({
            let (after, decision) = console.pressed(press);
            &&& press.key matches Key::Char(character) ==> if press.control || press.alt {
                after == console && decision == Decision::Continue
            } else {
                after == console && decision == Decision::CheckText(open.text + seq![character])
            }
            &&& press.key == Key::Backspace ==> {
                &&& decision == Decision::Continue
                &&& after.composer is Some
                &&& after.composer->0.target == open.target
                &&& after.composer->0.action == open.action
                &&& after.composer->0.expected_revision == open.expected_revision
                &&& open.text.len() > 0 ==> after.composer->0.text == open.text.take(
                    open.text.len() - 1,
                )
                &&& open.text.len() == 0 ==> after.composer->0.text.len() == 0
            }
            &&& press.key == Key::Enter ==> after.composer is None && decision == Decision::Compose(
                open,
            )
            &&& press.key == Key::Esc ==> after.composer is None && decision == Decision::Continue
            &&& !(press.key is Char) && press.key != Key::Backspace && press.key != Key::Enter
                && press.key != Key::Esc ==> after == console && decision == Decision::Continue
        }),
{
    if press.key is Char {
        assert(open.text.push(press.key->0) =~= open.text + seq![press.key->0]);
    }
    if open.text.len() > 0 {
        assert(open.text.drop_last() =~= open.text.take(open.text.len() - 1));
    }
}

/// A longer text is taken where the platform accepts it, for the same target and action, and
/// otherwise the text stays as it was.
pub proof fn accepted_text_is_taken(
    console: ConsoleModel,
    open: ComposerModel,
    candidate: Seq<char>,
    accepted: bool,
)
    requires
        console.composer == Some(open),
    ensures
        ({
            let after = console.texted(candidate, accepted);
            &&& after.composer is Some
            &&& accepted ==> after.composer->0.text == candidate && after.state == console.state
            &&& !accepted ==> after.composer == console.composer
            &&& after.composer->0.target == open.target
            &&& after.composer->0.action == open.action
            &&& after.composer->0.expected_revision == open.expected_revision
            &&& after.confirmation == console.confirmation
            &&& after.palette == console.palette
            &&& after.state.panes == console.state.panes
        }),
{
}

/// A mutation that was composed waits for its confirmation; where there is none, the open
/// confirmation stays.
pub proof fn composed_mutation_waits(console: ConsoleModel, pending: Option<PendingModel>)
    ensures
        pending is Some ==> console.asking(pending).confirmation == pending
            && console.asking(pending).state == console.state,
        pending is None ==> console.asking(pending).confirmation == console.confirmation
            && console.asking(pending).state.panes == console.state.panes,
        console.asking(pending).composer == console.composer,
        console.asking(pending).palette == console.palette,
{
}

/// A waiting mutation is confirmed by `y`, withdrawn by `n` or escape, and kept by every other
/// key. Withdrawing sends nothing.
pub proof fn confirmation_is_answered(console: ConsoleModel, press: KeyPress, pending: PendingModel)
    requires
        console.composer is None,
        console.confirmation == Some(pending),
    ensures
        ({
            let (after, decision) = console.pressed(press);
            let yes = press.key == Key::Char('y') || press.key == Key::Char('Y');
            let no = press.key == Key::Char('n') || press.key == Key::Char('N') || press.key
                == Key::Esc;
            &&& yes ==> decision == Decision::Confirmed(pending) && after.confirmation is None
                && after.state == console.state
            &&& no ==> decision == Decision::Continue && after.confirmation is None
            &&& !yes && !no ==> decision == Decision::Continue && after == console
        }),
{
}

/// In the palette the arrows move the choice by one and stop at the ends, enter begins the chosen
/// command and closes the palette, and escape or `p` closes it.
pub proof fn palette_is_chosen_from(console: ConsoleModel, press: KeyPress)
    requires
        console.composer is None,
        console.confirmation is None,
        console.palette is Some,
        console.palette->0.selected < console.palette->0.commands.len(),
    ensures
        ({
            let open = console.palette->0;
            let (after, decision) = console.pressed(press);
            &&& press.key == Key::Down && open.selected + 1 < open.commands.len()
                ==> after.palette->0.selected == open.selected + 1
            &&& press.key == Key::Down && open.selected + 1 == open.commands.len()
                ==> after.palette->0.selected == open.selected
            &&& press.key == Key::Up && open.selected > 0 ==> after.palette->0.selected
                == open.selected - 1
            &&& press.key == Key::Up && open.selected == 0 ==> after.palette->0.selected == 0
            &&& press.key == Key::Up || press.key == Key::Down ==> after.palette is Some
                && after.palette->0.commands == open.commands && decision == Decision::Continue
            &&& press.key == Key::Enter ==> after.palette is None && decision == Decision::Command(
                open.commands[open.selected as int],
            )
            &&& press.key == Key::Esc || press.key == Key::Char('p') ==> after.palette is None
                && decision == Decision::Continue
            &&& press.key != Key::Up && press.key != Key::Down && press.key != Key::Enter
                && press.key != Key::Esc && press.key != Key::Char('p') ==> after == console
                && decision == Decision::Continue
            &&& after.state == console.state
        }),
{
}

/// The help is closed by escape or `?`, and takes every other key without doing anything.
pub proof fn help_is_read(console: ConsoleModel, press: KeyPress)
    requires
        console.composer is None,
        console.confirmation is None,
        console.palette is None,
        console.state.show_help,
    ensures
        ({
            let (after, decision) = console.pressed(press);
            let closes = press.key == Key::Esc || press.key == Key::Char('?');
            &&& closes ==> after.state == CockpitModel { show_help: false, ..console.state }
            &&& !closes ==> after == console
            &&& decision == Decision::Continue
        }),
{
}

/// A command withdraws an open confirmation only where it asks for a mutation that does not fit
/// the selected record.
pub proof fn misfit_commands_withdraw(state: CockpitModel, command: AvailableCommand)
    ensures
        state.withdraws(command) ==> state.connection == ConnectionState::Live && (
        state.selected() matches Some(record) && match command {
            AvailableCommand::StartRun | AvailableCommand::StopRun => !(record.resource.kind
                is Run),
            AvailableCommand::GrantApproval
            | AvailableCommand::DenyApproval => !(record.resource.kind is Approval),
            _ => false,
        }),
        state.connection == ConnectionState::Live && (state.selected() matches Some(record)
            && !(record.resource.kind is Run)) ==> state.withdraws(AvailableCommand::StartRun)
            && state.withdraws(AvailableCommand::StopRun),
        state.connection == ConnectionState::Live && (state.selected() matches Some(record)
            && !(record.resource.kind is Approval)) ==> state.withdraws(
            AvailableCommand::GrantApproval,
        ) && state.withdraws(AvailableCommand::DenyApproval),
{
}

} // verus!
