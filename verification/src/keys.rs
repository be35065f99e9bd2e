//! What each key does.
//!
//! A key changes what is shown at once. What it asks of the platform or of the authority is
//! handed back as a [`KeyOutcome`].

use vstd::prelude::*;
use vstd::view::View as _;

use crate::commands::{
    available_commands, open_composer_for_selection, viewed, AvailableCommand, ComposerModel,
    PaletteModel, PaletteState, PendingAction, PendingModel, RequestComposer,
};
use crate::state::{CockpitModel, CockpitState, ConnectionState, View};

verus! {

/// A key.
#[derive(Clone, Copy, Debug, PartialEq, Eq)]
pub enum Key {
    Enter,
    Esc,
    Backspace,
    Up,
    Down,
    Left,
    Right,
    Tab,
    BackTab,
    Char(char),
    Other,
}

/// A pressed key and what was held with it.
#[derive(Clone, Copy, Debug, PartialEq, Eq)]
pub struct KeyPress {
    pub key: Key,
    pub shift: bool,
    pub control: bool,
    pub alt: bool,
}

impl KeyPress {
    /// Whether the key moves the focused pane among the panes where nothing lies over them.
    pub open spec fn moves_panes(self) -> bool {
        self.shift && (self.key is Left || self.key is Right)
    }
}

/// The cockpit and what lies over it.
#[derive(Clone, Debug)]
pub struct Console {
    pub state: CockpitState,
    pub palette: Option<PaletteState>,
    pub confirmation: Option<PendingAction>,
    pub composer: Option<RequestComposer>,
}

/// The cockpit and what lies over it, over sequences.
#[verifier::ext_equal]
pub struct ConsoleModel {
    pub state: CockpitModel,
    pub palette: Option<PaletteModel>,
    pub confirmation: Option<PendingModel>,
    pub composer: Option<ComposerModel>,
}

impl vstd::view::View for Console {
    type V = ConsoleModel;

    open spec fn view(&self) -> ConsoleModel {
        ConsoleModel {
            state: self.state@,
            palette: viewed(self.palette),
            confirmation: viewed(self.confirmation),
            composer: viewed(self.composer),
        }
    }
}

/// What a key asks for.
#[derive(Clone, Debug, PartialEq, Eq)]
pub enum KeyOutcome {
    /// Nothing more.
    Continue,
    /// Leave.
    Quit,
    /// Whether the platform accepts this text.
    CheckText(String),
    /// Whether the platform accepts the composed text, and an identity for its submission.
    Compose(RequestComposer),
    /// Carry a confirmed mutation out.
    Confirmed(PendingAction),
    /// Begin a command.
    Command(AvailableCommand),
}

/// What a key asks for, over sequences.
#[verifier::ext_equal]
pub enum Decision {
    Continue,
    Quit,
    CheckText(Seq<char>),
    Compose(ComposerModel),
    Confirmed(PendingModel),
    Command(AvailableCommand),
}

impl vstd::view::View for KeyOutcome {
    type V = Decision;

    open spec fn view(&self) -> Decision {
        match self {
            KeyOutcome::Continue => Decision::Continue,
            KeyOutcome::Quit => Decision::Quit,
            KeyOutcome::CheckText(text) => Decision::CheckText(text@),
            KeyOutcome::Compose(composer) => Decision::Compose(composer@),
            KeyOutcome::Confirmed(pending) => Decision::Confirmed(pending@),
            KeyOutcome::Command(command) => Decision::Command(*command),
        }
    }
}

impl ConsoleModel {
    /// The console with other words in the status line.
    pub open spec fn saying(self, status: Seq<char>) -> ConsoleModel {
        ConsoleModel { state: self.state.saying(status), ..self }
    }

    /// What a key does while a text is composed.
    pub open spec fn pressed_composing(self, press: KeyPress) -> (ConsoleModel, Decision) {
        let open = self.composer->0;
        match press.key {
            Key::Esc => (
                ConsoleModel { composer: None, ..self }.saying(
                    "composition cancelled before submission"@,
                ),
                Decision::Continue,
            ),
            Key::Enter => (ConsoleModel { composer: None, ..self }, Decision::Compose(open)),
            Key::Backspace => (
                ConsoleModel {
                    composer: Some(
                        ComposerModel {
                            text: if open.text.len() == 0 {
                                open.text
                            } else {
                                open.text.drop_last()
                            },
                            ..open
                        },
                    ),
                    ..self
                },
                Decision::Continue,
            ),
            Key::Char(character) => if press.control || press.alt {
                (self, Decision::Continue)
            } else {
                (self, Decision::CheckText(open.text.push(character)))
            },
            _ => (self, Decision::Continue),
        }
    }

    /// What a key does while a mutation waits for its confirmation.
    pub open spec fn pressed_confirming(self, press: KeyPress) -> (ConsoleModel, Decision) {
        match press.key {
            Key::Char(character) => if character == 'y' || character == 'Y' {
                (
                    ConsoleModel { confirmation: None, ..self },
                    Decision::Confirmed(self.confirmation->0),
                )
            } else if character == 'n' || character == 'N' {
                (self.cancelled(), Decision::Continue)
            } else {
                (self, Decision::Continue)
            },
            Key::Esc => (self.cancelled(), Decision::Continue),
            _ => (self, Decision::Continue),
        }
    }

    /// The console with the open confirmation withdrawn.
    pub open spec fn cancelled(self) -> ConsoleModel {
        ConsoleModel { confirmation: None, ..self }.saying(
            "mutation cancelled before submission"@,
        )
    }

    /// What a key does while the palette is open.
    pub open spec fn pressed_choosing(self, press: KeyPress) -> (ConsoleModel, Decision) {
        let open = self.palette->0;
        let last: int = if open.commands.len() == 0 {
            0
        } else {
            open.commands.len() - 1
        };
        match press.key {
            Key::Up => (
                ConsoleModel {
                    palette: Some(
                        PaletteModel {
                            selected: if open.selected == 0 {
                                0
                            } else {
                                (open.selected - 1) as nat
                            },
                            ..open
                        },
                    ),
                    ..self
                },
                Decision::Continue,
            ),
            Key::Down => (
                ConsoleModel {
                    palette: Some(
                        PaletteModel {
                            selected: if open.selected + 1 <= last {
                                open.selected + 1
                            } else {
                                last as nat
                            },
                            ..open
                        },
                    ),
                    ..self
                },
                Decision::Continue,
            ),
            Key::Enter => if open.selected < open.commands.len() {
                (
                    ConsoleModel { palette: None, ..self },
                    Decision::Command(open.commands[open.selected as int]),
                )
            } else {
                (self, Decision::Continue)
            },
            Key::Esc => (ConsoleModel { palette: None, ..self }, Decision::Continue),
            Key::Char(character) => if character == 'p' {
                (ConsoleModel { palette: None, ..self }, Decision::Continue)
            } else {
                (self, Decision::Continue)
            },
            _ => (self, Decision::Continue),
        }
    }

    /// The console with another state.
    pub open spec fn showing(self, state: CockpitModel) -> ConsoleModel {
        ConsoleModel { state, ..self }
    }

    /// What a letter, digit or sign does while nothing lies over the cockpit.
    pub open spec fn typed(self, character: char) -> (ConsoleModel, Decision) {
        let state = self.state;
        if character == 'q' {
            (self, Decision::Quit)
        } else if character == '?' {
            (self.showing(CockpitModel { show_help: true, ..state }), Decision::Continue)
        } else if character == 'h' {
            (
                self.showing(CockpitModel { high_contrast: !state.high_contrast, ..state }),
                Decision::Continue,
            )
        } else if character == 'i' {
            match state.composed_for_selection() {
                Ok(composer) => (
                    ConsoleModel { composer: Some(composer), ..self },
                    Decision::Continue,
                ),
                Err(words) => (self.saying(words), Decision::Continue),
            }
        } else if character == 'p' {
            (
                ConsoleModel {
                    palette: Some(PaletteModel { commands: state.offers(), selected: 0 }),
                    ..self
                },
                Decision::Continue,
            )
        } else if character == 'r' {
            (
                self.showing(
                    CockpitModel { connection: ConnectionState::Reconnecting, ..state }.saying(
                        "manual authoritative resync requested"@,
                    ),
                ),
                Decision::Continue,
            )
        } else if character == 'l' {
            (
                self.showing(
                    CockpitModel { pane_layout: state.pane_layout.successor(), ..state },
                ),
                Decision::Continue,
            )
        } else if character == 'P' {
            (self.showing(state.pin_toggled()), Decision::Continue)
        } else if character == 'a' {
            (self, Decision::Command(AvailableCommand::Attach))
        } else if character == 'd' {
            (self, Decision::Command(AvailableCommand::Detach))
        } else if character == 'c' {
            (self, Decision::Command(AvailableCommand::ClaimControl))
        } else if character == 'x' {
            (self, Decision::Command(AvailableCommand::ReleaseControl))
        } else if character == ']' {
            (self.showing(state.focus_moved(1)), Decision::Continue)
        } else if character == '[' {
            (self.showing(state.focus_moved(-1)), Decision::Continue)
        } else if '1' <= character <= '7' {
            (
                self.showing(state.viewing(View::all()[character as int - '1' as int])),
                Decision::Continue,
            )
        } else {
            (self, Decision::Continue)
        }
    }

    /// What a key does while nothing lies over the cockpit.
    pub open spec fn pressed_navigating(self, press: KeyPress) -> (ConsoleModel, Decision) {
        let state = self.state;
        match press.key {
            Key::Char(character) => self.typed(character),
            Key::Up => (self.showing(state.moved_selection(-1)), Decision::Continue),
            Key::Down => (self.showing(state.moved_selection(1)), Decision::Continue),
            Key::Tab => (self.showing(state.focus_moved(1)), Decision::Continue),
            Key::BackTab => (self.showing(state.focus_moved(-1)), Decision::Continue),
            Key::Left => if press.shift {
                (self.showing(state.focus_reordered(-1)), Decision::Continue)
            } else {
                (self, Decision::Continue)
            },
            Key::Right => if press.shift {
                (self.showing(state.focus_reordered(1)), Decision::Continue)
            } else {
                (self, Decision::Continue)
            },
            _ => (self, Decision::Continue),
        }
    }

    /// What a key does while the help is open.
    pub open spec fn pressed_reading(self, press: KeyPress) -> (ConsoleModel, Decision) {
        let closes = match press.key {
            Key::Esc => true,
            Key::Char(character) => character == '?',
            _ => false,
        };
        if closes {
            (
                self.showing(CockpitModel { show_help: false, ..self.state }),
                Decision::Continue,
            )
        } else {
            (self, Decision::Continue)
        }
    }

    /// The console once it is known whether the platform accepts a longer text.
    pub open spec fn texted(self, candidate: Seq<char>, accepted: bool) -> ConsoleModel {
        if accepted {
            match self.composer {
                Some(open) => ConsoleModel {
                    composer: Some(ComposerModel { text: candidate, ..open }),
                    ..self
                },
                None => self,
            }
        } else {
            self.saying("request text reached the platform bound"@)
        }
    }

    /// The console once a composed text has become a mutation to confirm, or could not.
    pub open spec fn asking(self, pending: Option<PendingModel>) -> ConsoleModel {
        match pending {
            Some(pending) => ConsoleModel { confirmation: Some(pending), ..self },
            None => self.saying("request text is required"@),
        }
    }

    /// Whether a key moves the focused pane among the panes.
    pub open spec fn reorders(self, press: KeyPress) -> bool {
        &&& press.moves_panes()
        &&& self.composer is None
        &&& self.confirmation is None
        &&& self.palette is None
        &&& !self.state.show_help
    }

    /// What a key does: what lies on top takes it.
    pub open spec fn pressed(self, press: KeyPress) -> (ConsoleModel, Decision) {
        if self.composer is Some {
            self.pressed_composing(press)
        } else if self.confirmation is Some {
            self.pressed_confirming(press)
        } else if self.palette is Some {
            self.pressed_choosing(press)
        } else if self.state.show_help {
            self.pressed_reading(press)
        } else {
            self.pressed_navigating(press)
        }
    }
}

/// Whether a key suspends the process.
pub fn suspends(press: KeyPress) -> (suspends: bool)
    ensures
        suspends == (press.key == Key::Char('z') && press.control),
{
    match press.key {
        Key::Char(character) => character == 'z' && press.control,
        _ => false,
    }
}

/// Whether a key moves the focused pane among the panes. Only such a key needs the focus to stand
/// on one of them.
pub fn reorders(press: KeyPress, console: &Console) -> (reorders: bool)
    ensures
        reorders == console@.reorders(press),
{
    let arrow = match press.key {
        Key::Left | Key::Right => true,
        _ => false,
    };
    arrow && press.shift && console.composer.is_none() && console.confirmation.is_none()
        && console.palette.is_none() && !console.state.show_help
}

/// The view behind a number key.
fn numbered_view(character: char) -> (view: Option<View>)
    ensures
        if '1' <= character <= '7' {
            view == Some(View::all()[character as int - '1' as int])
        } else {
            view is None
        },
{
    if '1' <= character && character <= '7' {
        View::at((character as u32 - '1' as u32) as usize)
    } else {
        None
    }
}

fn press_composing(press: KeyPress, console: &mut Console) -> (outcome: KeyOutcome)
    requires
        old(console).composer is Some,
    ensures
        (final(console)@, outcome@) == old(console)@.pressed_composing(press),
{
    match press.key {
        Key::Esc => {
            console.composer = None;
            console.state.status = "composition cancelled before submission".to_owned();
            KeyOutcome::Continue
        },
        Key::Enter => match console.composer.take() {
            Some(composed) => KeyOutcome::Compose(composed),
            None => KeyOutcome::Continue,
        },
        Key::Backspace => {
            if let Some(open) = &mut console.composer {
                open.text.pop();
            }
            KeyOutcome::Continue
        },
        Key::Char(character) => {
            if press.control || press.alt {
                return KeyOutcome::Continue;
            }
            match &console.composer {
                Some(open) => {
                    let mut candidate = open.text.clone();
                    candidate.push(character);
                    KeyOutcome::CheckText(candidate)
                },
                None => KeyOutcome::Continue,
            }
        },
        _ => KeyOutcome::Continue,
    }
}

fn press_confirming(press: KeyPress, console: &mut Console) -> (outcome: KeyOutcome)
    requires
        old(console).confirmation is Some,
    ensures
        (final(console)@, outcome@) == old(console)@.pressed_confirming(press),
{
    let (confirms, cancels) = match press.key {
        Key::Char(character) => (
            character == 'y' || character == 'Y',
            character == 'n' || character == 'N',
        ),
        Key::Esc => (false, true),
        _ => (false, false),
    };
    if confirms {
        match console.confirmation.take() {
            Some(pending) => KeyOutcome::Confirmed(pending),
            None => KeyOutcome::Continue,
        }
    } else if cancels {
        console.confirmation = None;
        console.state.status = "mutation cancelled before submission".to_owned();
        KeyOutcome::Continue
    } else {
        KeyOutcome::Continue
    }
}

fn press_choosing(press: KeyPress, console: &mut Console) -> (outcome: KeyOutcome)
    requires
        old(console).palette is Some,
    ensures
        (final(console)@, outcome@) == old(console)@.pressed_choosing(press),
{
    let mut outcome = KeyOutcome::Continue;
    let mut closes = false;
    if let Some(open) = &mut console.palette {
        match press.key {
            Key::Up => {
                if open.selected > 0 {
                    open.selected = open.selected - 1;
                }
            },
            Key::Down => {
                let last: usize = if open.commands.len() == 0 {
                    0
                } else {
                    open.commands.len() - 1
                };
                open.selected = if open.selected < last {
                    open.selected + 1
                } else {
                    last
                };
            },
            Key::Enter => {
                if open.selected < open.commands.len() {
                    outcome = KeyOutcome::Command(open.commands[open.selected]);
                    closes = true;
                }
            },
            Key::Esc => {
                closes = true;
            },
            Key::Char(character) => {
                closes = character == 'p';
            },
            _ => {},
        }
    }
    if closes {
        console.palette = None;
    }
    outcome
}

fn press_typed(character: char, console: &mut Console) -> (outcome: KeyOutcome)
    ensures
        (final(console)@, outcome@) == old(console)@.typed(character),
{
    if character == 'q' {
        return KeyOutcome::Quit;
    } else if character == '?' {
        console.state.show_help = true;
    } else if character == 'h' {
        console.state.high_contrast = !console.state.high_contrast;
    } else if character == 'i' {
        open_composer_for_selection(&mut console.state, &mut console.composer);
    } else if character == 'p' {
        let commands = available_commands(&console.state);
        console.palette = Some(PaletteState { commands, selected: 0 });
    } else if character == 'r' {
        console.state.connection = ConnectionState::Reconnecting;
        console.state.status = "manual authoritative resync requested".to_owned();
    } else if character == 'l' {
        console.state.pane_layout = console.state.pane_layout.next();
    } else if character == 'P' {
        console.state.toggle_focused_pin();
    } else if character == 'a' {
        return KeyOutcome::Command(AvailableCommand::Attach);
    } else if character == 'd' {
        return KeyOutcome::Command(AvailableCommand::Detach);
    } else if character == 'c' {
        return KeyOutcome::Command(AvailableCommand::ClaimControl);
    } else if character == 'x' {
        return KeyOutcome::Command(AvailableCommand::ReleaseControl);
    } else if character == ']' {
        console.state.focus_next_pane(1);
    } else if character == '[' {
        console.state.focus_next_pane(-1);
    } else if let Some(view) = numbered_view(character) {
        console.state.set_view(view);
    }
    KeyOutcome::Continue
}

fn press_navigating(press: KeyPress, console: &mut Console) -> (outcome: KeyOutcome)
    requires
        press.moves_panes() ==> old(console)@.state.panes.len() < 2
            || old(console)@.state.has_focus(),
    ensures
        (final(console)@, outcome@) == old(console)@.pressed_navigating(press),
{
    match press.key {
        Key::Char(character) => {
            return press_typed(character, console);
        },
        Key::Up => console.state.move_selection(-1),
        Key::Down => console.state.move_selection(1),
        Key::Tab => console.state.focus_next_pane(1),
        Key::BackTab => console.state.focus_next_pane(-1),
        Key::Left => {
            if press.shift {
                console.state.reorder_focused_pane(-1);
            }
        },
        Key::Right => {
            if press.shift {
                console.state.reorder_focused_pane(1);
            }
        },
        _ => {},
    }
    KeyOutcome::Continue
}

/// Takes a key. What lies on top takes it: the composer, then the confirmation, then the
/// palette, then the help, then the cockpit itself.
pub fn handle_key(press: KeyPress, console: &mut Console) -> (outcome: KeyOutcome)
    requires
        old(console)@.reorders(press) ==> old(console)@.state.panes.len() < 2
            || old(console)@.state.has_focus(),
    ensures
        (final(console)@, outcome@) == old(console)@.pressed(press),
{
    if console.composer.is_some() {
        press_composing(press, console)
    } else if console.confirmation.is_some() {
        press_confirming(press, console)
    } else if console.palette.is_some() {
        press_choosing(press, console)
    } else if console.state.show_help {
        let closes = match press.key {
            Key::Esc => true,
            Key::Char(character) => character == '?',
            _ => false,
        };
        if closes {
            console.state.show_help = false;
        }
        KeyOutcome::Continue
    } else {
        press_navigating(press, console)
    }
}

/// Takes over whether the platform accepts a longer text for the open composer.
pub fn text_checked(console: &mut Console, candidate: String, accepted: bool)
    ensures
        final(console)@ == old(console)@.texted(candidate@, accepted),
{
    if accepted {
        if let Some(open) = &mut console.composer {
            open.text = candidate;
        }
    } else {
        console.state.status = "request text reached the platform bound".to_owned();
    }
}

/// Takes over whether the platform accepts a composed text, and the identity for its submission:
/// the mutation then waits for its confirmation.
pub fn composition_checked(
    console: &mut Console,
    composed: RequestComposer,
    accepted: bool,
    key: Option<String>,
)
    ensures
        final(console)@ == old(console)@.asking(composed@.pending(accepted, viewed(key))),
{
    match composed.into_pending(accepted, key) {
        Some(pending) => {
            console.confirmation = Some(pending);
        },
        None => {
            console.state.status = "request text is required".to_owned();
        },
    }
}

} // verus!
