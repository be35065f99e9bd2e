//! How the cockpit starts: which socket, which mode, and under which name.

use vstd::prelude::*;

use crate::text::{
    decimal, decimal_text, is_white_space, trim, trimmed, trimming_takes_the_inside,
    white_space_trims_to_nothing,
};

verus! {

/// The socket below the runtime directory.
pub const RUNTIME_SOCKET: &'static str = "automonique/admin.sock";

/// Where the platform socket is taken from.
#[derive(Clone, Debug, PartialEq, Eq)]
pub enum SocketChoice {
    /// The path that was asked for.
    Explicit(String),
    /// The path that the environment names.
    Environment,
    /// The usual place below the runtime directory.
    Runtime,
    /// Nowhere, and why.
    Missing(&'static str),
}

/// Whether the platform socket is taken from the right place: a path that was asked for wins over
/// the environment, and the environment over the usual place.
pub open spec fn chooses(
    explicit: Option<Seq<char>>,
    environment: bool,
    runtime: bool,
    choice: SocketChoice,
) -> bool {
    if explicit is Some && trimmed(explicit->0).len() > 0 {
        choice matches SocketChoice::Explicit(path) && path@ == trimmed(explicit->0)
    } else if environment {
        choice == SocketChoice::Environment
    } else if runtime {
        choice == SocketChoice::Runtime
    } else {
        choice matches SocketChoice::Missing(words) && words@
            == "no runtime directory; pass --socket or set AUTOMONIQUE_PLATFORM_SOCKET"@
    }
}

/// Where the platform socket is taken from: a path that was asked for wins over the environment,
/// and the environment over the usual place. A path of white space only counts as none.
pub fn platform_socket(explicit: Option<&str>, environment: bool, runtime: bool) -> (choice:
    SocketChoice)
    ensures
        chooses(
            match explicit {
                Some(path) => Some(path@),
                None => None,
            },
            environment,
            runtime,
            choice,
        ),
{
    if let Some(path) = explicit {
        let path = trim(path);
        if path.as_str().unicode_len() > 0 {
            return SocketChoice::Explicit(path);
        }
    }
    if environment {
        SocketChoice::Environment
    } else if runtime {
        SocketChoice::Runtime
    } else {
        SocketChoice::Missing(
            "no runtime directory; pass --socket or set AUTOMONIQUE_PLATFORM_SOCKET",
        )
    }
}

/// How the cockpit runs.
#[derive(Clone, Copy, Debug, PartialEq, Eq)]
pub enum StartMode {
    /// One snapshot as JSON.
    Json,
    /// The interactive cockpit.
    Cockpit,
    /// Not at all, and why.
    Unusable(&'static str),
}

/// Whether the cockpit runs in the right way.
pub open spec fn starts(
    json: bool,
    input_is_terminal: bool,
    output_is_terminal: bool,
    mode: StartMode,
) -> bool {
    if json {
        mode == StartMode::Json
    } else if input_is_terminal && output_is_terminal {
        mode == StartMode::Cockpit
    } else {
        mode matches StartMode::Unusable(words) && words@
            == "platform cockpit needs a terminal; use --json for a one-shot snapshot"@
    }
}

/// How the cockpit runs: JSON needs no terminal, and the cockpit needs one on both sides.
pub fn start_mode(json: bool, input_is_terminal: bool, output_is_terminal: bool) -> (mode: StartMode)
    ensures
        starts(json, input_is_terminal, output_is_terminal, mode),
{
    if json {
        StartMode::Json
    } else if input_is_terminal && output_is_terminal {
        StartMode::Cockpit
    } else {
        StartMode::Unusable(
            "platform cockpit needs a terminal; use --json for a one-shot snapshot",
        )
    }
}

/// The name under which a process is known as a client.
pub fn client_name(process: u32) -> (name: String)
    ensures
        name@ == "jcode-platform-"@ + decimal_text(process as nat),
{
    let mut name = "jcode-platform-".to_owned();
    name.append(decimal(process as u128).as_str());
    name
}

/// The time against which leases are held.
pub open spec fn millis_now(since_epoch: Option<u128>) -> i64 {
    match since_epoch {
        Some(millis) => if millis <= i64::MAX {
            millis as i64
        } else {
            i64::MAX
        },
        None => i64::MAX,
    }
}

/// The time against which leases are held, from the milliseconds since the epoch. A clock that
/// cannot be read, or that cannot be expressed, counts as the end of time: no lease outlives it.
pub fn now_millis(since_epoch: Option<u128>) -> (now: i64)
    ensures
        now == millis_now(since_epoch),
{
    match since_epoch {
        Some(millis) => if millis <= i64::MAX as u128 {
            millis as i64
        } else {
            i64::MAX
        },
        None => i64::MAX,
    }
}

/// A path that was asked for wins, whatever the environment and the runtime directory offer, and
/// is taken without the white space around it; white space alone counts as nothing asked for.
pub proof fn asked_path_wins(
    before: Seq<char>,
    path: Seq<char>,
    after: Seq<char>,
    environment: bool,
    runtime: bool,
    choice: SocketChoice,
)
    requires
        path.len() > 0,
        !is_white_space(path[0]),
        !is_white_space(path.last()),
        forall|i: int| 0 <= i < before.len() ==> is_white_space(#[trigger] before[i]),
        forall|i: int| 0 <= i < after.len() ==> is_white_space(#[trigger] after[i]),
    ensures
        chooses(Some(before + path + after), environment, runtime, choice) ==> (
        choice matches SocketChoice::Explicit(taken) && taken@ == path),
        chooses(Some(before), environment, runtime, choice) <==> chooses(
            None,
            environment,
            runtime,
            choice,
        ),
{
    trimming_takes_the_inside(before, path, after);
    white_space_trims_to_nothing(before);
}

/// Without a path that was asked for, the environment wins over the runtime directory, and without
/// either there is no socket.
pub proof fn environment_wins_over_the_usual_place(
    environment: bool,
    runtime: bool,
    choice: SocketChoice,
)
    requires
        chooses(None, environment, runtime, choice),
    ensures
        environment ==> choice == SocketChoice::Environment,
        !environment && runtime ==> choice == SocketChoice::Runtime,
        !environment && !runtime ==> choice is Missing,
{
}

/// JSON is written wherever it is asked for; the cockpit opens only with a terminal on both sides.
pub proof fn cockpit_needs_two_terminals(input: bool, output: bool, mode: StartMode)
    ensures
        starts(true, input, output, mode) ==> mode == StartMode::Json,
        starts(false, true, true, mode) ==> mode == StartMode::Cockpit,
        starts(false, input, output, mode) && !(input && output) ==> mode is Unusable,
{
}

/// The clock is read as it stands; one that cannot be read or expressed stands at the end of time,
/// behind every lease.
pub proof fn unreadable_clock_outlives_every_lease(millis: u128, expires_at: i64)
    ensures
        millis <= 0x7fff_ffff_ffff_ffff ==> millis_now(Some(millis)) == millis,
        millis > 0x7fff_ffff_ffff_ffff ==> millis_now(Some(millis)) >= expires_at,
        millis_now(None) >= expires_at,
{
}

} // verus!
