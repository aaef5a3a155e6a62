//! The dispatcher: from one input and the current detail level to the change
//! asked of the visible region and the detail level that follows.
//!
//! The dispatcher keeps no memory. The caller owns the visible region and the
//! detail level, applies what a step returns, and hands the new level back
//! with the next input.

use vstd::prelude::*;
use crate::command::{command_for_key, key_command, Command};
use crate::detail::{can_increase_detail, decrease_detail, increase_detail, increase_fits, MIN_DETAIL};
use crate::input::{InputEvent, Key};
use crate::view::{ViewChange, PAN_PIXELS, ZOOM_IN_PERCENT, ZOOM_IN_SLOW_PERCENT, ZOOM_OUT_PERCENT};

verus! {

/// What the caller does after an event.
#[derive(Clone, Copy, Debug, PartialEq, Eq, Structural)]
pub enum Step {
    /// Go on: apply `change` to the visible region and take `detail_level` as
    /// the detail level from here on.
    Continue { change: ViewChange, detail_level: i32 },
    /// Stop.
    Quit,
}

/// The command that an event gives: that of the key where a key went down,
/// none for every other event.
pub open spec fn event_command(event: InputEvent) -> Command {
    match event {
        InputEvent::KeyPressed(key) => key_command(key),
        _ => Command::Unrecognized,
    }
}

/// Whether an event ends the session: the window was closed, or the key that
/// went down is bound to quitting.
pub open spec fn event_quits(event: InputEvent) -> bool {
    event == InputEvent::Closed || event_command(event).quits()
}

/// Whether the detail level that `command` leaves after `level` is a machine
/// integer. Only a step up can fail to be one.
pub open spec fn command_fits(command: Command, level: int) -> bool {
    command == Command::IncreaseDetail ==> increase_fits(level)
}

/// Whether `step` is what follows `event` at detail level `level`.
pub open spec fn is_step_after(step: Step, event: InputEvent, level: int) -> bool {
    match step {
        Step::Quit => event_quits(event),
        Step::Continue { change, detail_level } => {
            &&& !event_quits(event)
            &&& change == event_command(event).view_change()
            &&& detail_level == event_command(event).detail_after(level)
        },
    }
}

/// The detail level after the commands of `commands`, carried out in order
/// from `level`.
pub open spec fn detail_after_all(commands: Seq<Command>, level: int) -> int
    decreases commands.len(),
{
    if commands.len() == 0 {
        level
    } else {
        commands.last().detail_after(detail_after_all(commands.drop_last(), level))
    }
}

/// Carries out one command: returns the change it asks of the visible region
/// and the detail level it leaves.
pub fn dispatch(command: Command, detail_level: i32) -> (next: (ViewChange, i32))
    requires
        command_fits(command, detail_level as int),
    ensures
        next.0 == command.view_change(),
        next.1 == command.detail_after(detail_level as int),
{
    let change = match command {
        Command::ZoomIn => ViewChange::Zoom { percent: ZOOM_IN_PERCENT },
        Command::ZoomInSlow => ViewChange::Zoom { percent: ZOOM_IN_SLOW_PERCENT },
        Command::ZoomOut => ViewChange::Zoom { percent: ZOOM_OUT_PERCENT },
        Command::PanLeft => ViewChange::MoveLeft { pixels: PAN_PIXELS },
        Command::PanRight => ViewChange::MoveLeft { pixels: -PAN_PIXELS },
        Command::PanUp => ViewChange::MoveDown { pixels: -PAN_PIXELS },
        Command::PanDown => ViewChange::MoveDown { pixels: PAN_PIXELS },
        _ => ViewChange::Keep,
    };
    let next_level = match command {
        Command::IncreaseDetail => increase_detail(detail_level),
        Command::DecreaseDetail => decrease_detail(detail_level),
        _ => detail_level,
    };
    (change, next_level)
}

/// Carries out the command bound to `key`.
pub fn match_input(key: Key, detail_level: i32) -> (next: (ViewChange, i32))
    requires
        command_fits(key_command(key), detail_level as int),
    ensures
        next.0 == key_command(key).view_change(),
        next.1 == key_command(key).detail_after(detail_level as int),
{
    dispatch(command_for_key(key), detail_level)
}

/// Decides what follows one event. Only a key going down acts; a key that is
/// held or comes up changes nothing, and a closed window ends the session.
pub fn handle_event(event: InputEvent, detail_level: i32) -> (step: Step)
    requires
        command_fits(event_command(event), detail_level as int),
    ensures
        is_step_after(step, event, detail_level as int),
{
    match event {
        InputEvent::Closed => Step::Quit,
        InputEvent::KeyHeld(_) | InputEvent::KeyReleased(_) => {
            Step::Continue { change: ViewChange::Keep, detail_level }
        },
        InputEvent::KeyPressed(key) => {
            match command_for_key(key) {
                Command::Quit => Step::Quit,
                _ => {
                    let next = match_input(key, detail_level);
                    Step::Continue { change: next.0, detail_level: next.1 }
                },
            }
        },
    }
}

/// Decides what follows one event, at any detail level: `None` where the
/// event asks for a step up that no machine integer holds, and otherwise what
/// `handle_event` returns.
pub fn handle_event_checked(event: InputEvent, detail_level: i32) -> (step: Option<Step>)
    ensures
        step is Some <==> command_fits(event_command(event), detail_level as int),
        step matches Some(taken) ==> is_step_after(taken, event, detail_level as int),
{
    let fits = match event {
        InputEvent::KeyPressed(key) => match command_for_key(key) {
            Command::IncreaseDetail => can_increase_detail(detail_level),
            _ => true,
        },
        _ => true,
    };
    if fits {
        Some(handle_event(event, detail_level))
    } else {
        None
    }
}

/// No command changes both the visible region and the detail level.
pub proof fn lemma_command_has_one_effect(command: Command, level: int)
    ensures
        command.view_change() == ViewChange::Keep || command.detail_after(level) == level,
{
}

/// Repeated steps down never lead below the minimum: after one or more
/// commands, all of them to decrease the detail, the level is at least
/// `MIN_DETAIL`, whatever it was before.
pub proof fn lemma_repeated_decrease_keeps_minimum(commands: Seq<Command>, level: int)
    requires
        commands.len() > 0,
        forall|i: int| 0 <= i < commands.len() ==> commands[i] == Command::DecreaseDetail,
    ensures
        detail_after_all(commands, level) >= MIN_DETAIL,
{
}

/// The detail level never falls below the minimum: from a level that is not
/// below it, no sequence of commands leads below it.
pub proof fn lemma_detail_stays_above_minimum(commands: Seq<Command>, level: int)
    requires
        level >= MIN_DETAIL,
    ensures
        detail_after_all(commands, level) >= MIN_DETAIL,
    decreases commands.len(),
{
    if commands.len() > 0 {
        lemma_detail_stays_above_minimum(commands.drop_last(), level);
    }
}

} // verus!
