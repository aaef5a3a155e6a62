//! The commands of navigation, the keys bound to them, and what each command
//! does to the visible region and to the detail level.

use vstd::prelude::*;
use crate::detail::{decreased_detail, increased_detail};
use crate::input::Key;
use crate::view::{ViewChange, PAN_PIXELS, ZOOM_IN_PERCENT, ZOOM_IN_SLOW_PERCENT, ZOOM_OUT_PERCENT};

verus! {

/// A command of navigation. Several keys may give the same command.
#[derive(Clone, Copy, Debug, PartialEq, Eq, Structural)]
pub enum Command {
    ZoomIn,
    ZoomInSlow,
    ZoomOut,
    PanLeft,
    PanRight,
    PanUp,
    PanDown,
    IncreaseDetail,
    DecreaseDetail,
    Quit,
    /// What every key without a binding gives.
    Unrecognized,
}

impl Command {
    /// What the command asks of the visible region.
    pub open spec fn view_change(self) -> ViewChange {
        match self {
            Command::ZoomIn => ViewChange::Zoom { percent: ZOOM_IN_PERCENT },
            Command::ZoomInSlow => ViewChange::Zoom { percent: ZOOM_IN_SLOW_PERCENT },
            Command::ZoomOut => ViewChange::Zoom { percent: ZOOM_OUT_PERCENT },
            Command::PanLeft => ViewChange::MoveLeft { pixels: PAN_PIXELS },
            Command::PanRight => ViewChange::MoveLeft { pixels: (-PAN_PIXELS) as i32 },
            Command::PanUp => ViewChange::MoveDown { pixels: (-PAN_PIXELS) as i32 },
            Command::PanDown => ViewChange::MoveDown { pixels: PAN_PIXELS },
            _ => ViewChange::Keep,
        }
    }

    /// The detail level that the command leaves, given the level before it.
    pub open spec fn detail_after(self, level: int) -> int {
        match self {
            Command::IncreaseDetail => increased_detail(level),
            Command::DecreaseDetail => decreased_detail(level),
            _ => level,
        }
    }

    /// Whether the command ends the session.
    pub open spec fn quits(self) -> bool {
        self == Command::Quit
    }
}

/// The command bound to `key`.
pub open spec fn key_command(key: Key) -> Command {
    match key {
        Key::Add | Key::F => Command::ZoomIn,
        Key::Z => Command::ZoomInSlow,
        Key::Subtract | Key::Space => Command::ZoomOut,
        Key::Left | Key::A => Command::PanLeft,
        Key::Right | Key::D => Command::PanRight,
        Key::Up | Key::W => Command::PanUp,
        Key::Down | Key::S => Command::PanDown,
        Key::I | Key::Q => Command::IncreaseDetail,
        Key::O | Key::E => Command::DecreaseDetail,
        Key::Escape => Command::Quit,
        Key::Other => Command::Unrecognized,
    }
}

/// Looks up the command bound to `key`.
pub fn command_for_key(key: Key) -> (command: Command)
    ensures
        command == key_command(key),
{
    match key {
        Key::Add | Key::F => Command::ZoomIn,
        Key::Z => Command::ZoomInSlow,
        Key::Subtract | Key::Space => Command::ZoomOut,
        Key::Left | Key::A => Command::PanLeft,
        Key::Right | Key::D => Command::PanRight,
        Key::Up | Key::W => Command::PanUp,
        Key::Down | Key::S => Command::PanDown,
        Key::I | Key::Q => Command::IncreaseDetail,
        Key::O | Key::E => Command::DecreaseDetail,
        Key::Escape => Command::Quit,
        Key::Other => Command::Unrecognized,
    }
}

} // verus!
