//! What the player can ask for, and the keys that ask for it.

use vstd::prelude::*;

verus! {

/// What the player can ask of the falling piece.
#[derive(Copy, Clone, Debug, PartialEq, Eq, Structural)]
pub enum GameInput {
    MoveLeft,
    MoveRight,
    MoveDown,
    DropDown,
    SpinLeft,
    SpinRight,
}

/// What a key stands for.
#[derive(Copy, Clone, Debug, PartialEq, Eq, Structural)]
pub enum Command {
    /// Act on the falling piece.
    Play(GameInput),
    /// Leave the game.
    Quit,
    /// No key, or a key that means nothing.
    Idle,
}

/// The meaning of a key: `w` and `q` turn left and right, `a` and `d` move,
/// `s` steps down, the space bar drops, `x` quits; letters count in either
/// case, and every other byte means nothing.
pub open spec fn command_of(key: u8) -> Command {
    if key == 0x77 || key == 0x57 {
        Command::Play(GameInput::SpinLeft)
    } else if key == 0x71 || key == 0x51 {
        Command::Play(GameInput::SpinRight)
    } else if key == 0x61 || key == 0x41 {
        Command::Play(GameInput::MoveLeft)
    } else if key == 0x64 || key == 0x44 {
        Command::Play(GameInput::MoveRight)
    } else if key == 0x73 || key == 0x53 {
        Command::Play(GameInput::MoveDown)
    } else if key == 0x20 {
        Command::Play(GameInput::DropDown)
    } else if key == 0x78 || key == 0x58 {
        Command::Quit
    } else {
        Command::Idle
    }
}

} // verus!
