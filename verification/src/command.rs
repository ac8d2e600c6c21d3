//! The four commands a robot obeys, and the one-letter codes that name them.

use vstd::prelude::*;

verus! {

/// One instruction for a robot.
#[derive(Debug, PartialEq, Eq, Clone, Copy, Structural)]
pub enum RobotCommands {
    /// One step in the direction the robot faces.
    Foward,
    /// One step against the direction the robot faces.
    Backward,
    /// A quarter turn to the right, on the spot.
    RightTurn,
    /// A quarter turn to the left, on the spot.
    LeftTurn,
}

/// The command that a letter stands for: `F` walks forward, `T` walks backward,
/// `D` turns right and `E` turns left. No other letter is a command, and case matters.
pub open spec fn command_of_letter(letter: char) -> Option<RobotCommands> {
    if letter == 'F' {
        Some(RobotCommands::Foward)
    } else if letter == 'T' {
        Some(RobotCommands::Backward)
    } else if letter == 'D' {
        Some(RobotCommands::RightTurn)
    } else if letter == 'E' {
        Some(RobotCommands::LeftTurn)
    } else {
        None
    }
}

/// The command that a text stands for: a text of exactly one letter that is a command's code.
pub open spec fn command_of(code: Seq<char>) -> Option<RobotCommands> {
    if code.len() == 1 {
        command_of_letter(code[0])
    } else {
        None
    }
}

/// Reads a command's code, and says `None` of any text that is not one.
pub fn parse_command(command: &str) -> (r: Option<RobotCommands>)
    ensures
        r == command_of(command@),
{
    if command.unicode_len() != 1 {
        return None;
    }
    let letter = command.get_char(0);
    if letter == 'F' {
        Some(RobotCommands::Foward)
    } else if letter == 'T' {
        Some(RobotCommands::Backward)
    } else if letter == 'D' {
        Some(RobotCommands::RightTurn)
    } else if letter == 'E' {
        Some(RobotCommands::LeftTurn)
    } else {
        None
    }
}

/// Reads a command's code. The text must be one: see [`parse_command`] for a reader
/// that takes any text.
pub fn command_from_string(command: &str) -> (r: RobotCommands)
    requires
        command_of(command@) is Some,
    ensures
        Some(r) == command_of(command@),
{
    match parse_command(command) {
        Some(c) => c,
        None => vstd::pervasive::unreached(),
    }
}

/// Reads a sequence of commands' codes, to the last one, and says `None` if any of the
/// texts is no code.
pub fn commands_from_logs(logs: &[String]) -> (r: Option<Vec<RobotCommands>>)
    ensures
        match r {
            Some(commands) => {
                &&& commands@.len() == logs@.len()
                &&& forall|i: int|
                    0 <= i < logs@.len() ==> command_of(logs@[i]@) == Some(#[trigger] commands@[i])
            },
            None => exists|i: int| 0 <= i < logs@.len() && command_of(#[trigger] logs@[i]@) is None,
        },
{
    let mut commands: Vec<RobotCommands> = Vec::new();
    let mut i: usize = 0;
    while i < logs.len()
        invariant
            i <= logs@.len(),
            commands@.len() == i,
            forall|k: int| 0 <= k < i ==> command_of(logs@[k]@) == Some(#[trigger] commands@[k]),
        decreases logs@.len() - i,
    {
        match parse_command(logs[i].as_str()) {
            Some(command) => commands.push(command),
            None => {
                return None;
            },
        }
        i += 1;
    }
    Some(commands)
}

} // verus!
