//! A robot that walks a bounded rectangular room, one command at a time.
//!
//! A [`Robot`] starts in the corner `(0, 0)` of its room, facing north, and obeys
//! [`RobotCommands`]: it turns on the spot, or steps forward or backward unless the step
//! would take it out of the room. [`input`] reads a room's size and the commands' codes
//! from lines of text, [`decimal`] writes the numbers of a printed robot, and [`laws`]
//! holds what is true of every robot.

pub mod command;
pub mod decimal;
pub mod input;
pub mod laws;
pub mod orientation;
pub mod robot;

pub use command::{command_from_string, commands_from_logs, parse_command, RobotCommands};
pub use decimal::decimal_string;
pub use input::{logs_from_line, parse_number, room_size_from_line};
pub use orientation::RobotOrientation;
pub use robot::{Robot, RobotView};
