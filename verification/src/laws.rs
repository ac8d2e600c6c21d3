//! What holds of every robot, whatever room it is in and whatever it is told to do.

use vstd::prelude::*;
use crate::command::RobotCommands;
use crate::decimal::{decimal, digits};
use crate::input::{
    all_digits, digits_value, fields, number_of, room_size_of, trim_end, unsigned_part,
};
use crate::orientation::RobotOrientation;
use crate::robot::RobotView;

verus! {

/// A robot fresh in a room of positive width and height stands inside it.
pub proof fn lemma_initial_in_room(width: int, height: int)
    requires
        0 < width,
        0 < height,
    ensures
        RobotView::initial(width, height).in_room(),
{
}

/// No command takes a robot out of its room.
pub proof fn lemma_command_keeps_in_room(s: RobotView, command: RobotCommands)
    requires
        s.in_room(),
    ensures
        s.apply(command).in_room(),
{
}

/// What holds of every robot holds after each command.
pub proof fn lemma_command_keeps_inv(s: RobotView, command: RobotCommands)
    requires
        s.inv(),
    ensures
        s.apply(command).inv(),
{
}

/// No command changes the size of the room.
pub proof fn lemma_command_keeps_room(s: RobotView, command: RobotCommands)
    ensures
        s.apply(command).width == s.width,
        s.apply(command).height == s.height,
{
}

/// Whatever a robot is told, in a room of positive width and height it is inside the
/// room after every command: `0 <= x < width` and `0 <= y < height`.
pub proof fn lemma_reachable_in_room(width: int, height: int, commands: Seq<RobotCommands>)
    requires
        0 < width,
        0 < height,
    ensures
        RobotView::initial(width, height).run(commands).in_room(),
        RobotView::initial(width, height).run(commands).width == width,
        RobotView::initial(width, height).run(commands).height == height,
    decreases commands.len(),
{
    if commands.len() > 0 {
        lemma_reachable_in_room(width, height, commands.drop_last());
    }
}

/// Whatever the size of its room, a robot never has a negative coordinate, and on each
/// axis it is at 0 or short of the room's extent.
pub proof fn lemma_reachable_inv(width: int, height: int, commands: Seq<RobotCommands>)
    ensures
        RobotView::initial(width, height).run(commands).inv(),
    decreases commands.len(),
{
    if commands.len() > 0 {
        lemma_reachable_inv(width, height, commands.drop_last());
    }
}

/// In a room of positive width and height, what holds of every robot means that it is
/// inside the room.
pub proof fn lemma_inv_in_room(s: RobotView)
    requires
        s.inv(),
        0 < s.width,
        0 < s.height,
    ensures
        s.in_room(),
{
}

/// Four turns to the right leave a robot as it was, and so do four turns to the left.
pub proof fn lemma_four_turns_restore(s: RobotView)
    ensures
        s.apply(RobotCommands::RightTurn).apply(RobotCommands::RightTurn).apply(
            RobotCommands::RightTurn,
        ).apply(RobotCommands::RightTurn) == s,
        s.apply(RobotCommands::LeftTurn).apply(RobotCommands::LeftTurn).apply(
            RobotCommands::LeftTurn,
        ).apply(RobotCommands::LeftTurn) == s,
{
}

/// A turn to the left undoes a turn to the right, and a turn to the right one to the left.
pub proof fn lemma_opposite_turns_cancel(s: RobotView)
    ensures
        s.apply(RobotCommands::RightTurn).apply(RobotCommands::LeftTurn) == s,
        s.apply(RobotCommands::LeftTurn).apply(RobotCommands::RightTurn) == s,
{
}

/// A turn never moves a robot.
pub proof fn lemma_turn_keeps_position(s: RobotView)
    ensures
        s.apply(RobotCommands::RightTurn).x == s.x,
        s.apply(RobotCommands::RightTurn).y == s.y,
        s.apply(RobotCommands::LeftTurn).x == s.x,
        s.apply(RobotCommands::LeftTurn).y == s.y,
{
}

/// A walk changes nothing but the coordinate along the axis that the robot faces, and
/// takes the robot the whole way or leaves it where it was.
pub proof fn lemma_walk_moves_one_axis(s: RobotView, step: int)
    ensures
        s.walk(step).orientation == s.orientation,
        s.orientation.dx() == 0 ==> s.walk(step).x == s.x,
        s.orientation.dy() == 0 ==> s.walk(step).y == s.y,
        s.walk(step).x == s.x || s.walk(step).x == s.x + step * s.orientation.dx(),
        s.walk(step).y == s.y || s.walk(step).y == s.y + step * s.orientation.dy(),
{
}

/// A robot in the corner `(0, 0)` that faces south and steps forward stays where it is:
/// the step would take it to `y == -1`.
pub proof fn lemma_forward_absorbed_at_origin(width: int, height: int)
    ensures
        ({
            let s = RobotView {
                orientation: RobotOrientation::South,
                ..RobotView::initial(width, height)
            };
            s.apply(RobotCommands::Foward) == s
        }),
{
}

/// A robot on the last column, `x == width - 1`, that faces east and steps forward
/// stays on that column, and nothing else about it changes either.
pub proof fn lemma_forward_saturates_at_east_edge(s: RobotView)
    requires
        s.orientation == RobotOrientation::East,
        s.x == s.width - 1,
    ensures
        s.apply(RobotCommands::Foward).x == s.width - 1,
        s.apply(RobotCommands::Foward) == s,
{
}

/// A step that would leave the room, on whichever side, leaves the robot as it was.
pub proof fn lemma_step_into_wall_absorbed(s: RobotView, step: int)
    requires
        s.in_room(),
        !(RobotView {
            x: s.x + step * s.orientation.dx(),
            y: s.y + step * s.orientation.dy(),
            ..s
        }).in_room(),
    ensures
        s.walk(step) == s,
{
}

/// Obeying one more command after a sequence is obeying the longer sequence.
pub proof fn lemma_run_push(s: RobotView, commands: Seq<RobotCommands>, next: RobotCommands)
    ensures
        s.run(commands.push(next)) == s.run(commands).apply(next),
{
    assert(commands.push(next).drop_last() =~= commands);
}

/// The digits that write a natural number are digits, at least one of them, and are
/// worth that number.
pub proof fn lemma_digits_read_back(n: nat)
    ensures
        digits(n).len() >= 1,
        all_digits(digits(n)),
        digits_value(digits(n)) == n,
    decreases n,
{
    if n < 10 {
        assert(digits_value(digits(n).drop_last()) == 0);
    } else {
        lemma_digits_read_back(n / 10);
        assert(digits(n).drop_last() =~= digits(n / 10));
    }
}

/// A number written in decimal reads back as itself.
pub proof fn lemma_decimal_reads_back(v: int)
    requires
        i32::MIN <= v <= i32::MAX,
    ensures
        number_of(decimal(v)) == Some(v),
{
    if v < 0 {
        lemma_digits_read_back((-v) as nat);
        assert(unsigned_part(decimal(v)) =~= digits((-v) as nat));
    } else {
        lemma_digits_read_back(v as nat);
    }
}

/// A line writes a room size only if it holds exactly two numbers: then the size is
/// that pair, the width first. A line with any other count of fields writes none.
pub proof fn lemma_room_size_is_a_pair(line: Seq<char>)
    ensures
        room_size_of(line) is Some <==> {
            &&& fields(trim_end(line)).len() == 2
            &&& number_of(fields(trim_end(line))[0]) is Some
            &&& number_of(fields(trim_end(line))[1]) is Some
        },
        room_size_of(line) matches Some(sizes) ==> {
            &&& sizes.len() == 2
            &&& number_of(fields(trim_end(line))[0]) == Some(sizes[0] as int)
            &&& number_of(fields(trim_end(line))[1]) == Some(sizes[1] as int)
        },
        fields(trim_end(line)).len() != 2 ==> room_size_of(line) is None,
{
}

} // verus!
