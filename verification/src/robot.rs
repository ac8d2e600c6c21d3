//! The robot: where it stands, which way it faces, and how a command changes both.

use vstd::prelude::*;
use crate::command::RobotCommands;
use crate::decimal::{decimal, decimal_string};
use crate::orientation::RobotOrientation;

verus! {

/// What a robot is, as mathematics sees it: a direction, a position and the size of its room.
pub struct RobotView {
    pub orientation: RobotOrientation,
    pub x: int,
    pub y: int,
    pub width: int,
    pub height: int,
}

/// Where a coordinate ends up when a move would take it to `candidate`: there, if that
/// lies in `[0, bound)`, and otherwise where it was.
pub open spec fn clamp_axis(current: int, candidate: int, bound: int) -> int {
    if 0 <= candidate < bound {
        candidate
    } else {
        current
    }
}

impl RobotView {
    /// A robot fresh in its room: in the corner `(0, 0)`, facing north.
    pub open spec fn initial(width: int, height: int) -> RobotView {
        RobotView { orientation: RobotOrientation::North, x: 0, y: 0, width, height }
    }

    /// The robot stands on a square of its room.
    pub open spec fn in_room(self) -> bool {
        0 <= self.x < self.width && 0 <= self.y < self.height
    }

    /// What holds of every robot, whatever the size of its room: no coordinate is
    /// negative, and each is 0 or less than the room's extent along its axis. In a room
    /// of positive width and height this is [`in_room`](RobotView::in_room).
    pub open spec fn inv(self) -> bool {
        &&& 0 <= self.x
        &&& 0 <= self.y
        &&& (self.x == 0 || self.x < self.width)
        &&& (self.y == 0 || self.y < self.height)
    }

    /// The robot after a quarter turn to the right.
    pub open spec fn turn_right(self) -> RobotView {
        RobotView { orientation: self.orientation.right(), ..self }
    }

    /// The robot after a quarter turn to the left.
    pub open spec fn turn_left(self) -> RobotView {
        RobotView { orientation: self.orientation.left(), ..self }
    }

    /// The robot after trying to walk `step` squares the way it faces (a negative `step`
    /// walks backward). Each axis is judged on its own: a coordinate that would leave
    /// the room stays as it was.
    pub open spec fn walk(self, step: int) -> RobotView {
        RobotView {
            x: clamp_axis(self.x, self.x + step * self.orientation.dx(), self.width),
            y: clamp_axis(self.y, self.y + step * self.orientation.dy(), self.height),
            ..self
        }
    }

    /// The robot after one command.
    pub open spec fn apply(self, command: RobotCommands) -> RobotView {
        match command {
            RobotCommands::Foward => self.walk(1),
            RobotCommands::Backward => self.walk(-1),
            RobotCommands::RightTurn => self.turn_right(),
            RobotCommands::LeftTurn => self.turn_left(),
        }
    }

    /// The robot after a whole sequence of commands, obeyed first to last.
    pub open spec fn run(self, commands: Seq<RobotCommands>) -> RobotView
        decreases commands.len(),
    {
        if commands.len() == 0 {
            self
        } else {
            self.run(commands.drop_last()).apply(commands.last())
        }
    }

    /// The robot in print: the letter of its direction, then `x`, then `y`, with one
    /// space between them and the numbers in decimal.
    pub open spec fn text(self) -> Seq<char> {
        seq![self.orientation.code(), ' '] + decimal(self.x) + seq![' '] + decimal(self.y)
    }
}

/// A robot in a room.
pub struct Robot {
    orientation: RobotOrientation,
    room_size: Vec<i32>,
    x: i32,
    y: i32,
}

impl View for Robot {
    type V = RobotView;

    closed spec fn view(&self) -> RobotView {
        RobotView {
            orientation: self.orientation,
            x: self.x as int,
            y: self.y as int,
            width: self.room_size@[0] as int,
            height: self.room_size@[1] as int,
        }
    }
}

impl Robot {
    /// What every robot is made to: a room of two numbers, its width and its height,
    /// and a position that satisfies [`RobotView::inv`].
    #[verifier::type_invariant]
    spec fn well_formed(&self) -> bool {
        self.room_size@.len() == 2 && self@.inv()
    }

    /// Puts a robot into the corner `(0, 0)` of a room, facing north. The room's size is
    /// a pair: `room_size` holds the width and then the height, and they stay what they
    /// are for as long as the robot lives.
    pub fn new(room_size: Vec<i32>) -> (r: Self)
        requires
            room_size@.len() == 2,
        ensures
            r@ == RobotView::initial(room_size@[0] as int, room_size@[1] as int),
            r@.inv(),
            room_size@[0] > 0 && room_size@[1] > 0 ==> r@.in_room(),
    {
        Self { orientation: RobotOrientation::North, x: 0, y: 0, room_size }
    }

    /// The direction the robot faces. Asking changes nothing: as long as the robot is
    /// given no command, the answer is the same.
    pub fn orientation(&self) -> (r: RobotOrientation)
        ensures
            r == self@.orientation,
    {
        self.orientation
    }

    /// The square the robot stands on, as `(x, y)`. Asking changes nothing: as long as
    /// the robot is given no command, the answer is the same.
    pub fn position(&self) -> (r: (i32, i32))
        ensures
            r.0 == self@.x,
            r.1 == self@.y,
            self@.inv(),
    {
        proof {
            use_type_invariant(self);
        }
        (self.x, self.y)
    }

    /// Obeys one command: a turn changes the direction and nothing else, a step changes
    /// the position unless it would leave the room. A robot inside its room stays inside.
    pub fn command(&mut self, command: RobotCommands)
        ensures
            final(self)@ == old(self)@.apply(command),
            final(self)@.inv(),
            old(self)@.in_room() ==> final(self)@.in_room(),
    {
        proof {
            use_type_invariant(&*self);
        }
        match command {
            RobotCommands::Foward => self.walk(1),
            RobotCommands::Backward => self.walk(-1),
            RobotCommands::RightTurn => self.turn_right(),
            RobotCommands::LeftTurn => self.turn_left(),
        }
    }

    /// Obeys a sequence of commands, first to last.
    pub fn run(&mut self, commands: &[RobotCommands])
        ensures
            final(self)@ == old(self)@.run(commands@),
            final(self)@.inv(),
            old(self)@.in_room() ==> final(self)@.in_room(),
    {
        proof {
            use_type_invariant(&*self);
        }
        let mut i: usize = 0;
        while i < commands.len()
            invariant
                i <= commands@.len(),
                self@ == old(self)@.run(commands@.take(i as int)),
                self@.inv(),
                old(self)@.in_room() ==> self@.in_room(),
            decreases commands@.len() - i,
        {
            assert(commands@.take(i + 1).drop_last() =~= commands@.take(i as int));
            self.command(commands[i]);
            i += 1;
        }
        assert(commands@.take(i as int) =~= commands@);
    }

    /// Writes the robot out as `<letter> <x> <y>`, where the letter is `N`, `S`, `L` or
    /// `O` for a robot that faces north, south, east or west.
    pub fn to_string(&self) -> (s: String)
        ensures
            s@ == self@.text(),
    {
        proof {
            reveal_strlit("N ");
            reveal_strlit("S ");
            reveal_strlit("L ");
            reveal_strlit("O ");
            reveal_strlit(" ");
        }
        let mut s = String::from_str(
            match self.orientation {
                RobotOrientation::North => "N ",
                RobotOrientation::South => "S ",
                RobotOrientation::East => "L ",
                RobotOrientation::West => "O ",
            },
        );
        s.append(decimal_string(self.x).as_str());
        s.append(" ");
        s.append(decimal_string(self.y).as_str());
        s
    }

    /// Walks `step` squares the way the robot faces, as far as the room allows.
    fn walk(&mut self, step: i32)
        ensures
            final(self)@ == old(self)@.walk(step as int),
    {
        proof {
            use_type_invariant(&*self);
        }
        let (x, y): (i64, i64) = match self.orientation {
            RobotOrientation::North => (self.x as i64, self.y as i64 + step as i64),
            RobotOrientation::South => (self.x as i64, self.y as i64 - step as i64),
            RobotOrientation::East => (self.x as i64 + step as i64, self.y as i64),
            RobotOrientation::West => (self.x as i64 - step as i64, self.y as i64),
        };
        if x >= 0 && x < self.room_size[0] as i64 {
            self.x = x as i32;
        }
        if y >= 0 && y < self.room_size[1] as i64 {
            self.y = y as i32;
        }
    }

    /// Turns the robot a quarter to the right.
    fn turn_right(&mut self)
        ensures
            final(self)@ == old(self)@.turn_right(),
    {
        proof {
            use_type_invariant(&*self);
        }
        self.orientation = match self.orientation {
            RobotOrientation::North => RobotOrientation::East,
            RobotOrientation::South => RobotOrientation::West,
            RobotOrientation::East => RobotOrientation::South,
            RobotOrientation::West => RobotOrientation::North,
        }
    }

    /// Turns the robot a quarter to the left.
    fn turn_left(&mut self)
        ensures
            final(self)@ == old(self)@.turn_left(),
    {
        proof {
            use_type_invariant(&*self);
        }
        self.orientation = match self.orientation {
            RobotOrientation::North => RobotOrientation::West,
            RobotOrientation::South => RobotOrientation::East,
            RobotOrientation::East => RobotOrientation::North,
            RobotOrientation::West => RobotOrientation::South,
        }
    }
}

} // verus!
