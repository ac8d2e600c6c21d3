use l2::{
    command_from_string, commands_from_logs, parse_command, Robot, RobotCommands, RobotOrientation,
};

/// A robot in a room of the given size that has obeyed the commands whose codes the
/// text holds, one letter each.
fn robot_after(width: i32, height: i32, codes: &str) -> Robot {
    let mut robot = Robot::new(vec![width, height]);
    for letter in codes.chars() {
        robot.command(command_from_string(&letter.to_string()));
    }
    robot
}

/// The codes that turn a fresh robot to face the given direction.
fn turns_to(orientation: RobotOrientation) -> &'static str {
    match orientation {
        RobotOrientation::North => "",
        RobotOrientation::East => "D",
        RobotOrientation::South => "DD",
        RobotOrientation::West => "E",
    }
}

const ALL: [RobotOrientation; 4] = [
    RobotOrientation::North,
    RobotOrientation::South,
    RobotOrientation::East,
    RobotOrientation::West,
];

#[test]
fn new_robot_faces_north_in_the_corner() {
    let robot = Robot::new(vec![50, 50]);
    assert_eq!(robot.position(), (0, 0));
    assert_eq!(robot.orientation(), RobotOrientation::North);
}

#[test]
fn turning_right_goes_north_east_south_west() {
    let mut robot = Robot::new(vec![5, 5]);
    robot.command(RobotCommands::RightTurn);
    assert_eq!(robot.orientation(), RobotOrientation::East);
    robot.command(RobotCommands::RightTurn);
    assert_eq!(robot.orientation(), RobotOrientation::South);
    robot.command(RobotCommands::RightTurn);
    assert_eq!(robot.orientation(), RobotOrientation::West);
    robot.command(RobotCommands::RightTurn);
    assert_eq!(robot.orientation(), RobotOrientation::North);
}

#[test]
fn turning_left_goes_north_west_south_east() {
    let mut robot = Robot::new(vec![5, 5]);
    robot.command(RobotCommands::LeftTurn);
    assert_eq!(robot.orientation(), RobotOrientation::West);
    robot.command(RobotCommands::LeftTurn);
    assert_eq!(robot.orientation(), RobotOrientation::South);
    robot.command(RobotCommands::LeftTurn);
    assert_eq!(robot.orientation(), RobotOrientation::East);
    robot.command(RobotCommands::LeftTurn);
    assert_eq!(robot.orientation(), RobotOrientation::North);
}

#[test]
fn four_turns_one_way_restore_the_direction() {
    for start in ALL {
        let mut robot = robot_after(9, 9, turns_to(start));
        assert_eq!(robot.orientation(), start);
        for _ in 0..4 {
            robot.command(RobotCommands::RightTurn);
        }
        assert_eq!(robot.orientation(), start);
        for _ in 0..4 {
            robot.command(RobotCommands::LeftTurn);
        }
        assert_eq!(robot.orientation(), start);
        assert_eq!(robot.position(), (0, 0));
    }
}

#[test]
fn opposite_turns_cancel() {
    for start in ALL {
        let mut robot = robot_after(9, 9, turns_to(start));
        robot.command(RobotCommands::RightTurn);
        robot.command(RobotCommands::LeftTurn);
        assert_eq!(robot.orientation(), start);
        robot.command(RobotCommands::LeftTurn);
        robot.command(RobotCommands::RightTurn);
        assert_eq!(robot.orientation(), start);
    }
}

#[test]
fn turns_do_not_move_the_robot() {
    let mut robot = robot_after(9, 9, "FFDFFF");
    assert_eq!(robot.position(), (3, 2));
    robot.command(RobotCommands::RightTurn);
    assert_eq!(robot.position(), (3, 2));
    robot.command(RobotCommands::LeftTurn);
    robot.command(RobotCommands::LeftTurn);
    assert_eq!(robot.position(), (3, 2));
}

#[test]
fn forward_steps_one_square_the_way_the_robot_faces() {
    // From (2, 2), reached facing east.
    let at = |codes: &str| robot_after(9, 9, &format!("FFDFF{}", codes));
    assert_eq!(at("EF").position(), (2, 3));
    assert_eq!(at("EF").orientation(), RobotOrientation::North);
    assert_eq!(at("F").position(), (3, 2));
    assert_eq!(at("F").orientation(), RobotOrientation::East);
    assert_eq!(at("DF").position(), (2, 1));
    assert_eq!(at("DF").orientation(), RobotOrientation::South);
    assert_eq!(at("DDF").position(), (1, 2));
    assert_eq!(at("DDF").orientation(), RobotOrientation::West);
}

#[test]
fn backward_steps_one_square_against_the_way_the_robot_faces() {
    let at = |codes: &str| robot_after(9, 9, &format!("FFDFF{}", codes));
    assert_eq!(at("ET").position(), (2, 1));
    assert_eq!(at("ET").orientation(), RobotOrientation::North);
    assert_eq!(at("T").position(), (1, 2));
    assert_eq!(at("T").orientation(), RobotOrientation::East);
    assert_eq!(at("DT").position(), (2, 3));
    assert_eq!(at("DT").orientation(), RobotOrientation::South);
    assert_eq!(at("DDT").position(), (3, 2));
    assert_eq!(at("DDT").orientation(), RobotOrientation::West);
}

#[test]
fn forward_facing_south_in_the_corner_is_absorbed() {
    let mut robot = robot_after(50, 50, "DD");
    assert_eq!(robot.orientation(), RobotOrientation::South);
    assert_eq!(robot.position(), (0, 0));
    robot.command(RobotCommands::Foward);
    assert_eq!(robot.position(), (0, 0));
    assert_eq!(robot.orientation(), RobotOrientation::South);
}

#[test]
fn backward_facing_north_in_the_corner_is_absorbed() {
    let mut robot = Robot::new(vec![50, 50]);
    robot.command(RobotCommands::Backward);
    assert_eq!(robot.position(), (0, 0));
    assert_eq!(robot.orientation(), RobotOrientation::North);
}

#[test]
fn forward_facing_west_in_the_corner_is_absorbed() {
    let mut robot = robot_after(50, 50, "E");
    robot.command(RobotCommands::Foward);
    assert_eq!(robot.position(), (0, 0));
}

#[test]
fn forward_on_the_east_edge_saturates() {
    for (width, y) in [(1, 0), (4, 0), (4, 2), (15, 7)] {
        let mut codes = String::new();
        for _ in 0..y {
            codes.push('F');
        }
        codes.push('D');
        for _ in 0..width - 1 {
            codes.push('F');
        }
        let mut robot = robot_after(width, 9, &codes);
        assert_eq!(robot.position(), (width - 1, y));
        assert_eq!(robot.orientation(), RobotOrientation::East);
        robot.command(RobotCommands::Foward);
        assert_eq!(robot.position(), (width - 1, y));
        robot.command(RobotCommands::Foward);
        assert_eq!(robot.position(), (width - 1, y));
    }
}

#[test]
fn forward_on_the_north_edge_saturates() {
    let mut robot = robot_after(3, 4, "FFF");
    assert_eq!(robot.position(), (0, 3));
    robot.command(RobotCommands::Foward);
    assert_eq!(robot.position(), (0, 3));
}

#[test]
fn a_room_of_one_square_holds_the_robot_still() {
    let robot = robot_after(1, 1, "FTDFTDFTDFTEEFT");
    assert_eq!(robot.position(), (0, 0));
    assert_eq!(robot.orientation(), RobotOrientation::East);
}

#[test]
fn each_axis_has_its_own_bound() {
    let robot = robot_after(2, 5, "FFFFFFFFDFFFFFFFF");
    assert_eq!(robot.position(), (1, 4));
    let robot = robot_after(5, 2, "FFFFFFFFDFFFFFFFF");
    assert_eq!(robot.position(), (4, 1));
}

#[test]
fn a_room_without_extent_holds_the_robot_at_zero() {
    let robot = robot_after(0, 0, "FFDFFTT");
    assert_eq!(robot.position(), (0, 0));
    let robot = robot_after(-3, 5, "FFDFF");
    assert_eq!(robot.position(), (0, 2));
    let robot = robot_after(5, -3, "FFDFF");
    assert_eq!(robot.position(), (2, 0));
}

#[test]
fn the_robot_never_leaves_its_room() {
    let rooms = [(1, 1), (1, 7), (7, 1), (2, 2), (3, 5), (15, 36), (50, 50)];
    let mut seed: u64 = 0x2545_F491_4F6C_DD1D;
    for (width, height) in rooms {
        let mut robot = Robot::new(vec![width, height]);
        for _ in 0..5000 {
            seed = seed.wrapping_mul(6364136223846793005).wrapping_add(1442695040888963407);
            let command = match (seed >> 33) % 4 {
                0 => RobotCommands::Foward,
                1 => RobotCommands::Backward,
                2 => RobotCommands::RightTurn,
                _ => RobotCommands::LeftTurn,
            };
            let before = robot.position();
            robot.command(command);
            let (x, y) = robot.position();
            assert!(0 <= x && x < width, "x = {} in a room {} wide", x, width);
            assert!(0 <= y && y < height, "y = {} in a room {} high", y, height);
            let moved = (x - before.0).abs() + (y - before.1).abs();
            assert!(moved <= 1);
        }
    }
}

#[test]
fn queries_give_the_same_answer_each_time() {
    let robot = robot_after(15, 36, "FFFDFFE");
    let first = (robot.orientation(), robot.position(), robot.to_string());
    for _ in 0..10 {
        assert_eq!(robot.orientation(), first.0);
        assert_eq!(robot.position(), first.1);
        assert_eq!(robot.to_string(), first.2);
    }
    assert_eq!(first.0, RobotOrientation::North);
    assert_eq!(first.1, (2, 3));
}

#[test]
fn a_robot_prints_as_letter_x_y() {
    assert_eq!(Robot::new(vec![50, 50]).to_string(), "N 0 0");
    assert_eq!(robot_after(50, 50, "DD").to_string(), "S 0 0");
    assert_eq!(robot_after(50, 50, "D").to_string(), "L 0 0");
    assert_eq!(robot_after(50, 50, "E").to_string(), "O 0 0");
    assert_eq!(robot_after(50, 50, "FFFDFFFFFFFFFFFF").to_string(), "L 12 3");
    assert_eq!(robot_after(200, 200, &"F".repeat(150)).to_string(), "N 0 150");
}

#[test]
fn the_codes_name_the_four_commands() {
    assert_eq!(command_from_string("F"), RobotCommands::Foward);
    assert_eq!(command_from_string("T"), RobotCommands::Backward);
    assert_eq!(command_from_string("D"), RobotCommands::RightTurn);
    assert_eq!(command_from_string("E"), RobotCommands::LeftTurn);
    assert_eq!(parse_command("F"), Some(RobotCommands::Foward));
    assert_eq!(parse_command("T"), Some(RobotCommands::Backward));
    assert_eq!(parse_command("D"), Some(RobotCommands::RightTurn));
    assert_eq!(parse_command("E"), Some(RobotCommands::LeftTurn));
}

#[test]
fn no_other_text_is_a_command() {
    for text in ["", " ", "f", "t", "d", "e", "X", "B", "L", "R", "FF", "F ", " F", "FT", "\u{00C9}", "\u{0046}\u{0301}"] {
        assert_eq!(parse_command(text), None, "{:?}", text);
    }
    for code in 0..=0x10FFFFu32 {
        if let Some(letter) = char::from_u32(code) {
            let expected = match letter {
                'F' => Some(RobotCommands::Foward),
                'T' => Some(RobotCommands::Backward),
                'D' => Some(RobotCommands::RightTurn),
                'E' => Some(RobotCommands::LeftTurn),
                _ => None,
            };
            assert_eq!(parse_command(&letter.to_string()), expected);
        }
    }
}

#[test]
fn logs_are_read_in_order() {
    let logs: Vec<String> = ["F", "T", "D", "E", "E", "F"].iter().map(|s| s.to_string()).collect();
    assert_eq!(
        commands_from_logs(&logs),
        Some(vec![
            RobotCommands::Foward,
            RobotCommands::Backward,
            RobotCommands::RightTurn,
            RobotCommands::LeftTurn,
            RobotCommands::LeftTurn,
            RobotCommands::Foward,
        ])
    );
    assert_eq!(commands_from_logs(&[]), Some(vec![]));
}

#[test]
fn one_bad_log_spoils_them_all() {
    for bad in ["", "f", "FF", " ", "X"] {
        for place in 0..4 {
            let mut logs: Vec<String> = ["F", "D", "T"].iter().map(|s| s.to_string()).collect();
            logs.insert(place, bad.to_string());
            assert_eq!(commands_from_logs(&logs), None);
        }
    }
}

#[test]
fn running_a_sequence_is_obeying_each_command_in_turn() {
    let codes = "FFDFFTEFFFDDTTEFDFFFFFFFFFFEFFFFFFFFFFFFT";
    let logs: Vec<String> = codes.chars().map(|letter| letter.to_string()).collect();
    let commands = commands_from_logs(&logs).unwrap();
    for (width, height) in [(1, 1), (3, 4), (50, 50)] {
        let mut all_at_once = Robot::new(vec![width, height]);
        all_at_once.run(&commands);
        let mut one_by_one = Robot::new(vec![width, height]);
        for command in &commands {
            one_by_one.command(*command);
        }
        assert_eq!(all_at_once.position(), one_by_one.position());
        assert_eq!(all_at_once.orientation(), one_by_one.orientation());
        assert_eq!(all_at_once.to_string(), robot_after(width, height, codes).to_string());
    }
    let mut robot = Robot::new(vec![50, 50]);
    robot.run(&commands);
    assert_eq!(robot.to_string(), "L 13 0");
    robot.run(&[]);
    assert_eq!(robot.to_string(), "L 13 0");
}
