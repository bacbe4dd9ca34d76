use penpath::command::{Command, CommandKind, Vocabulary};
use penpath::error::{ErrorKind, ProgramError};
use penpath::parser::{parse_command, parse_program, process_command};

fn program_of(texts: &[&str]) -> Vec<String> {
    texts.iter().map(|t| t.to_string()).collect()
}

/// What the language means, written with the standard library's own
/// splitting and number parsing.
fn meaning_by_std(line: &str, vocabulary: Vocabulary) -> Result<Command, ErrorKind> {
    let mut words = line.split_ascii_whitespace();
    let mnemonic = match words.next() {
        Some(word) => word,
        None => return Err(ErrorKind::MissingToken),
    };
    let kinds = [
        CommandKind::PenColor,
        CommandKind::Up,
        CommandKind::Down,
        CommandKind::North,
        CommandKind::South,
        CommandKind::East,
        CommandKind::West,
    ];
    let kind = kinds.iter().copied().find(|k| vocabulary.mnemonic(*k) == mnemonic);
    match words.next() {
        None => match kind {
            Some(CommandKind::Up) => Ok(Command::Up),
            Some(CommandKind::Down) => Ok(Command::Down),
            _ => Err(ErrorKind::UnknownMnemonic),
        },
        Some(parameter) => {
            let n: u32 = match parameter.parse() {
                Ok(n) => n,
                Err(_) => return Err(ErrorKind::InvalidInteger),
            };
            match kind {
                Some(CommandKind::PenColor) => Ok(Command::PenColor(n)),
                Some(CommandKind::North) => Ok(Command::North(n)),
                Some(CommandKind::South) => Ok(Command::South(n)),
                Some(CommandKind::East) => Ok(Command::East(n)),
                Some(CommandKind::West) => Ok(Command::West(n)),
                _ => Err(ErrorKind::UnknownMnemonic),
            }
        }
    }
}

#[test]
fn long_vocabulary_lines() {
    let v = Vocabulary::Long;
    assert_eq!(parse_command("NORTH 10", v), Ok(Command::North(10)));
    assert_eq!(parse_command("SOUTH 25", v), Ok(Command::South(25)));
    assert_eq!(parse_command("EAST 50", v), Ok(Command::East(50)));
    assert_eq!(parse_command("WEST 0", v), Ok(Command::West(0)));
    assert_eq!(parse_command("COLOR 3", v), Ok(Command::PenColor(3)));
    assert_eq!(parse_command("UP", v), Ok(Command::Up));
    assert_eq!(parse_command("DOWN", v), Ok(Command::Down));
}

#[test]
fn short_vocabulary_lines() {
    let v = Vocabulary::Short;
    assert_eq!(parse_command("N 10", v), Ok(Command::North(10)));
    assert_eq!(parse_command("S 25", v), Ok(Command::South(25)));
    assert_eq!(parse_command("E 50", v), Ok(Command::East(50)));
    assert_eq!(parse_command("W 0", v), Ok(Command::West(0)));
    assert_eq!(parse_command("P 3", v), Ok(Command::PenColor(3)));
    assert_eq!(parse_command("U", v), Ok(Command::Up));
    assert_eq!(parse_command("D", v), Ok(Command::Down));
}

#[test]
fn vocabularies_do_not_mix() {
    assert_eq!(parse_command("N 10", Vocabulary::Long), Err(ErrorKind::UnknownMnemonic));
    assert_eq!(parse_command("NORTH 10", Vocabulary::Short), Err(ErrorKind::UnknownMnemonic));
    assert_eq!(parse_command("U", Vocabulary::Long), Err(ErrorKind::UnknownMnemonic));
    assert_eq!(parse_command("UP", Vocabulary::Short), Err(ErrorKind::UnknownMnemonic));
}

#[test]
fn up_and_down_take_no_parameter() {
    for v in [Vocabulary::Long, Vocabulary::Short] {
        let up = v.mnemonic(CommandKind::Up);
        let down = v.mnemonic(CommandKind::Down);
        assert_eq!(parse_command(up, v), Ok(Command::Up));
        assert_eq!(parse_command(down, v), Ok(Command::Down));
        assert_eq!(parse_command(&format!("{} 5", up), v), Err(ErrorKind::UnknownMnemonic));
        assert_eq!(parse_command(&format!("{} 0", down), v), Err(ErrorKind::UnknownMnemonic));
    }
}

#[test]
fn a_move_needs_its_parameter() {
    assert_eq!(parse_command("NORTH", Vocabulary::Long), Err(ErrorKind::UnknownMnemonic));
    assert_eq!(parse_command("COLOR", Vocabulary::Long), Err(ErrorKind::UnknownMnemonic));
    assert_eq!(parse_command("W", Vocabulary::Short), Err(ErrorKind::UnknownMnemonic));
}

#[test]
fn a_line_without_a_word_is_a_missing_token() {
    for line in ["", " ", "    ", "\t", " \t \r"] {
        assert_eq!(parse_command(line, Vocabulary::Long), Err(ErrorKind::MissingToken));
        assert_eq!(parse_command(line, Vocabulary::Short), Err(ErrorKind::MissingToken));
    }
}

#[test]
fn a_parameter_that_is_no_number_is_an_invalid_integer() {
    let v = Vocabulary::Long;
    for line in [
        "NORTH abc",
        "NORTH -5",
        "NORTH 1.5",
        "NORTH 10x",
        "NORTH x10",
        "NORTH +",
        "NORTH -",
        "NORTH 1_000",
        "NORTH 0x10",
        "NORTH 4294967296",
        "NORTH 99999999999999999999999999",
        "NORTH ++5",
        "NORTH \u{0661}\u{0662}",
        "COLOR red",
    ] {
        assert_eq!(parse_command(line, v), Err(ErrorKind::InvalidInteger), "{:?}", line);
    }
}

#[test]
fn the_parameter_is_judged_before_the_mnemonic() {
    assert_eq!(parse_command("FOO x", Vocabulary::Long), Err(ErrorKind::InvalidInteger));
    assert_eq!(parse_command("UP x", Vocabulary::Long), Err(ErrorKind::InvalidInteger));
    assert_eq!(parse_command("FOO 10", Vocabulary::Long), Err(ErrorKind::UnknownMnemonic));
}

#[test]
fn mnemonics_are_matched_exactly() {
    let v = Vocabulary::Long;
    assert_eq!(parse_command("north 10", v), Err(ErrorKind::UnknownMnemonic));
    assert_eq!(parse_command("North 10", v), Err(ErrorKind::UnknownMnemonic));
    assert_eq!(parse_command("NORTHS 10", v), Err(ErrorKind::UnknownMnemonic));
    assert_eq!(parse_command("NORT 10", v), Err(ErrorKind::UnknownMnemonic));
    assert_eq!(parse_command("up", v), Err(ErrorKind::UnknownMnemonic));
    assert_eq!(parse_command("UPP", v), Err(ErrorKind::UnknownMnemonic));
}

#[test]
fn the_parameter_is_taken_verbatim() {
    let v = Vocabulary::Long;
    assert_eq!(parse_command("EAST 0", v), Ok(Command::East(0)));
    assert_eq!(parse_command("EAST 007", v), Ok(Command::East(7)));
    assert_eq!(parse_command("EAST +5", v), Ok(Command::East(5)));
    assert_eq!(parse_command("EAST 4294967295", v), Ok(Command::East(u32::MAX)));
    assert_eq!(parse_command("EAST 0000000000004294967295", v), Ok(Command::East(u32::MAX)));
    assert_eq!(parse_command("COLOR 65535", v), Ok(Command::PenColor(65535)));
    assert_eq!(parse_command("COLOR 65536", v), Ok(Command::PenColor(65536)));
    assert_eq!(parse_command("COLOR 70000", v), Ok(Command::PenColor(70000)));
}

#[test]
fn blanks_around_words_do_not_count() {
    let v = Vocabulary::Long;
    assert_eq!(parse_command("  NORTH 10", v), Ok(Command::North(10)));
    assert_eq!(parse_command("NORTH    10", v), Ok(Command::North(10)));
    assert_eq!(parse_command("NORTH 10   ", v), Ok(Command::North(10)));
    assert_eq!(parse_command("NORTH\t10", v), Ok(Command::North(10)));
    assert_eq!(parse_command("\tNORTH \t 10\r", v), Ok(Command::North(10)));
    assert_eq!(parse_command("UP ", v), Ok(Command::Up));
    assert_eq!(parse_command(" DOWN\r", v), Ok(Command::Down));
}

#[test]
fn other_separators_are_part_of_the_word() {
    let v = Vocabulary::Long;
    assert_eq!(parse_command("NORTH\u{a0}10", v), Err(ErrorKind::UnknownMnemonic));
    assert_eq!(parse_command("NORTH\u{0b}10", v), Err(ErrorKind::UnknownMnemonic));
    assert_eq!(parse_command("NORTH,10", v), Err(ErrorKind::UnknownMnemonic));
}

#[test]
fn words_after_the_second_are_not_looked_at() {
    let v = Vocabulary::Long;
    assert_eq!(parse_command("NORTH 10 20", v), Ok(Command::North(10)));
    assert_eq!(parse_command("NORTH 10 miles", v), Ok(Command::North(10)));
    assert_eq!(parse_command("UP 1 2", v), Err(ErrorKind::UnknownMnemonic));
}

#[test]
fn process_command_reads_the_long_vocabulary() {
    assert_eq!(process_command("SOUTH 25".to_string()), Ok(Command::South(25)));
    assert_eq!(process_command("UP".to_string()), Ok(Command::Up));
    assert_eq!(process_command("DOWN".to_string()), Ok(Command::Down));
    assert_eq!(process_command("COLOR 3".to_string()), Ok(Command::PenColor(3)));
    assert_eq!(process_command("S 25".to_string()), Err(ErrorKind::UnknownMnemonic));
    assert_eq!(process_command("".to_string()), Err(ErrorKind::MissingToken));
    assert_eq!(process_command("NORTH ten".to_string()), Err(ErrorKind::InvalidInteger));
    assert_eq!(process_command("JUMP 3".to_string()), Err(ErrorKind::UnknownMnemonic));
}

#[test]
fn a_command_is_written_as_mnemonic_and_number() {
    assert_eq!(Command::North(10).format(Vocabulary::Long), "NORTH 10");
    assert_eq!(Command::South(0).format(Vocabulary::Long), "SOUTH 0");
    assert_eq!(Command::East(4294967295).format(Vocabulary::Long), "EAST 4294967295");
    assert_eq!(Command::West(7).format(Vocabulary::Short), "W 7");
    assert_eq!(Command::PenColor(3).format(Vocabulary::Long), "COLOR 3");
    assert_eq!(Command::PenColor(3).format(Vocabulary::Short), "P 3");
    assert_eq!(Command::Up.format(Vocabulary::Long), "UP");
    assert_eq!(Command::Down.format(Vocabulary::Short), "D");
}

#[test]
fn writing_then_reading_gives_the_command_back() {
    let numbers = [0u32, 1, 9, 10, 11, 99, 100, 101, 255, 65535, 65536, 999_999_999, 1_000_000_000, u32::MAX - 1, u32::MAX];
    for v in [Vocabulary::Long, Vocabulary::Short] {
        assert_eq!(parse_command(&Command::Up.format(v), v), Ok(Command::Up));
        assert_eq!(parse_command(&Command::Down.format(v), v), Ok(Command::Down));
        for n in numbers {
            for c in [
                Command::PenColor(n),
                Command::North(n),
                Command::South(n),
                Command::East(n),
                Command::West(n),
            ] {
                assert_eq!(parse_command(&c.format(v), v), Ok(c));
            }
        }
    }
}

#[test]
fn the_parser_agrees_with_the_standard_library() {
    let samples = [
        "", " ", "UP", "DOWN", "UP 1", "DOWN x", "NORTH", "NORTH 1", "NORTH  1", " NORTH 1 ",
        "NORTH +1", "NORTH -1", "NORTH 01", "NORTH 4294967295", "NORTH 4294967296",
        "NORTH 1 2", "NORTH 1x", "SOUTH 12", "EAST 3", "WEST 44", "COLOR 7", "COLOR 99",
        "COLOR +", "N 1", "S 2", "E 3", "W 4", "P 5", "U", "D", "U 1", "X", "X 1", "X y",
        "\tN\t1", "N\n1", "N\x0c1", "N\r1", "n 1", "NORTH\u{a0}1", "NORTH 1\u{a0}",
        "NORTH \u{ff11}", "\u{e9} 1", "NORTH \u{e9}", "+ 1", "1 1", "1", "NORTH 00000000000000000000",
    ];
    for v in [Vocabulary::Long, Vocabulary::Short] {
        for line in samples {
            assert_eq!(parse_command(line, v), meaning_by_std(line, v), "{:?}", line);
        }
    }
}

#[test]
fn a_program_is_read_line_by_line() {
    let program = program_of(&["DOWN", "NORTH 100", "UP", "EAST 50", "DOWN", "SOUTH 25"]);
    assert_eq!(
        parse_program(&program, Vocabulary::Long),
        Ok(vec![
            Command::Down,
            Command::North(100),
            Command::Up,
            Command::East(50),
            Command::Down,
            Command::South(25),
        ])
    );
    assert_eq!(parse_program(&[], Vocabulary::Long), Ok(vec![]));
}

#[test]
fn reading_stops_at_the_first_bad_line() {
    let program = program_of(&["DOWN", "NORTH 100", "JUMP 3", "EAST x", ""]);
    assert_eq!(
        parse_program(&program, Vocabulary::Long),
        Err(ProgramError { kind: ErrorKind::UnknownMnemonic, line: 2 })
    );
    let program = program_of(&["DOWN", "EAST x", "JUMP 3"]);
    assert_eq!(
        parse_program(&program, Vocabulary::Long),
        Err(ProgramError { kind: ErrorKind::InvalidInteger, line: 1 })
    );
    let program = program_of(&["", "DOWN"]);
    assert_eq!(
        parse_program(&program, Vocabulary::Long),
        Err(ProgramError { kind: ErrorKind::MissingToken, line: 0 })
    );
}

#[test]
fn each_kind_of_fault_has_its_message() {
    assert_eq!(ErrorKind::MissingToken.message(), "missing command");
    assert_eq!(ErrorKind::UnknownMnemonic.message(), "invalid command");
    assert_eq!(ErrorKind::InvalidInteger.message(), "param must be integer");
    assert_eq!(ErrorKind::ColorIndexOutOfRange.message(), "unknown color");
}

#[test]
fn the_vocabulary_is_one_table() {
    let kinds = [
        (CommandKind::PenColor, "COLOR", "P", true),
        (CommandKind::Up, "UP", "U", false),
        (CommandKind::Down, "DOWN", "D", false),
        (CommandKind::North, "NORTH", "N", true),
        (CommandKind::South, "SOUTH", "S", true),
        (CommandKind::East, "EAST", "E", true),
        (CommandKind::West, "WEST", "W", true),
    ];
    for (kind, long, short, parameter) in kinds {
        assert_eq!(Vocabulary::Long.mnemonic(kind), long);
        assert_eq!(Vocabulary::Short.mnemonic(kind), short);
        assert_eq!(Vocabulary::Long.lookup(long), Some(kind));
        assert_eq!(Vocabulary::Short.lookup(short), Some(kind));
        assert_eq!(kind.takes_parameter(), parameter);
        assert_eq!(kind.with_parameter(5).kind(), kind);
        assert_eq!(kind.with_parameter(5).parameter(), if parameter { Some(5) } else { None });
    }
    assert_eq!(Vocabulary::Long.lookup("N"), None);
    assert_eq!(Vocabulary::Short.lookup("NORTH"), None);
    assert_eq!(Vocabulary::Long.lookup(""), None);
    assert_eq!(Vocabulary::Long.lookup("north"), None);
}
