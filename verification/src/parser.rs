//! Reading lines of text as commands.

use vstd::prelude::*;
use crate::command::{lemma_mnemonics, Command, CommandKind, Vocabulary};
use crate::error::{ErrorKind, ProgramError};
use crate::numeral::{
    decimal_digits, is_digit, lemma_decimal_digits_value, lemma_numeral_round_trip,
    numeral_value, parse_numeral_in,
};
use crate::words::{
    after_first_word, chars_of, first_word, is_blank, lemma_first_word_after_blank,
    lemma_first_word_of_concat, lemma_no_word_no_more, next_word, no_blank,
};

verus! {

/// The mnemonic of a line: its first word.
pub open spec fn mnemonic_of(line: Seq<char>) -> Seq<char> {
    first_word(line)
}

/// The parameter of a line: its second word, empty where the line has none.
pub open spec fn parameter_of(line: Seq<char>) -> Seq<char> {
    first_word(after_first_word(line))
}

/// What a line means in a vocabulary.
///
/// A line without a word is a `MissingToken`. A line of one word is `Up` or
/// `Down` where the word is the mnemonic of either, and an `UnknownMnemonic`
/// otherwise. On a line of two or more words the second has to be a numeral,
/// or the line is an `InvalidInteger` whatever its first word; the first has
/// then to be the mnemonic of a move or of the colour command, which gets the
/// numeral's value, or the line is an `UnknownMnemonic`. Words after the
/// second are not looked at.
pub open spec fn parse_line(line: Seq<char>, vocabulary: Vocabulary) -> Result<
    Command,
    ErrorKind,
> {
    let mnemonic = mnemonic_of(line);
    let parameter = parameter_of(line);
    if mnemonic.len() == 0 {
        Err(ErrorKind::MissingToken)
    } else if parameter.len() == 0 {
        match vocabulary.kind_of(mnemonic) {
            Some(kind) => if kind.has_parameter() {
                Err(ErrorKind::UnknownMnemonic)
            } else {
                Ok(kind.command(0))
            },
            None => Err(ErrorKind::UnknownMnemonic),
        }
    } else {
        match numeral_value(parameter) {
            None => Err(ErrorKind::InvalidInteger),
            Some(n) => match vocabulary.kind_of(mnemonic) {
                Some(kind) => if kind.has_parameter() {
                    Ok(kind.command(n))
                } else {
                    Err(ErrorKind::UnknownMnemonic)
                },
                None => Err(ErrorKind::UnknownMnemonic),
            },
        }
    }
}

/// Whether every line of a program means a command.
pub open spec fn all_lines_parse(lines: Seq<String>, vocabulary: Vocabulary) -> bool {
    forall|i: int| 0 <= i < lines.len() ==> (#[trigger] parse_line(lines[i]@, vocabulary)) is Ok
}

/// The commands that the lines of a program mean, line by line.
pub open spec fn commands_of(lines: Seq<String>, vocabulary: Vocabulary) -> Seq<Command>
    recommends
        all_lines_parse(lines, vocabulary),
{
    Seq::new(lines.len(), |i: int| parse_line(lines[i]@, vocabulary)->Ok_0)
}

/// Whether line `index` is the first line of a program that means no command.
pub open spec fn first_bad_line(lines: Seq<String>, vocabulary: Vocabulary, index: int) -> bool {
    &&& 0 <= index < lines.len()
    &&& parse_line(lines[index]@, vocabulary) is Err
    &&& all_lines_parse(lines.take(index), vocabulary)
}

/// Reads one line as a command of `vocabulary`.
pub fn parse_command(line: &str, vocabulary: Vocabulary) -> (r: Result<Command, ErrorKind>)
    ensures
        r == parse_line(line@, vocabulary),
{
    let chars = chars_of(line);
    assert(chars@.skip(0) =~= line@);
    let (start, end) = next_word(&chars, 0);
    let (from, to) = next_word(&chars, end);
    if start == end {
        return Err(ErrorKind::MissingToken);
    }
    let kind = vocabulary.lookup_in(&chars, start, end);
    if from == to {
        match kind {
            Some(kind) => if kind.takes_parameter() {
                Err(ErrorKind::UnknownMnemonic)
            } else {
                Ok(kind.with_parameter(0))
            },
            None => Err(ErrorKind::UnknownMnemonic),
        }
    } else {
        match parse_numeral_in(&chars, from, to) {
            None => Err(ErrorKind::InvalidInteger),
            Some(n) => match kind {
                Some(kind) => if kind.takes_parameter() {
                    Ok(kind.with_parameter(n))
                } else {
                    Err(ErrorKind::UnknownMnemonic)
                },
                None => Err(ErrorKind::UnknownMnemonic),
            },
        }
    }
}

/// Reads one line as a command of the long vocabulary.
pub fn process_command(command: String) -> (r: Result<Command, ErrorKind>)
    ensures
        r == parse_line(command@, Vocabulary::Long),
{
    parse_command(command.as_str(), Vocabulary::Long)
}

/// Reads a program, one command from each line, and stops at the first line
/// that means none.
pub fn parse_program(lines: &[String], vocabulary: Vocabulary) -> (r: Result<
    Vec<Command>,
    ProgramError,
>)
    ensures
        r is Ok <==> all_lines_parse(lines@, vocabulary),
        match r {
            Ok(commands) => commands@ == commands_of(lines@, vocabulary),
            Err(e) => first_bad_line(lines@, vocabulary, e.line as int) && Err::<Command, ErrorKind>(
                e.kind,
            ) == parse_line(lines@[e.line as int]@, vocabulary),
        },
{
    let mut commands: Vec<Command> = Vec::new();
    let mut i: usize = 0;
    while i < lines.len()
        invariant
            i <= lines.len(),
            all_lines_parse(lines@.take(i as int), vocabulary),
            commands@ == commands_of(lines@.take(i as int), vocabulary),
        decreases lines.len() - i,
    {
        match parse_command(lines[i].as_str(), vocabulary) {
            Ok(command) => {
                commands.push(command);
            },
            Err(kind) => {
                assert(parse_line(lines@[i as int]@, vocabulary) is Err);
                return Err(ProgramError { kind, line: i });
            },
        }
        proof {
            let before = lines@.take(i as int);
            let now = lines@.take(i + 1);
            assert forall|j: int| 0 <= j < now.len() implies (#[trigger] parse_line(
                now[j]@,
                vocabulary,
            )) is Ok by {
                if j < i {
                    assert(now[j] == before[j]);
                    assert(parse_line(before[j]@, vocabulary) is Ok);
                }
            }
            assert(commands@ =~= commands_of(now, vocabulary)) by {
                assert forall|j: int| 0 <= j < now.len() implies commands@[j] == commands_of(
                    now,
                    vocabulary,
                )[j] by {
                    if j < i {
                        assert(now[j] == before[j]);
                        assert(commands@[j] == commands_of(before, vocabulary)[j]);
                    }
                }
            }
        }
        i += 1;
    }
    assert(lines@.take(i as int) =~= lines@);
    Ok(commands)
}

/// A line of one word means `Up` or `Down` or nothing, and `Up` and `Down`
/// come from lines of one word only: neither takes a parameter.
pub proof fn lemma_no_parameter(line: Seq<char>, vocabulary: Vocabulary)
    ensures
        parameter_of(line).len() == 0 ==> match parse_line(line, vocabulary) {
            Ok(command) => (command == Command::Up && mnemonic_of(line) == vocabulary.word(
                CommandKind::Up,
            )) || (command == Command::Down && mnemonic_of(line) == vocabulary.word(
                CommandKind::Down,
            )),
            Err(kind) => kind == ErrorKind::MissingToken || kind == ErrorKind::UnknownMnemonic,
        },
        parse_line(line, vocabulary) == Ok::<Command, ErrorKind>(Command::Up) || parse_line(
            line,
            vocabulary,
        ) == Ok::<Command, ErrorKind>(Command::Down) ==> parameter_of(line).len() == 0,
{
    lemma_mnemonics(vocabulary, CommandKind::Up);
    lemma_mnemonics(vocabulary, CommandKind::Down);
}

/// The number that a command carries is the value of the numeral on its
/// line, and the kind of the command is the one that the mnemonic names.
pub proof fn lemma_parameter_verbatim(line: Seq<char>, vocabulary: Vocabulary)
    requires
        parameter_of(line).len() > 0,
        parse_line(line, vocabulary) is Ok,
    ensures
        ({
            let command = parse_line(line, vocabulary)->Ok_0;
            &&& command.spec_parameter() is Some
            &&& command.spec_parameter() == numeral_value(parameter_of(line))
            &&& Some(command.spec_kind()) == vocabulary.kind_of(mnemonic_of(line))
        }),
{
}

/// A line whose second word is no numeral is an `InvalidInteger`, whatever
/// its first word is.
pub proof fn lemma_invalid_integer(line: Seq<char>, vocabulary: Vocabulary)
    requires
        parameter_of(line).len() > 0,
        numeral_value(parameter_of(line)) is None,
    ensures
        parse_line(line, vocabulary) == Err::<Command, ErrorKind>(ErrorKind::InvalidInteger),
{
    if mnemonic_of(line).len() == 0 {
        lemma_no_word_no_more(line);
    }
}

/// Each fault of a line, with the lines on which it comes: a line without a
/// word is a `MissingToken`; a line whose second word is no numeral is an
/// `InvalidInteger`; any other line is an `UnknownMnemonic` unless its first
/// word names a kind that goes with the number of its words. No line is a
/// `ColorIndexOutOfRange`: whether a palette has a colour is not the
/// parser's to say.
pub proof fn lemma_error_kinds(line: Seq<char>, vocabulary: Vocabulary)
    ensures
        parse_line(line, vocabulary) == Err::<Command, ErrorKind>(ErrorKind::MissingToken)
            <==> mnemonic_of(line).len() == 0,
        parse_line(line, vocabulary) == Err::<Command, ErrorKind>(ErrorKind::InvalidInteger)
            <==> parameter_of(line).len() > 0 && numeral_value(parameter_of(line)) is None,
        parse_line(line, vocabulary) == Err::<Command, ErrorKind>(ErrorKind::UnknownMnemonic)
            <==> {
            &&& mnemonic_of(line).len() > 0
            &&& parameter_of(line).len() > 0 ==> numeral_value(parameter_of(line)) is Some
            &&& match vocabulary.kind_of(mnemonic_of(line)) {
                Some(kind) => kind.has_parameter() != (parameter_of(line).len() > 0),
                None => true,
            }
        },
        parse_line(line, vocabulary) != Err::<Command, ErrorKind>(
            ErrorKind::ColorIndexOutOfRange,
        ),
{
    if mnemonic_of(line).len() == 0 {
        lemma_no_word_no_more(line);
    }
}

/// A program has at most one first line that means no command.
pub proof fn lemma_first_bad_line_unique(
    lines: Seq<String>,
    vocabulary: Vocabulary,
    i: int,
    j: int,
)
    requires
        first_bad_line(lines, vocabulary, i),
        first_bad_line(lines, vocabulary, j),
    ensures
        i == j,
{
    if i < j {
        assert(lines.take(j)[i] == lines[i]);
    } else if j < i {
        assert(lines.take(i)[j] == lines[j]);
    }
}

/// Writing a command and reading the line back gives the command, in either
/// vocabulary.
pub proof fn lemma_format_then_parse(command: Command, vocabulary: Vocabulary)
    ensures
        parse_line(command.line(vocabulary), vocabulary) == Ok::<Command, ErrorKind>(command),
{
    let kind = command.spec_kind();
    let word = vocabulary.word(kind);
    lemma_mnemonics(vocabulary, kind);
    match command.spec_parameter() {
        Some(n) => {
            let digits = decimal_digits(n as nat);
            lemma_decimal_digits_value(n as nat);
            lemma_numeral_round_trip(n);
            assert(no_blank(digits)) by {
                assert forall|i: int| 0 <= i < digits.len() implies !is_blank(
                    #[trigger] digits[i],
                ) by {
                    assert(is_digit(digits[i]));
                }
            }
            let rest = seq![' '] + digits;
            assert(command.line(vocabulary) =~= word + rest);
            lemma_first_word_of_concat(word, rest);
            lemma_first_word_after_blank(' ', digits);
        },
        None => {
            let rest = Seq::<char>::empty();
            assert(command.line(vocabulary) =~= word + rest);
            lemma_first_word_of_concat(word, rest);
            lemma_no_word_no_more(rest);
        },
    }
}

} // verus!
