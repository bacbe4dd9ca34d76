//! The commands of the pen language and the vocabularies that name them.

use vstd::prelude::*;
use vstd::string::*;
use crate::numeral::{decimal_digits, push_decimal};
use crate::words::{chars_of, no_blank};

verus! {

/// One instruction to the pen.
#[derive(Clone, Copy, Debug, PartialEq, Eq, Structural)]
pub enum Command {
    /// Take the colour at this index of the palette.
    PenColor(u32),
    /// Lift the pen: moves draw nothing until it is lowered again.
    Up,
    /// Lower the pen: moves draw from now on.
    Down,
    /// Move towards negative y by this many pen-units.
    North(u32),
    /// Move towards positive y by this many pen-units.
    South(u32),
    /// Move towards positive x by this many pen-units.
    East(u32),
    /// Move towards negative x by this many pen-units.
    West(u32),
}

/// What a command does, without its parameter.
#[derive(Clone, Copy, Debug, PartialEq, Eq, Structural)]
pub enum CommandKind {
    PenColor,
    Up,
    Down,
    North,
    South,
    East,
    West,
}

/// A set of mnemonics. Both vocabularies name the same seven kinds of command
/// and differ in nothing but the words.
#[derive(Clone, Copy, Debug, PartialEq, Eq, Structural)]
pub enum Vocabulary {
    /// `COLOR`, `UP`, `DOWN`, `NORTH`, `SOUTH`, `EAST`, `WEST`.
    Long,
    /// `P`, `U`, `D`, `N`, `S`, `E`, `W`.
    Short,
}

impl CommandKind {
    /// Whether a command of this kind carries a number.
    pub open spec fn has_parameter(self) -> bool {
        !(self is Up || self is Down)
    }

    /// The command of this kind with parameter `n`; a kind without parameter
    /// ignores `n`.
    pub open spec fn command(self, n: u32) -> Command {
        match self {
            CommandKind::PenColor => Command::PenColor(n),
            CommandKind::Up => Command::Up,
            CommandKind::Down => Command::Down,
            CommandKind::North => Command::North(n),
            CommandKind::South => Command::South(n),
            CommandKind::East => Command::East(n),
            CommandKind::West => Command::West(n),
        }
    }

    /// Tells whether a command of this kind carries a number.
    pub fn takes_parameter(self) -> (b: bool)
        ensures
            b == self.has_parameter(),
    {
        match self {
            CommandKind::Up | CommandKind::Down => false,
            _ => true,
        }
    }

    /// Builds the command of this kind with parameter `n`; a kind without
    /// parameter ignores `n`.
    pub fn with_parameter(self, n: u32) -> (c: Command)
        ensures
            c == self.command(n),
    {
        match self {
            CommandKind::PenColor => Command::PenColor(n),
            CommandKind::Up => Command::Up,
            CommandKind::Down => Command::Down,
            CommandKind::North => Command::North(n),
            CommandKind::South => Command::South(n),
            CommandKind::East => Command::East(n),
            CommandKind::West => Command::West(n),
        }
    }
}

impl Command {
    /// The kind of this command.
    pub open spec fn spec_kind(self) -> CommandKind {
        match self {
            Command::PenColor(_) => CommandKind::PenColor,
            Command::Up => CommandKind::Up,
            Command::Down => CommandKind::Down,
            Command::North(_) => CommandKind::North,
            Command::South(_) => CommandKind::South,
            Command::East(_) => CommandKind::East,
            Command::West(_) => CommandKind::West,
        }
    }

    /// The number that this command carries, if it carries one.
    pub open spec fn spec_parameter(self) -> Option<u32> {
        match self {
            Command::PenColor(n) => Some(n),
            Command::North(n) => Some(n),
            Command::South(n) => Some(n),
            Command::East(n) => Some(n),
            Command::West(n) => Some(n),
            Command::Up | Command::Down => None,
        }
    }

    /// Whether this command moves the pen.
    pub open spec fn is_move(self) -> bool {
        self is North || self is South || self is East || self is West
    }

    /// The change of position that this command makes, as `(dx, dy)` in
    /// pen-units: north is negative y, south positive y, east positive x and
    /// west negative x. A command that is no move changes nothing.
    pub open spec fn displacement(self) -> (int, int) {
        match self {
            Command::North(d) => (0, -(d as int)),
            Command::South(d) => (0, d as int),
            Command::East(d) => (d as int, 0),
            Command::West(d) => (-(d as int), 0),
            _ => (0, 0),
        }
    }

    /// The line that states this command in `vocabulary`: the mnemonic and,
    /// for a command with a parameter, one space and the parameter in decimal.
    pub open spec fn line(self, vocabulary: Vocabulary) -> Seq<char> {
        match self.spec_parameter() {
            Some(n) => vocabulary.word(self.spec_kind()) + seq![' '] + decimal_digits(n as nat),
            None => vocabulary.word(self.spec_kind()),
        }
    }

    /// Returns the kind of this command.
    #[verifier::when_used_as_spec(spec_kind)]
    pub fn kind(self) -> (k: CommandKind)
        ensures
            k == self.spec_kind(),
    {
        match self {
            Command::PenColor(_) => CommandKind::PenColor,
            Command::Up => CommandKind::Up,
            Command::Down => CommandKind::Down,
            Command::North(_) => CommandKind::North,
            Command::South(_) => CommandKind::South,
            Command::East(_) => CommandKind::East,
            Command::West(_) => CommandKind::West,
        }
    }

    /// Returns the number that this command carries, if it carries one.
    #[verifier::when_used_as_spec(spec_parameter)]
    pub fn parameter(self) -> (p: Option<u32>)
        ensures
            p == self.spec_parameter(),
    {
        match self {
            Command::PenColor(n) => Some(n),
            Command::North(n) => Some(n),
            Command::South(n) => Some(n),
            Command::East(n) => Some(n),
            Command::West(n) => Some(n),
            Command::Up | Command::Down => None,
        }
    }

    /// Returns the change of position that this command makes, as `(dx, dy)`.
    pub fn offset(self) -> (d: (i64, i64))
        ensures
            d.0 == self.displacement().0,
            d.1 == self.displacement().1,
    {
        match self {
            Command::North(d) => (0, -(d as i64)),
            Command::South(d) => (0, d as i64),
            Command::East(d) => (d as i64, 0),
            Command::West(d) => (-(d as i64), 0),
            _ => (0, 0),
        }
    }

    /// Writes this command as a line of `vocabulary`.
    pub fn format(self, vocabulary: Vocabulary) -> (text: String)
        ensures
            text@ == self.line(vocabulary),
    {
        let mut text = String::from_str(vocabulary.mnemonic(self.kind()));
        match self.parameter() {
            Some(n) => {
                proof {
                    reveal_strlit(" ");
                }
                text.append(" ");
                assert(" "@ =~= seq![' ']);
                push_decimal(&mut text, n);
            },
            None => {},
        }
        text
    }
}

impl Vocabulary {
    /// The mnemonic that this vocabulary has for `kind`.
    pub open spec fn word(self, kind: CommandKind) -> Seq<char> {
        match self {
            Vocabulary::Long => match kind {
                CommandKind::PenColor => "COLOR"@,
                CommandKind::Up => "UP"@,
                CommandKind::Down => "DOWN"@,
                CommandKind::North => "NORTH"@,
                CommandKind::South => "SOUTH"@,
                CommandKind::East => "EAST"@,
                CommandKind::West => "WEST"@,
            },
            Vocabulary::Short => match kind {
                CommandKind::PenColor => "P"@,
                CommandKind::Up => "U"@,
                CommandKind::Down => "D"@,
                CommandKind::North => "N"@,
                CommandKind::South => "S"@,
                CommandKind::East => "E"@,
                CommandKind::West => "W"@,
            },
        }
    }

    /// The kind that `word` names in this vocabulary, or `None` where it names
    /// none. Mnemonics are matched exactly: case counts.
    pub open spec fn kind_of(self, word: Seq<char>) -> Option<CommandKind> {
        if word == self.word(CommandKind::PenColor) {
            Some(CommandKind::PenColor)
        } else if word == self.word(CommandKind::Up) {
            Some(CommandKind::Up)
        } else if word == self.word(CommandKind::Down) {
            Some(CommandKind::Down)
        } else if word == self.word(CommandKind::North) {
            Some(CommandKind::North)
        } else if word == self.word(CommandKind::South) {
            Some(CommandKind::South)
        } else if word == self.word(CommandKind::East) {
            Some(CommandKind::East)
        } else if word == self.word(CommandKind::West) {
            Some(CommandKind::West)
        } else {
            None
        }
    }

    /// Returns the mnemonic that this vocabulary has for `kind`.
    pub fn mnemonic(self, kind: CommandKind) -> (text: &'static str)
        ensures
            text@ == self.word(kind),
    {
        match self {
            Vocabulary::Long => match kind {
                CommandKind::PenColor => "COLOR",
                CommandKind::Up => "UP",
                CommandKind::Down => "DOWN",
                CommandKind::North => "NORTH",
                CommandKind::South => "SOUTH",
                CommandKind::East => "EAST",
                CommandKind::West => "WEST",
            },
            Vocabulary::Short => match kind {
                CommandKind::PenColor => "P",
                CommandKind::Up => "U",
                CommandKind::Down => "D",
                CommandKind::North => "N",
                CommandKind::South => "S",
                CommandKind::East => "E",
                CommandKind::West => "W",
            },
        }
    }

    /// Looks up the word that `chars` holds from index `from` up to `to`.
    pub(crate) fn lookup_in(self, chars: &Vec<char>, from: usize, to: usize) -> (k: Option<
        CommandKind,
    >)
        requires
            from <= to <= chars.len(),
        ensures
            k == self.kind_of(chars@.subrange(from as int, to as int)),
    {
        if same_text(chars, from, to, self.mnemonic(CommandKind::PenColor)) {
            Some(CommandKind::PenColor)
        } else if same_text(chars, from, to, self.mnemonic(CommandKind::Up)) {
            Some(CommandKind::Up)
        } else if same_text(chars, from, to, self.mnemonic(CommandKind::Down)) {
            Some(CommandKind::Down)
        } else if same_text(chars, from, to, self.mnemonic(CommandKind::North)) {
            Some(CommandKind::North)
        } else if same_text(chars, from, to, self.mnemonic(CommandKind::South)) {
            Some(CommandKind::South)
        } else if same_text(chars, from, to, self.mnemonic(CommandKind::East)) {
            Some(CommandKind::East)
        } else if same_text(chars, from, to, self.mnemonic(CommandKind::West)) {
            Some(CommandKind::West)
        } else {
            None
        }
    }

    /// Returns the kind that `word` names in this vocabulary, or `None` where
    /// it names none.
    pub fn lookup(self, word: &str) -> (k: Option<CommandKind>)
        ensures
            k == self.kind_of(word@),
    {
        let chars = chars_of(word);
        let n = chars.len();
        assert(chars@.subrange(0, n as int) =~= word@);
        self.lookup_in(&chars, 0, n)
    }
}

/// Tells whether `chars` holds the text `word` from index `from` up to `to`.
fn same_text(chars: &Vec<char>, from: usize, to: usize, word: &str) -> (b: bool)
    requires
        from <= to <= chars.len(),
    ensures
        b == (chars@.subrange(from as int, to as int) == word@),
{
    let expected = chars_of(word);
    let ghost found = chars@.subrange(from as int, to as int);
    if expected.len() != to - from {
        return false;
    }
    let mut i: usize = 0;
    while i < expected.len()
        invariant
            from <= to <= chars.len(),
            expected.len() == to - from,
            found == chars@.subrange(from as int, to as int),
            expected@ == word@,
            i <= expected.len(),
            forall|j: int| 0 <= j < i ==> found[j] == expected@[j],
        decreases expected.len() - i,
    {
        if chars[from + i] != expected[i] {
            assert(found[i as int] != expected@[i as int]);
            return false;
        }
        i += 1;
    }
    assert(found =~= word@);
    true
}

/// In each vocabulary every mnemonic is a word of its own: it is not empty,
/// holds no blank, and names its kind and no other.
pub proof fn lemma_mnemonics(vocabulary: Vocabulary, kind: CommandKind)
    ensures
        vocabulary.word(kind).len() > 0,
        no_blank(vocabulary.word(kind)),
        vocabulary.kind_of(vocabulary.word(kind)) == Some(kind),
{
    reveal_strlit("COLOR");
    reveal_strlit("UP");
    reveal_strlit("DOWN");
    reveal_strlit("NORTH");
    reveal_strlit("SOUTH");
    reveal_strlit("EAST");
    reveal_strlit("WEST");
    reveal_strlit("P");
    reveal_strlit("U");
    reveal_strlit("D");
    reveal_strlit("N");
    reveal_strlit("S");
    reveal_strlit("E");
    reveal_strlit("W");
    let w = vocabulary.word(kind);
    assert(w.len() > 0);
    assert(no_blank(w));
    assert(vocabulary.kind_of(w) == Some(kind)) by {
        assert("COLOR"@[0] == 'C' && "UP"@[0] == 'U' && "DOWN"@[0] == 'D' && "NORTH"@[0] == 'N'
            && "SOUTH"@[0] == 'S' && "EAST"@[0] == 'E' && "WEST"@[0] == 'W');
        assert("P"@[0] == 'P' && "U"@[0] == 'U' && "D"@[0] == 'D' && "N"@[0] == 'N' && "S"@[0]
            == 'S' && "E"@[0] == 'E' && "W"@[0] == 'W');
    }
}

} // verus!
