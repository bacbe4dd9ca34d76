//! A line-oriented pen-plotter language: parsing of command lines and the
//! construction of the line segments that a command sequence draws.

pub mod command;
pub mod error;
pub mod numeral;
pub mod palette;
pub mod parser;
pub mod path;
pub mod words;

pub use crate::command::{Command, CommandKind, Vocabulary};
pub use crate::error::{ErrorKind, ProgramError};
pub use crate::palette::{Palette, Rgb};
pub use crate::parser::{parse_command, parse_program, process_command};
pub use crate::path::{build_path, PenState, Vertex};

use vstd::prelude::*;
use crate::parser::{all_lines_parse, commands_of, first_bad_line, parse_line};
use crate::path::{colors_in_range, first_bad_color, path_vertices, vertex_views};

verus! {

/// Reads a program and draws it. Every line is read before anything is
/// drawn: the first line that means no command ends the run with the kind of
/// its fault, and only a program whose lines all mean commands can end with
/// `ColorIndexOutOfRange`, at the first command that asks for a colour that
/// `palette` lacks. Otherwise the vertices of the path are returned.
pub fn draw_program(lines: &[String], vocabulary: Vocabulary, palette: &Palette) -> (r: Result<
    Vec<Vertex>,
    ProgramError,
>)
    ensures
        r is Ok <==> all_lines_parse(lines@, vocabulary) && colors_in_range(
            commands_of(lines@, vocabulary),
            palette@.len(),
        ),
        match r {
            Ok(vertices) => vertex_views(vertices@) == path_vertices(
                commands_of(lines@, vocabulary),
                palette@,
            ),
            Err(e) => if all_lines_parse(lines@, vocabulary) {
                e.kind == ErrorKind::ColorIndexOutOfRange && first_bad_color(
                    commands_of(lines@, vocabulary),
                    palette@.len(),
                    e.line as int,
                )
            } else {
                first_bad_line(lines@, vocabulary, e.line as int) && Err::<Command, ErrorKind>(
                    e.kind,
                ) == parse_line(lines@[e.line as int]@, vocabulary)
            },
        },
{
    match parse_program(lines, vocabulary) {
        Ok(commands) => build_path(commands.as_slice(), palette),
        Err(e) => Err(e),
    }
}

} // verus!
