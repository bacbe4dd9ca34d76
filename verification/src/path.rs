//! The path that a sequence of commands draws: the pen, the way each command
//! changes it, and the vertices of the line segments it leaves behind.

use vstd::prelude::*;
use crate::command::Command;
use crate::error::{ErrorKind, ProgramError};
use crate::palette::{Palette, Rgb};

verus! {

/// The number of pen-units in one unit of the drawing surface. Positions are
/// kept in whole pen-units; whoever draws them divides by this.
pub const PEN_UNITS_PER_SURFACE_UNIT: u32 = 100;

/// One end of a line segment: a position in pen-units and a colour.
#[derive(Clone, Copy, Debug, PartialEq, Eq, Structural)]
pub struct Vertex {
    pub x: i128,
    pub y: i128,
    pub color: Rgb,
}

/// The pen: where it is, in pen-units, the colour it draws with, and whether
/// it touches the surface.
#[derive(Clone, Copy, Debug, PartialEq, Eq, Structural)]
pub struct PenState {
    pub x: i128,
    pub y: i128,
    pub color: Rgb,
    pub pen_down: bool,
}

/// A vertex as contracts speak of it, with unbounded coordinates.
pub struct VertexView {
    pub x: int,
    pub y: int,
    pub color: Rgb,
}

/// A pen as contracts speak of it, with unbounded coordinates.
pub struct PenView {
    pub x: int,
    pub y: int,
    pub color: Rgb,
    pub down: bool,
}

impl View for Vertex {
    type V = VertexView;

    open spec fn view(&self) -> VertexView {
        VertexView { x: self.x as int, y: self.y as int, color: self.color }
    }
}

impl View for PenState {
    type V = PenView;

    open spec fn view(&self) -> PenView {
        PenView { x: self.x as int, y: self.y as int, color: self.color, down: self.pen_down }
    }
}

/// The vertices of a list as contracts speak of them.
pub open spec fn vertex_views(vertices: Seq<Vertex>) -> Seq<VertexView> {
    vertices.map_values(|v: Vertex| v@)
}

/// Whether a palette of `palette_len` colours has the colour that `command`
/// asks for. A command other than a colour command asks for none.
pub open spec fn color_in_range(command: Command, palette_len: nat) -> bool {
    command matches Command::PenColor(index) ==> index < palette_len
}

/// Whether a palette of `palette_len` colours has every colour that the
/// commands ask for.
pub open spec fn colors_in_range(commands: Seq<Command>, palette_len: nat) -> bool {
    forall|i: int| 0 <= i < commands.len() ==> color_in_range(#[trigger] commands[i], palette_len)
}

/// Whether the command at `index` is the first to ask for a colour that a
/// palette of `palette_len` colours lacks.
pub open spec fn first_bad_color(commands: Seq<Command>, palette_len: nat, index: int) -> bool {
    &&& 0 <= index < commands.len()
    &&& !color_in_range(commands[index], palette_len)
    &&& colors_in_range(commands.take(index), palette_len)
}

impl PenView {
    /// The pen before any command: at the origin, lifted, with the first
    /// colour of the palette.
    pub open spec fn initial(palette: Seq<Rgb>) -> PenView {
        PenView { x: 0, y: 0, color: palette[0], down: false }
    }

    /// The vertex at the pen's position, in the pen's colour.
    pub open spec fn vertex(self) -> VertexView {
        VertexView { x: self.x, y: self.y, color: self.color }
    }

    /// The pen after the move that `command` makes: the displacement is added
    /// to the position, and nothing else changes.
    pub open spec fn moved(self, command: Command) -> PenView {
        PenView {
            x: self.x + command.displacement().0,
            y: self.y + command.displacement().1,
            ..self
        }
    }

    /// The pen after one command. `Up` and `Down` set whether the pen touches
    /// the surface; a colour command takes the colour at its index; a move
    /// adds its displacement to the position, whether the pen is down or not.
    /// A colour command whose index the palette lacks changes nothing.
    pub open spec fn after(self, command: Command, palette: Seq<Rgb>) -> PenView {
        match command {
            Command::Up => PenView { down: false, ..self },
            Command::Down => PenView { down: true, ..self },
            Command::PenColor(index) => if index < palette.len() {
                PenView { color: palette[index as int], ..self }
            } else {
                self
            },
            _ => self.moved(command),
        }
    }

    /// The vertices that one command draws: for a move with the pen down, the
    /// position before the move and the position after it, both in the colour
    /// that the pen has before the move; for anything else, none.
    pub open spec fn segment(self, command: Command) -> Seq<VertexView> {
        if self.down && command.is_move() {
            seq![self.vertex(), self.moved(command).vertex()]
        } else {
            Seq::empty()
        }
    }

    /// The pen after a sequence of commands, taken in order.
    pub open spec fn run(self, commands: Seq<Command>, palette: Seq<Rgb>) -> PenView
        decreases commands.len(),
    {
        if commands.len() == 0 {
            self
        } else {
            self.run(commands.drop_last(), palette).after(commands.last(), palette)
        }
    }

    /// The vertices that a sequence of commands draws, in the order in which
    /// they are drawn: the segments of its moves, each drawn by the pen as
    /// the commands before it left it.
    pub open spec fn trace(self, commands: Seq<Command>, palette: Seq<Rgb>) -> Seq<VertexView>
        decreases commands.len(),
    {
        if commands.len() == 0 {
            Seq::empty()
        } else {
            self.trace(commands.drop_last(), palette) + self.run(
                commands.drop_last(),
                palette,
            ).segment(commands.last())
        }
    }
}

/// The pen that a program leaves behind.
pub open spec fn pen_after(commands: Seq<Command>, palette: Seq<Rgb>) -> PenView {
    PenView::initial(palette).run(commands, palette)
}

/// The vertices that a program draws.
pub open spec fn path_vertices(commands: Seq<Command>, palette: Seq<Rgb>) -> Seq<VertexView> {
    PenView::initial(palette).trace(commands, palette)
}

/// The vertices of a segment that may be absent.
pub open spec fn segment_views(segment: Option<(Vertex, Vertex)>) -> Seq<VertexView> {
    match segment {
        Some((start, end)) => seq![start@, end@],
        None => Seq::empty(),
    }
}

impl PenState {
    /// Whether the position that `command` moves this pen to can be held.
    pub open spec fn can_apply(self, command: Command) -> bool {
        &&& i128::MIN <= self.x + command.displacement().0 <= i128::MAX
        &&& i128::MIN <= self.y + command.displacement().1 <= i128::MAX
    }

    /// Makes the pen that a program starts with: at the origin, lifted, with
    /// the first colour of `palette`.
    pub fn new(palette: &Palette) -> (pen: PenState)
        ensures
            pen@ == PenView::initial(palette@),
    {
        PenState { x: 0, y: 0, color: palette.first(), pen_down: false }
    }

    /// Returns the vertex at the pen's position, in the pen's colour.
    pub fn vertex(&self) -> (v: Vertex)
        ensures
            v@ == self@.vertex(),
    {
        Vertex { x: self.x, y: self.y, color: self.color }
    }

    /// Carries out one command and returns the segment that it draws, if it
    /// draws one. A colour command whose index `palette` lacks is refused
    /// with `ColorIndexOutOfRange` and leaves the pen as it was.
    pub fn apply(&mut self, command: Command, palette: &Palette) -> (r: Result<
        Option<(Vertex, Vertex)>,
        ErrorKind,
    >)
        requires
            old(self).can_apply(command),
        ensures
            r is Ok <==> color_in_range(command, palette@.len()),
            match r {
                Ok(segment) => {
                    &&& final(self)@ == old(self)@.after(command, palette@)
                    &&& segment_views(segment) == old(self)@.segment(command)
                },
                Err(kind) => kind == ErrorKind::ColorIndexOutOfRange && *final(self) == *old(self),
            },
    {
        match command {
            Command::Up => {
                self.pen_down = false;
                Ok(None)
            },
            Command::Down => {
                self.pen_down = true;
                Ok(None)
            },
            Command::PenColor(index) => match palette.lookup(index) {
                Ok(color) => {
                    self.color = color;
                    Ok(None)
                },
                Err(kind) => Err(kind),
            },
            _ => {
                let start = self.vertex();
                let (dx, dy) = command.offset();
                self.x = self.x + dx as i128;
                self.y = self.y + dy as i128;
                if self.pen_down {
                    let end = self.vertex();
                    assert(seq![start@, end@] =~= old(self)@.segment(command));
                    Ok(Some((start, end)))
                } else {
                    Ok(None)
                }
            },
        }
    }
}

/// Draws a program: carries out its commands in order, from the pen at the
/// origin, lifted, with the first colour of `palette`, and returns the
/// vertices of the segments drawn, two for each move made with the pen down.
/// The first command that asks for a colour that `palette` lacks ends the
/// run with `ColorIndexOutOfRange` and its index, and no vertex is returned.
pub fn build_path(commands: &[Command], palette: &Palette) -> (r: Result<
    Vec<Vertex>,
    ProgramError,
>)
    ensures
        r is Ok <==> colors_in_range(commands@, palette@.len()),
        match r {
            Ok(vertices) => vertex_views(vertices@) == path_vertices(commands@, palette@),
            Err(e) => e.kind == ErrorKind::ColorIndexOutOfRange && first_bad_color(
                commands@,
                palette@.len(),
                e.line as int,
            ),
        },
{
    let mut pen = PenState::new(palette);
    let mut vertices: Vec<Vertex> = Vec::new();
    let mut i: usize = 0;
    assert(vertex_views(vertices@) =~= path_vertices(commands@.take(0), palette@));
    while i < commands.len()
        invariant
            i <= commands.len(),
            colors_in_range(commands@.take(i as int), palette@.len()),
            pen@ == pen_after(commands@.take(i as int), palette@),
            vertex_views(vertices@) == path_vertices(commands@.take(i as int), palette@),
            -(i * 0xffff_ffff) <= pen.x <= i * 0xffff_ffff,
            -(i * 0xffff_ffff) <= pen.y <= i * 0xffff_ffff,
        decreases commands.len() - i,
    {
        let command = commands[i];
        let ghost before = commands@.take(i as int);
        let ghost now = commands@.take(i + 1);
        let ghost drawn = vertices@;
        assert(now.drop_last() =~= before);
        assert(now.last() == command);
        match pen.apply(command, palette) {
            Ok(Some((start, end))) => {
                vertices.push(start);
                vertices.push(end);
                assert(vertex_views(vertices@) =~= vertex_views(drawn) + seq![start@, end@]);
            },
            Ok(None) => {
                assert(vertex_views(vertices@) =~= vertex_views(drawn) + Seq::<VertexView>::empty());
            },
            Err(kind) => {
                return Err(ProgramError { kind, line: i });
            },
        }
        assert forall|j: int| 0 <= j < now.len() implies color_in_range(
            #[trigger] now[j],
            palette@.len(),
        ) by {
            if j < i {
                assert(now[j] == before[j]);
            }
        }
        i += 1;
    }
    assert(commands@.take(i as int) =~= commands@);
    Ok(vertices)
}

/// What was drawn stays drawn: the vertices of a sequence of commands are
/// those of any first part of it, followed by what the rest draws with the
/// pen as the first part left it.
pub proof fn lemma_trace_append(
    start: PenView,
    first: Seq<Command>,
    rest: Seq<Command>,
    palette: Seq<Rgb>,
)
    ensures
        start.run(first + rest, palette) == start.run(first, palette).run(rest, palette),
        start.trace(first + rest, palette) == start.trace(first, palette) + start.run(
            first,
            palette,
        ).trace(rest, palette),
    decreases rest.len(),
{
    if rest.len() == 0 {
        assert(first + rest =~= first);
        assert(start.trace(first, palette) + Seq::<VertexView>::empty() =~= start.trace(
            first,
            palette,
        ));
    } else {
        let all = first + rest;
        assert(all.drop_last() =~= first + rest.drop_last());
        assert(all.last() == rest.last());
        lemma_trace_append(start, first, rest.drop_last(), palette);
        let middle = start.run(first, palette);
        assert(start.trace(all, palette) =~= start.trace(first, palette) + middle.trace(
            rest,
            palette,
        ));
    }
}

/// Vertices come in pairs, and the two vertices of a pair have one colour.
pub proof fn lemma_trace_pairs(start: PenView, commands: Seq<Command>, palette: Seq<Rgb>)
    ensures
        start.trace(commands, palette).len() % 2 == 0,
        forall|k: int|
            0 <= k && 2 * k + 1 < start.trace(commands, palette).len() ==> (
            #[trigger] start.trace(commands, palette)[2 * k]).color == start.trace(
                commands,
                palette,
            )[2 * k + 1].color,
    decreases commands.len(),
{
    if commands.len() > 0 {
        lemma_trace_pairs(start, commands.drop_last(), palette);
    }
}

/// A pen that starts lifted and is never told to go down stays lifted.
pub proof fn lemma_stays_up(start: PenView, commands: Seq<Command>, palette: Seq<Rgb>)
    requires
        !start.down,
        forall|j: int| 0 <= j < commands.len() ==> !(#[trigger] commands[j] is Down),
    ensures
        !start.run(commands, palette).down,
    decreases commands.len(),
{
    if commands.len() > 0 {
        let before = commands.drop_last();
        assert forall|j: int| 0 <= j < before.len() implies !(#[trigger] before[j] is Down) by {
            assert(before[j] == commands[j]);
        }
        lemma_stays_up(start, before, palette);
        assert(!(commands[commands.len() - 1] is Down));
    }
}

/// A program in which no `Down` comes before a move draws nothing.
pub proof fn lemma_no_down_no_vertices(commands: Seq<Command>, palette: Seq<Rgb>)
    requires
        forall|i: int, j: int|
            0 <= j < i < commands.len() && (#[trigger] commands[i]).is_move() ==> !(
            #[trigger] commands[j] is Down),
    ensures
        path_vertices(commands, palette) == Seq::<VertexView>::empty(),
    decreases commands.len(),
{
    if commands.len() > 0 {
        let before = commands.drop_last();
        let last = commands.last();
        assert forall|i: int, j: int|
            0 <= j < i < before.len() && (#[trigger] before[i]).is_move() implies !(
        #[trigger] before[j] is Down) by {
            assert(before[i] == commands[i] && before[j] == commands[j]);
        }
        lemma_no_down_no_vertices(before, palette);
        if last.is_move() {
            assert forall|j: int| 0 <= j < before.len() implies !(#[trigger] before[j] is Down) by {
                assert(commands[commands.len() - 1].is_move());
                assert(before[j] == commands[j]);
            }
            lemma_stays_up(PenView::initial(palette), before, palette);
        }
        assert(path_vertices(commands, palette) =~= Seq::<VertexView>::empty());
    }
}

/// A change of colour between two moves made with the pen down marks the
/// later segment only. After `before`, the commands `first`, a colour
/// command and `second` add four vertices to those of `before`: the two of
/// the first move in the colour that the pen had, the two of the second in
/// the colour chosen.
pub proof fn lemma_color_change_marks_later_segment(
    before: Seq<Command>,
    first: Command,
    index: u32,
    second: Command,
    palette: Seq<Rgb>,
)
    requires
        first.is_move(),
        second.is_move(),
        index < palette.len(),
        pen_after(before, palette).down,
    ensures
        ({
            let pen = pen_after(before, palette);
            let drawn = path_vertices(before, palette);
            let all = path_vertices(
                before + seq![first, Command::PenColor(index), second],
                palette,
            );
            let n = drawn.len() as int;
            &&& all.len() == n + 4
            &&& all.take(n) == drawn
            &&& all[n] == pen.vertex()
            &&& all[n + 1] == pen.moved(first).vertex()
            &&& all[n].color == pen.color
            &&& all[n + 1].color == pen.color
            &&& all[n + 2].color == palette[index as int]
            &&& all[n + 3].color == palette[index as int]
            &&& all[n + 2].x == all[n + 1].x
            &&& all[n + 2].y == all[n + 1].y
        }),
{
    let start = PenView::initial(palette);
    let pen = pen_after(before, palette);
    let rest = seq![first, Command::PenColor(index), second];
    lemma_trace_append(start, before, rest, palette);
    let two = rest.drop_last();
    let one = two.drop_last();
    assert(one.drop_last() =~= Seq::<Command>::empty());
    assert(pen.run(one.drop_last(), palette) == pen);
    assert(pen.trace(one.drop_last(), palette) =~= Seq::<VertexView>::empty());
    assert(one.last() == first);
    assert(two.last() == Command::PenColor(index));
    assert(rest.last() == second);
    assert(pen.trace(one, palette) =~= seq![pen.vertex(), pen.moved(first).vertex()]);
    assert(pen.trace(two, palette) =~= pen.trace(one, palette));
    let recolored = pen.run(two, palette);
    assert(recolored == PenView { color: palette[index as int], ..pen.moved(first) });
    assert(pen.trace(rest, palette) =~= seq![
        pen.vertex(),
        pen.moved(first).vertex(),
        recolored.vertex(),
        recolored.moved(second).vertex(),
    ]);
    let all = path_vertices(before + rest, palette);
    let drawn = path_vertices(before, palette);
    assert(all.take(drawn.len() as int) =~= drawn);
}

/// A program has at most one first command that asks for a colour that the
/// palette lacks.
pub proof fn lemma_first_bad_color_unique(
    commands: Seq<Command>,
    palette_len: nat,
    i: int,
    j: int,
)
    requires
        first_bad_color(commands, palette_len, i),
        first_bad_color(commands, palette_len, j),
    ensures
        i == j,
{
    if i < j {
        assert(commands.take(j)[i] == commands[i]);
    } else if j < i {
        assert(commands.take(i)[j] == commands[j]);
    }
}

} // verus!
