use vstd::prelude::*;

verus! {

/// The two fonts of the display.
#[derive(Clone, Copy, Debug, PartialEq, Eq, Structural)]
pub enum Font {
    /// 6 by 9 pixels.
    Small,
    /// 9 by 15 pixels, bold.
    LargeBold,
}

/// A primitive drawing operation on the monochrome display. `on` selects
/// the lit colour; strokes and circles are always lit.
#[derive(Clone, Debug)]
pub enum DrawCommand {
    /// Turns every pixel off.
    Clear,
    FillRect { x: i32, y: i32, width: u32, height: u32, on: bool },
    Line { x0: i32, y0: i32, x1: i32, y1: i32, stroke: u32 },
    FillCircle { cx: i32, cy: i32, diameter: u32 },
    /// Text whose baseline starts at `(x, y)`.
    Text { text: String, x: i32, y: i32, font: Font },
}

/// What a draw command does, with its text as a character sequence.
pub enum Drawn {
    Clear,
    FillRect { x: int, y: int, width: int, height: int, on: bool },
    Line { x0: int, y0: int, x1: int, y1: int, stroke: int },
    FillCircle { cx: int, cy: int, diameter: int },
    Text { text: Seq<char>, x: int, y: int, font: Font },
}

impl View for DrawCommand {
    type V = Drawn;

    open spec fn view(&self) -> Drawn {
        match self {
            DrawCommand::Clear => Drawn::Clear,
            DrawCommand::FillRect { x, y, width, height, on } => Drawn::FillRect {
                x: *x as int,
                y: *y as int,
                width: *width as int,
                height: *height as int,
                on: *on,
            },
            DrawCommand::Line { x0, y0, x1, y1, stroke } => Drawn::Line {
                x0: *x0 as int,
                y0: *y0 as int,
                x1: *x1 as int,
                y1: *y1 as int,
                stroke: *stroke as int,
            },
            DrawCommand::FillCircle { cx, cy, diameter } => Drawn::FillCircle {
                cx: *cx as int,
                cy: *cy as int,
                diameter: *diameter as int,
            },
            DrawCommand::Text { text, x, y, font } => Drawn::Text {
                text: text@,
                x: *x as int,
                y: *y as int,
                font: *font,
            },
        }
    }
}

/// What a list of draw commands does, command by command.
pub open spec fn drawn(cmds: Seq<DrawCommand>) -> Seq<Drawn> {
    cmds.map_values(|c: DrawCommand| c@)
}

} // verus!
