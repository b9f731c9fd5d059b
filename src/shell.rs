//! The text terminal of the interactive shell: where the cursor goes as
//! characters arrive, and what the display must draw for it. Drawing itself
//! is left to the caller, which performs the returned actions in order.
use vstd::prelude::*;

verus! {

/// Largest width, height or spacing, in pixels, a terminal works with.
pub const MAX_DIMENSION: u32 = 0xffff;

/// Bound on either cursor coordinate.
pub const CURSOR_BOUND: i32 = 0x2_0000;

#[derive(Debug, Clone, Copy, PartialEq, Eq, Structural)]
pub struct Point {
    pub x: i32,
    pub y: i32,
}

#[derive(Debug, Clone, Copy, PartialEq, Eq, Structural)]
pub struct Size {
    pub width: u32,
    pub height: u32,
}

/// What the display must draw.
#[derive(Debug, Clone, Copy, PartialEq, Eq, Structural)]
pub enum TerminalAction {
    /// Fill the whole screen with the background.
    ClearScreen,
    /// Fill a rectangle with the background.
    Erase { x: i32, y: i32, width: u32, height: u32 },
    /// Draw a character at a point.
    DrawChar { c: char, x: i32, y: i32 },
}

pub struct Terminal {
    /// Characters typed on the current line.
    pub line_buffer: Vec<char>,
    pub cursor: Point,
    pub char_size: Size,
    pub screen_size: Size,
    /// Pixels between two lines.
    pub line_spacing: u32,
}

/// Height of one line: a character and the spacing below it.
pub open spec fn line_height(t: &Terminal) -> int {
    t.char_size.height + t.line_spacing
}

impl Terminal {
    pub open spec fn wf(&self) -> bool {
        &&& self.char_size.width <= MAX_DIMENSION
        &&& self.char_size.height <= MAX_DIMENSION
        &&& self.screen_size.width <= MAX_DIMENSION
        &&& self.screen_size.height <= MAX_DIMENSION
        &&& self.line_spacing <= MAX_DIMENSION
        &&& -CURSOR_BOUND <= self.cursor.x <= CURSOR_BOUND
        &&& -CURSOR_BOUND <= self.cursor.y <= CURSOR_BOUND
    }

    /// A terminal with its cursor at `cursor` and no text on its line.
    pub fn new(cursor: Point, char_size: Size, screen_size: Size, line_spacing: u32) -> (r: Terminal)
        ensures
            r.line_buffer@.len() == 0,
            r.cursor == cursor,
            r.char_size == char_size,
            r.screen_size == screen_size,
            r.line_spacing == line_spacing,
    {
        Terminal { line_buffer: Vec::new(), cursor, char_size, screen_size, line_spacing }
    }

    /// Empties the screen and puts the cursor at the top left.
    pub fn clear_screen(&mut self) -> (r: TerminalAction)
        ensures
            r == TerminalAction::ClearScreen,
            final(self).line_buffer@.len() == 0,
            final(self).cursor == (Point { x: 0, y: 0 }),
            final(self).char_size == old(self).char_size,
            final(self).screen_size == old(self).screen_size,
            final(self).line_spacing == old(self).line_spacing,
            old(self).wf() ==> final(self).wf(),
    {
        self.line_buffer.clear();
        self.cursor = Point { x: 0, y: 0 };
        TerminalAction::ClearScreen
    }

    /// The rectangle that clears the line starting at height `y`.
    pub fn clear_line(&self, y: i32) -> (r: TerminalAction)
        requires
            self.wf(),
        ensures
            r == (TerminalAction::Erase {
                x: 0,
                y,
                width: self.screen_size.width,
                height: (self.char_size.height + self.line_spacing) as u32,
            }),
    {
        TerminalAction::Erase {
            x: 0,
            y,
            width: self.screen_size.width,
            height: self.char_size.height + self.line_spacing,
        }
    }

    /// Starts a new line. When the line would not fit on the screen, the
    /// screen is cleared and the cursor ends one line above the top.
    pub fn newline(&mut self) -> (r: Option<TerminalAction>)
        requires
            old(self).wf(),
        ensures
            final(self).wf(),
            final(self).line_buffer@.len() == 0,
            final(self).char_size == old(self).char_size,
            final(self).screen_size == old(self).screen_size,
            final(self).line_spacing == old(self).line_spacing,
            final(self).cursor.x == 0,
            ({
                let y = old(self).cursor.y + line_height(old(self));
                if y + old(self).char_size.height > old(self).screen_size.height {
                    r == Some(TerminalAction::ClearScreen) && final(self).cursor.y == -line_height(
                        old(self),
                    )
                } else {
                    r is None && final(self).cursor.y == y
                }
            }),
    {
        self.line_buffer.clear();
        let step = (self.char_size.height + self.line_spacing) as i32;
        self.cursor.x = 0;
        self.cursor.y = self.cursor.y + step;
        if self.cursor.y + self.char_size.height as i32 > self.screen_size.height as i32 {
            let action = self.clear_screen();
            self.cursor.y = self.cursor.y - step;
            Some(action)
        } else {
            None
        }
    }

    /// Moves the cursor one character right, to a new line when the next
    /// character would not fit.
    pub fn advance_cursor(&mut self) -> (r: Option<TerminalAction>)
        requires
            old(self).wf(),
        ensures
            final(self).wf(),
            final(self).char_size == old(self).char_size,
            final(self).screen_size == old(self).screen_size,
            final(self).line_spacing == old(self).line_spacing,
            old(self).cursor.x + 2 * old(self).char_size.width <= old(self).screen_size.width ==> r
                is None && final(self).cursor == (Point {
                x: (old(self).cursor.x + old(self).char_size.width) as i32,
                y: old(self).cursor.y,
            }) && final(self).line_buffer@ == old(self).line_buffer@,
            old(self).cursor.x + 2 * old(self).char_size.width > old(self).screen_size.width
                ==> final(self).cursor.x == 0 && final(self).line_buffer@.len() == 0,
    {
        let x = self.cursor.x + self.char_size.width as i32;
        if x + self.char_size.width as i32 > self.screen_size.width as i32 {
            self.newline()
        } else {
            self.cursor.x = x;
            None
        }
    }

    /// Moves the cursor back one character and erases it; at the start of a
    /// line nothing happens.
    pub fn backspace(&mut self) -> (r: Option<TerminalAction>)
        requires
            old(self).wf(),
        ensures
            final(self).wf(),
            final(self).line_buffer@ == old(self).line_buffer@,
            final(self).char_size == old(self).char_size,
            final(self).screen_size == old(self).screen_size,
            final(self).line_spacing == old(self).line_spacing,
            old(self).cursor.x >= old(self).char_size.width ==> {
                let x = (old(self).cursor.x - old(self).char_size.width) as i32;
                &&& final(self).cursor == (Point { x, y: old(self).cursor.y })
                &&& r == Some(
                    TerminalAction::Erase {
                        x,
                        y: (old(self).cursor.y - old(self).char_size.height) as i32,
                        width: old(self).char_size.width,
                        height: (old(self).char_size.height + old(self).line_spacing) as u32,
                    },
                )
            },
            old(self).cursor.x < old(self).char_size.width ==> r is None && final(self).cursor == old(
                self,
            ).cursor,
    {
        if self.cursor.x >= self.char_size.width as i32 {
            self.cursor.x = self.cursor.x - self.char_size.width as i32;
            Some(
                TerminalAction::Erase {
                    x: self.cursor.x,
                    y: self.cursor.y - self.char_size.height as i32,
                    width: self.char_size.width,
                    height: self.char_size.height + self.line_spacing,
                },
            )
        } else {
            None
        }
    }

    /// Handles one character: a line feed starts a new line, a carriage
    /// return goes back to the start of the line, anything else is drawn at
    /// the cursor, kept on the line, and the cursor advances.
    pub fn write_char(&mut self, c: char) -> (r: Vec<TerminalAction>)
        requires
            old(self).wf(),
        ensures
            final(self).wf(),
            final(self).char_size == old(self).char_size,
            final(self).screen_size == old(self).screen_size,
            final(self).line_spacing == old(self).line_spacing,
            c == '\r' ==> r@.len() == 0 && final(self).cursor == (Point {
                x: 0,
                y: old(self).cursor.y,
            }) && final(self).line_buffer@ == old(self).line_buffer@,
            c == '\n' ==> final(self).cursor.x == 0 && final(self).line_buffer@.len() == 0,
            c != '\r' && c != '\n' ==> r@.len() >= 1 && r@[0] == (TerminalAction::DrawChar {
                c,
                x: old(self).cursor.x,
                y: old(self).cursor.y,
            }),
            c != '\r' && c != '\n' && old(self).cursor.x + 2 * old(self).char_size.width
                <= old(self).screen_size.width ==> r@.len() == 1 && final(self).line_buffer@ == old(
                self,
            ).line_buffer@.push(c),
    {
        let mut actions: Vec<TerminalAction> = Vec::new();
        if c == '\n' {
            if let Some(a) = self.newline() {
                actions.push(a);
            }
        } else if c == '\r' {
            self.cursor.x = 0;
        } else {
            self.line_buffer.push(c);
            actions.push(TerminalAction::DrawChar { c, x: self.cursor.x, y: self.cursor.y });
            if let Some(a) = self.advance_cursor() {
                actions.push(a);
            }
        }
        actions
    }

    /// Handles each character of `s` in turn; the actions come in order.
    pub fn write_str(&mut self, s: &[char]) -> (r: Vec<TerminalAction>)
        requires
            old(self).wf(),
        ensures
            final(self).wf(),
            final(self).char_size == old(self).char_size,
            final(self).screen_size == old(self).screen_size,
            final(self).line_spacing == old(self).line_spacing,
    {
        let mut actions: Vec<TerminalAction> = Vec::new();
        let mut i: usize = 0;
        while i < s.len()
            invariant
                self.wf(),
                self.char_size == old(self).char_size,
                self.screen_size == old(self).screen_size,
                self.line_spacing == old(self).line_spacing,
            decreases s@.len() - i,
        {
            let mut more = self.write_char(s[i]);
            actions.append(&mut more);
            i = i + 1;
        }
        actions
    }
}

} // verus!
