//! Cursor position, derived render column, and scroll offsets.
//!
//! The cursor lives in logical coordinates: `cursor_y` may equal the row
//! count (appending past the last row) and `cursor_x` indexes raw
//! characters.  `render_x` is the tab-expanded column derived from the
//! row prefix left of the cursor, and the two offsets place the visible
//! window so that the cursor is always inside it after `scroll`.

use vstd::prelude::*;
use crate::keys::KeyCode;
use crate::row::render_of;
use crate::row::render_prefix;
use crate::row::lemma_render_prefix_mono;
use crate::rows::EditorRows;
use vstd::string::StrSliceExecFns;

verus! {

/// The length of row `r`, or zero past the end of the buffer.
pub open spec fn row_len(raws: Seq<Seq<char>>, r: int) -> nat {
    if 0 <= r < raws.len() {
        raws[r].len()
    } else {
        0
    }
}

/// The six single-step cursor movement keys.
pub open spec fn is_move_key(d: KeyCode) -> bool {
    ||| d == KeyCode::Up
    ||| d == KeyCode::Down
    ||| d == KeyCode::Left
    ||| d == KeyCode::Right
    ||| d == KeyCode::Home
    ||| d == KeyCode::End
}

/// The two paging keys.
pub open spec fn is_page_key(d: KeyCode) -> bool {
    d == KeyCode::PageUp || d == KeyCode::PageDown
}

/// Logical cursor, screen geometry and scroll state.
#[derive(Clone, Copy, PartialEq, Eq, Structural, Debug)]
pub struct CursorController {
    pub cursor_x: usize,
    pub cursor_y: usize,
    pub screen_columns: usize,
    pub screen_rows: usize,
    pub row_offset: usize,
    pub column_offset: usize,
    pub render_x: usize,
}

/// The tab-expanded column of the cursor: the rendered length of the row
/// prefix strictly left of it, or zero past the last row.
pub open spec fn render_x_spec(raws: Seq<Seq<char>>, cy: int, cx: int) -> nat {
    if 0 <= cy < raws.len() {
        render_prefix(raws[cy], cx).len()
    } else {
        0
    }
}

/// One clamped cursor step, exactly as `move_cursor` performs it.
pub open spec fn move_spec(c: CursorController, d: KeyCode, raws: Seq<Seq<char>>)
    -> CursorController {
    let n = raws.len() as int;
    let stepped = if d == KeyCode::Up {
        if c.cursor_y > 0 {
            CursorController { cursor_y: (c.cursor_y - 1) as usize, ..c }
        } else {
            c
        }
    } else if d == KeyCode::Down {
        if (c.cursor_y as int) < n {
            CursorController { cursor_y: (c.cursor_y + 1) as usize, ..c }
        } else {
            c
        }
    } else if d == KeyCode::Left {
        if c.cursor_x > 0 {
            CursorController { cursor_x: (c.cursor_x - 1) as usize, ..c }
        } else if c.cursor_y > 0 {
            CursorController {
                cursor_y: (c.cursor_y - 1) as usize,
                cursor_x: row_len(raws, c.cursor_y as int - 1) as usize,
                ..c
            }
        } else {
            c
        }
    } else if d == KeyCode::Right {
        if (c.cursor_y as int) < n && (c.cursor_x as nat) < row_len(raws, c.cursor_y as int) {
            CursorController { cursor_x: (c.cursor_x + 1) as usize, ..c }
        } else if (c.cursor_y as int) < n && (c.cursor_x as nat) == row_len(
            raws,
            c.cursor_y as int,
        ) {
            CursorController { cursor_y: (c.cursor_y + 1) as usize, cursor_x: 0, ..c }
        } else {
            c
        }
    } else if d == KeyCode::Home {
        CursorController { cursor_x: 0, ..c }
    } else {
        if (c.cursor_y as int) < n {
            CursorController { cursor_x: row_len(raws, c.cursor_y as int) as usize, ..c }
        } else {
            c
        }
    };
    let limit = row_len(raws, stepped.cursor_y as int);
    if (stepped.cursor_x as nat) > limit {
        CursorController { cursor_x: limit as usize, ..stepped }
    } else {
        stepped
    }
}

/// `k` clamped steps in the same direction.
pub open spec fn move_n(c: CursorController, d: KeyCode, raws: Seq<Seq<char>>, k: nat)
    -> CursorController
    decreases k,
{
    if k == 0 {
        c
    } else {
        move_n(move_spec(c, d, raws), d, raws, (k - 1) as nat)
    }
}

/// The row jump that starts a page move: to the top edge of the viewport
/// for PageUp, to its bottom edge for PageDown, either way clamped to the
/// row count.
pub open spec fn page_jump(c: CursorController, d: KeyCode, nrows: nat) -> CursorController {
    if d == KeyCode::PageUp {
        if c.row_offset as nat <= nrows {
            CursorController { cursor_y: c.row_offset, ..c }
        } else {
            CursorController { cursor_y: nrows as usize, ..c }
        }
    } else {
        let edge = c.row_offset + c.screen_rows - 1;
        if edge <= nrows {
            CursorController { cursor_y: edge as usize, ..c }
        } else {
            CursorController { cursor_y: nrows as usize, ..c }
        }
    }
}

/// A whole page move: the jump followed by `k` single steps.
pub open spec fn page_spec(c: CursorController, d: KeyCode, raws: Seq<Seq<char>>, k: nat)
    -> CursorController {
    let step = if d == KeyCode::PageUp {
        KeyCode::Up
    } else {
        KeyCode::Down
    };
    move_n(page_jump(c, d, raws.len()), step, raws, k)
}

/// A sequence of single steps, first direction applied first.
pub open spec fn apply_moves(c: CursorController, ds: Seq<KeyCode>, raws: Seq<Seq<char>>)
    -> CursorController
    decreases ds.len(),
{
    if ds.len() == 0 {
        c
    } else {
        apply_moves(move_spec(c, ds[0], raws), ds.drop_first(), raws)
    }
}

/// Scroll recomputation: shrink each offset to the cursor, then grow it
/// just enough to keep the cursor on screen.
pub open spec fn scroll_spec(c: CursorController, raws: Seq<Seq<char>>) -> CursorController {
    let rx = render_x_spec(raws, c.cursor_y as int, c.cursor_x as int);
    let roff0 = if c.row_offset <= c.cursor_y {
        c.row_offset as nat
    } else {
        c.cursor_y as nat
    };
    let roff = if c.cursor_y as nat >= roff0 + c.screen_rows {
        (c.cursor_y - c.screen_rows + 1) as nat
    } else {
        roff0
    };
    let coff0 = if c.column_offset as nat <= rx {
        c.column_offset as nat
    } else {
        rx
    };
    let coff = if rx >= coff0 + c.screen_columns {
        (rx - c.screen_columns + 1) as nat
    } else {
        coff0
    };
    CursorController {
        render_x: rx as usize,
        row_offset: roff as usize,
        column_offset: coff as usize,
        ..c
    }
}

impl CursorController {
    /// The cursor invariant: the row is at most the row count and the
    /// column at most the length of the row under the cursor.
    pub open spec fn valid(&self, raws: Seq<Seq<char>>) -> bool {
        &&& self.cursor_y as nat <= raws.len()
        &&& self.cursor_x as nat <= row_len(raws, self.cursor_y as int)
    }

    /// A drawable screen: at least one cell each way.
    pub open spec fn geometry_ok(&self) -> bool {
        self.screen_columns >= 1 && self.screen_rows >= 1
    }

    /// A cursor at the origin with everything scrolled to the start.
    pub fn new(win_size: (usize, usize)) -> (c: CursorController)
        ensures
            c == (CursorController {
                cursor_x: 0,
                cursor_y: 0,
                screen_columns: win_size.0,
                screen_rows: win_size.1,
                row_offset: 0,
                column_offset: 0,
                render_x: 0,
            }),
    {
        CursorController {
            cursor_x: 0,
            cursor_y: 0,
            screen_columns: win_size.0,
            screen_rows: win_size.1,
            row_offset: 0,
            column_offset: 0,
            render_x: 0,
        }
    }

    /// One clamped cursor step.
    pub fn move_cursor(&mut self, direction: KeyCode, rows: &EditorRows)
        requires
            is_move_key(direction),
        ensures
            *final(self) == move_spec(*old(self), direction, rows.raws()),
            old(self).cursor_y as nat <= rows.raws().len() ==> final(self).valid(rows.raws()),
    {
        proof {
            if old(self).cursor_y as nat <= rows.raws().len() {
                lemma_move_makes_valid(*old(self), direction, rows.raws());
            }
        }
        let n = rows.number_of_rows();
        match direction {
            KeyCode::Up => {
                if self.cursor_y > 0 {
                    self.cursor_y = self.cursor_y - 1;
                }
            },
            KeyCode::Down => {
                if self.cursor_y < n {
                    self.cursor_y = self.cursor_y + 1;
                }
            },
            KeyCode::Left => {
                if self.cursor_x > 0 {
                    self.cursor_x = self.cursor_x - 1;
                } else if self.cursor_y > 0 {
                    self.cursor_y = self.cursor_y - 1;
                    self.cursor_x = if self.cursor_y < n {
                        rows.get_row(self.cursor_y).raw.len()
                    } else {
                        0
                    };
                }
            },
            KeyCode::Right => {
                if self.cursor_y < n {
                    let len = rows.get_row(self.cursor_y).raw.len();
                    if self.cursor_x < len {
                        self.cursor_x = self.cursor_x + 1;
                    } else if self.cursor_x == len {
                        self.cursor_y = self.cursor_y + 1;
                        self.cursor_x = 0;
                    }
                }
            },
            KeyCode::Home => {
                self.cursor_x = 0;
            },
            _ => {
                if self.cursor_y < n {
                    self.cursor_x = rows.get_row(self.cursor_y).raw.len();
                }
            },
        }
        let limit = if self.cursor_y < n {
            rows.get_row(self.cursor_y).raw.len()
        } else {
            0
        };
        if self.cursor_x > limit {
            self.cursor_x = limit;
        }
    }

    /// A page move: jump to the viewport edge, then step `page_size` times.
    pub fn page(&mut self, direction: KeyCode, page_size: usize, rows: &EditorRows)
        requires
            is_page_key(direction),
            old(self).geometry_ok(),
        ensures
            *final(self) == page_spec(*old(self), direction, rows.raws(), page_size as nat),
            page_size >= 1 ==> final(self).valid(rows.raws()),
            final(self).screen_columns == old(self).screen_columns,
            final(self).screen_rows == old(self).screen_rows,
            final(self).row_offset == old(self).row_offset,
            final(self).column_offset == old(self).column_offset,
            final(self).render_x == old(self).render_x,
    {
        let n = rows.number_of_rows();
        if matches!(direction, KeyCode::PageUp) {
            self.cursor_y = if self.row_offset <= n {
                self.row_offset
            } else {
                n
            };
        } else {
            self.cursor_y = if self.row_offset >= n {
                n
            } else if self.screen_rows - 1 < n - self.row_offset {
                self.row_offset + (self.screen_rows - 1)
            } else {
                n
            };
        }
        let step = if matches!(direction, KeyCode::PageUp) {
            KeyCode::Up
        } else {
            KeyCode::Down
        };
        let ghost jumped = *self;
        proof {
            assert(jumped == page_jump(*old(self), direction, rows.raws().len()));
        }
        let mut i: usize = 0;
        while i < page_size
            invariant
                0 <= i <= page_size,
                is_move_key(step),
                self.cursor_y as nat <= rows.raws().len(),
                move_n(*self, step, rows.raws(), (page_size - i) as nat) == move_n(
                    jumped,
                    step,
                    rows.raws(),
                    page_size as nat,
                ),
                i >= 1 ==> self.valid(rows.raws()),
                self.screen_columns == old(self).screen_columns,
                self.screen_rows == old(self).screen_rows,
                self.row_offset == old(self).row_offset,
                self.column_offset == old(self).column_offset,
                self.render_x == old(self).render_x,
            decreases page_size - i,
        {
            self.move_cursor(step, rows);
            i = i + 1;
        }
    }

    /// The tab-expanded column of the cursor in its row.
    pub fn get_render_x(&self, rows: &EditorRows) -> (rx: usize)
        requires
            rows.well_formed(),
            self.valid(rows.raws()),
        ensures
            rx as nat == render_x_spec(rows.raws(), self.cursor_y as int, self.cursor_x as int),
    {
        let n = rows.number_of_rows();
        if self.cursor_y >= n {
            return 0;
        }
        let row = rows.get_row(self.cursor_y);
        let total = row.rendered.as_str().unicode_len();
        let mut col: usize = 0;
        let mut i: usize = 0;
        while i < self.cursor_x
            invariant
                rows.well_formed(),
                self.cursor_y < rows.raws().len(),
                i <= self.cursor_x <= row.raw@.len(),
                *row == rows.rows@[self.cursor_y as int],
                col as nat == render_prefix(row.raw@, i as int).len(),
                total as nat == render_of(row.raw@).len(),
            decreases self.cursor_x - i,
        {
            proof {
                lemma_render_prefix_mono(row.raw@, i as int + 1, row.raw@.len() as int);
            }
            if row.raw[i] == '\t' {
                let pad = 8 - col % 8;
                col = col + pad;
            } else {
                col = col + 1;
            }
            i = i + 1;
        }
        col
    }

    /// Recomputes `render_x` and both scroll offsets so that the cursor
    /// lies inside the visible window.
    pub fn scroll(&mut self, rows: &EditorRows)
        requires
            rows.well_formed(),
            old(self).valid(rows.raws()),
            old(self).geometry_ok(),
        ensures
            *final(self) == scroll_spec(*old(self), rows.raws()),
            final(self).row_offset <= final(self).cursor_y
                < final(self).row_offset + final(self).screen_rows,
            final(self).column_offset <= final(self).render_x
                < final(self).column_offset + final(self).screen_columns,
    {
        let rx = self.get_render_x(rows);
        self.render_x = rx;
        if self.cursor_y < self.row_offset {
            self.row_offset = self.cursor_y;
        }
        if self.cursor_y - self.row_offset >= self.screen_rows {
            self.row_offset = self.cursor_y - self.screen_rows + 1;
        }
        if self.render_x < self.column_offset {
            self.column_offset = self.render_x;
        }
        if self.render_x - self.column_offset >= self.screen_columns {
            self.column_offset = self.render_x - self.screen_columns + 1;
        }
    }
}

/// From any cursor whose row is in range, one step lands in a valid state.
pub proof fn lemma_move_makes_valid(c: CursorController, d: KeyCode, raws: Seq<Seq<char>>)
    requires
        c.cursor_y as nat <= raws.len(),
    ensures
        move_spec(c, d, raws).valid(raws),
{
}

/// Cursor clamp: every sequence of single steps keeps the cursor inside
/// the buffer bounds.
pub proof fn lemma_moves_valid(c: CursorController, ds: Seq<KeyCode>, raws: Seq<Seq<char>>)
    requires
        c.valid(raws),
    ensures
        apply_moves(c, ds, raws).valid(raws),
    decreases ds.len(),
{
    if ds.len() > 0 {
        lemma_move_makes_valid(c, ds[0], raws);
        lemma_moves_valid(move_spec(c, ds[0], raws), ds.drop_first(), raws);
    }
}

} // verus!
