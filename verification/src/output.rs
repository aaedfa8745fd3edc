//! The editor's visible state: buffer, cursor, frame buffer, status
//! message and dirty counter, with the editing operations that the key
//! dispatcher applies and the renderer that turns it all into one frame.

use vstd::prelude::*;
use crate::contents::Directive;
use crate::contents::DirSpec;
use crate::contents::EditorContents;
use crate::contents::dir_views;
use crate::contents::text_part;
use crate::cursor::CursorController;
use crate::cursor::is_move_key;
use crate::cursor::is_page_key;
use crate::cursor::move_spec;
use crate::cursor::page_spec;
use crate::cursor::row_len;
use crate::cursor::scroll_spec;
use crate::decimal::dec_of;
use crate::decimal::dec_string_usize;
use crate::keys::KeyCode;
use crate::row::render_of;
use crate::row::spaces;
use crate::rows::EditorRows;
use crate::rows::row_delete;
use crate::rows::row_insert;
use crate::rows::rows_join;
use crate::status::StatusMessage;
use crate::status::expire_spec;
use vstd::string::StrSliceExecFns;
use vstd::string::StringExecFns;

verus! {

/// The dirty counter after one more unsaved mutation.
pub open spec fn dirty_inc(d: u64) -> u64 {
    if d == u64::MAX {
        d
    } else {
        (d + 1) as u64
    }
}

/// Raw contents after a character is inserted at the cursor; a cursor on
/// the append line past the last row first gains an empty row.
pub open spec fn insert_at(raws: Seq<Seq<char>>, cy: int, cx: int, c: char) -> Seq<
    Seq<char>,
> {
    if cy == raws.len() {
        row_insert(raws.push(Seq::empty()), cy, cx, c)
    } else {
        row_insert(raws, cy, cx, c)
    }
}

/// Backspace does nothing at the origin or on the append line past the
/// last row.
pub open spec fn backspace_is_noop(raws: Seq<Seq<char>>, cy: int, cx: int) -> bool {
    cy == raws.len() || (cx == 0 && cy == 0)
}

/// Raw contents after a backspace at `(cy, cx)`: delete the preceding
/// character, or join the row onto the one above when at column zero.
pub open spec fn backspace_raws(raws: Seq<Seq<char>>, cy: int, cx: int) -> Seq<Seq<char>> {
    if backspace_is_noop(raws, cy, cx) {
        raws
    } else if cx > 0 {
        row_delete(raws, cy, cx - 1)
    } else {
        rows_join(raws, cy)
    }
}

/// The cursor row after a backspace.
pub open spec fn backspace_cy(raws: Seq<Seq<char>>, cy: int, cx: int) -> int {
    if !backspace_is_noop(raws, cy, cx) && cx == 0 {
        cy - 1
    } else {
        cy
    }
}

/// The cursor column after a backspace: one left, or the join point.
pub open spec fn backspace_cx(raws: Seq<Seq<char>>, cy: int, cx: int) -> int {
    if backspace_is_noop(raws, cy, cx) {
        cx
    } else if cx > 0 {
        cx - 1
    } else {
        row_len(raws, cy - 1) as int
    }
}

/// Everything one render cycle reads and one keypress may change.
pub struct Output {
    pub win_size: (usize, usize),
    pub editor_rows: EditorRows,
    pub editor_contents: EditorContents,
    pub cursor_controller: CursorController,
    pub status_message: StatusMessage,
    pub dirty: u64,
}

impl Output {
    /// The state invariant between cycles: caches coherent, cursor in
    /// bounds, geometry consistent and at least one cell, frame empty.
    pub open spec fn wf(&self) -> bool {
        &&& self.editor_rows.well_formed()
        &&& self.cursor_controller.valid(self.editor_rows.raws())
        &&& self.cursor_controller.geometry_ok()
        &&& self.cursor_controller.screen_columns == self.win_size.0
        &&& self.cursor_controller.screen_rows == self.win_size.1
        &&& self.editor_contents.content@.len() == 0
        &&& self.editor_contents.parts@.len() == 0
    }

    /// A fresh output over the given buffer and text-area geometry.
    pub fn new(win_size: (usize, usize), editor_rows: EditorRows) -> (r: Output)
        requires
            win_size.0 >= 1,
            win_size.1 >= 1,
        ensures
            r.win_size == win_size,
            r.editor_rows == editor_rows,
            r.cursor_controller == (CursorController {
                cursor_x: 0,
                cursor_y: 0,
                screen_columns: win_size.0,
                screen_rows: win_size.1,
                row_offset: 0,
                column_offset: 0,
                render_x: 0,
            }),
            r.status_message.text is None,
            r.dirty == 0,
            editor_rows.well_formed() ==> r.wf(),
    {
        let r = Output {
            win_size,
            editor_rows,
            editor_contents: EditorContents::new(),
            cursor_controller: CursorController::new(win_size),
            status_message: StatusMessage::new(),
            dirty: 0,
        };
        r
    }

    /// One clamped cursor step; nothing else changes.
    pub fn move_cursor(&mut self, direction: KeyCode)
        requires
            old(self).wf(),
            is_move_key(direction),
        ensures
            final(self).wf(),
            *final(self) == (Output {
                cursor_controller: move_spec(
                    old(self).cursor_controller,
                    direction,
                    old(self).editor_rows.raws(),
                ),
                ..*old(self)
            }),
    {
        self.cursor_controller.move_cursor(direction, &self.editor_rows);
    }

    /// One page move of a full text screen; nothing else changes.
    pub fn page_cursor(&mut self, direction: KeyCode)
        requires
            old(self).wf(),
            is_page_key(direction),
        ensures
            final(self).wf(),
            *final(self) == (Output {
                cursor_controller: page_spec(
                    old(self).cursor_controller,
                    direction,
                    old(self).editor_rows.raws(),
                    old(self).win_size.1 as nat,
                ),
                ..*old(self)
            }),
    {
        let page_size = self.win_size.1;
        self.cursor_controller.page(direction, page_size, &self.editor_rows);
    }

    /// Inserts `c` at the cursor, advances the cursor one column and
    /// counts one unsaved mutation.
    pub fn insert_char(&mut self, c: char)
        requires
            old(self).wf(),
        ensures
            final(self).wf(),
            final(self).editor_rows.raws() == insert_at(
                old(self).editor_rows.raws(),
                old(self).cursor_controller.cursor_y as int,
                old(self).cursor_controller.cursor_x as int,
                c,
            ),
            final(self).editor_rows.filename == old(self).editor_rows.filename,
            final(self).cursor_controller == (CursorController {
                cursor_x: (old(self).cursor_controller.cursor_x + 1) as usize,
                ..old(self).cursor_controller
            }),
            final(self).dirty == dirty_inc(old(self).dirty),
            final(self).win_size == old(self).win_size,
            final(self).editor_contents == old(self).editor_contents,
            final(self).status_message == old(self).status_message,
    {
        let cy = self.cursor_controller.cursor_y;
        let cx = self.cursor_controller.cursor_x;
        if cy == self.editor_rows.number_of_rows() {
            self.editor_rows.append_row(Vec::new());
        }
        let ghost base = self.editor_rows.raws();
        let res = self.editor_rows.insert_char(cy, cx, c);
        proof {
            assert(res is Ok);
            assert(self.editor_rows.raws()[cy as int] == base[cy as int].insert(
                cx as int,
                c,
            ));
        }
        let new_len = self.editor_rows.get_row(cy).raw.len();
        proof {
            assert(self.editor_rows.raws().len() == self.editor_rows.rows@.len());
            assert(0 <= cy < self.editor_rows.rows@.len());
            assert(self.editor_rows.raws() == crate::rows::raw_views(self.editor_rows.rows@));
            assert(crate::rows::raw_views(self.editor_rows.rows@)[cy as int]
                == self.editor_rows.rows@[cy as int].raw@);
            assert(cx < new_len);
        }
        self.cursor_controller.cursor_x = cx + 1;
        if self.dirty < u64::MAX {
            self.dirty = self.dirty + 1;
        }
    }

    /// Backspace at the cursor: deletes the preceding character, or joins
    /// the row onto the one above when at column zero; a no-op at the
    /// origin or past the last row.
    pub fn backspace(&mut self)
        requires
            old(self).wf(),
        ensures
            final(self).wf(),
            final(self).editor_rows.raws() == backspace_raws(
                old(self).editor_rows.raws(),
                old(self).cursor_controller.cursor_y as int,
                old(self).cursor_controller.cursor_x as int,
            ),
            final(self).editor_rows.filename == old(self).editor_rows.filename,
            final(self).cursor_controller == (CursorController {
                cursor_y: backspace_cy(
                    old(self).editor_rows.raws(),
                    old(self).cursor_controller.cursor_y as int,
                    old(self).cursor_controller.cursor_x as int,
                ) as usize,
                cursor_x: backspace_cx(
                    old(self).editor_rows.raws(),
                    old(self).cursor_controller.cursor_y as int,
                    old(self).cursor_controller.cursor_x as int,
                ) as usize,
                ..old(self).cursor_controller
            }),
            final(self).dirty == if backspace_is_noop(
                old(self).editor_rows.raws(),
                old(self).cursor_controller.cursor_y as int,
                old(self).cursor_controller.cursor_x as int,
            ) {
                old(self).dirty
            } else {
                dirty_inc(old(self).dirty)
            },
            final(self).win_size == old(self).win_size,
            final(self).editor_contents == old(self).editor_contents,
            final(self).status_message == old(self).status_message,
    {
        let cy = self.cursor_controller.cursor_y;
        let cx = self.cursor_controller.cursor_x;
        let n = self.editor_rows.number_of_rows();
        if cy == n || (cx == 0 && cy == 0) {
            return ;
        }
        if cx > 0 {
            let res = self.editor_rows.delete_char(cy, cx - 1);
            proof {
                assert(res is Ok);
            }
            self.cursor_controller.cursor_x = cx - 1;
        } else {
            let prev_len = self.editor_rows.get_row(cy - 1).raw.len();
            let res = self.editor_rows.join_row(cy);
            proof {
                assert(res is Ok);
            }
            self.cursor_controller.cursor_y = cy - 1;
            self.cursor_controller.cursor_x = prev_len;
        }
        if self.dirty < u64::MAX {
            self.dirty = self.dirty + 1;
        }
    }

    /// Delete at the cursor: one step right, then the backspace logic, so
    /// it removes the character under the cursor or pulls the next row up.
    pub fn delete(&mut self)
        requires
            old(self).wf(),
        ensures
            final(self).wf(),
            ({
                let moved = move_spec(
                    old(self).cursor_controller,
                    KeyCode::Right,
                    old(self).editor_rows.raws(),
                );
                let raws = old(self).editor_rows.raws();
                &&& final(self).editor_rows.raws() == backspace_raws(
                    raws,
                    moved.cursor_y as int,
                    moved.cursor_x as int,
                )
                &&& final(self).editor_rows.filename == old(self).editor_rows.filename
                &&& final(self).cursor_controller == (CursorController {
                    cursor_y: backspace_cy(
                        raws,
                        moved.cursor_y as int,
                        moved.cursor_x as int,
                    ) as usize,
                    cursor_x: backspace_cx(
                        raws,
                        moved.cursor_y as int,
                        moved.cursor_x as int,
                    ) as usize,
                    ..old(self).cursor_controller
                })
                &&& final(self).dirty == if backspace_is_noop(
                    raws,
                    moved.cursor_y as int,
                    moved.cursor_x as int,
                ) {
                    old(self).dirty
                } else {
                    dirty_inc(old(self).dirty)
                }
            }),
            final(self).win_size == old(self).win_size,
            final(self).editor_contents == old(self).editor_contents,
            final(self).status_message == old(self).status_message,
    {
        self.cursor_controller.move_cursor(KeyCode::Right, &self.editor_rows);
        self.backspace();
    }
}

/// The line break emitted after each drawn screen row.
pub open spec fn crlf() -> Seq<char> {
    seq!['\r', '\n']
}

/// `t` cut down to at most `width` characters.
pub open spec fn clip(t: Seq<char>, width: nat) -> Seq<char> {
    if t.len() <= width {
        t
    } else {
        t.take(width as int)
    }
}

/// The horizontally scrolled part of a rendered line that fits on screen.
pub open spec fn visible_slice(line: Seq<char>, coff: nat, width: nat) -> Seq<char> {
    if line.len() <= coff {
        Seq::empty()
    } else if line.len() - coff <= width {
        line.subrange(coff as int, line.len() as int)
    } else {
        line.subrange(coff as int, coff as int + width)
    }
}

/// The banner shown in an empty buffer.
pub open spec fn welcome_text() -> Seq<char> {
    "Pound Editor --- Version 0.0.1"@
}

/// The banner row: clipped to the screen and centered behind a `~`.
pub open spec fn welcome_row(width: nat) -> Seq<char> {
    let w = clip(welcome_text(), width);
    let padding = ((width - w.len()) as nat) / 2;
    if padding == 0 {
        w
    } else {
        seq!['~'] + spaces((padding - 1) as nat) + w
    }
}

/// What screen row `i` of the text area shows: a buffer row's visible
/// slice, a `~` filler, or the centered banner in an empty buffer.
pub open spec fn screen_row_text(
    raws: Seq<Seq<char>>,
    roff: nat,
    coff: nat,
    width: nat,
    srows: nat,
    i: nat,
) -> Seq<char> {
    if i + roff >= raws.len() {
        if raws.len() == 0 && i == srows / 3 {
            welcome_row(width)
        } else {
            seq!['~']
        }
    } else {
        visible_slice(render_of(raws[(i + roff) as int]), coff, width)
    }
}

/// The directives for the first `n` screen rows of the text area: each
/// row's text (omitted when empty), an erase to end of line, a line break.
pub open spec fn rows_parts(
    raws: Seq<Seq<char>>,
    roff: nat,
    coff: nat,
    width: nat,
    srows: nat,
    n: int,
) -> Seq<DirSpec>
    decreases n,
{
    if n <= 0 {
        Seq::empty()
    } else {
        rows_parts(raws, roff, coff, width, srows, n - 1) + text_part(
            screen_row_text(raws, roff, coff, width, srows, (n - 1) as nat),
        ) + seq![DirSpec::EraseToEol, DirSpec::Text(crlf())]
    }
}

/// The file name shown in the status bar, or its placeholder.
pub open spec fn display_name(f: Option<String>) -> Seq<char> {
    match f {
        Option::Some(s) => s@,
        Option::None => "[No Name]"@,
    }
}

/// The left half of the status bar: name, modified marker, row count.
pub open spec fn status_left(name: Seq<char>, modified: bool, nrows: nat) -> Seq<char> {
    name + (if modified {
        " (modified)"@
    } else {
        Seq::<char>::empty()
    }) + " - "@ + dec_of(nrows) + " lines"@
}

/// The right half of the status bar: cursor row over row count.
pub open spec fn status_right(cy: nat, nrows: nat) -> Seq<char> {
    dec_of(cy) + "/"@ + dec_of(nrows)
}

/// The full status bar: the clipped left half, then the right half
/// pushed against the right edge when it fits, padding in between.
pub open spec fn status_bar_text(left: Seq<char>, right: Seq<char>, width: nat) -> Seq<
    char,
> {
    let l = clip(left, width);
    if l.len() + right.len() <= width {
        l + spaces((width - l.len() - right.len()) as nat) + right
    } else {
        l + spaces((width - l.len()) as nat)
    }
}

/// The view of an optional message.
pub open spec fn msg_view(t: Option<String>) -> Option<Seq<char>> {
    match t {
        Option::Some(s) => Option::Some(s@),
        Option::None => Option::None,
    }
}

/// The message bar: erase the line, then the clipped live message.
pub open spec fn message_parts(msg: Option<Seq<char>>, width: nat) -> Seq<DirSpec> {
    seq![DirSpec::EraseToEol] + match msg {
        Option::None => Seq::<DirSpec>::empty(),
        Option::Some(t) => text_part(clip(t, width)),
    }
}

/// One whole frame, in emission order: hide cursor, home, the text area,
/// the reverse-video status bar, the message bar, the cursor placed at
/// its screen cell, show cursor.
pub open spec fn frame_spec(
    raws: Seq<Seq<char>>,
    cc: CursorController,
    name: Seq<char>,
    modified: bool,
    msg: Option<Seq<char>>,
) -> Seq<DirSpec> {
    let width = cc.screen_columns as nat;
    let srows = cc.screen_rows as nat;
    seq![DirSpec::HideCursor, DirSpec::MoveTo(0, 0)] + rows_parts(
        raws,
        cc.row_offset as nat,
        cc.column_offset as nat,
        width,
        srows,
        srows as int,
    ) + seq![
        DirSpec::ReverseVideo,
        DirSpec::Text(
            status_bar_text(
                status_left(name, modified, raws.len()),
                status_right(cc.cursor_y as nat, raws.len()),
                width,
            ),
        ),
        DirSpec::ResetVideo,
        DirSpec::Text(crlf()),
    ] + message_parts(msg, width) + seq![
        DirSpec::MoveTo(
            cc.render_x - cc.column_offset,
            cc.cursor_y - cc.row_offset,
        ),
        DirSpec::ShowCursor,
    ]
}

impl Output {
    /// Draws the text area: one directive group per screen row.
    pub fn draw_rows(&mut self)
        requires
            old(self).editor_rows.well_formed(),
            old(self).editor_contents.content@.len() == 0,
        ensures
            final(self).editor_contents.content@.len() == 0,
            final(self).editor_contents.out() == old(self).editor_contents.out()
                + rows_parts(
                old(self).editor_rows.raws(),
                old(self).cursor_controller.row_offset as nat,
                old(self).cursor_controller.column_offset as nat,
                old(self).cursor_controller.screen_columns as nat,
                old(self).cursor_controller.screen_rows as nat,
                old(self).cursor_controller.screen_rows as int,
            ),
            final(self).editor_rows == old(self).editor_rows,
            final(self).cursor_controller == old(self).cursor_controller,
            final(self).win_size == old(self).win_size,
            final(self).status_message == old(self).status_message,
            final(self).dirty == old(self).dirty,
    {
        let screen_rows = self.cursor_controller.screen_rows;
        let screen_columns = self.cursor_controller.screen_columns;
        let roff = self.cursor_controller.row_offset;
        let coff = self.cursor_controller.column_offset;
        let n = self.editor_rows.number_of_rows();
        let ghost raws = self.editor_rows.raws();
        let ghost out0 = self.editor_contents.out();
        let mut i: usize = 0;
        while i < screen_rows
            invariant
                0 <= i <= screen_rows,
                self.editor_rows == old(self).editor_rows,
                self.cursor_controller == old(self).cursor_controller,
                self.win_size == old(self).win_size,
                self.status_message == old(self).status_message,
                self.dirty == old(self).dirty,
                self.editor_rows.well_formed(),
                raws == self.editor_rows.raws(),
                n == raws.len(),
                roff == self.cursor_controller.row_offset,
                coff == self.cursor_controller.column_offset,
                screen_rows == self.cursor_controller.screen_rows,
                screen_columns == self.cursor_controller.screen_columns,
                self.editor_contents.content@.len() == 0,
                self.editor_contents.out() == out0 + rows_parts(
                    raws,
                    roff as nat,
                    coff as nat,
                    screen_columns as nat,
                    screen_rows as nat,
                    i as int,
                ),
            decreases screen_rows - i,
        {
            let ghost out_i = self.editor_contents.out();
            let in_buffer = roff < n && i < n - roff;
            if !in_buffer {
                if n == 0 && i == screen_rows / 3 {
                    let welcome = "Pound Editor --- Version 0.0.1";
                    let wlen = welcome.unicode_len();
                    if wlen > screen_columns {
                        let t = welcome.substring_char(0, screen_columns);
                        self.editor_contents.push_str(t);
                    } else {
                        let mut padding = (screen_columns - wlen) / 2;
                        if padding != 0 {
                            self.editor_contents.push('~');
                            padding = padding - 1;
                        }
                        self.editor_contents.push_spaces(padding);
                        self.editor_contents.push_str(welcome);
                    }
                } else {
                    self.editor_contents.push('~');
                }
            } else {
                let fr = roff + i;
                let row = self.editor_rows.get_row(fr);
                let len = row.rendered.as_str().unicode_len();
                if len > coff {
                    let end = if len - coff <= screen_columns {
                        len
                    } else {
                        coff + screen_columns
                    };
                    let slice = row.rendered.as_str().substring_char(coff, end);
                    self.editor_contents.push_str(slice);
                }
            }
            proof {
                assert(self.editor_contents.content@ =~= screen_row_text(
                    raws,
                    roff as nat,
                    coff as nat,
                    screen_columns as nat,
                    screen_rows as nat,
                    i as nat,
                ));
            }
            self.editor_contents.queue(Directive::EraseToEol);
            self.editor_contents.push_str("\r\n");
            self.editor_contents.flush_text();
            proof {
                reveal_strlit("\r\n");
                assert(("\r\n")@ =~= crlf());
                assert(self.editor_contents.out() =~= out0 + rows_parts(
                    raws,
                    roff as nat,
                    coff as nat,
                    screen_columns as nat,
                    screen_rows as nat,
                    i as int + 1,
                ));
            }
            i = i + 1;
        }
    }

    /// Draws the reverse-video status bar and its trailing line break.
    pub fn draw_status_bar(&mut self)
        requires
            old(self).editor_contents.content@.len() == 0,
            old(self).cursor_controller.geometry_ok(),
        ensures
            final(self).editor_contents.content@.len() == 0,
            final(self).editor_contents.out() == old(self).editor_contents.out() + seq![
                DirSpec::ReverseVideo,
                DirSpec::Text(
                    status_bar_text(
                        status_left(
                            display_name(old(self).editor_rows.filename),
                            old(self).dirty > 0,
                            old(self).editor_rows.raws().len(),
                        ),
                        status_right(
                            old(self).cursor_controller.cursor_y as nat,
                            old(self).editor_rows.raws().len(),
                        ),
                        old(self).cursor_controller.screen_columns as nat,
                    ),
                ),
                DirSpec::ResetVideo,
                DirSpec::Text(crlf()),
            ],
            final(self).editor_rows == old(self).editor_rows,
            final(self).cursor_controller == old(self).cursor_controller,
            final(self).win_size == old(self).win_size,
            final(self).status_message == old(self).status_message,
            final(self).dirty == old(self).dirty,
    {
        let ghost out0 = self.editor_contents.out();
        self.editor_contents.queue(Directive::ReverseVideo);
        let mut left = String::new();
        match &self.editor_rows.filename {
            Some(name) => {
                left.append(name.as_str());
            },
            None => {
                left.append("[No Name]");
            },
        }
        if self.dirty > 0 {
            left.append(" (modified)");
        }
        left.append(" - ");
        let nrows_str = dec_string_usize(self.editor_rows.number_of_rows());
        left.append(nrows_str.as_str());
        left.append(" lines");
        let mut right = dec_string_usize(self.cursor_controller.cursor_y);
        right.append("/");
        let nrows_str2 = dec_string_usize(self.editor_rows.number_of_rows());
        right.append(nrows_str2.as_str());
        proof {
            assert(left@ =~= status_left(
                display_name(self.editor_rows.filename),
                self.dirty > 0,
                self.editor_rows.raws().len(),
            ));
            assert(right@ =~= status_right(
                self.cursor_controller.cursor_y as nat,
                self.editor_rows.raws().len(),
            ));
        }
        let width = self.cursor_controller.screen_columns;
        let llen = left.as_str().unicode_len();
        let rlen = right.as_str().unicode_len();
        if llen > width {
            let t = left.as_str().substring_char(0, width);
            self.editor_contents.push_str(t);
            proof {
                assert(self.editor_contents.content@ + spaces(0) =~= self
                    .editor_contents
                    .content@);
            }
        } else {
            if rlen <= width - llen {
                self.editor_contents.push_str(left.as_str());
                self.editor_contents.push_spaces(width - llen - rlen);
                self.editor_contents.push_str(right.as_str());
            } else {
                self.editor_contents.push_str(left.as_str());
                self.editor_contents.push_spaces(width - llen);
            }
        }
        proof {
            assert(self.editor_contents.content@ =~= status_bar_text(
                left@,
                right@,
                width as nat,
            ));
            assert(self.editor_contents.content@.len() > 0);
        }
        self.editor_contents.queue(Directive::ResetVideo);
        self.editor_contents.push_str("\r\n");
        self.editor_contents.flush_text();
        proof {
            reveal_strlit("\r\n");
            assert(("\r\n")@ =~= crlf());
            assert(self.editor_contents.out() =~= out0 + seq![
                DirSpec::ReverseVideo,
                DirSpec::Text(
                    status_bar_text(
                        status_left(
                            display_name(old(self).editor_rows.filename),
                            old(self).dirty > 0,
                            old(self).editor_rows.raws().len(),
                        ),
                        status_right(
                            old(self).cursor_controller.cursor_y as nat,
                            old(self).editor_rows.raws().len(),
                        ),
                        old(self).cursor_controller.screen_columns as nat,
                    ),
                ),
                DirSpec::ResetVideo,
                DirSpec::Text(crlf()),
            ]);
        }
    }

    /// Expires the status message, then draws the message bar.
    pub fn draw_message_bar(&mut self, now: u64)
        requires
            old(self).editor_contents.content@.len() == 0,
        ensures
            final(self).editor_contents.content@.len() == 0,
            final(self).status_message == expire_spec(old(self).status_message, now),
            final(self).editor_contents.out() == old(self).editor_contents.out()
                + message_parts(
                msg_view(expire_spec(old(self).status_message, now).text),
                old(self).cursor_controller.screen_columns as nat,
            ),
            final(self).editor_rows == old(self).editor_rows,
            final(self).cursor_controller == old(self).cursor_controller,
            final(self).win_size == old(self).win_size,
            final(self).dirty == old(self).dirty,
    {
        self.status_message.expire(now);
        let ghost out0 = self.editor_contents.out();
        self.editor_contents.queue(Directive::EraseToEol);
        let width = self.cursor_controller.screen_columns;
        match &self.status_message.text {
            Some(msg) => {
                let mlen = msg.as_str().unicode_len();
                if mlen > width {
                    let t = msg.as_str().substring_char(0, width);
                    self.editor_contents.push_str(t);
                } else {
                    self.editor_contents.push_str(msg.as_str());
                }
            },
            None => {},
        }
        self.editor_contents.flush_text();
        proof {
            assert(self.editor_contents.out() =~= out0 + message_parts(
                msg_view(self.status_message.text),
                width as nat,
            ));
        }
    }

    /// Builds one whole frame from the current state and hands it out;
    /// the internal frame buffer is left empty for the next cycle.
    pub fn refresh_screen(&mut self, now: u64) -> (frame: Vec<Directive>)
        requires
            old(self).wf(),
        ensures
            final(self).wf(),
            final(self).cursor_controller == scroll_spec(
                old(self).cursor_controller,
                old(self).editor_rows.raws(),
            ),
            final(self).editor_rows == old(self).editor_rows,
            final(self).win_size == old(self).win_size,
            final(self).dirty == old(self).dirty,
            final(self).status_message == expire_spec(old(self).status_message, now),
            dir_views(frame@) == frame_spec(
                old(self).editor_rows.raws(),
                final(self).cursor_controller,
                display_name(old(self).editor_rows.filename),
                old(self).dirty > 0,
                msg_view(expire_spec(old(self).status_message, now).text),
            ),
    {
        self.cursor_controller.scroll(&self.editor_rows);
        self.editor_contents.queue(Directive::HideCursor);
        self.editor_contents.queue(Directive::MoveTo(0, 0));
        self.draw_rows();
        self.draw_status_bar();
        self.draw_message_bar(now);
        let cx = self.cursor_controller.render_x - self.cursor_controller.column_offset;
        let cy = self.cursor_controller.cursor_y - self.cursor_controller.row_offset;
        self.editor_contents.queue(Directive::MoveTo(cx, cy));
        self.editor_contents.queue(Directive::ShowCursor);
        let mut frame: Vec<Directive> = Vec::new();
        core::mem::swap(&mut frame, &mut self.editor_contents.parts);
        proof {
            assert(dir_views(frame@) =~= frame_spec(
                old(self).editor_rows.raws(),
                final(self).cursor_controller,
                display_name(old(self).editor_rows.filename),
                old(self).dirty > 0,
                msg_view(expire_spec(old(self).status_message, now).text),
            ));
            assert(final(self).editor_contents.out() =~= Seq::<DirSpec>::empty());
        }
        frame
    }
}

} // verus!
