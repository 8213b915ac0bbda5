//! The multi-line text input: a character-cursor editor over an owned
//! buffer, with the scroll bookkeeping the popup uses and the styled
//! draw text that visualizes the cursor.
//!
//! The buffer is a sequence of characters and the cursor an index into
//! it, `0 ..= len`. Every editing operation keeps the cursor inside
//! that range ([`TextInputComponent::wf`]).

use vstd::prelude::*;

use crate::input::{InputEvent, KeyCode, KeyConfig, KeyInput};
use crate::string_utils::{chars_of, string_of};
use crate::text::{styled_spec, text_model, Modifier, Spans, Style, Text, Theme};
use crate::ui::{EventState, Rect};

verus! {

/// How the input interprets and masks its content.
#[derive(Clone, Copy, Debug, PartialEq, Eq, Structural)]
pub enum InputType {
    Singleline,
    Multiline,
    Password,
}

/// A popup for user input of text.
pub struct TextInputComponent {
    pub title: String,
    pub default_msg: String,
    /// The content, one entry per character.
    pub msg: Vec<char>,
    pub visible: bool,
    pub show_char_count: bool,
    pub theme: Theme,
    pub key_config: KeyConfig,
    /// The cursor: an index into `msg`, `msg.len()` meaning past the
    /// end.
    pub cursor_position: usize,
    pub input_type: InputType,
    /// The screen area of the last draw.
    pub current_area: Rect,
    /// The current scroll from the top, in lines.
    pub scroll_top: usize,
    /// The line the cursor is on, as tracked incrementally.
    pub cur_line: usize,
    /// The number of lines, as tracked incrementally.
    pub scroll_max: usize,
    /// The frame height of the last draw.
    pub frame_height: usize,
}

impl TextInputComponent {
    /// The cursor never leaves the buffer: it is at most one past the
    /// last character.
    pub open spec fn wf(self) -> bool {
        self.cursor_position <= self.msg@.len()
    }

    pub fn new(
        theme: Theme,
        key_config: KeyConfig,
        title: &str,
        default_msg: &str,
        show_char_count: bool,
    ) -> (r: TextInputComponent)
        ensures
            r.title@ == title@,
            r.default_msg@ == default_msg@,
            r.msg@ == Seq::<char>::empty(),
            !r.visible,
            r.show_char_count == show_char_count,
            r.theme == theme,
            r.key_config == key_config,
            r.cursor_position == 0,
            r.input_type == InputType::Multiline,
            r.scroll_top == 0,
            r.cur_line == 0,
            r.scroll_max == 0,
            r.frame_height == 0,
            r.wf(),
    {
        TextInputComponent {
            title: title.to_owned(),
            default_msg: default_msg.to_owned(),
            msg: Vec::new(),
            visible: false,
            show_char_count,
            theme,
            key_config,
            cursor_position: 0,
            input_type: InputType::Multiline,
            current_area: Rect { x: 0, y: 0, width: 0, height: 0 },
            scroll_top: 0,
            cur_line: 0,
            scroll_max: 0,
            frame_height: 0,
        }
    }

    pub fn with_input_type(self, input_type: InputType) -> (r: TextInputComponent)
        ensures
            r == (TextInputComponent { input_type, ..self }),
    {
        TextInputComponent { input_type, ..self }
    }

    /// Clear the content and park the cursor at the start.
    pub fn clear(&mut self)
        ensures
            *final(self) == (TextInputComponent {
                msg: final(self).msg,
                cursor_position: 0,
                ..*old(self)
            }),
            final(self).msg@ == Seq::<char>::empty(),
            final(self).wf(),
    {
        self.msg.clear();
        self.cursor_position = 0;
    }

    /// The content as a string.
    pub fn get_text(&self) -> (r: String)
        ensures
            r@ == self.msg@,
    {
        string_of(&self.msg)
    }

    /// The screen area of the last draw.
    pub fn get_area(&self) -> (r: Rect)
        ensures
            r == self.current_area,
    {
        self.current_area
    }

    /// Record the geometry of a draw, which happens outside this
    /// component: the area the popup got and the frame's height.
    pub fn record_draw(&mut self, area: Rect, frame_height: usize)
        ensures
            *final(self) == (TextInputComponent {
                current_area: area,
                frame_height,
                ..*old(self)
            }),
    {
        self.current_area = area;
        self.frame_height = frame_height;
    }

    /// Replace the content and park the cursor at the start.
    pub fn set_text(&mut self, msg: String)
        ensures
            *final(self) == (TextInputComponent {
                msg: final(self).msg,
                cursor_position: 0,
                ..*old(self)
            }),
            final(self).msg@ == msg@,
            final(self).wf(),
    {
        self.msg = chars_of(msg.as_str());
        self.cursor_position = 0;
    }

    /// Replace the title.
    pub fn set_title(&mut self, t: String)
        ensures
            *final(self) == (TextInputComponent { title: t, ..*old(self) }),
    {
        self.title = t;
    }

    /// The position after the cursor's character, or nothing when the
    /// cursor is already past the end.
    pub open spec fn next_char_position_spec(self) -> Option<usize> {
        if self.cursor_position >= self.msg@.len() {
            None
        } else {
            Some((self.cursor_position + 1) as usize)
        }
    }

    /// See [`Self::next_char_position_spec`].
    pub fn next_char_position(&self) -> (r: Option<usize>)
        requires
            self.wf(),
        ensures
            r == self.next_char_position_spec(),
    {
        if self.cursor_position >= self.msg.len() {
            None
        } else {
            Some(self.cursor_position + 1)
        }
    }

    /// The state after moving the cursor right one character. In
    /// multi-line mode, stepping over a newline moves the tracked line
    /// down and scrolls when the cursor would leave the visible rows.
    pub open spec fn incr_cursor_spec(s: Self) -> Self {
        if s.cursor_position >= s.msg@.len() {
            s
        } else {
            let over_newline = s.input_type == InputType::Multiline && s.msg@[
                s.cursor_position as int
            ] == '\n';
            let cl = if over_newline {
                s.cur_line.saturating_add(1)
            } else {
                s.cur_line
            };
            let st = if over_newline && cl.saturating_sub(s.scroll_top)
                > s.frame_height.saturating_sub(3) {
                s.scroll_top.saturating_add(1)
            } else {
                s.scroll_top
            };
            TextInputComponent {
                cursor_position: (s.cursor_position + 1) as usize,
                cur_line: cl,
                scroll_top: st,
                ..s
            }
        }
    }

    /// Move the cursor right one character.
    pub fn incr_cursor(&mut self)
        requires
            old(self).wf(),
        ensures
            *final(self) == Self::incr_cursor_spec(*old(self)),
            final(self).wf(),
    {
        if let Some(pos) = self.next_char_position() {
            if self.input_type == InputType::Multiline {
                self.incr_cursor_multiline();
            }
            self.cursor_position = pos;
        }
    }

    /// The multi-line bookkeeping of [`Self::incr_cursor`].
    fn incr_cursor_multiline(&mut self)
        requires
            old(self).wf(),
            old(self).cursor_position < old(self).msg@.len(),
        ensures
            ({
                let over_newline = old(self).msg@[old(self).cursor_position as int] == '\n';
                let cl = if over_newline {
                    old(self).cur_line.saturating_add(1)
                } else {
                    old(self).cur_line
                };
                let st = if over_newline && cl.saturating_sub(old(self).scroll_top) > old(
                    self,
                ).frame_height.saturating_sub(3) {
                    old(self).scroll_top.saturating_add(1)
                } else {
                    old(self).scroll_top
                };
                *final(self) == (TextInputComponent {
                    cur_line: cl,
                    scroll_top: st,
                    ..*old(self)
                })
            }),
    {
        if self.msg[self.cursor_position] == '\n' {
            self.cur_line = self.cur_line.saturating_add(1);
            if self.cur_line.saturating_sub(self.scroll_top) > self.frame_height.saturating_sub(3)
            {
                self.scroll_top = self.scroll_top.saturating_add(1);
            }
        }
    }

    /// The state after moving the cursor left one character. In
    /// multi-line mode, stepping back over a newline moves the tracked
    /// line up and scrolls up when the cursor left the visible rows.
    pub open spec fn decr_cursor_spec(s: Self) -> Self {
        let index = s.cursor_position.saturating_sub(1);
        let over_newline = s.input_type == InputType::Multiline && index < s.msg@.len()
            && s.msg@[index as int] == '\n';
        let cl = if over_newline {
            s.cur_line.saturating_sub(1)
        } else {
            s.cur_line
        };
        let st = if over_newline && cl < s.scroll_top {
            s.scroll_top.saturating_sub(1)
        } else {
            s.scroll_top
        };
        TextInputComponent { cursor_position: index, cur_line: cl, scroll_top: st, ..s }
    }

    /// Move the cursor left one character.
    pub fn decr_cursor(&mut self)
        requires
            old(self).wf(),
        ensures
            *final(self) == Self::decr_cursor_spec(*old(self)),
            final(self).wf(),
    {
        let index = self.cursor_position.saturating_sub(1);
        self.cursor_position = index;
        if self.input_type == InputType::Multiline {
            self.decr_cursor_multiline(index);
        }
    }

    /// The multi-line bookkeeping of [`Self::decr_cursor`].
    fn decr_cursor_multiline(&mut self, index: usize)
        requires
            old(self).wf(),
        ensures
            ({
                let over_newline = index < old(self).msg@.len() && old(self).msg@[index as int]
                    == '\n';
                let cl = if over_newline {
                    old(self).cur_line.saturating_sub(1)
                } else {
                    old(self).cur_line
                };
                let st = if over_newline && cl < old(self).scroll_top {
                    old(self).scroll_top.saturating_sub(1)
                } else {
                    old(self).scroll_top
                };
                *final(self) == (TextInputComponent {
                    cur_line: cl,
                    scroll_top: st,
                    ..*old(self)
                })
            }),
    {
        if index < self.msg.len() && self.msg[index] == '\n' {
            self.cur_line = self.cur_line.saturating_sub(1);
            if self.cur_line < self.scroll_top {
                self.scroll_top = self.scroll_top.saturating_sub(1);
            }
        }
    }

    /// What inserting a newline at the cursor does: the newline goes
    /// in, the cursor steps over it with the usual multi-line
    /// bookkeeping, the line count grows, and while the text still
    /// fits the frame the view scrolls up one to compensate for the
    /// taller box.
    pub open spec fn insert_new_line_rel(pre: Self, post: Self) -> bool {
        &&& post.msg@ == pre.msg@.insert(pre.cursor_position as int, '\n')
        &&& ({
            let mid = TextInputComponent { msg: post.msg, ..pre };
            let moved = Self::incr_cursor_spec(mid);
            let sm = moved.scroll_max.saturating_add(1);
            let st = if sm < moved.frame_height.saturating_sub(2) {
                moved.scroll_top.saturating_sub(1)
            } else {
                moved.scroll_top
            };
            post == (TextInputComponent { scroll_max: sm, scroll_top: st, ..moved })
        })
    }

    /// Insert a newline at the cursor (multi-line editing); see
    /// [`Self::insert_new_line_rel`].
    pub fn insert_new_line(&mut self)
        requires
            old(self).wf(),
        ensures
            Self::insert_new_line_rel(*old(self), *final(self)),
            final(self).cursor_position == old(self).cursor_position + 1,
            final(self).wf(),
    {
        self.msg.insert(self.cursor_position, '\n');
        let ghost mid: TextInputComponent = *self;
        self.incr_cursor();
        proof {
            assert(mid.msg.len() == mid.msg@.len());
            assert(mid.cursor_position < mid.msg@.len());
            assert(*self == Self::incr_cursor_spec(mid));
            assert(self.cursor_position == old(self).cursor_position + 1);
        }
        self.scroll_max = self.scroll_max.saturating_add(1);
        if self.scroll_max < self.frame_height.saturating_sub(2) {
            self.scroll_top = self.scroll_top.saturating_sub(1);
        }
    }

    /// The multi-line bookkeeping of [`Self::backspace`], applied
    /// after the cursor has stepped back onto the character to
    /// delete: removing a newline shrinks the line count, and unless
    /// the text still overflows a small frame the view scrolls up one.
    fn multiline_backspace(&mut self)
        requires
            old(self).wf(),
        ensures
            ({
                let on_newline = old(self).cursor_position < old(self).msg@.len() && old(
                    self,
                ).msg@[old(self).cursor_position as int] == '\n';
                let sm = if on_newline {
                    old(self).scroll_max.saturating_sub(1)
                } else {
                    old(self).scroll_max
                };
                let st = if on_newline && !(sm < old(self).frame_height.saturating_sub(2) && sm
                    >= 3) {
                    old(self).scroll_top.saturating_sub(1)
                } else {
                    old(self).scroll_top
                };
                *final(self) == (TextInputComponent {
                    scroll_max: sm,
                    scroll_top: st,
                    ..*old(self)
                })
            }),
    {
        if self.cursor_position < self.msg.len() && self.msg[self.cursor_position] == '\n' {
            self.scroll_max = self.scroll_max.saturating_sub(1);
            if !(self.scroll_max < self.frame_height.saturating_sub(2) && self.scroll_max >= 3) {
                self.scroll_top = self.scroll_top.saturating_sub(1);
            }
        }
    }

    /// Delete the character before the cursor, if any, moving the
    /// cursor onto its place.
    pub fn backspace(&mut self)
        requires
            old(self).wf(),
        ensures
            old(self).cursor_position == 0 ==> *final(self) == *old(self),
            old(self).cursor_position > 0 ==> {
                &&& final(self).msg@ == old(self).msg@.remove(old(self).cursor_position - 1)
                &&& final(self).cursor_position == old(self).cursor_position - 1
                &&& final(self).title == old(self).title
                &&& final(self).visible == old(self).visible
                &&& final(self).input_type == old(self).input_type
            },
            final(self).wf(),
    {
        if self.cursor_position > 0 {
            self.decr_cursor();
            if self.input_type == InputType::Multiline {
                self.multiline_backspace();
            }
            let _ = self.msg.remove(self.cursor_position);
        }
    }

    /// Delete the character under the cursor. Removing a character
    /// never adjusts the scroll state.
    pub fn delete_key(&mut self)
        requires
            old(self).wf(),
            old(self).cursor_position < old(self).msg@.len(),
        ensures
            *final(self) == (TextInputComponent { msg: final(self).msg, ..*old(self) }),
            final(self).msg@ == old(self).msg@.remove(old(self).cursor_position as int),
            final(self).wf(),
    {
        let _ = self.msg.remove(self.cursor_position);
    }

    /// The newline scan of [`Self::line_up_cursor`]: walk the
    /// characters with the last three newline positions seen, and at
    /// the first position at or past the cursor (or the last
    /// character) settle, by a chain of special cases, on the two
    /// positions the projection uses.
    pub open spec fn scan_up_spec(msg: Seq<char>, cursor: int, i: int, t: int, m: int, b: int) -> (
        int,
        int,
    )
        decreases msg.len() - i,
    {
        if !(0 <= i < msg.len()) {
            (t, m)
        } else {
            let t1 = if msg[i] == '\n' {
                m
            } else {
                t
            };
            let m1 = if msg[i] == '\n' {
                b
            } else {
                m
            };
            let b1 = if msg[i] == '\n' {
                i
            } else {
                b
            };
            if i >= cursor || i == msg.len() - 1 {
                let c = msg[i];
                let ends_with_nl = msg[msg.len() - 1] == '\n';
                if c != '\n' && !ends_with_nl && i > b1 {
                    (m1, b1)
                } else if c == '\n' && i == msg.len() - 1 {
                    (m1, b1)
                } else if msg[t1] == '\n' && msg[m1] == '\n' && b1 != cursor {
                    (m1, b1)
                } else if t1 == 0 {
                    (m1, b1)
                } else {
                    (t1, m1)
                }
            } else {
                Self::scan_up_spec(msg, cursor, i + 1, t1, m1, b1)
            }
        }
    }

    /// Where [`Self::line_up_cursor`] puts the cursor: onto the
    /// scan's lower position when the two are adjacent and the cursor
    /// is elsewhere; otherwise the cursor's offset from the lower
    /// position, projected onto the upper one, stepped back once more
    /// from the first line.
    pub open spec fn line_up_target_spec(msg: Seq<char>, cursor: int) -> int {
        let scan = Self::scan_up_spec(msg, cursor, 0, 0, 0, 0);
        if scan.1 - scan.0 == 1 && cursor != scan.1 {
            scan.1
        } else {
            let cpl = if cursor >= scan.1 {
                cursor - scan.1
            } else {
                0
            };
            let projected = if scan.0 + cpl > usize::MAX {
                usize::MAX as int
            } else {
                scan.0 + cpl
            };
            if scan.0 == 0 {
                if projected >= 1 {
                    projected - 1
                } else {
                    0
                }
            } else {
                projected
            }
        }
    }

    /// Move the cursor up a line (multi-line editing). The scan looks
    /// for the starts of the two lines above the cursor and projects
    /// the cursor's offset into the line above; the tracked line
    /// moves up one, scrolling up when the cursor left the visible
    /// rows. The content is untouched and the cursor stays inside it.
    pub fn line_up_cursor(&mut self)
        requires
            old(self).wf(),
        ensures
            final(self).msg == old(self).msg,
            final(self).wf(),
            final(self).cursor_position == Self::line_up_target_spec(
                old(self).msg@,
                old(self).cursor_position as int,
            ),
            final(self).cur_line == old(self).cur_line.saturating_sub(1),
            final(self).scroll_top == (if old(self).cur_line.saturating_sub(1) < old(
                self,
            ).scroll_top {
                old(self).scroll_top.saturating_sub(1)
            } else {
                old(self).scroll_top
            }),
            *final(self) == (TextInputComponent {
                cursor_position: final(self).cursor_position,
                cur_line: final(self).cur_line,
                scroll_top: final(self).scroll_top,
                ..*old(self)
            }),
    {
        let n = self.msg.len();
        let mut top_line: usize = 0;
        let mut middle_line: usize = 0;
        let mut bottom_line: usize = 0;
        let mut i: usize = 0;
        while i < n
            invariant_except_break
                middle_line <= bottom_line,
                bottom_line <= i,
                Self::scan_up_spec(
                    self.msg@,
                    self.cursor_position as int,
                    i as int,
                    top_line as int,
                    middle_line as int,
                    bottom_line as int,
                ) == Self::scan_up_spec(self.msg@, self.cursor_position as int, 0, 0, 0, 0),
            invariant
                *self == *old(self),
                n == self.msg@.len(),
                i <= n,
                top_line <= middle_line,
                middle_line <= n,
            ensures
                *self == *old(self),
                top_line <= middle_line,
                middle_line <= n,
                (top_line as int, middle_line as int) == Self::scan_up_spec(
                    self.msg@,
                    self.cursor_position as int,
                    0,
                    0,
                    0,
                    0,
                ),
            decreases n - i,
        {
            let ghost gt = top_line as int;
            let ghost gm = middle_line as int;
            let ghost gb = bottom_line as int;
            let c = self.msg[i];
            if c == '\n' {
                top_line = middle_line;
                middle_line = bottom_line;
                bottom_line = i;
            }
            if i >= self.cursor_position || i == n - 1 {
                let ends_with_nl = self.msg[n - 1] == '\n';
                if c != '\n' && !ends_with_nl && i > bottom_line {
                    top_line = middle_line;
                    middle_line = bottom_line;
                    bottom_line = n - 1;
                } else if c == '\n' && i == n - 1 {
                    top_line = middle_line;
                    middle_line = bottom_line;
                } else if self.msg[top_line] == '\n' && self.msg[middle_line] == '\n'
                    && bottom_line != self.cursor_position {
                    top_line = middle_line;
                    middle_line = bottom_line;
                } else if top_line == 0 {
                    top_line = middle_line;
                    middle_line = bottom_line;
                }
                proof {
                    assert(Self::scan_up_spec(
                        self.msg@,
                        self.cursor_position as int,
                        i as int,
                        gt,
                        gm,
                        gb,
                    ) == (top_line as int, middle_line as int));
                }
                break ;
            }
            i = i + 1;
        }
        if middle_line.saturating_sub(top_line) == 1 && self.cursor_position != middle_line {
            self.cursor_position = middle_line;
        } else {
            let cursor_position_in_line = self.cursor_position.saturating_sub(middle_line);
            self.cursor_position = top_line.saturating_add(cursor_position_in_line);
            if top_line == 0 {
                self.cursor_position = self.cursor_position.saturating_sub(1);
            }
        }
        self.cur_line = self.cur_line.saturating_sub(1);
        if self.cur_line < self.scroll_top {
            self.scroll_top = self.scroll_top.saturating_sub(1);
        }
    }

    /// The line-start scan of [`Self::line_down_cursor`]: walk the
    /// characters from `i` with the starts of the last three lines
    /// seen so far and the count of newlines at or past the cursor,
    /// and stop after the second such newline. The scan yields the
    /// remembered starts of the two lines the projection uses.
    pub open spec fn scan_down_spec(
        msg: Seq<char>,
        cursor: int,
        i: int,
        tls: int,
        mls: int,
        bls: int,
        dc: int,
    ) -> (int, int)
        decreases msg.len() - i,
    {
        if !(0 <= i < msg.len()) {
            (tls, mls)
        } else {
            let t1 = if msg[i] == '\n' {
                mls
            } else {
                tls
            };
            let m1 = if msg[i] == '\n' {
                bls
            } else {
                mls
            };
            let b1 = if msg[i] == '\n' {
                i
            } else {
                bls
            };
            let d1 = if msg[i] == '\n' && i >= cursor {
                dc + 1
            } else {
                dc
            };
            if d1 == 2 {
                (t1, m1)
            } else {
                Self::scan_down_spec(msg, cursor, i + 1, t1, m1, b1, d1)
            }
        }
    }

    /// Where [`Self::line_down_cursor`] puts the cursor: its offset
    /// from the start of the scan's upper line, projected onto the
    /// start of the scan's lower line, clamped into the content.
    pub open spec fn line_down_target_spec(msg: Seq<char>, cursor: int) -> int {
        let scan = Self::scan_down_spec(msg, cursor, 0, 0, 0, 0, 0);
        let cpl = if cursor >= scan.0 {
            cursor - scan.0
        } else {
            0
        };
        let projected = if scan.1 + cpl > usize::MAX {
            usize::MAX as int
        } else {
            scan.1 + cpl
        };
        if projected >= msg.len() {
            if msg.len() == 0 {
                0
            } else {
                msg.len() - 1
            }
        } else {
            projected
        }
    }

    /// Move the cursor down a line (multi-line editing). The scan
    /// stops two newlines past the cursor and projects the cursor's
    /// offset into the line below; the tracked line moves down one
    /// while more lines remain, scrolling down when the cursor leaves
    /// the visible rows. The content is untouched and the cursor
    /// stays inside it.
    pub fn line_down_cursor(&mut self)
        requires
            old(self).wf(),
        ensures
            final(self).msg == old(self).msg,
            final(self).wf(),
            final(self).cursor_position == Self::line_down_target_spec(
                old(self).msg@,
                old(self).cursor_position as int,
            ),
            ({
                let stepped = old(self).cur_line < old(self).scroll_max.saturating_sub(2);
                let cl = if stepped {
                    (old(self).cur_line + 1) as usize
                } else {
                    old(self).cur_line
                };
                let st = if stepped && cl > old(self).scroll_top.saturating_add(
                    (old(self).current_area.height as usize).saturating_sub(3),
                ) {
                    old(self).scroll_top.saturating_add(1)
                } else {
                    old(self).scroll_top
                };
                &&& final(self).cur_line == cl
                &&& final(self).scroll_top == st
            }),
            *final(self) == (TextInputComponent {
                cursor_position: final(self).cursor_position,
                cur_line: final(self).cur_line,
                scroll_top: final(self).scroll_top,
                ..*old(self)
            }),
    {
        let n = self.msg.len();
        let mut top_line_start: usize = 0;
        let mut middle_line_start: usize = 0;
        let mut bottom_line_start: usize = 0;
        let mut drop_count: usize = 0;
        let mut i: usize = 0;
        while i < n
            invariant_except_break
                drop_count <= i,
                Self::scan_down_spec(
                    self.msg@,
                    self.cursor_position as int,
                    i as int,
                    top_line_start as int,
                    middle_line_start as int,
                    bottom_line_start as int,
                    drop_count as int,
                ) == Self::scan_down_spec(self.msg@, self.cursor_position as int, 0, 0, 0, 0, 0),
            invariant
                *self == *old(self),
                n == self.msg@.len(),
                i <= n,
            ensures
                *self == *old(self),
                (top_line_start as int, middle_line_start as int) == Self::scan_down_spec(
                    self.msg@,
                    self.cursor_position as int,
                    0,
                    0,
                    0,
                    0,
                    0,
                ),
            decreases n - i,
        {
            let ghost gt = top_line_start as int;
            let ghost gm = middle_line_start as int;
            let ghost gb = bottom_line_start as int;
            let ghost gd = drop_count as int;
            if self.msg[i] == '\n' {
                top_line_start = middle_line_start;
                middle_line_start = bottom_line_start;
                bottom_line_start = i;
                if i >= self.cursor_position {
                    drop_count = drop_count + 1;
                }
            }
            if drop_count == 2 {
                proof {
                    assert(Self::scan_down_spec(
                        self.msg@,
                        self.cursor_position as int,
                        i as int,
                        gt,
                        gm,
                        gb,
                        gd,
                    ) == (top_line_start as int, middle_line_start as int));
                }
                break ;
            }
            i = i + 1;
        }
        let cursor_position_in_line = self.cursor_position.saturating_sub(top_line_start);
        self.cursor_position = middle_line_start.saturating_add(cursor_position_in_line);
        if self.cursor_position >= n {
            self.cursor_position = n.saturating_sub(1);
        }
        if self.cur_line < self.scroll_max.saturating_sub(2) {
            self.cur_line = self.cur_line + 1;
            if self.cur_line > self.scroll_top.saturating_add(
                (self.current_area.height as usize).saturating_sub(3),
            ) {
                self.scroll_top = self.scroll_top.saturating_add(1);
            }
        }
    }

    /// What [`Self::get_msg`] shows of the range `start .. end`: the
    /// characters themselves, or one mask character each for a
    /// password input.
    pub open spec fn get_msg_spec(s: Self, start: int, end: int) -> Seq<char> {
        if s.input_type == InputType::Password {
            Seq::new((end - start) as nat, |i: int| '*')
        } else {
            s.msg@.subrange(start, end)
        }
    }

    /// The shown form of the content range `start .. end`.
    pub fn get_msg(&self, start: usize, end: usize) -> (r: String)
        requires
            start <= end,
            end <= self.msg@.len(),
        ensures
            r@ == Self::get_msg_spec(*self, start as int, end as int),
    {
        let mut out: Vec<char> = Vec::new();
        let mut i: usize = start;
        if matches!(self.input_type, InputType::Password) {
            while i < end
                invariant
                    start <= i <= end,
                    self.input_type == InputType::Password,
                    out@ =~= Seq::new((i - start) as nat, |k: int| '*'),
                decreases end - i,
            {
                out.push('*');
                proof {
                    assert(out@ =~= Seq::new((i + 1 - start) as nat, |k: int| '*'));
                }
                i = i + 1;
            }
        } else {
            while i < end
                invariant
                    start <= i <= end,
                    end <= self.msg@.len(),
                    out@ =~= self.msg@.subrange(start as int, i as int),
                decreases end - i,
            {
                out.push(self.msg[i]);
                proof {
                    assert(out@ =~= self.msg@.subrange(start as int, i as int + 1));
                }
                i = i + 1;
            }
        }
        string_of(&out)
    }
}

/// What merging two texts says: the first line of `append` continues
/// the last line of `txt`, so the seam creates no extra line break.
pub open spec fn text_append_spec(
    a: Seq<Seq<(Seq<char>, Style)>>,
    b: Seq<Seq<(Seq<char>, Style)>>,
) -> Seq<Seq<(Seq<char>, Style)>> {
    if a.len() == 0 {
        b
    } else if b.len() == 0 {
        a
    } else {
        a.update(a.len() - 1, a.last() + b.first()) + b.drop_first()
    }
}

/// Merge two texts, continuing the last line of `txt` with the first
/// line of `append` so no unneeded line break is generated.
pub fn text_append(txt: Text, append: Text) -> (r: Text)
    ensures
        text_model(r) == text_append_spec(text_model(txt), text_model(append)),
{
    let ghost a = text_model(txt);
    let ghost b = text_model(append);
    let mut txt = txt;
    let mut append = append;
    if txt.lines.len() == 0 {
        return append;
    }
    if append.lines.len() == 0 {
        return txt;
    }
    let mut first = append.lines.remove(0);
    match txt.lines.pop() {
        Some(last_line) => {
            let mut last_line = last_line;
            last_line.0.append(&mut first.0);
            proof {
                assert(crate::text::spans_model(last_line) =~= a.last() + b.first());
            }
            txt.lines.push(last_line);
            proof {
                assert(crate::text::lines_model(txt.lines@) =~= a.update(
                    a.len() - 1,
                    a.last() + b.first(),
                ));
            }
        },
        None => {},
    }
    let ghost target = text_append_spec(a, b);
    proof {
        assert(crate::text::lines_model(txt.lines@) + crate::text::lines_model(append.lines@)
            =~= target);
    }
    while append.lines.len() > 0
        invariant
            crate::text::lines_model(txt.lines@) + crate::text::lines_model(append.lines@)
                =~= target,
        decreases append.lines.len(),
    {
        let moved = append.lines.remove(0);
        proof {
            assert(crate::text::lines_model(txt.lines@.push(moved)) + crate::text::lines_model(
                append.lines@,
            ) =~= target);
        }
        txt.lines.push(moved);
    }
    proof {
        assert(crate::text::lines_model(txt.lines@) =~= target);
    }
    txt
}

/// The text after its first newline; an unbroken text has nothing
/// after its first newline.
pub open spec fn after_first_nl(s: Seq<char>) -> Seq<char>
    decreases s.len(),
{
    if s.len() == 0 {
        Seq::empty()
    } else if s[0] == '\n' {
        s.drop_first()
    } else {
        after_first_nl(s.drop_first())
    }
}

/// The text with its first `k` lines removed, newline included; with
/// fewer than `k` line breaks nothing remains.
pub open spec fn skip_lines_spec(s: Seq<char>, k: nat) -> Seq<char>
    decreases k,
{
    if k == 0 {
        s
    } else {
        skip_lines_spec(after_first_nl(s), (k - 1) as nat)
    }
}

proof fn lemma_after_first_nl_found(s: Seq<char>, j: int)
    requires
        0 <= j < s.len(),
        s[j] == '\n',
        forall|m: int| 0 <= m < j ==> s[m] != '\n',
    ensures
        after_first_nl(s) == s.subrange(j + 1, s.len() as int),
    decreases j,
{
    if j == 0 {
        assert(s.drop_first() =~= s.subrange(1, s.len() as int));
    } else {
        lemma_after_first_nl_found(s.drop_first(), j - 1);
        assert(s.drop_first().subrange(j, s.drop_first().len() as int) =~= s.subrange(
            j + 1,
            s.len() as int,
        ));
    }
}

proof fn lemma_after_first_nl_none(s: Seq<char>)
    requires
        forall|m: int| 0 <= m < s.len() ==> s[m] != '\n',
    ensures
        after_first_nl(s) == Seq::<char>::empty(),
    decreases s.len(),
{
    if s.len() == 0 {
    } else {
        lemma_after_first_nl_none(s.drop_first());
    }
}

/// The characters after the first newline of `v`.
fn after_first_nl_exec(v: &Vec<char>) -> (r: Vec<char>)
    ensures
        r@ == after_first_nl(v@),
{
    let n = v.len();
    let mut j: usize = 0;
    while j < n && v[j] != '\n'
        invariant
            j <= n,
            n == v@.len(),
            forall|m: int| 0 <= m < j ==> v@[m] != '\n',
        decreases n - j,
    {
        j = j + 1;
    }
    let mut out: Vec<char> = Vec::new();
    if j == n {
        proof {
            lemma_after_first_nl_none(v@);
        }
    } else {
        let mut i: usize = j + 1;
        while i < n
            invariant
                j + 1 <= i <= n,
                n == v@.len(),
                out@ =~= v@.subrange(j + 1, i as int),
            decreases n - i,
        {
            out.push(v[i]);
            proof {
                assert(out@ =~= v@.subrange(j + 1, i as int + 1));
            }
            i = i + 1;
        }
        proof {
            lemma_after_first_nl_found(v@, j as int);
        }
    }
    out
}

impl TextInputComponent {
    /// The character the cursor stands on, as shown: a space when the
    /// cursor is past the end, the mask for a password, the character
    /// itself otherwise.
    pub open spec fn cursor_masked_char(s: Self) -> char {
        if s.cursor_position >= s.msg@.len() {
            ' '
        } else if s.input_type == InputType::Password {
            '*'
        } else {
            s.msg@[s.cursor_position as int]
        }
    }

    /// What [`Self::get_draw_text`] produces. The shown content before
    /// the cursor, with the scrolled-out lines dropped, comes first; a
    /// trailing newline there gets its empty continuation line. The
    /// cursor's character follows underlined, a newline visualized as
    /// a return arrow and a space (also the end of the text) as a
    /// middle dot, both in the dimmed style. The shown content after
    /// the cursor closes the text.
    pub open spec fn draw_text_spec(s: Self) -> Seq<Seq<(Seq<char>, Style)>> {
        let style = Style { dim: false, underlined: false };
        let base: Seq<Seq<(Seq<char>, Style)>> = if s.cursor_position > 0 {
            let before = skip_lines_spec(
                Self::get_msg_spec(s, 0, s.cursor_position as int),
                s.scroll_top as nat,
            );
            let t0 = styled_spec(before, style);
            if before.len() > 0 && before.last() == '\n' {
                t0.push(Seq::empty())
            } else {
                t0
            }
        } else {
            Seq::empty()
        };
        let masked = Self::cursor_masked_char(s);
        let cursor_seq: Seq<char> = if masked == '\n' {
            seq!['\u{21b5}', '\n', '\r']
        } else if masked == ' ' {
            seq!['\u{00B7}']
        } else {
            seq![masked]
        };
        let cursor_style = if masked == '\n' || masked == ' ' {
            Style { dim: true, underlined: true }
        } else {
            Style { dim: false, underlined: true }
        };
        let with_cursor = text_append_spec(base, styled_spec(cursor_seq, cursor_style));
        if s.cursor_position + 1 < s.msg@.len() {
            text_append_spec(
                with_cursor,
                styled_spec(
                    Self::get_msg_spec(s, s.cursor_position + 1, s.msg@.len() as int),
                    style,
                ),
            )
        } else {
            with_cursor
        }
    }

    /// The styled text that visualizes the content and the cursor.
    pub fn get_draw_text(&self) -> (t: Text)
        requires
            self.wf(),
        ensures
            text_model(t) == Self::draw_text_spec(*self),
    {
        let style = self.theme.text(true, false);
        let mut txt = Text::empty();
        if self.cursor_position > 0 {
            let before_all = self.get_msg(0, self.cursor_position);
            let skipped = skip_lines(chars_of(before_all.as_str()), self.scroll_top);
            let ends_in_nl = skipped.len() > 0 && skipped[skipped.len() - 1] == '\n';
            txt = text_append(txt, Text::styled(string_of(&skipped), style));
            if ends_in_nl {
                let ghost base0 = text_model(txt);
                let empty_line = Spans(Vec::new());
                proof {
                    assert(crate::text::spans_model(empty_line) =~= Seq::<(
                        Seq<char>,
                        Style,
                    )>::empty());
                    assert(crate::text::lines_model(txt.lines@.push(empty_line)) =~= base0.push(
                        Seq::empty(),
                    ));
                }
                txt.lines.push(empty_line);
            }
        }
        let masked: char = if self.cursor_position >= self.msg.len() {
            ' '
        } else if matches!(self.input_type, InputType::Password) {
            '*'
        } else {
            self.msg[self.cursor_position]
        };
        let cursor_style = if masked == '\n' || masked == ' ' {
            self.theme.text(false, false).add_modifier(Modifier::Underlined)
        } else {
            style.add_modifier(Modifier::Underlined)
        };
        let mut cursor_chars: Vec<char> = Vec::new();
        if masked == '\n' {
            cursor_chars.push('\u{21b5}');
            cursor_chars.push('\n');
            cursor_chars.push('\r');
            proof {
                assert(cursor_chars@ =~= seq!['\u{21b5}', '\n', '\r']);
            }
        } else if masked == ' ' {
            cursor_chars.push('\u{00B7}');
            proof {
                assert(cursor_chars@ =~= seq!['\u{00B7}']);
            }
        } else {
            cursor_chars.push(masked);
            proof {
                assert(cursor_chars@ =~= seq![masked]);
            }
        }
        txt = text_append(txt, Text::styled(string_of(&cursor_chars), cursor_style));
        if self.cursor_position < self.msg.len() {
            let pos = self.cursor_position + 1;
            if pos < self.msg.len() {
                txt = text_append(
                    txt,
                    Text::styled(self.get_msg(pos, self.msg.len()), style),
                );
            }
        }
        txt
    }

    pub fn is_visible(&self) -> (r: bool)
        ensures
            r == self.visible,
    {
        self.visible
    }

    pub fn hide_popup(&mut self)
        ensures
            *final(self) == (TextInputComponent { visible: false, ..*old(self) }),
    {
        self.visible = false;
    }

    pub fn show(&mut self)
        ensures
            *final(self) == (TextInputComponent { visible: true, ..*old(self) }),
    {
        self.visible = true;
    }

    /// What one key press does while the popup is visible; see
    /// [`Self::event`].
    pub open spec fn event_key_post(pre: Self, post: Self, e: KeyInput, r: EventState) -> bool {
        if e == pre.key_config.exit_popup {
            post == (TextInputComponent { visible: false, ..pre }) && r is Consumed
        } else if e == pre.key_config.enter && pre.input_type == InputType::Multiline {
            Self::insert_new_line_rel(pre, post) && r is Consumed
        } else {
            match e.code {
                KeyCode::Char(c) => if !e.ctrl {
                    &&& post.msg@ == pre.msg@.insert(pre.cursor_position as int, c)
                    &&& post == Self::incr_cursor_spec(TextInputComponent { msg: post.msg, ..pre })
                    &&& r is Consumed
                } else {
                    post == pre && r is NotConsumed
                },
                KeyCode::Delete => {
                    &&& pre.cursor_position < pre.msg@.len() ==> {
                        &&& post.msg@ == pre.msg@.remove(pre.cursor_position as int)
                        &&& post == (TextInputComponent { msg: post.msg, ..pre })
                    }
                    &&& pre.cursor_position >= pre.msg@.len() ==> post == pre
                    &&& r is Consumed
                },
                KeyCode::Backspace => {
                    &&& pre.cursor_position == 0 ==> post == pre
                    &&& pre.cursor_position > 0 ==> {
                        &&& post.msg@ == pre.msg@.remove(pre.cursor_position - 1)
                        &&& post.cursor_position == pre.cursor_position - 1
                        &&& post.title == pre.title
                        &&& post.visible == pre.visible
                        &&& post.input_type == pre.input_type
                    }
                    &&& r is Consumed
                },
                KeyCode::Left => post == Self::decr_cursor_spec(pre) && r is Consumed,
                KeyCode::Right => post == Self::incr_cursor_spec(pre) && r is Consumed,
                KeyCode::Up => if pre.input_type == InputType::Multiline {
                    &&& post.msg == pre.msg
                    &&& post.cursor_position == Self::line_up_target_spec(
                        pre.msg@,
                        pre.cursor_position as int,
                    )
                    &&& post.cur_line == pre.cur_line.saturating_sub(1)
                    &&& post == (TextInputComponent {
                        cursor_position: post.cursor_position,
                        cur_line: post.cur_line,
                        scroll_top: post.scroll_top,
                        ..pre
                    })
                    &&& r is Consumed
                } else {
                    post == pre && r is NotConsumed
                },
                KeyCode::Down => if pre.input_type == InputType::Multiline {
                    &&& post.msg == pre.msg
                    &&& post.cursor_position == Self::line_down_target_spec(
                        pre.msg@,
                        pre.cursor_position as int,
                    )
                    &&& post == (TextInputComponent {
                        cursor_position: post.cursor_position,
                        cur_line: post.cur_line,
                        scroll_top: post.scroll_top,
                        ..pre
                    })
                    &&& r is Consumed
                } else {
                    post == pre && r is NotConsumed
                },
                KeyCode::Home => post == (TextInputComponent { cursor_position: 0, ..pre })
                    && r is Consumed,
                KeyCode::End => post == (TextInputComponent {
                    cursor_position: pre.msg@.len() as usize,
                    ..pre
                }) && r is Consumed,
                _ => post == pre && r is NotConsumed,
            }
        }
    }

    /// React to one input event. Only a visible popup reacts, and only
    /// to key presses: the close binding hides it, enter breaks the
    /// line in multi-line mode, and the editing keys edit as their
    /// contracts above describe.
    pub fn event(&mut self, ev: InputEvent) -> (r: EventState)
        requires
            old(self).wf(),
        ensures
            final(self).wf(),
            !old(self).visible ==> *final(self) == *old(self) && r is NotConsumed,
            !(ev matches InputEvent::Input(_)) ==> *final(self) == *old(self) && r is NotConsumed,
            ({
                match ev {
                    InputEvent::Input(e) => old(self).visible ==> Self::event_key_post(
                        *old(self),
                        *final(self),
                        e,
                        r,
                    ),
                    _ => true,
                }
            }),
    {
        if self.visible {
            if let InputEvent::Input(e) = ev {
                if e == self.key_config.exit_popup {
                    self.hide_popup();
                    return EventState::Consumed;
                }
                if e == self.key_config.enter && self.input_type == InputType::Multiline {
                    self.insert_new_line();
                    return EventState::Consumed;
                }
                let is_ctrl = e.ctrl;
                match e.code {
                    KeyCode::Char(c) => {
                        if !is_ctrl {
                            self.msg.insert(self.cursor_position, c);
                            let ghost mid: TextInputComponent = *self;
                            self.incr_cursor();
                            proof {
                                assert(mid.msg.len() == mid.msg@.len());
                                assert(*self == Self::incr_cursor_spec(mid));
                            }
                            return EventState::Consumed;
                        }
                    },
                    KeyCode::Delete => {
                        if self.cursor_position < self.msg.len() {
                            self.delete_key();
                        }
                        return EventState::Consumed;
                    },
                    KeyCode::Backspace => {
                        self.backspace();
                        return EventState::Consumed;
                    },
                    KeyCode::Left => {
                        self.decr_cursor();
                        return EventState::Consumed;
                    },
                    KeyCode::Right => {
                        self.incr_cursor();
                        return EventState::Consumed;
                    },
                    KeyCode::Up => {
                        if self.input_type == InputType::Multiline {
                            self.line_up_cursor();
                            return EventState::Consumed;
                        }
                    },
                    KeyCode::Down => {
                        if self.input_type == InputType::Multiline {
                            self.line_down_cursor();
                            return EventState::Consumed;
                        }
                    },
                    KeyCode::Home => {
                        self.cursor_position = 0;
                        return EventState::Consumed;
                    },
                    KeyCode::End => {
                        self.cursor_position = self.msg.len();
                        return EventState::Consumed;
                    },
                    _ => {},
                }
            }
        }
        EventState::NotConsumed
    }
}

/// The characters with their first `k` lines removed.
fn skip_lines(v: Vec<char>, k: usize) -> (r: Vec<char>)
    ensures
        r@ == skip_lines_spec(v@, k as nat),
{
    let mut cur = v;
    let mut i: usize = 0;
    while i < k
        invariant
            i <= k,
            skip_lines_spec(cur@, (k - i) as nat) == skip_lines_spec(v@, k as nat),
        decreases k - i,
    {
        cur = after_first_nl_exec(&cur);
        i = i + 1;
    }
    cur
}

} // verus!
