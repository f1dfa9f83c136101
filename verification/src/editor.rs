//! The editing session: a rope-backed document, a single flat cursor
//! offset, and a LIFO log of inverse-applicable edit records that gives
//! single-step undo.  The cursor's (line, column) view is always derived
//! from the offset through the line model, never stored, so the two can
//! never drift apart.

use std::collections::VecDeque;

use vstd::prelude::*;

use crate::error::EditorError;
use crate::input::{Key, KeyOutcome};
use crate::rope::{
    rope_char, rope_char_to_line, rope_chars, rope_from_str, rope_get_char, rope_insert_char,
    rope_len_chars, rope_len_lines, rope_line_len, rope_line_str, rope_line_to_char,
    rope_remove_char, rope_to_string,
};
use crate::text::{
    lemma_insert_then_remove, lemma_line_bounds, lemma_own_line,
    lemma_remove_then_insert, line_count, line_end, line_end_incl, line_len, line_of, line_start,
};

verus! {

/// One edit record, carrying exactly enough to invert the edit: the offset
/// it happened at and the character involved.
#[derive(Debug, Clone, Copy, PartialEq, Eq, Structural)]
pub enum EditorCmd {
    InsertChar(usize, char),
    DeleteChar(usize, char),
}

/// The whole history can be unwound from the current content: the top
/// record matches the latest edit, and below it the rest of the log
/// matches the content with that edit undone.
pub open spec fn history_ok(cmds: Seq<EditorCmd>, s: Seq<char>) -> bool
    decreases cmds.len(),
{
    cmds.len() == 0 || (match cmds.last() {
        EditorCmd::InsertChar(idx, c) => idx < s.len() && s[idx as int] == c && history_ok(
            cmds.drop_last(),
            s.remove(idx as int),
        ),
        EditorCmd::DeleteChar(idx, c) => idx <= s.len() && history_ok(
            cmds.drop_last(),
            s.insert(idx as int, c),
        ),
    })
}

/// The editing session.
pub struct Editor {
    path: Option<String>,
    pub text: ropey::Rope,
    cursor: usize,
    cmds: VecDeque<EditorCmd>,
}

impl Editor {
    /// The characters of the document.
    pub closed spec fn chars(self) -> Seq<char> {
        rope_chars(self.text)
    }

    /// The cursor's flat offset.
    pub closed spec fn cursor_spec(self) -> usize {
        self.cursor
    }

    /// The undo log, oldest record first.
    pub closed spec fn history(self) -> Seq<EditorCmd> {
        self.cmds@
    }

    /// The file a save writes to, if one was chosen.
    pub closed spec fn path_spec(self) -> Option<String> {
        self.path
    }

    /// The cursor is a valid document position and the undo log can be
    /// unwound from the current content.
    pub open spec fn wf(self) -> bool {
        &&& self.cursor_spec() <= self.chars().len()
        &&& history_ok(self.history(), self.chars())
    }

    /// `post` is `pre` with `c` inserted at the cursor: the cursor moved
    /// past the new character and the insertion was recorded.
    pub open spec fn inserted(pre: Editor, post: Editor, c: char) -> bool {
        &&& post.chars() == pre.chars().insert(pre.cursor_spec() as int, c)
        &&& post.cursor_spec() == pre.cursor_spec() + 1
        &&& post.history() == pre.history().push(EditorCmd::InsertChar(pre.cursor_spec(), c))
        &&& post.path_spec() == pre.path_spec()
    }

    /// `post` is `pre` with the character before the cursor removed and
    /// the removal recorded; at offset 0 a backspace does nothing.
    pub open spec fn deleted(pre: Editor, post: Editor) -> bool {
        if pre.cursor_spec() == 0 {
            post == pre
        } else {
            &&& post.chars() == pre.chars().remove(pre.cursor_spec() - 1)
            &&& post.cursor_spec() == pre.cursor_spec() - 1
            &&& post.history() == pre.history().push(
                EditorCmd::DeleteChar(
                    (pre.cursor_spec() - 1) as usize,
                    pre.chars()[pre.cursor_spec() - 1],
                ),
            )
            &&& post.path_spec() == pre.path_spec()
        }
    }

    /// `post` is `pre` with its latest edit record popped and inverted: an
    /// insertion is undone by deleting at the offset one past it, a
    /// deletion by re-inserting the removed character at its offset.  On
    /// an empty log nothing changes.
    pub open spec fn undone(pre: Editor, post: Editor) -> bool {
        if pre.history().len() == 0 {
            &&& post.chars() == pre.chars()
            &&& post.cursor_spec() == pre.cursor_spec()
            &&& post.history() == pre.history()
            &&& post.path_spec() == pre.path_spec()
        } else {
            &&& post.history() == pre.history().drop_last()
            &&& post.path_spec() == pre.path_spec()
            &&& (match pre.history().last() {
                EditorCmd::InsertChar(idx, _c) => post.chars() == pre.chars().remove(idx as int)
                    && post.cursor_spec() == (if pre.cursor_spec() > 0 {
                    (pre.cursor_spec() - 1) as usize
                } else {
                    0usize
                }),
                EditorCmd::DeleteChar(idx, c) => post.chars() == pre.chars().insert(idx as int, c)
                    && post.cursor_spec() == pre.cursor_spec() + 1,
            })
        }
    }

    /// `post` is `pre` with only the cursor moved, to `target`.
    pub open spec fn moved_to(pre: Editor, post: Editor, target: int) -> bool {
        &&& post.chars() == pre.chars()
        &&& post.history() == pre.history()
        &&& post.path_spec() == pre.path_spec()
        &&& post.cursor_spec() == target
    }

    /// Where a horizontal move by `delta` puts the cursor: the flat offset
    /// clamped to `[0, len]`.  Crossing a newline needs no special case.
    pub open spec fn h_target(pre: Editor, delta: int) -> int {
        let p = pre.cursor_spec() + delta;
        if p < 0 {
            0
        } else if p > pre.chars().len() {
            pre.chars().len() as int
        } else {
            p
        }
    }

    /// Where a vertical move by `delta` puts the cursor: the same column
    /// on the target line (the line index clamped to the document), the
    /// column clamped to that line's length.
    pub open spec fn v_target(pre: Editor, delta: int) -> int {
        let s = pre.chars();
        let l = line_of(s, '\n', pre.cursor_spec() as int) as int;
        let last = line_count(s, '\n') - 1;
        let t = if l + delta < 0 {
            0int
        } else if l + delta > last {
            last
        } else {
            l + delta
        };
        let col = pre.cursor_spec() - line_start(s, '\n', l);
        line_start(s, '\n', t) + vstd::math::min(col, line_len(s, '\n', t))
    }

    /// A session over `content`, cursor at the top, empty history.  The
    /// caller owns reading the file; a missing file reads as empty text.
    pub fn new(path: Option<String>, content: &str) -> (r: Result<Editor, EditorError>)
        ensures
            r matches Ok(ed) && ed.wf() && ed.chars() == content@ && ed.cursor_spec() == 0
                && ed.history().len() == 0 && ed.path_spec() == path,
    {
        let text = rope_from_str(content);
        Ok(Editor { path, text, cursor: 0, cmds: VecDeque::new() })
    }

    /// Insert `c` at `idx` and advance the cursor one step, as the editor
    /// does right after a character is typed.
    fn insert_char(&mut self, idx: usize, c: char)
        requires
            idx <= old(self).chars().len(),
            old(self).cursor_spec() <= old(self).chars().len(),
            old(self).chars().len() < usize::MAX,
        ensures
            final(self).chars() == old(self).chars().insert(idx as int, c),
            final(self).cursor_spec() == old(self).cursor_spec() + 1,
            final(self).history() == old(self).history(),
            final(self).path_spec() == old(self).path_spec(),
    {
        rope_insert_char(&mut self.text, idx, c);
        self.cursor = self.cursor + 1;
    }

    /// Remove the character before `idx` and retreat the cursor one step.
    fn delete_char(&mut self, idx: usize)
        requires
            1 <= idx <= old(self).chars().len(),
        ensures
            final(self).chars() == old(self).chars().remove(idx - 1),
            final(self).cursor_spec() == (if old(self).cursor_spec() > 0 {
                (old(self).cursor_spec() - 1) as usize
            } else {
                0usize
            }),
            final(self).history() == old(self).history(),
            final(self).path_spec() == old(self).path_spec(),
    {
        rope_remove_char(&mut self.text, idx - 1);
        if self.cursor != 0 {
            self.cursor = self.cursor - 1;
        }
    }

    /// Insert `c` at the cursor and record the insertion for undo.
    pub fn insert(&mut self, c: char) -> (r: Result<(), EditorError>)
        requires
            old(self).wf(),
            old(self).chars().len() < usize::MAX,
        ensures
            final(self).wf(),
            r is Ok,
            Editor::inserted(*old(self), *final(self), c),
    {
        let idx = self.cursor;
        self.insert_char(idx, c);
        self.cmds.push_back(EditorCmd::InsertChar(idx, c));
        proof {
            lemma_insert_then_remove(old(self).chars(), idx as int, c);
            assert(self.history().drop_last() =~= old(self).history());
        }
        Ok(())
    }

    /// Remove the character before the cursor (backspace) and record the
    /// removal for undo.  At offset 0 this is a silent no-op.
    pub fn delete(&mut self) -> (r: Result<(), EditorError>)
        requires
            old(self).wf(),
        ensures
            final(self).wf(),
            r is Ok,
            Editor::deleted(*old(self), *final(self)),
    {
        let idx = self.cursor;
        if idx == 0 {
            return Ok(());
        }
        let c = rope_char(&self.text, idx - 1);
        self.delete_char(idx);
        self.cmds.push_back(EditorCmd::DeleteChar(idx - 1, c));
        proof {
            lemma_remove_then_insert(old(self).chars(), idx - 1);
            assert(self.history().drop_last() =~= old(self).history());
        }
        Ok(())
    }

    /// Undo the latest edit: pop its record and apply the inverse.  On an
    /// empty log this is a silent no-op; there is no redo.
    pub fn undo(&mut self) -> (r: Result<(), EditorError>)
        requires
            old(self).wf(),
            old(self).chars().len() < usize::MAX,
        ensures
            final(self).wf(),
            r is Ok,
            Editor::undone(*old(self), *final(self)),
    {
        let popped = self.cmds.pop_back();
        match popped {
            None => Ok(()),
            Some(cmd) => {
                proof {
                    assert(self.cmds@ =~= old(self).history().drop_last());
                }
                match cmd {
                    EditorCmd::InsertChar(idx, _c) => {
                        self.delete_char(idx + 1);
                        Ok(())
                    },
                    EditorCmd::DeleteChar(idx, c) => {
                        self.insert_char(idx, c);
                        Ok(())
                    },
                }
            },
        }
    }
    /// Move the cursor horizontally by `delta`, the result clamped to the
    /// document's offsets.  Crossing a newline is a natural side effect of
    /// the flat offset, not a special case.
    pub fn move_cursor_h(&mut self, delta: isize)
        requires
            old(self).wf(),
        ensures
            final(self).wf(),
            Editor::moved_to(*old(self), *final(self), Editor::h_target(*old(self), delta as int)),
    {
        if delta < 0 {
            let mag = neg_mag(delta);
            if mag >= self.cursor {
                self.cursor = 0;
            } else {
                self.cursor = self.cursor - mag;
            }
        } else {
            let mag = delta as usize;
            let len = rope_len_chars(&self.text);
            if mag >= len - self.cursor {
                self.cursor = len;
            } else {
                self.cursor = self.cursor + mag;
            }
        }
    }

    /// Move the cursor vertically by `delta` lines.  The target line index
    /// is clamped to the document and the column to the target line's
    /// length, so moving up from the first line or down from the last
    /// changes nothing, and a shorter line is never read past its end.
    pub fn move_cursor_v(&mut self, delta: isize)
        requires
            old(self).wf(),
        ensures
            final(self).wf(),
            Editor::moved_to(*old(self), *final(self), Editor::v_target(*old(self), delta as int)),
            line_of(old(self).chars(), '\n', old(self).cursor_spec() as int) == 0 && delta <= 0
                ==> final(self).cursor_spec() == old(self).cursor_spec(),
            line_of(old(self).chars(), '\n', old(self).cursor_spec() as int) == line_count(
                old(self).chars(),
                '\n',
            ) - 1 && delta >= 0 ==> final(self).cursor_spec() == old(self).cursor_spec(),
    {
        let ghost s = self.chars();
        proof {
            lemma_own_line(s, '\n', self.cursor as int);
        }
        let len = rope_len_chars(&self.text);
        let line = rope_char_to_line(&self.text, self.cursor);
        let start = rope_line_to_char(&self.text, line);
        let col = self.cursor - start;
        let nlines = rope_len_lines(&self.text);
        let last = nlines - 1;
        let target: usize;
        if delta < 0 {
            let mag = neg_mag(delta);
            target = if mag >= line {
                0
            } else {
                line - mag
            };
        } else {
            let mag = delta as usize;
            target = if mag >= last - line {
                last
            } else {
                line + mag
            };
        }
        proof {
            lemma_line_bounds(s, '\n', target as int);
        }
        let tstart = rope_line_to_char(&self.text, target);
        let tlen_incl = rope_line_len(&self.text, target);
        let tlen = if target < last {
            tlen_incl - 1
        } else {
            tlen_incl
        };
        if col <= tlen {
            self.cursor = tstart + col;
        } else {
            self.cursor = tstart + tlen;
        }
    }

    /// Put the cursor at the end of its line: on the line's terminator, or
    /// at the end of the document for the last line.
    pub fn move_cursor_end(&mut self)
        requires
            old(self).wf(),
        ensures
            final(self).wf(),
            Editor::moved_to(
                *old(self),
                *final(self),
                line_end(
                    old(self).chars(),
                    '\n',
                    line_of(old(self).chars(), '\n', old(self).cursor_spec() as int) as int,
                ),
            ),
    {
        let ghost s = self.chars();
        proof {
            lemma_own_line(s, '\n', self.cursor as int);
        }
        let len = rope_len_chars(&self.text);
        let line = rope_char_to_line(&self.text, self.cursor);
        let nlines = rope_len_lines(&self.text);
        let start = rope_line_to_char(&self.text, line);
        let ilen = rope_line_len(&self.text, line);
        proof {
            lemma_line_bounds(s, '\n', line as int);
        }
        let elen = if line < nlines - 1 {
            ilen - 1
        } else {
            ilen
        };
        self.cursor = start + elen;
    }

    /// Put the cursor at the start of its line.
    pub fn move_cursor_home(&mut self)
        requires
            old(self).wf(),
        ensures
            final(self).wf(),
            Editor::moved_to(
                *old(self),
                *final(self),
                line_start(
                    old(self).chars(),
                    '\n',
                    line_of(old(self).chars(), '\n', old(self).cursor_spec() as int) as int,
                ),
            ),
    {
        proof {
            lemma_own_line(self.chars(), '\n', self.cursor as int);
        }
        let line = rope_char_to_line(&self.text, self.cursor);
        let start = rope_line_to_char(&self.text, line);
        self.cursor = start;
    }

    /// Jump to the start of the first line.
    pub fn move_cursor_top(&mut self)
        requires
            old(self).wf(),
        ensures
            final(self).wf(),
            Editor::moved_to(*old(self), *final(self), 0),
    {
        self.cursor = 0;
    }

    /// Jump to the start of the last line.
    pub fn move_cursor_bottom(&mut self)
        requires
            old(self).wf(),
        ensures
            final(self).wf(),
            Editor::moved_to(
                *old(self),
                *final(self),
                line_start(old(self).chars(), '\n', line_count(old(self).chars(), '\n') - 1),
            ),
    {
        let nlines = rope_len_lines(&self.text);
        proof {
            lemma_line_bounds(self.chars(), '\n', nlines - 1);
        }
        let start = rope_line_to_char(&self.text, nlines - 1);
        self.cursor = start;
    }

    /// The text of line `line`, its terminating newline included where the
    /// line has one.
    pub fn get_line(&self, line: usize) -> (r: Result<String, EditorError>)
        requires
            self.wf(),
        ensures
            line < line_count(self.chars(), '\n') ==> (r matches Ok(t) && t@
                == self.chars().subrange(
                line_start(self.chars(), '\n', line as int),
                line_end_incl(self.chars(), '\n', line as int),
            )),
            line >= line_count(self.chars(), '\n') ==> r == Err::<String, EditorError>(
                EditorError::NoSuchLine,
            ),
    {
        let nlines = rope_len_lines(&self.text);
        if line >= nlines {
            return Err(EditorError::NoSuchLine);
        }
        Ok(rope_line_str(&self.text, line))
    }

    /// The character at `idx`, or a blank for positions past the end, as
    /// the renderer wants them.
    pub fn get_char(&self, idx: usize) -> (r: Result<char, EditorError>)
        ensures
            r matches Ok(c) && c == (if idx < self.chars().len() {
                self.chars()[idx as int]
            } else {
                ' '
            }),
    {
        match rope_get_char(&self.text, idx) {
            Some(c) => Ok(c),
            None => Ok(' '),
        }
    }

    /// Total number of lines: the newline count plus one, on any content.
    pub fn len_lines(&self) -> (r: Result<usize, EditorError>)
        ensures
            r matches Ok(n) && n == line_count(self.chars(), '\n'),
    {
        Ok(rope_len_lines(&self.text))
    }

    /// Length of line `line` in characters, its terminating newline
    /// included where the line has one.
    pub fn len_line(&self, line: usize) -> (r: Result<usize, EditorError>)
        requires
            self.wf(),
        ensures
            line < line_count(self.chars(), '\n') ==> (r matches Ok(n) && n == line_end_incl(
                self.chars(),
                '\n',
                line as int,
            ) - line_start(self.chars(), '\n', line as int)),
            line >= line_count(self.chars(), '\n') ==> r == Err::<usize, EditorError>(
                EditorError::NoSuchLine,
            ),
    {
        let nlines = rope_len_lines(&self.text);
        if line >= nlines {
            return Err(EditorError::NoSuchLine);
        }
        Ok(rope_line_len(&self.text, line))
    }

    /// The underlying rope, for callers that read the text through the
    /// rope boundary themselves (the renderer does).
    pub fn text_ref(&self) -> (r: &ropey::Rope)
        ensures
            rope_chars(*r) == self.chars(),
    {
        &self.text
    }

    /// The cursor's flat offset.
    pub fn get_cursor_pos(&self) -> (r: Result<usize, EditorError>)
        ensures
            r matches Ok(p) && p == self.cursor_spec(),
    {
        Ok(self.cursor)
    }

    /// What a save writes: the target path and the text, verbatim.  Fails
    /// with `NoTarget` while no path is set; the caller owns the actual
    /// file write.
    pub fn save_file(&self) -> (r: Result<(String, String), EditorError>)
        ensures
            self.path_spec() matches Some(p) ==> (r matches Ok(out) && out.0 == p && out.1@
                == self.chars()),
            self.path_spec() is None ==> r == Err::<(String, String), EditorError>(
                EditorError::NoTarget,
            ),
    {
        match &self.path {
            Some(p) => Ok((p.clone(), rope_to_string(&self.text))),
            None => Err(EditorError::NoTarget),
        }
    }

    /// Choose the file a later save writes to.
    pub fn set_path(&mut self, path: String)
        ensures
            final(self).path_spec() == Some(path),
            final(self).chars() == old(self).chars(),
            final(self).cursor_spec() == old(self).cursor_spec(),
            final(self).history() == old(self).history(),
            old(self).wf() ==> final(self).wf(),
    {
        self.path = Some(path);
    }

    /// Apply one decoded key to the session: the whole key-to-command
    /// dispatch table.  Save and quit are reported back to the caller,
    /// which owns the file write and the event loop.
    pub fn apply_key(&mut self, key: Key, ctrl: bool) -> (r: KeyOutcome)
        requires
            old(self).wf(),
            old(self).chars().len() < usize::MAX,
        ensures
            final(self).wf(),
            ctrl && key == Key::Char('s') ==> r == KeyOutcome::Save && *final(self) == *old(self),
            ctrl && key == Key::Char('z') ==> r == KeyOutcome::Continue && Editor::undone(
                *old(self),
                *final(self),
            ),
            !(ctrl && (key == Key::Char('s') || key == Key::Char('z'))) ==> match key {
                Key::Esc => r == KeyOutcome::Quit && *final(self) == *old(self),
                Key::Char(c) => r == KeyOutcome::Continue && Editor::inserted(
                    *old(self),
                    *final(self),
                    c,
                ),
                Key::Enter => r == KeyOutcome::Continue && Editor::inserted(
                    *old(self),
                    *final(self),
                    '\n',
                ),
                Key::Backspace => r == KeyOutcome::Continue && Editor::deleted(
                    *old(self),
                    *final(self),
                ),
                Key::Up => r == KeyOutcome::Continue && Editor::moved_to(
                    *old(self),
                    *final(self),
                    Editor::v_target(*old(self), -1),
                ),
                Key::Down => r == KeyOutcome::Continue && Editor::moved_to(
                    *old(self),
                    *final(self),
                    Editor::v_target(*old(self), 1),
                ),
                Key::Left => r == KeyOutcome::Continue && Editor::moved_to(
                    *old(self),
                    *final(self),
                    Editor::h_target(*old(self), -1),
                ),
                Key::Right => r == KeyOutcome::Continue && Editor::moved_to(
                    *old(self),
                    *final(self),
                    Editor::h_target(*old(self), 1),
                ),
                Key::End => r == KeyOutcome::Continue && Editor::moved_to(
                    *old(self),
                    *final(self),
                    line_end(
                        old(self).chars(),
                        '\n',
                        line_of(old(self).chars(), '\n', old(self).cursor_spec() as int) as int,
                    ),
                ),
                Key::Home => r == KeyOutcome::Continue && Editor::moved_to(
                    *old(self),
                    *final(self),
                    line_start(
                        old(self).chars(),
                        '\n',
                        line_of(old(self).chars(), '\n', old(self).cursor_spec() as int) as int,
                    ),
                ),
                Key::PageUp => r == KeyOutcome::Continue && Editor::moved_to(
                    *old(self),
                    *final(self),
                    0,
                ),
                Key::PageDown => r == KeyOutcome::Continue && Editor::moved_to(
                    *old(self),
                    *final(self),
                    line_start(old(self).chars(), '\n', line_count(old(self).chars(), '\n') - 1),
                ),
                _ => r == KeyOutcome::Continue && *final(self) == *old(self),
            },
    {
        if ctrl {
            match key {
                Key::Char(c) => {
                    if c == 's' {
                        return KeyOutcome::Save;
                    }
                    if c == 'z' {
                        let _ = self.undo();
                        return KeyOutcome::Continue;
                    }
                },
                _ => {},
            }
        }
        match key {
            Key::Esc => KeyOutcome::Quit,
            Key::Char(c) => {
                let _ = self.insert(c);
                KeyOutcome::Continue
            },
            Key::Enter => {
                let _ = self.insert('\n');
                KeyOutcome::Continue
            },
            Key::Backspace => {
                let _ = self.delete();
                KeyOutcome::Continue
            },
            Key::Up => {
                self.move_cursor_v(-1);
                KeyOutcome::Continue
            },
            Key::Down => {
                self.move_cursor_v(1);
                KeyOutcome::Continue
            },
            Key::Left => {
                self.move_cursor_h(-1);
                KeyOutcome::Continue
            },
            Key::Right => {
                self.move_cursor_h(1);
                KeyOutcome::Continue
            },
            Key::End => {
                self.move_cursor_end();
                KeyOutcome::Continue
            },
            Key::Home => {
                self.move_cursor_home();
                KeyOutcome::Continue
            },
            Key::PageUp => {
                self.move_cursor_top();
                KeyOutcome::Continue
            },
            Key::PageDown => {
                self.move_cursor_bottom();
                KeyOutcome::Continue
            },
            _ => KeyOutcome::Continue,
        }
    }
}

/// Magnitude of a negative step, as the unsigned count it stands for.
fn neg_mag(delta: isize) -> (m: usize)
    requires
        delta < 0,
    ensures
        m == -(delta as int),
{
    if delta == isize::MIN {
        (isize::MAX as usize) + 1
    } else {
        (-delta) as usize
    }
}

} // verus!
