//! The document buffer: an ordered sequence of lines of characters, a
//! cursor, an optional path and a dirty flag.  Every operation is specified
//! against the mathematical model [`DocView`].

use vstd::prelude::*;

verus! {

/// Mathematical model of a document buffer.
#[verifier::ext_equal]
pub struct DocView {
    pub path: Option<Seq<char>>,
    pub lines: Seq<Seq<char>>,
    pub cursor_line: int,
    pub cursor_char: int,
    pub modified: bool,
}

impl DocView {
    /// Well-formedness: at least one (possibly empty) line always exists,
    /// the cursor sits on an existing line, and its character index is at
    /// most the length of that line (equal means "end of line").
    pub open spec fn wf(self) -> bool {
        &&& self.lines.len() >= 1
        &&& 0 <= self.cursor_line < self.lines.len()
        &&& 0 <= self.cursor_char <= self.lines[self.cursor_line].len()
    }

    /// The line the cursor is on.
    pub open spec fn cur_line(self) -> Seq<char> {
        self.lines[self.cursor_line]
    }

    /// The empty untitled document.
    pub open spec fn empty() -> DocView {
        DocView {
            path: None,
            lines: seq![Seq::empty()],
            cursor_line: 0,
            cursor_char: 0,
            modified: false,
        }
    }

    /// Move the cursor up one line, clamping the character index to the
    /// new line's length; no-op on the first line.
    pub open spec fn move_up(self) -> DocView {
        if self.cursor_line == 0 {
            self
        } else {
            let ll = self.lines[self.cursor_line - 1].len() as int;
            DocView {
                cursor_line: self.cursor_line - 1,
                cursor_char: if self.cursor_char > ll { ll } else { self.cursor_char },
                ..self
            }
        }
    }

    /// Move the cursor down one line, clamping the character index; no-op
    /// on the last line.
    pub open spec fn move_down(self) -> DocView {
        if self.cursor_line >= self.lines.len() - 1 {
            self
        } else {
            let ll = self.lines[self.cursor_line + 1].len() as int;
            DocView {
                cursor_line: self.cursor_line + 1,
                cursor_char: if self.cursor_char > ll { ll } else { self.cursor_char },
                ..self
            }
        }
    }

    /// Move the cursor left one position; at the start of a line it wraps
    /// to the end of the previous line; no-op at the document start.
    pub open spec fn move_left(self) -> DocView {
        if self.cursor_char != 0 {
            DocView { cursor_char: self.cursor_char - 1, ..self }
        } else if self.cursor_line != 0 {
            DocView {
                cursor_line: self.cursor_line - 1,
                cursor_char: self.lines[self.cursor_line - 1].len() as int,
                ..self
            }
        } else {
            self
        }
    }

    /// Move the cursor right one position; at the end of a line it wraps
    /// to the start of the next line; no-op at the document end.
    pub open spec fn move_right(self) -> DocView {
        if self.cursor_char < self.cur_line().len() {
            DocView { cursor_char: self.cursor_char + 1, ..self }
        } else if self.cursor_line < self.lines.len() - 1 {
            DocView { cursor_line: self.cursor_line + 1, cursor_char: 0, ..self }
        } else {
            self
        }
    }

    /// Insert a character at the cursor and advance the cursor by the
    /// move-right rule; marks the document modified.
    pub open spec fn write_char(self, ch: char) -> DocView {
        let grown = DocView {
            lines: self.lines.update(self.cursor_line, self.cur_line().insert(self.cursor_char, ch)),
            modified: true,
            ..self
        };
        grown.move_right()
    }

    /// Backspace: remove the character before the cursor, or merge the
    /// current line onto the previous one when at the start of a line.
    /// Always marks the document modified, even at the document start.
    pub open spec fn backspace(self) -> DocView {
        if self.cursor_char != 0 {
            DocView {
                lines: self.lines.update(self.cursor_line, self.cur_line().remove(self.cursor_char - 1)),
                cursor_char: self.cursor_char - 1,
                modified: true,
                ..self
            }
        } else if self.cursor_line != 0 {
            let merged = self.lines[self.cursor_line - 1] + self.cur_line();
            DocView {
                lines: self.lines.update(self.cursor_line - 1, merged).remove(self.cursor_line),
                cursor_line: self.cursor_line - 1,
                cursor_char: self.lines[self.cursor_line - 1].len() as int,
                modified: true,
                ..self
            }
        } else {
            DocView { modified: true, ..self }
        }
    }

    /// Delete: remove the character at the cursor, or append the next line
    /// onto the current one when at the end of a line.  Always marks the
    /// document modified, even at the document end.
    pub open spec fn remove(self) -> DocView {
        if self.cursor_char != self.cur_line().len() {
            DocView {
                lines: self.lines.update(self.cursor_line, self.cur_line().remove(self.cursor_char)),
                modified: true,
                ..self
            }
        } else if self.cursor_line != self.lines.len() - 1 {
            let merged = self.cur_line() + self.lines[self.cursor_line + 1];
            DocView {
                lines: self.lines.update(self.cursor_line, merged).remove(self.cursor_line + 1),
                modified: true,
                ..self
            }
        } else {
            DocView { modified: true, ..self }
        }
    }

    /// Enter: split the current line at the cursor; the tail becomes a new
    /// line right after it, and the cursor moves to its start.
    pub open spec fn enter(self) -> DocView {
        DocView {
            lines: self.lines.update(self.cursor_line, self.cur_line().take(self.cursor_char))
                .insert(self.cursor_line + 1, self.cur_line().skip(self.cursor_char)),
            cursor_line: self.cursor_line + 1,
            cursor_char: 0,
            modified: true,
            ..self
        }
    }
}

/// Splitting a character sequence on newlines, as loading does: one line
/// per `'\n'`-free stretch, plus the (possibly empty) tail after the last
/// newline.  The result always holds at least one line.
pub open spec fn split_lines(s: Seq<char>) -> Seq<Seq<char>>
    decreases s.len(),
{
    if s.len() == 0 {
        seq![Seq::empty()]
    } else if s.last() == '\n' {
        split_lines(s.drop_last()).push(Seq::empty())
    } else {
        let r = split_lines(s.drop_last());
        r.update(r.len() - 1, r.last().push(s.last()))
    }
}

/// Joining lines back into file content, as saving does: every line, the
/// last one included, is followed by a `'\n'`.
pub open spec fn join_lines(lines: Seq<Seq<char>>) -> Seq<char>
    decreases lines.len(),
{
    if lines.len() == 0 {
        Seq::empty()
    } else {
        join_lines(lines.drop_last()) + lines.last() + seq!['\n']
    }
}

pub broadcast proof fn lemma_split_lines_len(s: Seq<char>)
    ensures
        #[trigger] split_lines(s).len() >= 1,
    decreases s.len(),
{
    if s.len() != 0 {
        lemma_split_lines_len(s.drop_last());
    }
}

/// A well-formed document always holds at least one line, so the line
/// count never drops below one: every operation requires and preserves
/// well-formedness.
pub proof fn lemma_line_count_at_least_one(d: DocView)
    requires
        d.wf(),
    ensures
        d.lines.len() >= 1,
{
}

/// Splitting a line and then pressing backspace at the resulting cursor
/// position restores the original lines and cursor exactly; only the
/// dirty flag is (unconditionally) set.
pub proof fn lemma_enter_then_backspace(d: DocView)
    requires
        d.wf(),
    ensures
        d.enter().backspace() == (DocView { modified: true, ..d }),
{
    assert(d.cur_line().take(d.cursor_char) + d.cur_line().skip(d.cursor_char) =~= d.cur_line());
    assert(d.enter().backspace() =~~= (DocView { modified: true, ..d }));
}

/// Inserting any character and then pressing backspace restores the
/// original lines and cursor exactly; only the dirty flag is set.
pub proof fn lemma_write_char_then_backspace(d: DocView, ch: char)
    requires
        d.wf(),
    ensures
        d.write_char(ch).backspace() == (DocView { modified: true, ..d }),
{
    assert(d.cur_line().insert(d.cursor_char, ch).remove(d.cursor_char) =~= d.cur_line());
    assert(d.write_char(ch).backspace() =~~= (DocView { modified: true, ..d }));
}

proof fn lemma_split_of_append(x: Seq<char>, l: Seq<char>)
    requires
        forall|i: int| 0 <= i < l.len() ==> l[i] != '\n',
    ensures
        split_lines(x + l) =~~= split_lines(x).update(
            split_lines(x).len() - 1,
            split_lines(x).last() + l,
        ),
    decreases l.len(),
{
    lemma_split_lines_len(x);
    if l.len() == 0 {
        assert(x + l =~= x);
        assert(split_lines(x).last() + l =~= split_lines(x).last());
    } else {
        let m = l.drop_last();
        let c = l.last();
        lemma_split_of_append(x, m);
        assert(x + m + seq![c] =~= x + l);
        assert((x + l).drop_last() =~= x + m);
        let r = split_lines(x + m);
        assert(split_lines(x + l) =~~= r.update(r.len() - 1, r.last().push(c)));
        assert(split_lines(x).last() + m + seq![c] =~= split_lines(x).last() + l);
    }
}

/// Loading the content that saving wrote yields exactly the lines that
/// were saved, followed by the one empty tail line that the trailing
/// newline induces.  (Save writes a newline after every line, so a line
/// holding a newline character itself would be split; such lines never
/// arise through the editing operations and are excluded here.)
pub proof fn lemma_save_then_load(lines: Seq<Seq<char>>)
    requires
        forall|i: int, j: int|
            0 <= i < lines.len() && 0 <= j < lines[i].len() ==> lines[i][j] != '\n',
    ensures
        split_lines(join_lines(lines)) == lines.push(Seq::empty()),
    decreases lines.len(),
{
    if lines.len() == 0 {
        assert(split_lines(join_lines(lines)) =~~= lines.push(Seq::empty()));
    } else {
        let m = lines.drop_last();
        let l = lines.last();
        lemma_save_then_load(m);
        lemma_split_of_append(join_lines(m), l);
        let s = join_lines(m) + l + seq!['\n'];
        assert(s.len() > 0 && s.last() == '\n');
        assert(s.drop_last() =~= join_lines(m) + l);
        assert(split_lines(s) =~~= split_lines(join_lines(m) + l).push(Seq::empty()));
        assert(split_lines(join_lines(m)).last() =~= Seq::<char>::empty());
        assert(Seq::<char>::empty() + l =~= l);
        assert(split_lines(join_lines(m) + l) =~~= m.push(Seq::<char>::empty()).update(m.len() as int, l));
        assert(m.push(Seq::<char>::empty()).update(m.len() as int, l) =~~= lines);
        assert(split_lines(join_lines(lines)) =~~= lines.push(Seq::empty()));
    }
}

/// The error returned when a save is requested of a document that has no
/// associated path.
#[derive(Debug)]
pub struct NoPathError;

/// Relies on `String`'s `FromIterator` implementation for `char`:
/// collecting characters yields the string holding exactly those
/// characters in order.
#[verifier::external_body]
pub(crate) fn chars_to_string(v: &Vec<char>) -> (r: String)
    ensures
        r@ == v@,
{
    v.iter().copied().collect()
}

/// The document buffer: lines of characters, a cursor, an optional path
/// and a dirty flag.
pub struct FileData {
    path: Option<String>,
    content: Vec<Vec<char>>,
    cursor_line: usize,
    cursor_char: usize,
    modified: bool,
}

impl View for FileData {
    type V = DocView;

    closed spec fn view(&self) -> DocView {
        DocView {
            path: match self.path {
                Some(p) => Some(p@),
                None => None,
            },
            lines: self.content.deep_view(),
            cursor_line: self.cursor_line as int,
            cursor_char: self.cursor_char as int,
            modified: self.modified,
        }
    }
}

impl FileData {
    /// A new empty untitled document: one empty line, cursor at its start.
    pub fn new() -> (d: FileData)
        ensures
            d@ == DocView::empty(),
    {
        let mut linevec: Vec<Vec<char>> = Vec::new();
        let charvec: Vec<char> = Vec::new();
        linevec.push(charvec);
        let d = FileData {
            path: None,
            content: linevec,
            cursor_line: 0,
            cursor_char: 0,
            modified: false,
        };
        proof {
            assert(d@ =~~= DocView::empty());
        }
        d
    }

    /// Reset to the empty untitled document.
    pub fn clear(&mut self)
        ensures
            final(self)@ == DocView::empty(),
    {
        let dummy = FileData::new();
        *self = dummy;
    }

    /// The line at the given index, if there is one.
    pub fn get_line(&self, line: usize) -> (r: Option<&Vec<char>>)
        ensures
            match r {
                Some(l) => line < self@.lines.len() && l@ == self@.lines[line as int],
                None => line >= self@.lines.len(),
            },
    {
        if line < self.content.len() {
            Some(&self.content[line])
        } else {
            None
        }
    }

    pub fn get_cursor_line(&self) -> (r: usize)
        ensures
            r == self@.cursor_line,
    {
        self.cursor_line
    }

    pub fn get_cursor_char(&self) -> (r: usize)
        ensures
            r == self@.cursor_char,
    {
        self.cursor_char
    }

    pub fn get_path(&self) -> (r: Option<String>)
        ensures
            match r {
                Some(p) => self@.path matches Some(q) && p@ == q,
                None => self@.path is None,
            },
    {
        match &self.path {
            Some(p) => Some(p.clone()),
            None => None,
        }
    }

    pub fn set_path(&mut self, path: Option<String>)
        ensures
            final(self)@ == (DocView {
                path: match path {
                    Some(p) => Some(p@),
                    None => None,
                },
                ..old(self)@
            }),
    {
        self.path = path;
    }

    /// The document's title: its path, or a fixed placeholder when it has
    /// none.
    pub fn get_title(&self) -> (r: String)
        ensures
            match self@.path {
                Some(p) => r@ == p,
                None => r@ == "<Untitled>"@,
            },
    {
        match &self.path {
            None => String::from_str("<Untitled>"),
            Some(v) => v.clone(),
        }
    }

    /// How many lines the document holds (always at least one).
    pub fn get_lines(&self) -> (r: usize)
        ensures
            r == self@.lines.len(),
    {
        self.content.len()
    }

    pub fn is_modified(&self) -> (r: bool)
        ensures
            r == self@.modified,
    {
        self.modified
    }

    /// How many characters the decimal rendering of the line count takes
    /// (the width of a line-number gutter).
    pub fn get_line_number_len(&self) -> (r: usize)
        ensures
            r == crate::numfmt::dec_digits(self@.lines.len() as nat).len(),
    {
        let s = crate::numfmt::fmt_u128(self.content.len() as u128);
        s.as_str().unicode_len()
    }

    pub fn move_cursor_up(&mut self)
        requires
            old(self)@.wf(),
        ensures
            final(self)@ == old(self)@.move_up(),
            final(self)@.wf(),
    {
        if self.cursor_line != 0 {
            self.cursor_line = self.cursor_line - 1;
            let line_len = self.content[self.cursor_line].len();
            if self.cursor_char > line_len {
                self.cursor_char = line_len;
            }
        }
        proof {
            assert(self@ =~~= old(self)@.move_up());
        }
    }

    pub fn move_cursor_down(&mut self)
        requires
            old(self)@.wf(),
        ensures
            final(self)@ == old(self)@.move_down(),
            final(self)@.wf(),
    {
        if self.cursor_line < self.content.len() - 1 {
            self.cursor_line = self.cursor_line + 1;
            let line_len = self.content[self.cursor_line].len();
            if self.cursor_char > line_len {
                self.cursor_char = line_len;
            }
        }
        proof {
            assert(self@ =~~= old(self)@.move_down());
        }
    }

    pub fn move_cursor_left(&mut self)
        requires
            old(self)@.wf(),
        ensures
            final(self)@ == old(self)@.move_left(),
            final(self)@.wf(),
    {
        if self.cursor_char != 0 {
            self.cursor_char = self.cursor_char - 1;
        } else if self.cursor_line != 0 {
            self.cursor_line = self.cursor_line - 1;
            self.cursor_char = self.content[self.cursor_line].len();
        }
        proof {
            assert(self@ =~~= old(self)@.move_left());
        }
    }

    pub fn move_cursor_right(&mut self)
        requires
            old(self)@.wf(),
        ensures
            final(self)@ == old(self)@.move_right(),
            final(self)@.wf(),
    {
        let cur_line_len = self.content[self.cursor_line].len();
        if self.cursor_char < cur_line_len {
            self.cursor_char = self.cursor_char + 1;
        } else if self.cursor_line < self.content.len() - 1 {
            self.cursor_line = self.cursor_line + 1;
            self.cursor_char = 0;
        }
        proof {
            assert(self@ =~~= old(self)@.move_right());
        }
    }

    /// Insert a character at the cursor and advance the cursor.
    pub fn write_char(&mut self, ch: char)
        requires
            old(self)@.wf(),
        ensures
            final(self)@ == old(self)@.write_char(ch),
            final(self)@.wf(),
    {
        let cchar = self.cursor_char;
        let line = &mut self.content[self.cursor_line];
        line.insert(cchar, ch);
        self.modified = true;
        proof {
            let grown = DocView { lines: old(self)@.lines.update(old(self)@.cursor_line,
                old(self)@.cur_line().insert(old(self)@.cursor_char, ch)), modified: true, ..old(self)@ };
            assert(self@ =~~= grown);
        }
        self.move_cursor_right();
    }

    /// Backspace: remove the character before the cursor, or merge the
    /// current line onto the previous one.
    pub fn backspace(&mut self)
        requires
            old(self)@.wf(),
        ensures
            final(self)@ == old(self)@.backspace(),
            final(self)@.wf(),
    {
        let cline = self.cursor_line;
        let cchar = self.cursor_char;
        if cchar != 0 {
            let line = &mut self.content[cline];
            line.remove(cchar - 1);
            self.cursor_char = cchar - 1;
        } else if cline != 0 {
            let mut cur_line = self.content.remove(cline);
            let mut prev_line = self.content.remove(cline - 1);
            let new_char = prev_line.len();
            prev_line.append(&mut cur_line);
            self.content.insert(cline - 1, prev_line);
            self.cursor_char = new_char;
            self.cursor_line = cline - 1;
        }
        self.modified = true;
        proof {
            assert(self@ =~~= old(self)@.backspace());
        }
    }

    /// Delete: remove the character at the cursor, or append the next line
    /// onto the current one.
    pub fn remove(&mut self)
        requires
            old(self)@.wf(),
        ensures
            final(self)@ == old(self)@.remove(),
            final(self)@.wf(),
    {
        let cline = self.cursor_line;
        let cchar = self.cursor_char;
        let line_len = self.content[cline].len();
        if cchar != line_len {
            let line = &mut self.content[cline];
            line.remove(cchar);
        } else if cline != self.content.len() - 1 {
            let mut next_line = self.content.remove(cline + 1);
            let cur_line = &mut self.content[cline];
            cur_line.append(&mut next_line);
        }
        self.modified = true;
        proof {
            assert(self@ =~~= old(self)@.remove());
        }
    }

    /// Enter: split the current line at the cursor; the cursor moves to
    /// the start of the new line.
    pub fn enter(&mut self)
        requires
            old(self)@.wf(),
        ensures
            final(self)@ == old(self)@.enter(),
            final(self)@.wf(),
    {
        let cline = self.cursor_line;
        let cchar = self.cursor_char;
        assert(cline < self.content.len());
        let line = &mut self.content[cline];
        let clip = line.split_off(cchar);
        self.content.insert(cline + 1, clip);
        self.cursor_char = 0;
        self.cursor_line = cline + 1;
        self.modified = true;
        proof {
            assert(self@ =~~= old(self)@.enter());
        }
    }

    /// Serialize the document: every line, the last one included, followed
    /// by a newline.
    pub fn to_string_copy(&self) -> (r: String)
        ensures
            r@ == join_lines(self@.lines),
    {
        let out = self.to_chars();
        chars_to_string(&out)
    }

    /// The serialized document as characters.
    pub fn to_chars(&self) -> (r: Vec<char>)
        ensures
            r@ == join_lines(self@.lines),
    {
        let mut out: Vec<char> = Vec::new();
        let n = self.content.len();
        let mut i: usize = 0;
        while i < n
            invariant
                n == self@.lines.len(),
                i <= n,
                out@ == join_lines(self@.lines.take(i as int)),
            decreases n - i,
        {
            let line = &self.content[i];
            out.extend_from_slice(line.as_slice());
            out.push('\n');
            proof {
                let lines = self@.lines;
                assert(lines.take(i + 1).drop_last() =~= lines.take(i as int));
                assert(lines.take(i + 1).last() == lines[i as int]);
                assert(out@ =~= join_lines(lines.take(i as int)) + lines[i as int] + seq!['\n']);
            }
            i = i + 1;
        }
        proof {
            assert(self@.lines.take(n as int) =~= self@.lines);
        }
        out
    }

    /// Replace the whole document by the given file content, split on
    /// newlines, with the given path, the cursor at the start and the
    /// dirty flag cleared.
    pub fn open(&mut self, path: String, content: Vec<char>)
        ensures
            final(self)@ == (DocView {
                path: Some(path@),
                lines: split_lines(content@),
                cursor_line: 0,
                cursor_char: 0,
                modified: false,
            }),
            final(self)@.wf(),
    {
        let mut linevec: Vec<Vec<char>> = Vec::new();
        let mut charvec: Vec<char> = Vec::new();
        let n = content.len();
        let mut i: usize = 0;
        while i < n
            invariant
                n == content@.len(),
                i <= n,
                split_lines(content@.take(i as int)) =~~= linevec.deep_view().push(charvec@),
            decreases n - i,
        {
            let ch = content[i];
            proof {
                assert(content@.take(i + 1).drop_last() =~= content@.take(i as int));
            }
            if ch == '\n' {
                linevec.push(charvec);
                charvec = Vec::new();
                proof {
                    assert(split_lines(content@.take(i + 1)) =~~= linevec.deep_view().push(charvec@));
                }
            } else {
                charvec.push(ch);
                proof {
                    let r = split_lines(content@.take(i as int));
                    assert(split_lines(content@.take(i + 1)) =~~= r.update(r.len() - 1, r.last().push(ch)));
                    assert(split_lines(content@.take(i + 1)) =~~= linevec.deep_view().push(charvec@));
                }
            }
            i = i + 1;
        }
        linevec.push(charvec);
        proof {
            assert(content@.take(n as int) =~= content@);
            assert(linevec.deep_view() =~~= split_lines(content@));
            lemma_split_lines_len(content@);
        }
        self.path = Some(path);
        self.content = linevec;
        self.cursor_line = 0;
        self.cursor_char = 0;
        self.modified = false;
    }

    /// The save plan per the command rules: with a path set, the pair of
    /// that path and the serialized content to write to it; without one,
    /// the dedicated error.  The caller performs the write and reports it
    /// back through [`FileData::mark_saved`].
    pub fn save(&self) -> (r: Result<(String, String), NoPathError>)
        ensures
            match r {
                Ok((path, content)) => {
                    &&& self@.path matches Some(p) && path@ == p
                    &&& content@ == join_lines(self@.lines)
                },
                Err(_) => self@.path is None,
            },
    {
        match self.get_path() {
            None => Err(NoPathError),
            Some(path) => {
                let content = self.to_string_copy();
                Ok((path, content))
            },
        }
    }

    /// Record that the serialized content was successfully written out:
    /// the document is no longer dirty.
    pub fn mark_saved(&mut self)
        ensures
            final(self)@ == (DocView { modified: false, ..old(self)@ }),
    {
        self.modified = false;
    }
}

} // verus!
