//! The editor session: input routing between the document and the
//! command-line buffer, the command interpreter with its modal yes/no
//! confirmation gate, the message queue, and the viewport/scroll state.
//!
//! The session itself performs no I/O.  Where a command needs the
//! filesystem, the session hands back an [`FsAction`] and the surrounding
//! program reports the outcome through [`Session::open_result`],
//! [`Session::write_result`] or [`Session::exists_result`].

use std::collections::VecDeque;
use vstd::prelude::*;
use crate::command::{
    copy_range, is_ws, is_ws_char, parse_command, skip_ws, spec_command, ws_end, Command,
    CommandView,
};
use crate::filedata::{chars_to_string, join_lines, split_lines, DocView, FileData};
use crate::numfmt::{dec_digits, fmt_u128};

verus! {

/// A deferred destructive action, applied only when the user confirms.
pub enum YNOption {
    /// Discard unsaved changes and reset to an empty document.
    DiscardAndNew,
    /// Discard unsaved changes and load the given path.
    DiscardAndOpen(String),
    /// Overwrite the existing file at the given path.
    OverwriteAndSave(String),
    /// Discard unsaved changes and end the run loop.
    DiscardAndQuit,
}

/// Model of a deferred action.
pub enum ActionView {
    New,
    Open(Seq<char>),
    Save(Seq<char>),
    Quit,
}

impl View for YNOption {
    type V = ActionView;

    open spec fn view(&self) -> ActionView {
        match self {
            YNOption::DiscardAndNew => ActionView::New,
            YNOption::DiscardAndOpen(p) => ActionView::Open(p@),
            YNOption::OverwriteAndSave(p) => ActionView::Save(p@),
            YNOption::DiscardAndQuit => ActionView::Quit,
        }
    }
}

/// A pending yes/no question shown to the user, with the action it
/// guards.
pub struct YNQuestion {
    /// The displayed prompt text.
    pub text: String,
    /// The deferred action applied on a "yes".
    pub option: YNOption,
}

/// Model of a pending question.
pub struct QuestionView {
    pub text: Seq<char>,
    pub action: ActionView,
}

impl View for YNQuestion {
    type V = QuestionView;

    open spec fn view(&self) -> QuestionView {
        QuestionView { text: self.text@, action: self.option@ }
    }
}

impl YNQuestion {
    pub fn new(text: String, option: YNOption) -> (q: YNQuestion)
        ensures
            q@ == (QuestionView { text: text@, action: option@ }),
    {
        YNQuestion { text, option }
    }
}

/// A filesystem action the session asks the surrounding program to
/// perform.
pub enum FsAction {
    /// Read the whole file at the path; report through
    /// [`Session::open_result`].
    Read(String),
    /// Write the content to the path; report through
    /// [`Session::write_result`] with the same `adopt_path`.
    Write { path: String, content: String, adopt_path: bool },
    /// Ask whether the path exists; report through
    /// [`Session::exists_result`].
    CheckExists(String),
}

/// Model of a filesystem action.
pub enum FsActionView {
    Read(Seq<char>),
    Write { path: Seq<char>, content: Seq<char>, adopt_path: bool },
    CheckExists(Seq<char>),
}

impl View for FsAction {
    type V = FsActionView;

    open spec fn view(&self) -> FsActionView {
        match self {
            FsAction::Read(p) => FsActionView::Read(p@),
            FsAction::Write { path, content, adopt_path } => FsActionView::Write {
                path: path@,
                content: content@,
                adopt_path: *adopt_path,
            },
            FsAction::CheckExists(p) => FsActionView::CheckExists(p@),
        }
    }
}

/// The view of an optional action handed back to the caller.
pub open spec fn opt_action_view(o: Option<FsAction>) -> Option<FsActionView> {
    match o {
        Some(a) => Some(a@),
        None => None,
    }
}

/// The fixed display width of a tab character.
pub const TAB_WIDTH: usize = 4;

/// How long a redraw suppresses further keystroke-triggered redraws, in
/// nanoseconds of the sub-second part of the elapsed time.
pub const FRAME_LIMIT: u32 = 20000000;

/// A control character: one the key router ignores rather than inserts.
pub open spec fn spec_is_control(c: char) -> bool {
    (c as u32) < 32 || (127 <= (c as u32) && (c as u32) <= 159)
}

/// The display width of one character: tabs take a fixed width, every
/// other character one column.
pub open spec fn col_width(c: char) -> int {
    if c == '\t' {
        TAB_WIDTH as int
    } else {
        1
    }
}

/// The display column at which the character at index `k` of the line
/// starts, with fixed-width tab expansion.
pub open spec fn disp_col(line: Seq<char>, k: int) -> int
    decreases k,
{
    if k <= 0 {
        0
    } else {
        disp_col(line, k - 1) + col_width(line[k - 1])
    }
}

pub proof fn lemma_disp_col_bounds(line: Seq<char>, k: int)
    requires
        0 <= k,
    ensures
        k <= disp_col(line, k) <= 4 * k,
    decreases k,
{
    if k > 0 {
        lemma_disp_col_bounds(line, k - 1);
    }
}

/// The vertical scroll after the single-row correction loops: the first
/// loop walks up to the cursor row, the second walks down until the
/// cursor lies in the text region (the last screen row is reserved for
/// the status line).
pub open spec fn vscroll_fix(cursor: int, line_scroll: int, height: int) -> int {
    let ls = if cursor < line_scroll {
        cursor
    } else {
        line_scroll
    };
    if cursor - ls >= height - 1 {
        if height >= 2 {
            cursor - height + 2
        } else {
            cursor + 1
        }
    } else {
        ls
    }
}

/// Model of the whole session.
#[verifier::ext_equal]
pub struct SessionView {
    pub running: bool,
    pub doc: DocView,
    pub width: int,
    pub height: int,
    pub line_scroll: int,
    pub char_scroll: int,
    pub input_active: bool,
    pub input: DocView,
    pub messages: Seq<Seq<char>>,
    pub question: Option<QuestionView>,
    pub answer_yes: bool,
    pub cursor_only: bool,
    pub screen_col: int,
    pub skipped_draw: bool,
    pub run_low: bool,
}

impl SessionView {
    /// Well-formedness: both buffers are well-formed documents and the
    /// horizontal scroll stays within the range its corrections keep it
    /// in.
    pub open spec fn wf(self) -> bool {
        &&& self.doc.wf()
        &&& self.input.wf()
        &&& 0 <= self.char_scroll <= 4 * (usize::MAX as int) + 1
    }

    /// The buffer that key input currently edits.
    pub open spec fn active(self) -> DocView {
        if self.input_active {
            self.input
        } else {
            self.doc
        }
    }

    /// The session with the active buffer replaced.
    pub open spec fn with_active(self, d: DocView) -> SessionView {
        if self.input_active {
            SessionView { input: d, ..self }
        } else {
            SessionView { doc: d, ..self }
        }
    }

    /// A notification pushed onto the front of the message queue.
    pub open spec fn notified(self, m: Seq<char>) -> SessionView {
        SessionView { messages: seq![m] + self.messages, ..self }
    }

    /// The prompt text shown for a deferred action.
    pub open spec fn prompt_of(a: ActionView) -> Seq<char> {
        match a {
            ActionView::Save(_) => "file already exists! continue?"@,
            _ => "unsaved changes! continue?"@,
        }
    }

    /// A question raised for the deferred action, with the answer reset
    /// to "no".
    pub open spec fn asked(self, a: ActionView) -> SessionView {
        SessionView {
            question: Some(QuestionView { text: Self::prompt_of(a), action: a }),
            answer_yes: false,
            ..self
        }
    }

    /// Executing a command line: the command buffer empties and closes,
    /// then the first token picks the command.  Destructive commands on a
    /// modified document raise a question instead; `save` and `open`
    /// yield the filesystem action to perform.
    pub open spec fn executed(self, cmd: Seq<char>) -> (SessionView, Option<FsActionView>) {
        let s = SessionView { input: DocView::empty(), input_active: false, ..self };
        match spec_command(cmd) {
            CommandView::Empty => (s.notified("error: no input"@), None),
            CommandView::New => if self.doc.modified {
                (s.asked(ActionView::New), None)
            } else {
                (SessionView { doc: DocView::empty(), ..s }, None)
            },
            CommandView::Save => match self.doc.path {
                None => (s.notified("error: file is unnamed"@), None),
                Some(p) => (
                    s,
                    Some(FsActionView::Write {
                        path: p,
                        content: join_lines(self.doc.lines),
                        adopt_path: false,
                    }),
                ),
            },
            CommandView::SaveTo(p) => if self.doc.path matches Some(v) && v != p {
                (s, Some(FsActionView::CheckExists(p)))
            } else {
                (
                    s,
                    Some(FsActionView::Write {
                        path: p,
                        content: join_lines(self.doc.lines),
                        adopt_path: true,
                    }),
                )
            },
            CommandView::OpenNoArg => (s.notified("error: usage: open <file>"@), None),
            CommandView::Open(p) => if self.doc.modified {
                (s.asked(ActionView::Open(p)), None)
            } else {
                (s, Some(FsActionView::Read(p)))
            },
            CommandView::Quit => if self.doc.modified {
                (s.asked(ActionView::Quit), None)
            } else {
                (SessionView { running: false, ..s }, None)
            },
            CommandView::Unknown(op) => (
                s.notified("error: unknown command: "@ + op),
                None,
            ),
        }
    }

    /// Resolving the pending question: it is always dismissed; the
    /// deferred action is applied (or handed back) only on a "yes".
    pub open spec fn question_answered(self) -> (SessionView, Option<FsActionView>) {
        match self.question {
            None => (self, None),
            Some(q) => {
                let s = SessionView { question: None, ..self };
                if !self.answer_yes {
                    (s, None)
                } else {
                    match q.action {
                        ActionView::New => (SessionView { doc: DocView::empty(), ..s }, None),
                        ActionView::Open(p) => (s, Some(FsActionView::Read(p))),
                        ActionView::Save(p) => (
                            s,
                            Some(FsActionView::Write {
                                path: p,
                                content: join_lines(self.doc.lines),
                                adopt_path: false,
                            }),
                        ),
                        ActionView::Quit => (SessionView { running: false, ..s }, None),
                    }
                }
            },
        }
    }

    /// A key press while a question is pending: left and right toggle
    /// the answer, enter resolves, anything else is ignored.
    pub open spec fn question_keyed(self, key: u16) -> (SessionView, Option<FsActionView>) {
        let s = if key == 65515 || key == 65514 {
            SessionView { answer_yes: !self.answer_yes, ..self }
        } else {
            self
        };
        if key == 13 {
            s.question_answered()
        } else {
            (s, None)
        }
    }

    /// One key press routed through the session: the confirmation gate
    /// captures everything while a question is pending; otherwise global
    /// shortcuts run first, then the key edits or moves the cursor of
    /// the active buffer.
    pub open spec fn keyed(self, key: u16, ch: char) -> (SessionView, Option<FsActionView>) {
        if self.question is Some {
            self.question_keyed(key)
        } else if self.input_active && key == 13 {
            self.executed(join_lines(self.input.lines))
        } else if key == 14 {
            self.executed("new"@)
        } else if key == 15 {
            (self.preset("open "@), None)
        } else if key == 19 {
            self.executed("save"@)
        } else if key == 17 {
            self.executed("quit"@)
        } else if key == 23 {
            (self.preset("save "@), None)
        } else if key == 65517 {
            if !self.input_active {
                (SessionView { doc: self.doc.move_up(), cursor_only: true, ..self }, None)
            } else {
                (self, None)
            }
        } else if key == 65515 {
            (SessionView { cursor_only: true, ..self.with_active(self.active().move_left()) }, None)
        } else if key == 65516 {
            if !self.input_active {
                (SessionView { doc: self.doc.move_down(), cursor_only: true, ..self }, None)
            } else {
                (self, None)
            }
        } else if key == 65514 {
            (SessionView { cursor_only: true, ..self.with_active(self.active().move_right()) }, None)
        } else if key == 127 {
            (self.with_active(self.active().backspace()), None)
        } else if key == 65522 {
            (self.with_active(self.active().remove()), None)
        } else if key == 9 {
            if !self.input_active {
                (SessionView { doc: self.doc.write_char('\t'), ..self }, None)
            } else {
                (self, None)
            }
        } else if key == 13 {
            (self.with_active(self.active().enter()), None)
        } else if key == 27 {
            if self.input_active {
                (SessionView { input_active: false, input: DocView::empty(), ..self }, None)
            } else {
                (SessionView { input_active: true, ..self }, None)
            }
        } else if key == 32 {
            (self.with_active(self.active().write_char(' ')), None)
        } else if !spec_is_control(ch) {
            (self.with_active(self.active().write_char(ch)), None)
        } else {
            (self, None)
        }
    }

    /// The command line opened and pre-filled with the given text, the
    /// cursor at its end.
    pub open spec fn preset(self, cmd: Seq<char>) -> SessionView {
        SessionView {
            input_active: true,
            input: DocView {
                path: None,
                lines: seq![cmd],
                cursor_line: 0,
                cursor_char: cmd.len() as int,
                modified: cmd.len() > 0,
            },
            ..self
        }
    }

    /// The scroll correction run before a redraw: the vertical scroll
    /// walks toward the cursor row; a cursor scrolled out to the left
    /// resets the horizontal scroll; a cursor at or past the right edge
    /// advances it by exactly the overflow, so the cursor lands on the
    /// last visible column.  Any adjustment forces a full repaint.  The
    /// recorded screen column is recomputed between the two horizontal
    /// corrections, as the draw path does.
    pub open spec fn scroll_checked(self) -> SessionView {
        let ls1 = if self.doc.cursor_line < self.line_scroll {
            self.doc.cursor_line
        } else {
            self.line_scroll
        };
        let ls = vscroll_fix(self.doc.cursor_line, self.line_scroll, self.height);
        let cs1 = if self.screen_col < 0 {
            0
        } else {
            self.char_scroll
        };
        let d = disp_col(self.doc.cur_line(), self.doc.cursor_char);
        let s = d - cs1;
        let cs2 = if s >= self.width {
            cs1 + s - self.width + 1
        } else {
            cs1
        };
        SessionView {
            line_scroll: ls,
            char_scroll: cs2,
            screen_col: s,
            cursor_only: self.cursor_only && ls1 == self.line_scroll && ls == ls1
                && self.screen_col >= 0 && s < self.width,
            ..self
        }
    }
}

/// The editor session state owned by the run loop.
pub struct Session {
    running: bool,
    data: FileData,
    width: usize,
    height: usize,
    line_scroll: usize,
    char_scroll: u128,
    input_active: bool,
    input: FileData,
    message_queue: VecDeque<String>,
    yn_question: Option<YNQuestion>,
    yn_question_state: bool,
    draw_cursor_only: bool,
    screen_cursor_char: i128,
    skipped_draw: bool,
    run_low: bool,
}

impl View for Session {
    type V = SessionView;

    closed spec fn view(&self) -> SessionView {
        SessionView {
            running: self.running,
            doc: self.data@,
            width: self.width as int,
            height: self.height as int,
            line_scroll: self.line_scroll as int,
            char_scroll: self.char_scroll as int,
            input_active: self.input_active,
            input: self.input@,
            messages: self.message_queue.deep_view(),
            question: match &self.yn_question {
                Some(q) => Some(q@),
                None => None,
            },
            answer_yes: self.yn_question_state,
            cursor_only: self.draw_cursor_only,
            screen_col: self.screen_cursor_char as int,
            skipped_draw: self.skipped_draw,
            run_low: self.run_low,
        }
    }
}

impl Session {
    /// A fresh session around the given document: running, document-edit
    /// mode, no question, no messages, no scroll, throttling enabled.
    pub fn new(data: FileData) -> (s: Session)
        requires
            data@.wf(),
        ensures
            s@ == (SessionView {
                running: true,
                doc: data@,
                width: 0,
                height: 0,
                line_scroll: 0,
                char_scroll: 0,
                input_active: false,
                input: DocView::empty(),
                messages: Seq::empty(),
                question: None,
                answer_yes: false,
                cursor_only: false,
                screen_col: 0,
                skipped_draw: false,
                run_low: true,
            }),
            s@.wf(),
    {
        let s = Session {
            running: true,
            data,
            width: 0,
            height: 0,
            line_scroll: 0,
            char_scroll: 0,
            input_active: false,
            input: FileData::new(),
            message_queue: VecDeque::new(),
            yn_question: None,
            yn_question_state: false,
            draw_cursor_only: false,
            screen_cursor_char: 0,
            skipped_draw: false,
            run_low: true,
        };
        proof {
            assert(s@ =~~= (SessionView {
                running: true,
                doc: data@,
                width: 0,
                height: 0,
                line_scroll: 0,
                char_scroll: 0,
                input_active: false,
                input: DocView::empty(),
                messages: Seq::empty(),
                question: None,
                answer_yes: false,
                cursor_only: false,
                screen_col: 0,
                skipped_draw: false,
                run_low: true,
            }));
        }
        s
    }

    /// Whether the run loop should keep going.
    pub fn is_running(&self) -> (r: bool)
        ensures
            r == self@.running,
    {
        self.running
    }

    /// The document buffer.
    pub fn data(&self) -> (r: &FileData)
        ensures
            r@ == self@.doc,
    {
        &self.data
    }

    /// The command-line buffer.
    pub fn input(&self) -> (r: &FileData)
        ensures
            r@ == self@.input,
    {
        &self.input
    }

    pub fn width(&self) -> (r: usize)
        ensures
            r == self@.width,
    {
        self.width
    }

    pub fn height(&self) -> (r: usize)
        ensures
            r == self@.height,
    {
        self.height
    }

    pub fn line_scroll(&self) -> (r: usize)
        ensures
            r == self@.line_scroll,
    {
        self.line_scroll
    }

    pub fn char_scroll(&self) -> (r: u128)
        ensures
            r == self@.char_scroll,
    {
        self.char_scroll
    }

    pub fn input_active(&self) -> (r: bool)
        ensures
            r == self@.input_active,
    {
        self.input_active
    }

    /// The pending question, if one is shown.
    pub fn question(&self) -> (r: &Option<YNQuestion>)
        ensures
            match r {
                Some(q) => self@.question matches Some(v) && v == q@,
                None => self@.question is None,
            },
    {
        &self.yn_question
    }

    /// The currently selected answer to the pending question.
    pub fn answer_yes(&self) -> (r: bool)
        ensures
            r == self@.answer_yes,
    {
        self.yn_question_state
    }

    /// Where the cursor falls on screen, in display columns from the left
    /// edge of the text region (negative when scrolled out of view).
    pub fn screen_col(&self) -> (r: i128)
        ensures
            r == self@.screen_col,
    {
        self.screen_cursor_char
    }

    /// Whether the next redraw may take the cheap cursor-only path.
    pub fn cursor_only(&self) -> (r: bool)
        ensures
            r == self@.cursor_only,
    {
        self.draw_cursor_only
    }

    /// The cursor-only fast path was taken: the next redraw is a full one
    /// again.
    pub fn clear_cursor_only(&mut self)
        ensures
            final(self)@ == (SessionView { cursor_only: false, ..old(self)@ }),
    {
        self.draw_cursor_only = false;
    }

    /// A resize always updates the stored dimensions (the caller forces a
    /// full repaint, never throttled).
    pub fn resize_event(&mut self, width: usize, height: usize)
        ensures
            final(self)@ == (SessionView {
                width: width as int,
                height: height as int,
                ..old(self)@
            }),
    {
        self.width = width;
        self.height = height;
    }

    /// Push a notification onto the message queue; the most recent one is
    /// shown first.
    pub fn notify(&mut self, message: String)
        ensures
            final(self)@ == old(self)@.notified(message@),
    {
        self.message_queue.push_front(message);
        proof {
            assert(self@ =~~= old(self)@.notified(message@));
        }
    }

    /// Pop the notification to show this frame: the most recently pushed
    /// one.
    pub fn next_message(&mut self) -> (r: Option<String>)
        ensures
            match r {
                Some(m) => {
                    &&& old(self)@.messages.len() > 0
                    &&& m@ == old(self)@.messages[0]
                    &&& final(self)@ == (SessionView {
                        messages: old(self)@.messages.skip(1),
                        ..old(self)@
                    })
                },
                None => {
                    &&& old(self)@.messages.len() == 0
                    &&& final(self)@ == old(self)@
                },
            },
    {
        let r = self.message_queue.pop_front();
        proof {
            match r {
                Some(_) => {
                    assert(self@ =~~= (SessionView {
                        messages: old(self)@.messages.skip(1),
                        ..old(self)@
                    }));
                },
                None => {
                    assert(self@ =~~= old(self)@);
                },
            }
        }
        r
    }

    /// Raise the question guarding the given deferred action, with the
    /// answer reset to "no".
    pub fn create_yn_req(&mut self, option: YNOption)
        ensures
            final(self)@ == old(self)@.asked(option@),
    {
        let message = match &option {
            YNOption::OverwriteAndSave(_) => String::from_str("file already exists! continue?"),
            _ => String::from_str("unsaved changes! continue?"),
        };
        self.yn_question = Some(YNQuestion::new(message, option));
        self.yn_question_state = false;
        proof {
            assert(self@ =~~= old(self)@.asked(option@));
        }
    }

    /// Open the command line pre-filled with the given text.
    pub fn preset_input(&mut self, command: Vec<char>)
        requires
            old(self)@.wf(),
        ensures
            final(self)@ == old(self)@.preset(command@),
            final(self)@.wf(),
    {
        self.input_active = true;
        self.input.clear();
        proof {
            assert(command@.take(0) =~= Seq::<char>::empty());
            assert(self.input@ =~~= (DocView {
                path: None,
                lines: seq![command@.take(0)],
                cursor_line: 0,
                cursor_char: 0,
                modified: false,
            }));
        }
        let n = command.len();
        let mut i: usize = 0;
        while i < n
            invariant
                n == command@.len(),
                i <= n,
                self.input@ == (DocView {
                    path: None,
                    lines: seq![command@.take(i as int)],
                    cursor_line: 0,
                    cursor_char: i as int,
                    modified: i > 0,
                }),
                self.data == old(self).data,
                self.input_active,
                unchanged_but_input(old(self)@, self@),
            decreases n - i,
        {
            proof {
                assert(self.input@.wf());
            }
            self.input.write_char(command[i]);
            i = i + 1;
            proof {
                assert(command@.take(i - 1).insert(i - 1, command@[i - 1]) =~= command@.take(
                    i as int,
                ));
                assert(self.input@ =~~= (DocView {
                    path: None,
                    lines: seq![command@.take(i as int)],
                    cursor_line: 0,
                    cursor_char: i as int,
                    modified: i > 0,
                }));
            }
        }
        proof {
            assert(command@.take(n as int) =~= command@);
            assert(self@ =~~= old(self)@.preset(command@));
        }
    }
}

/// The two sessions agree on everything but the command-line buffer and
/// the mode flag.
pub open spec fn unchanged_but_input(a: SessionView, b: SessionView) -> bool {
    SessionView { input: a.input, input_active: a.input_active, ..b } == a
}

impl SessionView {
    /// The outcome of reading the file chosen by an `open`: on success
    /// the document is replaced; on failure the error is shown and the
    /// document untouched.
    pub open spec fn open_resulted(
        self,
        path: Seq<char>,
        outcome: Result<Seq<char>, Seq<char>>,
    ) -> SessionView {
        match outcome {
            Ok(content) => SessionView {
                doc: DocView {
                    path: Some(path),
                    lines: split_lines(content),
                    cursor_line: 0,
                    cursor_char: 0,
                    modified: false,
                },
                ..self
            }.notified("opened"@),
            Err(e) => self.notified("error: "@ + e),
        }
    }

    /// The outcome of writing the serialized document: on success the
    /// dirty flag clears and, for a `save <path>` onto a fresh path, the
    /// path is adopted; on failure the document stays dirty.
    pub open spec fn write_resulted(
        self,
        path: Seq<char>,
        adopt_path: bool,
        outcome: Result<(), Seq<char>>,
    ) -> SessionView {
        match outcome {
            Ok(_) => SessionView {
                doc: DocView {
                    modified: false,
                    path: if adopt_path {
                        Some(path)
                    } else {
                        self.doc.path
                    },
                    ..self.doc
                },
                ..self
            }.notified("saved"@),
            Err(e) => self.notified("error: "@ + e),
        }
    }

    /// The outcome of the existence check for `save <path>` onto a path
    /// other than the current one: an existing file raises the overwrite
    /// question, otherwise the write proceeds and adopts the path.
    pub open spec fn exists_resulted(self, path: Seq<char>, exists: bool) -> (
        SessionView,
        Option<FsActionView>,
    ) {
        if exists {
            (self.asked(ActionView::Save(path)), None)
        } else {
            (
                self,
                Some(FsActionView::Write {
                    path: path,
                    content: join_lines(self.doc.lines),
                    adopt_path: true,
                }),
            )
        }
    }
}

impl Session {
    /// Execute a command line: empties and closes the command buffer,
    /// then interprets the first token.  The returned action, if any, is
    /// the filesystem work the caller must perform.
    pub fn execute_internal(&mut self, command: Vec<char>) -> (r: Option<FsAction>)
        requires
            old(self)@.wf(),
        ensures
            final(self)@ == old(self)@.executed(command@).0,
            opt_action_view(r) == old(self)@.executed(command@).1,
            final(self)@.wf(),
    {
        self.input.clear();
        self.input_active = false;
        let cmd = parse_command(&command);
        let ghost s0 = SessionView { input: DocView::empty(), input_active: false, ..old(self)@ };
        proof {
            assert(self@ =~~= s0);
        }
        match cmd {
            Command::Empty => {
                self.notify(String::from_str("error: no input"));
                None
            },
            Command::New => {
                if self.data.is_modified() {
                    self.create_yn_req(YNOption::DiscardAndNew);
                    None
                } else {
                    self.data.clear();
                    proof {
                        assert(self@ =~~= (SessionView { doc: DocView::empty(), ..s0 }));
                    }
                    None
                }
            },
            Command::Save => {
                match self.data.save() {
                    Err(_) => {
                        self.notify(String::from_str("error: file is unnamed"));
                        None
                    },
                    Ok((path, content)) => Some(
                        FsAction::Write { path, content, adopt_path: false },
                    ),
                }
            },
            Command::SaveTo(p) => {
                let differs = match self.data.get_path() {
                    Some(v) => !(v == p),
                    None => false,
                };
                if differs {
                    Some(FsAction::CheckExists(p))
                } else {
                    let content = self.data.to_string_copy();
                    Some(FsAction::Write { path: p, content, adopt_path: true })
                }
            },
            Command::OpenNoArg => {
                self.notify(String::from_str("error: usage: open <file>"));
                None
            },
            Command::Open(p) => {
                if self.data.is_modified() {
                    self.create_yn_req(YNOption::DiscardAndOpen(p));
                    None
                } else {
                    Some(FsAction::Read(p))
                }
            },
            Command::Quit => {
                if self.data.is_modified() {
                    self.create_yn_req(YNOption::DiscardAndQuit);
                    None
                } else {
                    self.running = false;
                    proof {
                        assert(self@ =~~= (SessionView { running: false, ..s0 }));
                    }
                    None
                }
            },
            Command::Unknown(op) => {
                let msg = String::from_str("error: unknown command: ").concat(op.as_str());
                self.notify(msg);
                None
            },
        }
    }

    /// Submit the command line for interpretation.
    pub fn execute_input(&mut self) -> (r: Option<FsAction>)
        requires
            old(self)@.wf(),
        ensures
            final(self)@ == old(self)@.executed(join_lines(old(self)@.input.lines)).0,
            opt_action_view(r) == old(self)@.executed(join_lines(old(self)@.input.lines)).1,
            final(self)@.wf(),
    {
        let command = self.input.to_chars();
        self.execute_internal(command)
    }

    /// Resolve the pending question with the currently selected answer.
    pub fn question_answered(&mut self) -> (r: Option<FsAction>)
        requires
            old(self)@.wf(),
        ensures
            final(self)@ == old(self)@.question_answered().0,
            opt_action_view(r) == old(self)@.question_answered().1,
            final(self)@.wf(),
    {
        let q = self.yn_question.take();
        match q {
            None => {
                proof {
                    assert(self@ =~~= old(self)@);
                }
                None
            },
            Some(q) => {
                let ghost s1 = SessionView { question: None, ..old(self)@ };
                proof {
                    assert(self@ =~~= s1);
                }
                if !self.yn_question_state {
                    None
                } else {
                    match q.option {
                        YNOption::DiscardAndNew => {
                            self.data.clear();
                            proof {
                                assert(self@ =~~= (SessionView { doc: DocView::empty(), ..s1 }));
                            }
                            None
                        },
                        YNOption::DiscardAndOpen(p) => Some(FsAction::Read(p)),
                        YNOption::OverwriteAndSave(p) => {
                            let content = self.data.to_string_copy();
                            Some(FsAction::Write { path: p, content, adopt_path: false })
                        },
                        YNOption::DiscardAndQuit => {
                            self.running = false;
                            proof {
                                assert(self@ =~~= (SessionView { running: false, ..s1 }));
                            }
                            None
                        },
                    }
                }
            },
        }
    }

    /// A key press while a question is pending: left and right toggle
    /// the answer, enter resolves it, anything else is ignored.
    pub fn question_key_event(&mut self, key: u16) -> (r: Option<FsAction>)
        requires
            old(self)@.wf(),
        ensures
            final(self)@ == old(self)@.question_keyed(key).0,
            opt_action_view(r) == old(self)@.question_keyed(key).1,
            final(self)@.wf(),
    {
        if key == 65515 || key == 65514 {
            self.yn_question_state = !self.yn_question_state;
            proof {
                assert(self@ =~~= (SessionView { answer_yes: !old(self)@.answer_yes, ..old(self)@ }));
            }
        }
        if key == 13 {
            self.question_answered()
        } else {
            None
        }
    }

    /// Report the outcome of the read requested by [`FsAction::Read`].
    pub fn open_result(&mut self, path: String, outcome: Result<Vec<char>, String>)
        requires
            old(self)@.wf(),
        ensures
            final(self)@ == old(self)@.open_resulted(
                path@,
                match outcome {
                    Ok(c) => Ok(c@),
                    Err(e) => Err(e@),
                },
            ),
            final(self)@.wf(),
    {
        match outcome {
            Ok(content) => {
                self.data.open(path, content);
                self.notify(String::from_str("opened"));
            },
            Err(e) => {
                let msg = String::from_str("error: ").concat(e.as_str());
                self.notify(msg);
            },
        }
    }

    /// Report the outcome of the write requested by [`FsAction::Write`],
    /// with the same `adopt_path` the action carried.
    pub fn write_result(&mut self, path: String, adopt_path: bool, outcome: Result<(), String>)
        requires
            old(self)@.wf(),
        ensures
            final(self)@ == old(self)@.write_resulted(
                path@,
                adopt_path,
                match outcome {
                    Ok(_) => Ok(()),
                    Err(e) => Err(e@),
                },
            ),
            final(self)@.wf(),
    {
        match outcome {
            Ok(_) => {
                self.data.mark_saved();
                if adopt_path {
                    self.data.set_path(Some(path));
                }
                self.notify(String::from_str("saved"));
            },
            Err(e) => {
                let msg = String::from_str("error: ").concat(e.as_str());
                self.notify(msg);
            },
        }
    }

    /// Report the outcome of the existence check requested by
    /// [`FsAction::CheckExists`].
    pub fn exists_result(&mut self, path: String, exists: bool) -> (r: Option<FsAction>)
        requires
            old(self)@.wf(),
        ensures
            final(self)@ == old(self)@.exists_resulted(path@, exists).0,
            opt_action_view(r) == old(self)@.exists_resulted(path@, exists).1,
            final(self)@.wf(),
    {
        if exists {
            self.create_yn_req(YNOption::OverwriteAndSave(path));
            None
        } else {
            let content = self.data.to_string_copy();
            Some(FsAction::Write { path, content, adopt_path: true })
        }
    }

    /// Route one key press, as [`SessionView::keyed`] describes.  The
    /// returned action, if any, is the filesystem work the caller must
    /// perform.
    pub fn key_event(&mut self, key: u16, character: char) -> (r: Option<FsAction>)
        requires
            old(self)@.wf(),
        ensures
            final(self)@ == old(self)@.keyed(key, character).0,
            opt_action_view(r) == old(self)@.keyed(key, character).1,
            final(self)@.wf(),
    {
        if self.yn_question.is_some() {
            return self.question_key_event(key);
        }
        if self.input_active && key == 13 {
            return self.execute_input();
        }
        if key == 14 {
            let cmd: Vec<char> = vec!['n', 'e', 'w'];
            proof {
                reveal_strlit("new");
                assert(cmd@ =~= "new"@);
            }
            return self.execute_internal(cmd);
        } else if key == 15 {
            let cmd: Vec<char> = vec!['o', 'p', 'e', 'n', ' '];
            proof {
                reveal_strlit("open ");
                assert(cmd@ =~= "open "@);
            }
            self.preset_input(cmd);
            return None;
        } else if key == 19 {
            let cmd: Vec<char> = vec!['s', 'a', 'v', 'e'];
            proof {
                reveal_strlit("save");
                assert(cmd@ =~= "save"@);
            }
            return self.execute_internal(cmd);
        } else if key == 17 {
            let cmd: Vec<char> = vec!['q', 'u', 'i', 't'];
            proof {
                reveal_strlit("quit");
                assert(cmd@ =~= "quit"@);
            }
            return self.execute_internal(cmd);
        } else if key == 23 {
            let cmd: Vec<char> = vec!['s', 'a', 'v', 'e', ' '];
            proof {
                reveal_strlit("save ");
                assert(cmd@ =~= "save "@);
            }
            self.preset_input(cmd);
            return None;
        }
        if key == 65517 {
            if !self.input_active {
                self.data.move_cursor_up();
                self.draw_cursor_only = true;
            }
        } else if key == 65515 {
            if self.input_active {
                self.input.move_cursor_left();
            } else {
                self.data.move_cursor_left();
            }
            self.draw_cursor_only = true;
        } else if key == 65516 {
            if !self.input_active {
                self.data.move_cursor_down();
                self.draw_cursor_only = true;
            }
        } else if key == 65514 {
            if self.input_active {
                self.input.move_cursor_right();
            } else {
                self.data.move_cursor_right();
            }
            self.draw_cursor_only = true;
        } else if key == 127 {
            if self.input_active {
                self.input.backspace();
            } else {
                self.data.backspace();
            }
        } else if key == 65522 {
            if self.input_active {
                self.input.remove();
            } else {
                self.data.remove();
            }
        } else if key == 9 {
            if !self.input_active {
                self.data.write_char('\t');
            }
        } else if key == 13 {
            if self.input_active {
                self.input.enter();
            } else {
                self.data.enter();
            }
        } else if key == 27 {
            if self.input_active {
                self.input_active = false;
                self.input.clear();
            } else {
                self.input_active = true;
            }
        } else if key == 32 {
            if self.input_active {
                self.input.write_char(' ');
            } else {
                self.data.write_char(' ');
            }
        } else {
            if !is_control_char(character) {
                if self.input_active {
                    self.input.write_char(character);
                } else {
                    self.data.write_char(character);
                }
            }
        }
        proof {
            assert(self@ =~~= old(self)@.keyed(key, character).0);
        }
        None
    }

    /// Recompute where the cursor falls on screen from the current line,
    /// the cursor's character index and the horizontal scroll.
    pub fn update_screen_cursor(&mut self)
        requires
            old(self)@.wf(),
        ensures
            final(self)@ == (SessionView {
                screen_col: disp_col(old(self)@.doc.cur_line(), old(self)@.doc.cursor_char)
                    - old(self)@.char_scroll,
                ..old(self)@
            }),
            final(self)@.wf(),
    {
        let cchar = self.data.get_cursor_char();
        let col: u128 = match self.data.get_line(self.data.get_cursor_line()) {
            Some(line) => {
                let mut sum: u128 = 0;
                let mut i: usize = 0;
                while i < cchar
                    invariant
                        i <= cchar <= line@.len(),
                        sum == disp_col(line@, i as int),
                        sum <= 4 * i,
                    decreases cchar - i,
                {
                    if line[i] == '\t' {
                        sum = sum + 4;
                    } else {
                        sum = sum + 1;
                    }
                    i = i + 1;
                }
                sum
            },
            None => {
                proof {
                    assert(false);
                }
                0
            },
        };
        self.screen_cursor_char = col as i128 - self.char_scroll as i128;
        proof {
            assert(self@ =~~= (SessionView {
                screen_col: disp_col(old(self)@.doc.cur_line(), old(self)@.doc.cursor_char)
                    - old(self)@.char_scroll,
                ..old(self)@
            }));
        }
    }

    /// Correct the scroll so the cursor is visible, as
    /// [`SessionView::scroll_checked`] describes.  With at least two
    /// screen rows, the cursor row afterwards lies between the top of
    /// the text region and its last row.
    #[verifier::rlimit(60)]
    pub fn check_scroll(&mut self)
        requires
            old(self)@.wf(),
            old(self)@.height >= 1,
        ensures
            final(self)@ == old(self)@.scroll_checked(),
            final(self)@.wf(),
            old(self)@.height >= 2 ==> final(self)@.line_scroll <= old(self)@.doc.cursor_line
                <= final(self)@.line_scroll + old(self)@.height - 2,
    {
        let cursor = self.data.get_cursor_line();
        let nlines = self.data.get_lines();
        while cursor < self.line_scroll
            invariant
                old(self)@.wf(),
                same_but_scroll(old(self)@, self@),
                self@.char_scroll == old(self)@.char_scroll,
                self@.screen_col == old(self)@.screen_col,
                cursor == self@.doc.cursor_line,
                old(self)@.doc.cursor_line < old(self)@.line_scroll ==> cursor
                    <= self@.line_scroll <= old(self)@.line_scroll,
                old(self)@.doc.cursor_line >= old(self)@.line_scroll ==> self@.line_scroll == old(
                    self,
                )@.line_scroll,
                self@.cursor_only == (old(self)@.cursor_only && self@.line_scroll == old(
                    self,
                )@.line_scroll),
            decreases self@.line_scroll,
        {
            self.line_scroll = self.line_scroll - 1;
            self.draw_cursor_only = false;
        }
        let ghost ls1 = self@.line_scroll;
        while cursor >= self.line_scroll && cursor - self.line_scroll >= self.height - 1
            invariant
                old(self)@.wf(),
                old(self)@.height >= 1,
                same_but_scroll(old(self)@, self@),
                self@.char_scroll == old(self)@.char_scroll,
                self@.screen_col == old(self)@.screen_col,
                cursor == self@.doc.cursor_line,
                cursor < nlines,
                ls1 == vscroll_fix_entry(old(self)@),
                ls1 <= self@.line_scroll,
                self@.line_scroll <= vscroll_fix(
                    cursor as int,
                    old(self)@.line_scroll,
                    old(self)@.height,
                ),
                self@.cursor_only == (old(self)@.cursor_only && self@.line_scroll == old(
                    self,
                )@.line_scroll && ls1 == old(self)@.line_scroll),
            decreases cursor + 1 - self@.line_scroll,
        {
            self.line_scroll = self.line_scroll + 1;
            self.draw_cursor_only = false;
        }
        proof {
            assert(self@.line_scroll == vscroll_fix(
                old(self)@.doc.cursor_line,
                old(self)@.line_scroll,
                old(self)@.height,
            ));
        }
        if self.screen_cursor_char < 0 {
            self.char_scroll = 0;
            self.draw_cursor_only = false;
        }
        let cc = self.data.get_cursor_char();
        self.update_screen_cursor();
        proof {
            lemma_disp_col_bounds(self@.doc.cur_line(), self@.doc.cursor_char);
            assert(disp_col(self@.doc.cur_line(), self@.doc.cursor_char) <= 4 * (cc as int));
        }
        if self.screen_cursor_char >= self.width as i128 {
            let delta = self.screen_cursor_char - self.width as i128 + 1;
            self.char_scroll = self.char_scroll + delta as u128;
            self.draw_cursor_only = false;
        }
        proof {
            assert(self@ =~~= old(self)@.scroll_checked());
        }
    }

    /// Decide whether the redraw after a keystroke happens now, from the
    /// sub-second part of the time since the last draw (`None` when the
    /// clock failed).  A suppressed redraw is recorded for the next idle
    /// tick; with throttling disabled every redraw is immediate.
    pub fn draw_after_keypress_decision(&mut self, elapsed_subsec_nanos: Option<u32>) -> (draw:
        bool)
        ensures
            draw == !(old(self)@.run_low && (elapsed_subsec_nanos matches Some(n) && n
                < FRAME_LIMIT)),
            final(self)@ == (SessionView {
                skipped_draw: old(self)@.skipped_draw || !draw,
                ..old(self)@
            }),
    {
        if !self.run_low {
            proof {
                assert(self@ =~~= (SessionView { skipped_draw: self@.skipped_draw, ..self@ }));
            }
            return true;
        }
        let draw = match elapsed_subsec_nanos {
            Some(n) => n >= FRAME_LIMIT,
            None => true,
        };
        if !draw {
            self.skipped_draw = true;
        }
        proof {
            assert(self@ =~~= (SessionView {
                skipped_draw: old(self)@.skipped_draw || !draw,
                ..old(self)@
            }));
        }
        draw
    }

    /// Enable or disable the redraw throttle entirely; with it disabled
    /// every redraw is immediate, for environments where input latency
    /// matters more than redraw-rate smoothing.
    pub fn set_throttle(&mut self, enabled: bool)
        ensures
            final(self)@ == (SessionView { run_low: enabled, ..old(self)@ }),
    {
        self.run_low = enabled;
    }

    /// Decide whether a redraw suppressed by the throttle is flushed on
    /// this idle tick: only once the frame interval has passed (judged,
    /// like the throttle itself, by the sub-second part of the elapsed
    /// time).
    pub fn redo_skipped_draw_decision(&mut self, elapsed_subsec_nanos: Option<u32>) -> (draw:
        bool)
        ensures
            draw == (old(self)@.skipped_draw && (elapsed_subsec_nanos matches Some(n) && n
                >= FRAME_LIMIT)),
            final(self)@ == (SessionView {
                skipped_draw: old(self)@.skipped_draw && !draw,
                ..old(self)@
            }),
    {
        let draw = self.skipped_draw && match elapsed_subsec_nanos {
            Some(n) => n >= FRAME_LIMIT,
            None => false,
        };
        if draw {
            self.skipped_draw = false;
        }
        proof {
            assert(self@ =~~= (SessionView {
                skipped_draw: old(self)@.skipped_draw && !draw,
                ..old(self)@
            }));
        }
        draw
    }
}

/// The vertical scroll after the first (upward) correction loop.
pub open spec fn vscroll_fix_entry(s: SessionView) -> int {
    if s.doc.cursor_line < s.line_scroll {
        s.doc.cursor_line
    } else {
        s.line_scroll
    }
}

/// The two sessions agree on everything but the scroll state, the
/// recorded screen column and the repaint flag.
pub open spec fn same_but_scroll(a: SessionView, b: SessionView) -> bool {
    SessionView {
        line_scroll: a.line_scroll,
        char_scroll: a.char_scroll,
        screen_col: a.screen_col,
        cursor_only: a.cursor_only,
        ..b
    } == a
}

/// A control character: one the key router ignores rather than inserts.
pub fn is_control_char(c: char) -> (r: bool)
    ensures
        r == spec_is_control(c),
{
    let u = c as u32;
    u < 32 || (u >= 127 && u <= 159)
}

/// One past the last non-whitespace character at or before index `j`, or
/// zero if there is none.
pub open spec fn rtrim_end(s: Seq<char>, j: int) -> int
    decreases j,
{
    if j <= 0 {
        0
    } else if is_ws(s[j - 1]) {
        rtrim_end(s, j - 1)
    } else {
        j
    }
}

/// The sequence with leading and trailing whitespace removed.
pub open spec fn spec_trim(s: Seq<char>) -> Seq<char> {
    let a = ws_end(s, 0);
    let b = rtrim_end(s, s.len() as int);
    if a < b {
        s.subrange(a, b)
    } else {
        Seq::empty()
    }
}

fn trim_chars(v: &Vec<char>) -> (r: Vec<char>)
    ensures
        r@ == spec_trim(v@),
{
    let a = skip_ws(v, 0);
    let mut b: usize = v.len();
    while b > 0 && is_ws_char(v[b - 1])
        invariant
            b <= v@.len(),
            rtrim_end(v@, v@.len() as int) == rtrim_end(v@, b as int),
        decreases b,
    {
        b = b - 1;
    }
    if a < b {
        copy_range(v, a, b)
    } else {
        Vec::new()
    }
}

/// What is padded to the given display width with trailing spaces; text
/// already that wide stays as it is.
pub open spec fn padded(s: Seq<char>, width: int) -> Seq<char> {
    if s.len() >= width {
        s
    } else {
        s + Seq::new((width - s.len()) as nat, |i: int| ' ')
    }
}

/// Widen the text with spaces to the given width (for the status bar,
/// which is drawn over the whole top row).
pub fn pad_to(string: String, width: usize) -> (r: String)
    ensures
        r@ == padded(string@, width as int),
{
    let mut string = string;
    let ghost orig = string@;
    let mut len = string.as_str().unicode_len();
    proof {
        reveal_strlit(" ");
    }
    while len < width
        invariant
            len == string@.len(),
            orig.len() <= len,
            orig.len() < width ==> len <= width,
            orig.len() >= width ==> len == orig.len(),
            string@ == orig + Seq::new((len - orig.len()) as nat, |i: int| ' '),
        decreases width - len,
    {
        string.append(" ");
        len = len + 1;
        proof {
            reveal_strlit(" ");
            assert(" "@ =~= seq![' ']);
            assert(string@ =~= orig + Seq::new((len - orig.len()) as nat, |i: int| ' '));
        }
    }
    proof {
        if orig.len() >= width {
            assert(string@ =~= orig);
        }
        assert(string@ =~= padded(orig, width as int));
    }
    string
}

impl SessionView {
    /// The status bar text: in command-line mode, the trimmed command
    /// line; otherwise a dirty marker, the document's title, the
    /// one-based cursor position and the line count.
    pub open spec fn status_text(self) -> Seq<char> {
        if self.input_active {
            spec_trim(join_lines(self.input.lines))
        } else {
            let flag = if self.doc.modified {
                "~"@
            } else {
                Seq::empty()
            };
            let title = match self.doc.path {
                Some(p) => p,
                None => "<Untitled>"@,
            };
            flag + title + "  ["@ + dec_digits((self.doc.cursor_line + 1) as nat) + ","@
                + dec_digits((self.doc.cursor_char + 1) as nat) + "]  lines: "@ + dec_digits(
                self.doc.lines.len() as nat,
            )
        }
    }
}

/// Placing the characters of a buffer line onto a row of screen cells,
/// one step per character from index `k` on: each character starts at
/// its display column shifted left by the horizontal scroll; tabs and
/// characters scrolled off to the left leave their cells blank, and the
/// walk stops at the right edge.
pub open spec fn place_row(
    row: Seq<char>,
    line: Seq<char>,
    k: int,
    scroll: int,
    width: int,
) -> Seq<char>
    decreases line.len() - k,
{
    if k < 0 || k >= line.len() {
        row
    } else {
        let pos = disp_col(line, k) - scroll;
        if pos >= width {
            row
        } else {
            let row2 = if line[k] != '\t' && pos >= 0 {
                row.update(pos, line[k])
            } else {
                row
            };
            place_row(row2, line, k + 1, scroll, width)
        }
    }
}

/// One text-region row: the visible cells of a buffer line, blank where
/// nothing lands.
pub open spec fn spec_render_line(line: Seq<char>, scroll: int, width: int) -> Seq<char> {
    place_row(Seq::new(width as nat, |i: int| ' '), line, 0, scroll, width)
}

impl Session {
    /// The screen cells of the text-region row showing the given buffer
    /// line, or nothing when the document has no such line.
    pub fn render_line(&self, line_idx: usize) -> (r: Option<Vec<char>>)
        requires
            self@.wf(),
        ensures
            match r {
                Some(row) => line_idx < self@.doc.lines.len() && row@ == spec_render_line(
                    self@.doc.lines[line_idx as int],
                    self@.char_scroll,
                    self@.width as int,
                ),
                None => line_idx >= self@.doc.lines.len(),
            },
    {
        let line = match self.data.get_line(line_idx) {
            None => {
                return None;
            },
            Some(l) => l,
        };
        let width = self.width;
        let ghost scroll = self@.char_scroll;
        let mut row: Vec<char> = vec![' '; width];
        proof {
            assert(row@ =~= Seq::new(width as nat, |i: int| ' '));
        }
        let n = line.len();
        let mut k: usize = 0;
        let mut pos: i128 = 0 - self.char_scroll as i128;
        while k < n && pos < width as i128
            invariant
                n == line@.len(),
                k <= n,
                0 <= scroll,
                pos == disp_col(line@, k as int) - scroll,
                disp_col(line@, k as int) <= 4 * (k as int),
                row@.len() == width,
                place_row(row@, line@, k as int, scroll, width as int) == spec_render_line(
                    line@,
                    scroll,
                    width as int,
                ),
            decreases n - k,
        {
            let c = line[k];
            if c != '\t' && pos >= 0 {
                let x = pos as usize;
                row[x] = c;
            }
            if c == '\t' {
                pos = pos + 4;
            } else {
                pos = pos + 1;
            }
            k = k + 1;
        }
        proof {
            if k < n {
                assert(place_row(row@, line@, k as int, scroll, width as int) == row@);
            }
        }
        Some(row)
    }

    /// The text of the status bar / command line row.
    pub fn status_line(&self) -> (r: String)
        requires
            self@.wf(),
        ensures
            r@ == self@.status_text(),
    {
        if self.input_active {
            let chars = self.input.to_chars();
            let trimmed = trim_chars(&chars);
            chars_to_string(&trimmed)
        } else {
            let mut title = String::new();
            if self.data.is_modified() {
                title.append("~");
            }
            let t = self.data.get_title();
            title.append(t.as_str());
            title.append("  [");
            let cl = self.data.get_cursor_line();
            let n1 = fmt_u128(cl as u128 + 1);
            title.append(n1.as_str());
            title.append(",");
            let cc = self.data.get_cursor_char();
            let n2 = fmt_u128(cc as u128 + 1);
            title.append(n2.as_str());
            title.append("]  lines: ");
            let n3 = fmt_u128(self.data.get_lines() as u128);
            title.append(n3.as_str());
            proof {
                assert(title@ =~= self@.status_text());
            }
            title
        }
    }
}

} // verus!
