//! The command interpreter's front end: tokenizing the command line and
//! recognizing the fixed command set.

use vstd::prelude::*;
use crate::filedata::chars_to_string;

verus! {

/// Whitespace for command tokenization.
pub open spec fn is_ws(c: char) -> bool {
    c == ' ' || c == '\t' || c == '\n' || c == '\r'
}

/// The first index at or after `i` holding a non-whitespace character, or
/// the length if there is none.
pub open spec fn ws_end(s: Seq<char>, i: int) -> int
    decreases s.len() - i,
{
    if i < 0 || i >= s.len() {
        s.len() as int
    } else if is_ws(s[i]) {
        ws_end(s, i + 1)
    } else {
        i
    }
}

/// The first index at or after `i` holding a whitespace character, or the
/// length if there is none.
pub open spec fn tok_end(s: Seq<char>, i: int) -> int
    decreases s.len() - i,
{
    if i < 0 || i >= s.len() {
        s.len() as int
    } else if !is_ws(s[i]) {
        tok_end(s, i + 1)
    } else {
        i
    }
}

/// The parsed form of a command line: the first whitespace-separated
/// token picks the command, the second (where one is taken) is its path
/// argument.
pub enum CommandView {
    New,
    Open(Seq<char>),
    OpenNoArg,
    Save,
    SaveTo(Seq<char>),
    Quit,
    Unknown(Seq<char>),
    Empty,
}

/// What a command line means.  The first token is the command name; `save`
/// and `open` take the following token as their path argument.
pub open spec fn spec_command(s: Seq<char>) -> CommandView {
    let a = ws_end(s, 0);
    let b = tok_end(s, a);
    if a == b {
        CommandView::Empty
    } else {
        let op = s.subrange(a, b);
        let c = ws_end(s, b);
        let d = tok_end(s, c);
        let arg = s.subrange(c, d);
        if op == "new"@ {
            CommandView::New
        } else if op == "save"@ {
            if c == d {
                CommandView::Save
            } else {
                CommandView::SaveTo(arg)
            }
        } else if op == "open"@ {
            if c == d {
                CommandView::OpenNoArg
            } else {
                CommandView::Open(arg)
            }
        } else if op == "quit"@ {
            CommandView::Quit
        } else {
            CommandView::Unknown(op)
        }
    }
}

/// A parsed command, with path arguments carried as strings.
pub enum Command {
    New,
    Open(String),
    OpenNoArg,
    Save,
    SaveTo(String),
    Quit,
    Unknown(String),
    Empty,
}

impl View for Command {
    type V = CommandView;

    open spec fn view(&self) -> CommandView {
        match self {
            Command::New => CommandView::New,
            Command::Open(p) => CommandView::Open(p@),
            Command::OpenNoArg => CommandView::OpenNoArg,
            Command::Save => CommandView::Save,
            Command::SaveTo(p) => CommandView::SaveTo(p@),
            Command::Quit => CommandView::Quit,
            Command::Unknown(op) => CommandView::Unknown(op@),
            Command::Empty => CommandView::Empty,
        }
    }
}

pub(crate) fn is_ws_char(c: char) -> (r: bool)
    ensures
        r == is_ws(c),
{
    c == ' ' || c == '\t' || c == '\n' || c == '\r'
}

pub(crate) fn skip_ws(v: &Vec<char>, i: usize) -> (r: usize)
    requires
        i <= v@.len(),
    ensures
        r == ws_end(v@, i as int),
        i <= r <= v@.len(),
{
    let mut j = i;
    while j < v.len() && is_ws_char(v[j])
        invariant
            i <= j <= v@.len(),
            ws_end(v@, i as int) == ws_end(v@, j as int),
        decreases v@.len() - j,
    {
        j = j + 1;
    }
    j
}

fn token_end(v: &Vec<char>, i: usize) -> (r: usize)
    requires
        i <= v@.len(),
    ensures
        r == tok_end(v@, i as int),
        i <= r <= v@.len(),
{
    let mut j = i;
    while j < v.len() && !is_ws_char(v[j])
        invariant
            i <= j <= v@.len(),
            tok_end(v@, i as int) == tok_end(v@, j as int),
        decreases v@.len() - j,
    {
        j = j + 1;
    }
    j
}

pub(crate) fn copy_range(v: &Vec<char>, a: usize, b: usize) -> (r: Vec<char>)
    requires
        a <= b <= v@.len(),
    ensures
        r@ == v@.subrange(a as int, b as int),
{
    let mut out: Vec<char> = Vec::new();
    let mut j = a;
    while j < b
        invariant
            a <= j <= b <= v@.len(),
            out@ == v@.subrange(a as int, j as int),
        decreases b - j,
    {
        out.push(v[j]);
        j = j + 1;
        proof {
            assert(out@ =~= v@.subrange(a as int, j as int));
        }
    }
    out
}

fn chars_eq(a: &Vec<char>, b: &Vec<char>) -> (r: bool)
    ensures
        r == (a@ == b@),
{
    if a.len() != b.len() {
        return false;
    }
    let mut i: usize = 0;
    while i < a.len()
        invariant
            i <= a@.len(),
            a@.len() == b@.len(),
            forall|k: int| 0 <= k < i ==> a@[k] == b@[k],
        decreases a@.len() - i,
    {
        if a[i] != b[i] {
            return false;
        }
        i = i + 1;
    }
    proof {
        assert(a@ =~= b@);
    }
    true
}

/// Parse a command line into the fixed command set.
pub fn parse_command(text: &Vec<char>) -> (c: Command)
    ensures
        c@ == spec_command(text@),
{
    proof {
        reveal_strlit("new");
        reveal_strlit("save");
        reveal_strlit("open");
        reveal_strlit("quit");
    }
    let a = skip_ws(text, 0);
    let b = token_end(text, a);
    if a == b {
        return Command::Empty;
    }
    let op = copy_range(text, a, b);
    let c = skip_ws(text, b);
    let d = token_end(text, c);
    let lit_new: Vec<char> = vec!['n', 'e', 'w'];
    let lit_save: Vec<char> = vec!['s', 'a', 'v', 'e'];
    let lit_open: Vec<char> = vec!['o', 'p', 'e', 'n'];
    let lit_quit: Vec<char> = vec!['q', 'u', 'i', 't'];
    proof {
        assert(lit_new@ =~= "new"@);
        assert(lit_save@ =~= "save"@);
        assert(lit_open@ =~= "open"@);
        assert(lit_quit@ =~= "quit"@);
    }
    if chars_eq(&op, &lit_new) {
        Command::New
    } else if chars_eq(&op, &lit_save) {
        if c == d {
            Command::Save
        } else {
            let arg = copy_range(text, c, d);
            Command::SaveTo(chars_to_string(&arg))
        }
    } else if chars_eq(&op, &lit_open) {
        if c == d {
            Command::OpenNoArg
        } else {
            let arg = copy_range(text, c, d);
            Command::Open(chars_to_string(&arg))
        }
    } else if chars_eq(&op, &lit_quit) {
        Command::Quit
    } else {
        Command::Unknown(chars_to_string(&op))
    }
}

} // verus!
