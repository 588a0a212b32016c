//! The grammar of the commands typed at the command prompt.

use vstd::prelude::*;
use crate::text::{chars_of, string_of, is_white, is_white_char, skip_white, skip_nonwhite, skip_char, skip_white_exec, skip_nonwhite_exec, skip_char_exec};

verus! {

/// A command typed at the prompt.
#[derive(PartialEq, Debug)]
pub enum Command {
    /// Navigate to a target.
    Go(String),
    Quit,
    /// Follow the link with this 1-based number.
    Link(usize),
    /// Anything else; holds the first word.
    Unknown(String),
}

pub enum CommandSpec {
    Go(Seq<char>),
    Quit,
    Link(nat),
    Unknown(Seq<char>),
}

impl View for Command {
    type V = CommandSpec;

    open spec fn view(&self) -> CommandSpec {
        match self {
            Command::Go(t) => CommandSpec::Go(t@),
            Command::Quit => CommandSpec::Quit,
            Command::Link(n) => CommandSpec::Link(*n as nat),
            Command::Unknown(w) => CommandSpec::Unknown(w@),
        }
    }
}

pub open spec fn is_digit(c: char) -> bool {
    '0' <= c && c <= '9'
}

/// First index at or after `i` whose character is not an ASCII digit.
pub open spec fn skip_digits(s: Seq<char>, i: int) -> int
    decreases s.len() - i,
{
    if i < 0 || i >= s.len() || !is_digit(s[i]) { i } else { skip_digits(s, i + 1) }
}

/// The number that a sequence of ASCII digits writes in decimal.
pub open spec fn decimal_value(ds: Seq<char>) -> nat
    decreases ds.len(),
{
    if ds.len() == 0 {
        0
    } else {
        decimal_value(ds.drop_last()) * 10 + (ds.last() as nat - '0' as nat) as nat
    }
}

/// Where the target of a `go`/`g` command starts, if the command is one.
pub open spec fn go_target_start(s: Seq<char>) -> Option<int> {
    let i0 = skip_white(s, 0);
    if i0 < s.len() && s[i0] == 'g' {
        let j = if i0 + 1 < s.len() && s[i0 + 1] == 'o' { i0 + 2 } else { i0 + 1 };
        let k = skip_char(s, j, ' ');
        if k > j && k < s.len() { Some(k) } else { None }
    } else {
        None
    }
}

/// Whether position `k` ends a word: the end of the line or white space.
pub open spec fn word_ends_at(s: Seq<char>, k: int) -> bool {
    k >= s.len() || is_white(s[k])
}

/// Whether the word `q` or `quit` starts at `i`.
pub open spec fn is_quit_at(s: Seq<char>, i: int) -> bool {
    0 <= i < s.len() && s[i] == 'q' && (word_ends_at(s, i + 1) || (i + 4 <= s.len() && s[i + 1] == 'u'
        && s[i + 2] == 'i' && s[i + 3] == 't' && word_ends_at(s, i + 4)))
}

/// The command a line stands for: `go`/`g`, one or more spaces and a target;
/// `q` or `quit`, alone or followed by white space and anything; a positive decimal number alone; else the first
/// word as an unknown command. A blank line is no command.
pub open spec fn parse_command_spec(s: Seq<char>) -> Option<CommandSpec> {
    let i0 = skip_white(s, 0);
    let d = skip_digits(s, i0);
    if s.len() == 0 {
        None
    } else if go_target_start(s) is Some {
        Some(CommandSpec::Go(s.subrange(go_target_start(s)->0, s.len() as int)))
    } else if is_quit_at(s, i0) {
        Some(CommandSpec::Quit)
    } else if d > i0 && skip_white(s, d) == s.len() && 1 <= decimal_value(s.subrange(i0, d)) <= usize::MAX {
        Some(CommandSpec::Link(decimal_value(s.subrange(i0, d))))
    } else if i0 < s.len() {
        Some(CommandSpec::Unknown(s.subrange(i0, skip_nonwhite(s, i0))))
    } else {
        None
    }
}

fn skip_digits_exec(s: &Vec<char>, i: usize) -> (r: usize)
    requires
        i <= s@.len(),
    ensures
        r == skip_digits(s@, i as int),
        i <= r <= s@.len(),
        forall|k: int| i <= k < r ==> is_digit(s@[k]),
    decreases s@.len() - i,
{
    if i >= s.len() || !('0' <= s[i] && s[i] <= '9') { i } else { skip_digits_exec(s, i + 1) }
}

/// The value of the digits `s[from..to]`, `None` when it exceeds `usize`.
fn decimal_exec(s: &Vec<char>, from: usize, to: usize) -> (r: Option<usize>)
    requires
        from <= to <= s@.len(),
        forall|k: int| from <= k < to ==> is_digit(s@[k]),
    ensures
        r matches Some(v) ==> v as nat == decimal_value(s@.subrange(from as int, to as int)),
        r is None ==> decimal_value(s@.subrange(from as int, to as int)) > usize::MAX,
{
    let mut acc: Option<usize> = Some(0);
    let mut i: usize = from;
    assert(s@.subrange(from as int, from as int) =~= Seq::<char>::empty());
    while i < to
        invariant
            from <= i <= to <= s@.len(),
            forall|k: int| from <= k < to ==> is_digit(s@[k]),
            acc matches Some(v) ==> v as nat == decimal_value(s@.subrange(from as int, i as int)),
            acc is None ==> decimal_value(s@.subrange(from as int, i as int)) > usize::MAX,
        decreases to - i,
    {
        let ghost prev = s@.subrange(from as int, i as int);
        let ghost next = s@.subrange(from as int, i + 1);
        assert(next.drop_last() =~= prev);
        assert(next.last() == s@[i as int]);
        let d: usize = (s[i] as u32 - '0' as u32) as usize;
        let ghost pv = decimal_value(prev);
        assert(decimal_value(next) == pv * 10 + d);
        assert(pv * 10 >= pv) by (nonlinear_arith)
            requires
                pv >= 0,
        {}
        acc = match acc {
            Some(v) => match v.checked_mul(10) {
                Some(t) => t.checked_add(d),
                None => None,
            },
            None => None,
        };
        i = i + 1;
    }
    acc
}

/// Parses a line typed at the command prompt.
pub fn parse_command(s: &str) -> (r: Option<Command>)
    ensures
        match r {
            Some(c) => parse_command_spec(s@) == Some(c@),
            None => parse_command_spec(s@) is None,
        },
{
    let cs = chars_of(s);
    let n = cs.len();
    if n == 0 {
        return None;
    }
    let i0 = skip_white_exec(&cs, 0);
    if i0 < n && cs[i0] == 'g' {
        let j: usize = if i0 + 1 < n && cs[i0 + 1] == 'o' { i0 + 2 } else { i0 + 1 };
        let k = skip_char_exec(&cs, j, ' ');
        if k > j && k < n {
            return Some(Command::Go(string_of(&cs, k, n)));
        }
    }
    if i0 < n && cs[i0] == 'q' {
        let ends_q = i0 + 1 >= n || is_white_char(cs[i0 + 1]);
        let ends_quit = n - i0 >= 4 && cs[i0 + 1] == 'u' && cs[i0 + 2] == 'i' && cs[i0 + 3] == 't'
            && (i0 + 4 >= n || is_white_char(cs[i0 + 4]));
        if ends_q || ends_quit {
            return Some(Command::Quit);
        }
    }
    let d = skip_digits_exec(&cs, i0);
    if d > i0 && skip_white_exec(&cs, d) == n {
        match decimal_exec(&cs, i0, d) {
            Some(v) => {
                if v >= 1 {
                    return Some(Command::Link(v));
                }
            },
            None => {},
        }
    }
    if i0 < n {
        let e = skip_nonwhite_exec(&cs, i0);
        return Some(Command::Unknown(string_of(&cs, i0, e)));
    }
    None
}

} // verus!
