//! The decisions behind the command-line surface: resolving a title,
//! recognizing the append-mode `-` argument, choosing the archive
//! step, and the `name` command's date-prefix stripping. All of it is
//! pure; `main` gathers the inputs and carries out the outcome.

use vstd::prelude::*;

verus! {

use vstd::string::StrSliceExecFns;
use vstd::string::StringExecFns;
use crate::paths::spec_base_name;
use crate::paths::base_name_of;

/// What the target path turned out to be on disk.
#[derive(Debug, Clone, Copy, PartialEq, Eq, Structural)]
pub enum TargetKind {
    File,
    Dir,
    Other,
}

/// The archive step a request selects.
#[derive(Debug, Clone, Copy, PartialEq, Eq, Structural)]
pub enum ArchiveAction {
    AppendStdin,
    MoveFile,
    MoveDir,
}

/// Which archive step a request selects: a trailing `-` asks for the
/// stdin append whatever the target is; otherwise a file is moved, a
/// directory is moved, and any other kind of target is refused.
pub fn choose_archive_action(dash: bool, kind: TargetKind) -> (r: Option<ArchiveAction>)
    ensures
        dash ==> r == Some(ArchiveAction::AppendStdin),
        !dash && kind is File ==> r == Some(ArchiveAction::MoveFile),
        !dash && kind is Dir ==> r == Some(ArchiveAction::MoveDir),
        !dash && kind is Other ==> r is None,
{
    if dash {
        Some(ArchiveAction::AppendStdin)
    } else {
        match kind {
            TargetKind::File => Some(ArchiveAction::MoveFile),
            TargetKind::Dir => Some(ArchiveAction::MoveDir),
            TargetKind::Other => None,
        }
    }
}

/// The text that precedes the offending argument in `parse_dash`'s
/// report.
pub open spec fn dash_err_prefix() -> Seq<char> {
    seq!['e', 'x', 'p', 'e', 'c', 't', 'e', 'd', ' ', '\'', '-', '\'', ',', ' ', 'g', 'o', 't', ' ']
}

/// Recognize the literal `-` argument that switches `archive` to its
/// append mode; anything else is reported back in the error text.
pub fn parse_dash(s: &str) -> (r: Result<bool, String>)
    ensures
        match r {
            Ok(b) => b && s@ == seq!['-'],
            Err(m) => s@ != seq!['-'] && m@ == dash_err_prefix() + s@,
        },
{
    let n = s.unicode_len();
    if n == 1 && s.get_char(0) == '-' {
        proof {
            assert(s@ =~= seq!['-']);
        }
        Ok(true)
    } else {
        proof {
            if s@ == seq!['-'] {
                assert(s@.len() == 1 && s@[0] == '-');
            }
            reveal_strlit("expected '-', got ");
            assert("expected '-', got "@ =~= dash_err_prefix());
        }
        Err(String::from_str("expected '-', got ").concat(s))
    }
}

/// A whitespace character: the Unicode White_Space set, the same
/// characters `str::trim` removes.
pub open spec fn spec_is_space(c: char) -> bool {
    ||| c == ' ' || c == '\t' || c == '\n' || c == '\u{000B}' || c == '\u{000C}' || c == '\r'
    ||| c == '\u{0085}' || c == '\u{00A0}' || c == '\u{1680}'
    ||| '\u{2000}' <= c && c <= '\u{200A}'
    ||| c == '\u{2028}' || c == '\u{2029}' || c == '\u{202F}' || c == '\u{205F}'
    ||| c == '\u{3000}'
}

/// Length of the first line of `s`: the number of characters before
/// its first newline, or all of them when it has none.
pub open spec fn spec_line_len(s: Seq<char>) -> int
    decreases s.len(),
{
    if s.len() == 0 {
        0
    } else if s[0] == '\n' {
        0
    } else {
        1 + spec_line_len(s.subrange(1, s.len() as int))
    }
}

/// The first line of `s`.
pub open spec fn spec_first_line(s: Seq<char>) -> Seq<char> {
    s.subrange(0, spec_line_len(s))
}

/// `spec_line_len` is pinned down by its characterization: everything
/// before it is no newline, and it either ends the string or sits on
/// one.
proof fn lemma_line_len_at(s: Seq<char>, i: int)
    requires
        0 <= i <= s.len(),
        forall|j: int| 0 <= j < i ==> s[j] != '\n',
        i < s.len() ==> s[i] == '\n',
    ensures
        spec_line_len(s) == i,
    decreases s.len(),
{
    if s.len() == 0 {
    } else if s[0] == '\n' {
    } else {
        lemma_line_len_at(s.subrange(1, s.len() as int), i - 1);
    }
}

/// `s` with leading whitespace removed.
pub open spec fn spec_trim_start(s: Seq<char>) -> Seq<char>
    decreases s.len(),
{
    if s.len() > 0 && spec_is_space(s[0]) {
        spec_trim_start(s.subrange(1, s.len() as int))
    } else {
        s
    }
}

/// `s` with trailing whitespace removed.
pub open spec fn spec_trim_end(s: Seq<char>) -> Seq<char>
    decreases s.len(),
{
    if s.len() > 0 && spec_is_space(s.last()) {
        spec_trim_end(s.drop_last())
    } else {
        s
    }
}

/// `s` with whitespace removed from both ends.
pub open spec fn spec_trim(s: Seq<char>) -> Seq<char> {
    spec_trim_end(spec_trim_start(s))
}

fn is_space_char(c: char) -> (b: bool)
    ensures
        b == spec_is_space(c),
{
    c == ' ' || c == '\t' || c == '\n' || c == '\u{000B}' || c == '\u{000C}' || c == '\r'
        || c == '\u{0085}' || c == '\u{00A0}' || c == '\u{1680}' || ('\u{2000}' <= c && c
        <= '\u{200A}') || c == '\u{2028}' || c == '\u{2029}' || c == '\u{202F}' || c
        == '\u{205F}' || c == '\u{3000}'
}

/// The first line of `s`.
fn first_line_of(s: &str) -> (r: String)
    ensures
        r@ == spec_first_line(s@),
{
    let n = s.unicode_len();
    let mut i: usize = 0;
    while i < n && s.get_char(i) != '\n'
        invariant
            i <= n,
            n == s@.len(),
            forall|j: int| 0 <= j < i ==> s@[j] != '\n',
        decreases n - i,
    {
        i = i + 1;
    }
    proof {
        lemma_line_len_at(s@, i as int);
    }
    String::from_str(s.substring_char(0, i))
}

/// `s` without leading and trailing whitespace.
fn trim_str(s: &str) -> (r: String)
    ensures
        r@ == spec_trim(s@),
{
    let n = s.unicode_len();
    proof {
        assert(s@.subrange(0, n as int) =~= s@);
    }
    let mut a: usize = 0;
    while a < n && is_space_char(s.get_char(a))
        invariant
            a <= n,
            n == s@.len(),
            spec_trim_start(s@) == spec_trim_start(s@.subrange(a as int, n as int)),
        decreases n - a,
    {
        proof {
            assert(s@.subrange(a as int, n as int)[0] == s@[a as int]);
            assert(s@.subrange(a as int, n as int).subrange(
                1,
                s@.subrange(a as int, n as int).len() as int,
            ) =~= s@.subrange(a + 1, n as int));
        }
        a = a + 1;
    }
    let mut b: usize = n;
    while b > a && is_space_char(s.get_char(b - 1))
        invariant
            a <= b <= n,
            n == s@.len(),
            spec_trim_start(s@) == spec_trim_start(s@.subrange(a as int, n as int)),
            a < n ==> !spec_is_space(s@[a as int]),
            spec_trim_end(s@.subrange(a as int, n as int)) == spec_trim_end(
                s@.subrange(a as int, b as int),
            ),
        decreases b,
    {
        proof {
            assert(s@.subrange(a as int, b as int).last() == s@[b - 1]);
            assert(s@.subrange(a as int, b as int).drop_last() =~= s@.subrange(
                a as int,
                b - 1,
            ));
        }
        b = b - 1;
    }
    proof {
        if a < n {
            assert(s@.subrange(a as int, n as int)[0] == s@[a as int]);
        }
        if b > a {
            assert(s@.subrange(a as int, b as int).last() == s@[b - 1]);
        }
    }
    String::from_str(s.substring_char(a, b))
}

/// The command-line words joined with single spaces, in order.
pub open spec fn spec_title_from_args(ws: Seq<String>) -> Seq<char>
    decreases ws.len(),
{
    if ws.len() == 0 {
        Seq::empty()
    } else if ws.len() == 1 {
        ws[0]@
    } else {
        spec_title_from_args(ws.drop_last()) + seq![' '] + ws.last()@
    }
}

fn join_words(ws: &Vec<String>) -> (r: String)
    requires
        ws@.len() > 0,
    ensures
        r@ == spec_title_from_args(ws@),
{
    proof {
        assert(ws@.subrange(0, 1)[0] == ws@[0]);
    }
    let mut r = ws[0].clone();
    let mut i: usize = 1;
    while i < ws.len()
        invariant
            1 <= i <= ws@.len(),
            r@ == spec_title_from_args(ws@.subrange(0, i as int)),
        decreases ws@.len() - i,
    {
        proof {
            reveal_strlit(" ");
            assert(" "@ =~= seq![' ']);
            assert(ws@.subrange(0, i + 1).drop_last() =~= ws@.subrange(0, i as int));
            assert(ws@.subrange(0, i + 1).last() == ws@[i as int]);
        }
        r = r.concat(" ").concat(ws[i].as_str());
        i = i + 1;
    }
    proof {
        assert(ws@.subrange(0, ws@.len() as int) =~= ws@);
    }
    r
}

/// Why no title could be resolved.
#[derive(Debug, Clone, Copy, PartialEq, Eq, Structural)]
pub enum TitleError {
    /// Interactive invocation with no title words on the command line.
    MissingTitle,
    /// Piped invocation whose first input line is blank.
    EmptyStdin,
}

/// Resolve the title of the default (create) command: the words from
/// the command line joined with spaces when standard input is an
/// interactive terminal, else the first line of the piped input with
/// surrounding whitespace removed. `piped` holds what the caller read
/// from standard input and is looked at only in the piped case.
pub fn resolve_title(interactive: bool, args: &Vec<String>, piped: &str) -> (r: Result<
    String,
    TitleError,
>)
    ensures
        match r {
            Ok(title) => {
                &&& interactive ==> args@.len() > 0 && title@ == spec_title_from_args(args@)
                &&& !interactive ==> title@ == spec_trim(spec_first_line(piped@)) && title@.len()
                    > 0
            },
            Err(e) => {
                &&& interactive ==> e == TitleError::MissingTitle && args@.len() == 0
                &&& !interactive ==> e == TitleError::EmptyStdin && spec_trim(
                    spec_first_line(piped@),
                ).len() == 0
            },
        },
{
    if interactive {
        if args.len() == 0 {
            Err(TitleError::MissingTitle)
        } else {
            Ok(join_words(args))
        }
    } else {
        let line = first_line_of(piped);
        let t = trim_str(line.as_str());
        if t.as_str().unicode_len() == 0 {
            Err(TitleError::EmptyStdin)
        } else {
            Ok(t)
        }
    }
}

/// A decimal digit.
pub open spec fn spec_is_digit(c: char) -> bool {
    '0' <= c && c <= '9'
}

/// Whether `s` starts with a `YYYY-MM-DD` date.
pub open spec fn spec_has_date_prefix(s: Seq<char>) -> bool {
    &&& s.len() >= 10
    &&& spec_is_digit(s[0]) && spec_is_digit(s[1]) && spec_is_digit(s[2]) && spec_is_digit(s[3])
    &&& s[4] == '-'
    &&& spec_is_digit(s[5]) && spec_is_digit(s[6])
    &&& s[7] == '-'
    &&& spec_is_digit(s[8]) && spec_is_digit(s[9])
}

/// `s` without its leading `YYYY-MM-DD` date and the hyphen right
/// after it, when they are there; `s` itself otherwise.
pub open spec fn spec_strip_date_prefix(s: Seq<char>) -> Seq<char> {
    if spec_has_date_prefix(s) {
        if s.len() > 10 && s[10] == '-' {
            s.subrange(11, s.len() as int)
        } else {
            s.subrange(10, s.len() as int)
        }
    } else {
        s
    }
}

fn is_digit_char(c: char) -> (b: bool)
    ensures
        b == spec_is_digit(c),
{
    '0' <= c && c <= '9'
}

/// Strip a leading `YYYY-MM-DD` or `YYYY-MM-DD-` from a name; a name
/// without such a prefix comes back unchanged.
pub fn strip_date_prefix(s: &str) -> (r: String)
    ensures
        r@ == spec_strip_date_prefix(s@),
{
    let n = s.unicode_len();
    if n < 10 {
        return String::from_str(s);
    }
    let dated = is_digit_char(s.get_char(0)) && is_digit_char(s.get_char(1)) && is_digit_char(
        s.get_char(2),
    ) && is_digit_char(s.get_char(3)) && s.get_char(4) == '-' && is_digit_char(s.get_char(5))
        && is_digit_char(s.get_char(6)) && s.get_char(7) == '-' && is_digit_char(s.get_char(8))
        && is_digit_char(s.get_char(9));
    if !dated {
        String::from_str(s)
    } else if n > 10 && s.get_char(10) == '-' {
        String::from_str(s.substring_char(11, n))
    } else {
        String::from_str(s.substring_char(10, n))
    }
}

/// The `name` command's output for a directory path: the path's base
/// name without any leading date prefix.
pub fn name_for_dir(dirname: &str) -> (r: String)
    ensures
        r@ == spec_strip_date_prefix(spec_base_name(dirname@)),
{
    let base = base_name_of(dirname);
    strip_date_prefix(base.as_str())
}

} // verus!
