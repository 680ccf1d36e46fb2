//! The process runner's text handling: how captured lines are cleaned, which
//! lines the rolling window shows, and what a failed command reports.
use vstd::prelude::*;
use crate::fields::strings_view;
use crate::text::{chars_of, concat2, concat3, copy_str, is_space, joined, string_of};

verus! {

/// What follows the last `\r` of a line: the state a progress bar ends in.
pub open spec fn after_last_cr(s: Seq<char>) -> Seq<char>
    decreases s.len(),
{
    if s.len() == 0 {
        s
    } else if s.last() == '\r' {
        Seq::empty()
    } else {
        after_last_cr(s.drop_last()).push(s.last())
    }
}

pub fn collapse_carriage_returns(line: &str) -> (r: String)
    ensures
        r@ == after_last_cr(line@),
{
    let cs = chars_of(line);
    let mut out: Vec<char> = Vec::new();
    let mut i: usize = 0;
    while i < cs.len()
        invariant
            i <= cs.len(),
            cs@ == line@,
            out@ == after_last_cr(line@.subrange(0, i as int)),
        decreases cs.len() - i,
    {
        let ghost p = line@.subrange(0, i + 1);
        assert(p.drop_last() =~= line@.subrange(0, i as int));
        if cs[i] == '\r' {
            out = Vec::new();
            assert(out@ =~= after_last_cr(p));
        } else {
            out.push(cs[i]);
        }
        i = i + 1;
    }
    assert(line@.subrange(0, cs@.len() as int) =~= line@);
    string_of(&out)
}

/// A captured line is kept unless it is only whitespace.
pub fn is_blank(line: &str) -> (r: bool)
    ensures
        r == forall|i: int| 0 <= i < line@.len() ==> is_space(#[trigger] line@[i]),
{
    let cs = chars_of(line);
    let mut i: usize = 0;
    while i < cs.len()
        invariant
            i <= cs.len(),
            cs@ == line@,
            forall|k: int| 0 <= k < i ==> is_space(#[trigger] line@[k]),
        decreases cs.len() - i,
    {
        let c = cs[i];
        if !(c == ' ' || c == '\t' || c == '\n' || c == '\r' || c == '\x0b' || c == '\x0c') {
            assert(!is_space(line@[i as int]));
            return false;
        }
        i = i + 1;
    }
    true
}

/// The last `size` lines, or all of them when there are fewer.
pub open spec fn window_spec(lines: Seq<Seq<char>>, size: nat) -> Seq<Seq<char>> {
    if lines.len() <= size {
        lines
    } else {
        lines.subrange(lines.len() - size, lines.len() as int)
    }
}

pub fn window(lines: &Vec<String>, size: usize) -> (r: Vec<String>)
    ensures
        strings_view(r@) == window_spec(strings_view(lines@), size as nat),
{
    let skip: usize = if lines.len() < size {
        0
    } else {
        lines.len() - size
    };
    let mut r: Vec<String> = Vec::new();
    let mut i: usize = skip;
    while i < lines.len()
        invariant
            skip <= i <= lines.len(),
            strings_view(r@) =~= strings_view(lines@).subrange(skip as int, i as int),
        decreases lines.len() - i,
    {
        let ghost before = r@;
        r.push(lines[i].clone());
        assert(strings_view(r@) =~= strings_view(before).push(lines@[i as int]@));
        i = i + 1;
    }
    assert(strings_view(lines@).subrange(0, lines@.len() as int) =~= strings_view(lines@));
    r
}

/// What a failed command reports: its working directory, its command line,
/// a `---` separator, then every captured line, joined by newlines.
pub open spec fn report_spec(
    cwd: Seq<char>,
    command: Seq<char>,
    args: Seq<Seq<char>>,
    lines: Seq<Seq<char>>,
) -> Seq<char> {
    joined(
        seq![
            "Working directory: "@ + cwd,
            "Command: "@ + command + " "@ + joined(args, " "@),
            "---"@,
        ] + lines,
        "\n"@,
    )
}

pub fn failure_report(cwd: &str, command: &str, args: &Vec<String>, lines: &Vec<String>) -> (r:
    String)
    ensures
        r@ == report_spec(cwd@, command@, strings_view(args@), strings_view(lines@)),
{
    let mut all: Vec<String> = Vec::new();
    all.push(concat2("Working directory: ", cwd));
    let a = crate::text::join_strings(args, " ");
    let mut c = concat3("Command: ", command, " ");
    c.append(a.as_str());
    all.push(c);
    all.push(copy_str("---"));
    let mut i: usize = 0;
    while i < lines.len()
        invariant
            i <= lines.len(),
            strings_view(all@) =~= seq![
                "Working directory: "@ + cwd@,
                "Command: "@ + command@ + " "@ + joined(strings_view(args@), " "@),
                "---"@,
            ] + strings_view(lines@).subrange(0, i as int),
        decreases lines.len() - i,
    {
        let ghost before = all@;
        all.push(lines[i].clone());
        assert(strings_view(all@) =~= strings_view(before).push(lines@[i as int]@));
        i = i + 1;
    }
    assert(strings_view(lines@).subrange(0, lines@.len() as int) =~= strings_view(lines@));
    assert(strings_view(all@) =~= seq![
        "Working directory: "@ + cwd@,
        "Command: "@ + command@ + " "@ + joined(strings_view(args@), " "@),
        "---"@,
    ] + strings_view(lines@));
    crate::text::join_strings(&all, "\n")
}

/// A command succeeds when it exits with code 0; otherwise, or when it has
/// no exit code, it fails with its report.
pub fn command_result(code: Option<i32>, report: String) -> (r: Result<(), String>)
    ensures
        code == Some(0i32) ==> r is Ok,
        code != Some(0i32) ==> r == Err::<(), String>(report),
{
    match code {
        Some(0) => Ok(()),
        _ => Err(report),
    }
}

} // verus!
