//! The ignore rules that filter file-change events: the patterns of a
//! `.gitignore` file, each matched as a substring or as a glob.
use vstd::prelude::*;
use crate::text::{chars_of, concat2, contains_exec, contains_spec, string_of, trim_exec, trim_spec};

verus! {

/// What `glob::Pattern::new(pattern)` followed by `matches(path)` gives:
/// `None` when the pattern does not compile.
pub uninterp spec fn glob_match_of(pattern: Seq<char>, path: Seq<char>) -> Option<bool>;

/// Relies on `glob::Pattern::new`, which compiles the pattern, and
/// `glob::Pattern::matches`; the result depends on the two strings alone.
#[verifier::external_body]
fn glob_match(pattern: &str, path: &str) -> (r: Option<bool>)
    ensures
        r == glob_match_of(pattern@, path@),
{
    match glob::Pattern::new(pattern) {
        Ok(p) => Some(p.matches(path)),
        Err(_) => None,
    }
}

/// The glob form of a pattern: anchored when it starts with `/`, else
/// matched at any depth.
pub open spec fn glob_form(p: Seq<char>) -> Seq<char> {
    if p.len() > 0 && p[0] == '/' {
        p
    } else {
        "**/"@ + p
    }
}

pub struct Pattern {
    /// The pattern as written.
    pub literal: String,
    /// Its glob form.
    pub glob: String,
}

impl Pattern {
    pub fn new(pattern: String) -> (r: Pattern)
        ensures
            r.literal == pattern,
            r.glob@ == glob_form(pattern@),
    {
        let cs = chars_of(pattern.as_str());
        let glob = if cs.len() > 0 && cs[0] == '/' {
            pattern.clone()
        } else {
            concat2("**/", pattern.as_str())
        };
        Pattern { literal: pattern, glob }
    }

    pub open spec fn matches_spec(&self, path: Seq<char>) -> bool {
        contains_spec(path, self.literal@) || glob_match_of(self.glob@, path) == Some(true)
    }

    /// A path matches when it contains the pattern as written or matches
    /// its glob form; a glob that does not compile matches nothing.
    pub fn matches(&self, path: &str) -> (r: bool)
        ensures
            r == self.matches_spec(path@),
    {
        if contains_exec(path, self.literal.as_str()) {
            return true;
        }
        match glob_match(self.glob.as_str(), path) {
            Some(b) => b,
            None => false,
        }
    }
}

/// The patterns of a `.gitignore` text: its lines, trimmed, without blank
/// lines and `#` comments.
pub open spec fn pattern_lines(lines: Seq<Seq<char>>) -> Seq<Seq<char>>
    decreases lines.len(),
{
    if lines.len() == 0 {
        Seq::empty()
    } else {
        let t = trim_spec(lines.last());
        if t.len() > 0 && t[0] != '#' {
            pattern_lines(lines.drop_last()).push(t)
        } else {
            pattern_lines(lines.drop_last())
        }
    }
}

pub struct GitIgnore {
    pub ignore_patterns: Vec<Pattern>,
}

impl GitIgnore {
    /// The rules of a `.gitignore` text.
    pub fn new(content: &str) -> (r: GitIgnore)
        ensures
            r.ignore_patterns@.len() == pattern_lines(crate::image::split_lines(content@)).len(),
            forall|i: int|
                0 <= i < r.ignore_patterns@.len() ==> (#[trigger] r.ignore_patterns@[i]).literal@
                    == pattern_lines(crate::image::split_lines(content@))[i]
                    && r.ignore_patterns@[i].glob@ == glob_form(r.ignore_patterns@[i].literal@),
    {
        let lines = crate::image::lines_of(content);
        let ghost lv = lines@.map_values(|l: Vec<char>| l@);
        let mut patterns: Vec<Pattern> = Vec::new();
        let mut i: usize = 0;
        while i < lines.len()
            invariant
                i <= lines.len(),
                lv == lines@.map_values(|l: Vec<char>| l@),
                lv == crate::image::split_lines(content@),
                patterns@.len() == pattern_lines(lv.subrange(0, i as int)).len(),
                forall|k: int|
                    0 <= k < patterns@.len() ==> (#[trigger] patterns@[k]).literal@
                        == pattern_lines(lv.subrange(0, i as int))[k] && patterns@[k].glob@
                        == glob_form(patterns@[k].literal@),
            decreases lines.len() - i,
        {
            let ghost p = lv.subrange(0, i + 1);
            assert(p.drop_last() =~= lv.subrange(0, i as int));
            assert(p.last() == lines@[i as int]@);
            let t = trim_exec(&lines[i]);
            if t.len() > 0 && t[0] != '#' {
                patterns.push(Pattern::new(string_of(&t)));
            }
            i = i + 1;
        }
        assert(lv.subrange(0, lines@.len() as int) =~= lv);
        GitIgnore { ignore_patterns: patterns }
    }

    /// Whether any rule matches the path.
    pub fn ignores(&self, path: &str) -> (r: bool)
        ensures
            r == exists|i: int|
                0 <= i < self.ignore_patterns@.len() && (#[trigger] self.ignore_patterns@[i]).matches_spec(
                    path@,
                ),
    {
        let mut i: usize = 0;
        while i < self.ignore_patterns.len()
            invariant
                i <= self.ignore_patterns.len(),
                forall|k: int| 0 <= k < i ==> !(#[trigger] self.ignore_patterns@[k]).matches_spec(path@),
            decreases self.ignore_patterns.len() - i,
        {
            if self.ignore_patterns[i].matches(path) {
                return true;
            }
            i = i + 1;
        }
        false
    }
}

} // verus!
