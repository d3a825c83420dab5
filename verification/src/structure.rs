//! The structure analyzer: a pure function over a text snapshot that yields
//! structural and linguistic features of the final text.

use crate::profile::StructureFeatures;
use crate::ratio::Ratio;
use crate::text::{
    chars_of, contains_char, contains_seq, lower_of, lowercase, spec_contains, spec_contains_char,
    spec_starts_with, starts_with_seq,
};
use vstd::prelude::*;

verus! {

/// `n` capped into the `u64` range.
pub open spec fn cap64(n: int) -> u64 {
    if n < 0 {
        0
    } else if n > u64::MAX {
        u64::MAX
    } else {
        n as u64
    }
}

/// Leading whitespace that bullet detection ignores.
pub open spec fn spec_is_space(c: char) -> bool {
    c == ' ' || c == '\t' || c == '\r'
}

/// An ASCII decimal digit.
pub open spec fn spec_is_digit(c: char) -> bool {
    0x30 <= c as u32 && c as u32 <= 0x39
}

/// A character in the Hiragana, Katakana, or CJK Unified Ideograph blocks.
pub open spec fn spec_is_japanese(c: char) -> bool {
    (0x3040 <= c as u32 && c as u32 <= 0x309F) || (0x30A0 <= c as u32 && c as u32 <= 0x30FF) || (
    0x4E00 <= c as u32 && c as u32 <= 0x9FFF)
}

/// Some character of `s` is Japanese.
pub open spec fn spec_any_japanese(s: Seq<char>) -> bool {
    exists|i: int| 0 <= i < s.len() && spec_is_japanese(s[i])
}

/// The position of the first newline in `s`, or `s.len()` if there is none.
pub open spec fn first_nl(s: Seq<char>) -> int
    decreases s.len(),
{
    if s.len() == 0 {
        0
    } else if s[0] == '\n' {
        0
    } else {
        1 + first_nl(s.drop_first())
    }
}

/// `first_nl` points at the first newline: everything before it is not a
/// newline, and it is a newline unless the text has none.
pub proof fn lemma_first_nl(s: Seq<char>)
    ensures
        0 <= first_nl(s) <= s.len(),
        forall|k: int| 0 <= k < first_nl(s) ==> s[k] != '\n',
        first_nl(s) < s.len() ==> s[first_nl(s)] == '\n',
    decreases s.len(),
{
    if s.len() > 0 && s[0] != '\n' {
        lemma_first_nl(s.drop_first());
        assert forall|k: int| 0 <= k < first_nl(s) implies s[k] != '\n' by {
            if k > 0 {
                assert(s.drop_first()[k - 1] != '\n');
            }
        }
        if first_nl(s) < s.len() {
            assert(s.drop_first()[first_nl(s) - 1] == '\n');
        }
    }
}

/// A position with no newline before it, and a newline at it or the text's
/// end, is the first newline.
proof fn lemma_first_nl_unique(s: Seq<char>, j: int)
    requires
        0 <= j <= s.len(),
        forall|k: int| 0 <= k < j ==> s[k] != '\n',
        j < s.len() ==> s[j] == '\n',
    ensures
        j == first_nl(s),
{
    lemma_first_nl(s);
}

/// The newline-delimited lines of `s`: a trailing line that is not
/// newline-terminated still counts, and the empty text has no lines.
pub open spec fn spec_lines(s: Seq<char>) -> Seq<Seq<char>>
    decreases s.len(),
{
    if s.len() == 0 {
        Seq::empty()
    } else {
        let i = first_nl(s);
        if 0 <= i && i < s.len() {
            seq![s.take(i)].add(spec_lines(s.skip(i + 1)))
        } else {
            seq![s]
        }
    }
}

/// A line that reads as a bullet: its trimmed form begins with `- ` or `* `,
/// or begins with an ASCII digit and later holds `. `.
pub open spec fn spec_is_bullet(l: Seq<char>) -> bool {
    let t = spec_trim_start(l);
    spec_starts_with(t, seq!['-', ' ']) || spec_starts_with(t, seq!['*', ' ']) || (t.len() > 0
        && spec_is_digit(t[0]) && spec_contains(t, seq!['.', ' ']))
}

/// A line that reads as indented code: four leading spaces or a leading tab.
pub open spec fn spec_is_indented(l: Seq<char>) -> bool {
    spec_starts_with(l, seq![' ', ' ', ' ', ' ']) || (l.len() > 0 && l[0] == '\t')
}

/// `l` with its leading whitespace removed.
pub open spec fn spec_trim_start(l: Seq<char>) -> Seq<char>
    decreases l.len(),
{
    if l.len() > 0 && spec_is_space(l[0]) {
        spec_trim_start(l.drop_first())
    } else {
        l
    }
}

/// A prefix of whitespace ending at a non-space boundary marks the trimmed
/// suffix.
proof fn lemma_trim_start_at(l: Seq<char>, i: int)
    requires
        0 <= i <= l.len(),
        forall|k: int| 0 <= k < i ==> spec_is_space(l[k]),
        i < l.len() ==> !spec_is_space(l[i]),
    ensures
        spec_trim_start(l) == l.skip(i),
    decreases i,
{
    if i == 0 {
        assert(l.skip(0) =~= l);
    } else {
        assert(spec_is_space(l[0]));
        lemma_trim_start_at(l.drop_first(), i - 1);
        assert(l.drop_first().skip(i - 1) =~= l.skip(i));
    }
}

/// How many of these lines are bullets.
pub open spec fn spec_bullet_count(lines: Seq<Seq<char>>) -> int
    decreases lines.len(),
{
    if lines.len() == 0 {
        0
    } else {
        spec_bullet_count(lines.drop_last()) + if spec_is_bullet(lines.last()) {
            1int
        } else {
            0int
        }
    }
}

/// Some of these lines is indented like code.
pub open spec fn spec_any_indented(lines: Seq<Seq<char>>) -> bool {
    exists|i: int| 0 <= i < lines.len() && spec_is_indented(lines[i])
}

/// The structural features of the text `t` whose lowercase form is `l`.
pub open spec fn spec_structure(t: Seq<char>, l: Seq<char>) -> StructureFeatures {
    let lines = spec_lines(t);
    let cc = cap64(t.len() as int);
    let lc = cap64(lines.len() as int);
    StructureFeatures {
        char_count: cc,
        line_count: lc,
        avg_line_length: if lc > 0 {
            Ratio { num: cc, den: lc }
        } else {
            Ratio { num: 0, den: 1 }
        },
        bullet_lines: cap64(spec_bullet_count(lines)),
        has_code_block: spec_contains(t, seq!['`', '`', '`']) || spec_any_indented(lines),
        question_like: spec_contains_char(t, '?'),
        command_like: spec_starts_with(l, "please"@) || spec_starts_with(l, "write"@)
            || spec_starts_with(l, "create"@),
        japanese_detected: spec_any_japanese(t),
        request_summary: spec_contains(l, "summarize"@) || spec_contains(t, "要約"@),
        request_implementation: spec_contains(l, "implement"@) || spec_contains(l, "write code"@)
            || spec_contains(l, "function"@) || spec_contains(t, "実装"@),
        is_polite: spec_any_japanese(t) && (spec_contains(t, "ます"@) || spec_contains(t, "です"@)
            || spec_contains(t, "ください"@) || spec_contains(t, "お願い"@)),
        is_direct: spec_any_japanese(t) && (spec_contains(t, "だ。"@) || spec_contains(
            t,
            "である"@,
        ) || crate::text::spec_ends_with(t, "やれ"@) || crate::text::spec_ends_with(t, "しろ"@)),
    }
}

/// Splits the text into its newline-delimited lines.
pub fn split_lines(t: &Vec<char>) -> (r: Vec<Vec<char>>)
    ensures
        r@.map_values(|l: Vec<char>| l@) == spec_lines(t@),
{
    let n = t.len();
    let mut r: Vec<Vec<char>> = Vec::new();
    let mut pos: usize = 0;
    proof {
        assert(t@.skip(0) =~= t@);
        assert(r@.map_values(|l: Vec<char>| l@) + spec_lines(t@) =~= spec_lines(t@));
    }
    while pos < n
        invariant
            pos <= n,
            n == t@.len(),
            spec_lines(t@) == r@.map_values(|l: Vec<char>| l@) + spec_lines(t@.skip(pos as int)),
        decreases n - pos,
    {
        let ghost prefix = r@.map_values(|l: Vec<char>| l@);
        let ghost p0 = pos as int;
        let ghost rest = t@.skip(p0);
        let mut j: usize = pos;
        while j < n && t[j] != '\n'
            invariant
                pos <= j <= n,
                n == t@.len(),
                forall|k: int| pos <= k < j ==> t@[k] != '\n',
            decreases n - j,
        {
            j = j + 1;
        }
        let mut line: Vec<char> = Vec::new();
        let mut k: usize = pos;
        while k < j
            invariant
                pos <= k <= j <= n,
                n == t@.len(),
                line@.len() == k - pos,
                forall|q: int| 0 <= q < line@.len() ==> line@[q] == t@[pos + q],
            decreases j - k,
        {
            line.push(t[k]);
            k = k + 1;
        }
        proof {
            assert(line@ =~= rest.take(j - p0));
            assert forall|q: int| 0 <= q < j - p0 implies rest[q] != '\n' by {
                assert(t@[p0 + q] != '\n');
            }
            if j < n {
                assert(rest[j - p0] == t@[j as int]);
            }
            lemma_first_nl_unique(rest, j - p0);
        }
        r.push(line);
        if j < n {
            pos = j + 1;
        } else {
            pos = n;
        }
        proof {
            let post = r@.map_values(|l: Vec<char>| l@);
            assert(post =~= prefix.push(line@));
            if j < n {
                assert(rest.skip(j - p0 + 1) =~= t@.skip(pos as int));
                assert(spec_lines(rest) == seq![rest.take(j - p0)].add(
                    spec_lines(t@.skip(pos as int)),
                ));
                assert(spec_lines(t@) =~= post + spec_lines(t@.skip(pos as int)));
            } else {
                assert(rest.take(j - p0) =~= rest);
                assert(spec_lines(rest) == seq![line@]);
                assert(t@.skip(pos as int) =~= Seq::<char>::empty());
                assert(spec_lines(t@.skip(pos as int)) == Seq::<Seq<char>>::empty());
                assert(spec_lines(t@) =~= post + spec_lines(t@.skip(pos as int)));
            }
        }
    }
    proof {
        assert(t@.skip(pos as int) =~= Seq::<char>::empty());
        assert(spec_lines(t@.skip(pos as int)) == Seq::<Seq<char>>::empty());
        assert(r@.map_values(|l: Vec<char>| l@) =~= spec_lines(t@));
    }
    r
}

/// The line with its leading whitespace removed.
fn trim_start_chars(l: &Vec<char>) -> (r: Vec<char>)
    ensures
        r@ == spec_trim_start(l@),
{
    let n = l.len();
    let mut i: usize = 0;
    while i < n && (l[i] == ' ' || l[i] == '\t' || l[i] == '\r')
        invariant
            i <= n,
            n == l@.len(),
            forall|k: int| 0 <= k < i ==> spec_is_space(l@[k]),
        decreases n - i,
    {
        i = i + 1;
    }
    let mut r: Vec<char> = Vec::new();
    let mut k: usize = i;
    while k < n
        invariant
            i <= k <= n,
            n == l@.len(),
            r@.len() == k - i,
            forall|q: int| 0 <= q < r@.len() ==> r@[q] == l@[i + q],
        decreases n - k,
    {
        r.push(l[k]);
        k = k + 1;
    }
    proof {
        assert(r@ =~= l@.skip(i as int));
        lemma_trim_start_at(l@, i as int);
    }
    r
}

/// Whether the line reads as a bullet.
fn is_bullet_line(l: &Vec<char>) -> (r: bool)
    ensures
        r == spec_is_bullet(l@),
{
    let t = trim_start_chars(l);
    if starts_with_seq(&t, &vec!['-', ' ']) {
        return true;
    }
    if starts_with_seq(&t, &vec!['*', ' ']) {
        return true;
    }
    if t.len() > 0 && t[0] as u32 >= 0x30 && t[0] as u32 <= 0x39 {
        contains_seq(&t, &vec!['.', ' '])
    } else {
        false
    }
}

/// Whether the line is indented like code.
fn is_indented_line(l: &Vec<char>) -> (r: bool)
    ensures
        r == spec_is_indented(l@),
{
    if starts_with_seq(l, &vec![' ', ' ', ' ', ' ']) {
        return true;
    }
    l.len() > 0 && l[0] == '\t'
}

/// Whether any character of the text is Japanese.
fn any_japanese(t: &Vec<char>) -> (r: bool)
    ensures
        r == spec_any_japanese(t@),
{
    let mut i: usize = 0;
    while i < t.len()
        invariant
            i <= t@.len(),
            forall|k: int| 0 <= k < i ==> !spec_is_japanese(t@[k]),
        decreases t@.len() - i,
    {
        let c = t[i] as u32;
        if (0x3040 <= c && c <= 0x309F) || (0x30A0 <= c && c <= 0x30FF) || (0x4E00 <= c && c
            <= 0x9FFF) {
            return true;
        }
        i = i + 1;
    }
    false
}

/// The structure analyzer over a text snapshot.
pub struct StructureAnalyzer;

impl StructureAnalyzer {
    /// Analyzes the final text: a pure function of the text's characters and
    /// of their lowercase form.
    pub fn analyze(text: &str) -> (r: StructureFeatures)
        ensures
            r == spec_structure(text@, lower_of(text@)),
    {
        let t = chars_of(text);
        let low = lowercase(text);
        let l = chars_of(low.as_str());
        analyze_chars(&t, &l)
    }
}

/// Analyzes a text given as its character sequence `t` together with its
/// lowercase form `lower`.
pub fn analyze_chars(t: &Vec<char>, lower: &Vec<char>) -> (r: StructureFeatures)
    ensures
        r == spec_structure(t@, lower@),
{
    let lines = split_lines(t);
    let ghost lv = lines@.map_values(|l: Vec<char>| l@);

    let mut bullet_lines: usize = 0;
    let mut any_indented: bool = false;
    let mut i: usize = 0;
    while i < lines.len()
        invariant
            i <= lines@.len(),
            lv == lines@.map_values(|l: Vec<char>| l@),
            bullet_lines <= i,
            bullet_lines as int == spec_bullet_count(lv.take(i as int)),
            any_indented == (exists|k: int| 0 <= k < i && spec_is_indented(lv[k])),
        decreases lines@.len() - i,
    {
        if is_bullet_line(&lines[i]) {
            bullet_lines = bullet_lines + 1;
        }
        if is_indented_line(&lines[i]) {
            any_indented = true;
        }
        i = i + 1;
        proof {
            assert(lv.take(i as int).drop_last() =~= lv.take(i - 1));
            assert(lv.take(i as int).last() == lv[i - 1]);
        }
    }
    proof {
        assert(lv.take(lines@.len() as int) =~= lv);
        assert(lv.len() == spec_lines(t@).len());
    }

    let char_count = cap_len(t.len());
    let line_count = cap_len(lines.len());
    let avg_line_length = if line_count > 0 {
        Ratio::new(char_count, line_count)
    } else {
        Ratio::zero()
    };
    let has_code_block = contains_seq(t, &vec!['`', '`', '`']) || any_indented;
    let question_like = contains_char(t, '?');
    let command_like = starts_with_seq(lower, &chars_of("please")) || starts_with_seq(
        lower,
        &chars_of("write"),
    ) || starts_with_seq(lower, &chars_of("create"));
    let japanese_detected = any_japanese(t);
    let request_summary = contains_seq(lower, &chars_of("summarize")) || contains_seq(
        t,
        &chars_of("要約"),
    );
    let request_implementation = contains_seq(lower, &chars_of("implement")) || contains_seq(
        lower,
        &chars_of("write code"),
    ) || contains_seq(lower, &chars_of("function")) || contains_seq(t, &chars_of("実装"));
    let is_polite = japanese_detected && (contains_seq(t, &chars_of("ます")) || contains_seq(
        t,
        &chars_of("です"),
    ) || contains_seq(t, &chars_of("ください")) || contains_seq(t, &chars_of("お願い")));
    let is_direct = japanese_detected && (contains_seq(t, &chars_of("だ。")) || contains_seq(
        t,
        &chars_of("である"),
    ) || crate::text::ends_with_seq(t, &chars_of("やれ")) || crate::text::ends_with_seq(
        t,
        &chars_of("しろ"),
    ));

    StructureFeatures {
        char_count,
        line_count,
        avg_line_length,
        bullet_lines: bullet_lines as u64,
        has_code_block,
        question_like,
        command_like,
        japanese_detected,
        request_summary,
        request_implementation,
        is_polite,
        is_direct,
    }
}

/// A length capped into the `u64` range.
fn cap_len(n: usize) -> (r: u64)
    ensures
        r == cap64(n as int),
{
    n as u64
}

} // verus!
