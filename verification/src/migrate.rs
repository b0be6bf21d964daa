//! Splitting a migration script into executable statements: one per
//! terminating semicolon, except inside a trigger body, which runs to
//! its `END;` line.

use vstd::prelude::*;

verus! {

use crate::text::is_blank;
use crate::text::is_blank_str;
use crate::text::lemma_first_index_char;
use crate::text::spec_first_index;
use crate::text::spec_trim;
use crate::text::trim_str;
use vstd::string::StrSliceExecFns;
use vstd::string::StringExecFns;

/// One line of a script: the text before a newline, with a carriage
/// return dropped when it sat directly before that newline.
pub open spec fn strip_tail_cr(l: Seq<char>) -> Seq<char> {
    if l.len() > 0 && l.last() == '\r' {
        l.drop_last()
    } else {
        l
    }
}

/// The lines of a script, split at newlines; a final fragment without
/// a newline is a line of its own.
pub open spec fn spec_lines(s: Seq<char>) -> Seq<Seq<char>>
    decreases s.len(),
{
    if s.len() == 0 {
        Seq::empty()
    } else {
        let i = spec_first_index(s, '\n');
        if 0 <= i < s.len() {
            seq![strip_tail_cr(s.take(i))] + spec_lines(s.skip(i + 1))
        } else {
            seq![s]
        }
    }
}

/// ASCII upper case of one character.
pub open spec fn up_char(c: char) -> char {
    if 97 <= c as int <= 122 {
        ((c as u32) - 32) as char
    } else {
        c
    }
}

/// The ASCII-uppercase reading of `s` carries `p` at offset `i`.
pub open spec fn up_match(s: Seq<char>, i: int, p: Seq<char>) -> bool {
    &&& 0 <= i
    &&& i + p.len() <= s.len()
    &&& forall|j: int| 0 <= j < p.len() ==> #[trigger] up_char(s[i + j]) == p[j]
}

/// The ASCII-uppercase reading of `s` contains `p` (itself uppercase).
pub open spec fn contains_upper(s: Seq<char>, p: Seq<char>) -> bool {
    exists|i: int| #[trigger] up_match(s, i, p)
}

/// The ASCII-uppercase reading of `s` starts with `p`.
pub open spec fn starts_upper(s: Seq<char>, p: Seq<char>) -> bool {
    up_match(s, 0, p)
}

/// Fold state while scanning lines: the finished statements, the
/// statement being accumulated, and whether it is a trigger body.
pub open spec fn spec_sql_step(
    acc: Seq<Seq<char>>,
    cur: Seq<char>,
    trig: bool,
    l: Seq<char>,
) -> (Seq<Seq<char>>, Seq<char>, bool) {
    let t = spec_trim(l);
    let trig2 = trig || contains_upper(t, "CREATE TRIGGER"@);
    let cur2 = cur + l + "\n"@;
    if trig2 {
        if starts_upper(t, "END;"@) {
            (acc.push(cur2), Seq::empty(), false)
        } else {
            (acc, cur2, true)
        }
    } else {
        if t.len() > 0 && t.last() == ';' {
            (acc.push(cur2), Seq::empty(), false)
        } else {
            (acc, cur2, false)
        }
    }
}

pub open spec fn spec_sql_state(lines: Seq<Seq<char>>) -> (Seq<Seq<char>>, Seq<char>, bool)
    decreases lines.len(),
{
    if lines.len() == 0 {
        (Seq::empty(), Seq::empty(), false)
    } else {
        let st = spec_sql_state(lines.drop_last());
        spec_sql_step(st.0, st.1, st.2, lines.last())
    }
}

/// The statements of a script: the fold over its lines, plus whatever
/// non-blank tail was still being accumulated.
pub open spec fn spec_split_sql(s: Seq<char>) -> Seq<Seq<char>> {
    let st = spec_sql_state(spec_lines(s));
    if is_blank(st.1) {
        st.0
    } else {
        st.0.push(st.1)
    }
}

/// Split a script into its lines.
fn split_lines(s: &str) -> (lines: Vec<String>)
    ensures
        lines@.map_values(|l: String| l@) == spec_lines(s@),
{
    let n = s.unicode_len();
    let mut lines: Vec<String> = Vec::new();
    let mut start: usize = 0;
    proof {
        assert(s@.skip(0) =~= s@);
    }
    while start < n
        invariant
            n == s@.len(),
            start <= n,
            spec_lines(s@) =~= lines@.map_values(|l: String| l@) + spec_lines(
                s@.skip(start as int),
            ),
        decreases n - start,
    {
        let ghost rest = s@.skip(start as int);
        let mut j: usize = start;
        while j < n && s.get_char(j) != '\n'
            invariant
                n == s@.len(),
                start <= j <= n,
                forall|t: int| start <= t < j ==> s@[t] != '\n',
            decreases n - j,
        {
            j = j + 1;
        }
        if j == n {
            // No further newline: the tail is the last line.
            proof {
                lemma_first_index_char(rest, '\n');
                assert(forall|t: int| 0 <= t < rest.len() ==> rest[t] == s@[start + t]);
                assert(spec_first_index(rest, '\n') == -1);
            }
            let line = s.substring_char(start, n);
            proof {
                assert(line@ =~= rest);
                assert(spec_lines(rest) =~= seq![rest]);
            }
            lines.push(line.to_owned());
            proof {
                assert(lines@.map_values(|l: String| l@) =~= lines@.drop_last().map_values(
                    |l: String| l@,
                ).push(rest));
                assert(s@.skip(n as int) =~= Seq::<char>::empty());
                assert(spec_lines(s@) =~= lines@.map_values(|l: String| l@) + spec_lines(
                    s@.skip(n as int),
                ));
            }
            start = n;
        } else {
            proof {
                lemma_first_index_char(rest, '\n');
                assert(forall|t: int| 0 <= t < rest.len() ==> rest[t] == s@[start + t]);
                assert(rest[j - start] == '\n');
                assert(forall|t: int| 0 <= t < j - start ==> rest[t] != '\n');
                assert(spec_first_index(rest, '\n') == j - start) by {
                    let fi = spec_first_index(rest, '\n');
                    if fi < j - start {
                        assert(rest[fi] == '\n');
                    }
                    if fi > j - start {
                        assert(rest[j - start] != '\n');
                    }
                }
            }
            let cut = if j > start && s.get_char(j - 1) == '\r' {
                j - 1
            } else {
                j
            };
            let line = s.substring_char(start, cut);
            proof {
                assert(rest.take(j - start) =~= s@.subrange(start as int, j as int));
                assert(line@ =~= strip_tail_cr(rest.take(j - start))) by {
                    if j > start && s@[j - 1] == '\r' {
                        assert(line@ =~= s@.subrange(start as int, j - 1));
                        assert(rest.take(j - start).drop_last() =~= s@.subrange(
                            start as int,
                            j - 1,
                        ));
                    } else {
                        assert(line@ =~= s@.subrange(start as int, j as int));
                    }
                }
                assert(rest.skip(j - start + 1) =~= s@.skip(j + 1));
                assert(spec_lines(rest) =~= seq![strip_tail_cr(rest.take(j - start))]
                    + spec_lines(s@.skip(j + 1)));
            }
            lines.push(line.to_owned());
            proof {
                assert(lines@.map_values(|l: String| l@) =~= lines@.drop_last().map_values(
                    |l: String| l@,
                ).push(strip_tail_cr(rest.take(j - start))));
                assert(spec_lines(s@) =~= lines@.map_values(|l: String| l@) + spec_lines(
                    s@.skip(j + 1),
                ));
            }
            start = j + 1;
        }
    }
    proof {
        assert(s@.skip(n as int) =~= Seq::<char>::empty());
        assert(spec_lines(s@) =~= lines@.map_values(|l: String| l@));
    }
    lines
}

/// Does the uppercase reading of `s` carry `p` at offset `i`?
fn up_match_at(s: &str, i: usize, p: &str) -> (r: bool)
    requires
        i <= s@.len(),
    ensures
        r == up_match(s@, i as int, p@),
{
    let n = s.unicode_len();
    let m = p.unicode_len();
    if n - i < m {
        return false;
    }
    let mut j: usize = 0;
    while j < m
        invariant
            n == s@.len(),
            m == p@.len(),
            i + m <= n,
            j <= m,
            forall|t: int| 0 <= t < j ==> up_char(s@[i + t]) == p@[t],
        decreases m - j,
    {
        let a: u32 = s.get_char(i + j) as u32;
        let b: u32 = p.get_char(j) as u32;
        let folded: u32 = if 97 <= a && a <= 122 {
            a - 32
        } else {
            a
        };
        if folded != b {
            proof {
                assert(up_char(s@[i + j]) != p@[j as int]);
            }
            return false;
        }
        j = j + 1;
    }
    true
}

/// Does the uppercase reading of `s` contain `p` anywhere?
fn contains_upper_str(s: &str, p: &str) -> (r: bool)
    ensures
        r == contains_upper(s@, p@),
{
    let n = s.unicode_len();
    let m = p.unicode_len();
    if m > n {
        return false;
    }
    let mut i: usize = 0;
    while i <= n - m
        invariant
            n == s@.len(),
            m == p@.len(),
            m <= n,
            i <= n - m + 1,
            forall|t: int| 0 <= t < i ==> !up_match(s@, t, p@),
        decreases n - i,
    {
        if up_match_at(s, i, p) {
            return true;
        }
        i = i + 1;
    }
    proof {
        if contains_upper(s@, p@) {
            let w = choose|w: int| up_match(s@, w, p@);
            assert(!up_match(s@, w, p@));
        }
    }
    false
}

/// Split a migration script into executable statements. A statement
/// normally runs through the line whose trimmed text ends with a
/// semicolon; a line mentioning CREATE TRIGGER opens a trigger body,
/// which runs through its END; line instead. A non-blank unterminated
/// tail still counts as a statement.
#[verifier::rlimit(100)]
pub fn split_sql_statements(sql: &str) -> (statements: Vec<String>)
    ensures
        statements@.map_values(|l: String| l@) == spec_split_sql(sql@),
{
    let lines = split_lines(sql);
    let ghost line_views = lines@.map_values(|l: String| l@);
    let mut statements: Vec<String> = Vec::new();
    let mut current = String::new();
    let mut in_trigger = false;
    let n = lines.len();
    let mut i: usize = 0;
    while i < n
        invariant
            n == lines@.len(),
            i <= n,
            line_views == lines@.map_values(|l: String| l@),
            (statements@.map_values(|l: String| l@), current@, in_trigger) == spec_sql_state(
                line_views.take(i as int),
            ),
        decreases n - i,
    {
        let ghost st0 = spec_sql_state(line_views.take(i as int));
        let line = &lines[i];
        proof {
            assert(line_views[i as int] == lines@[i as int]@);
        }
        let ghost l = line_views[i as int];
        let trimmed = trim_str(line.as_str());
        proof {
            assert(trimmed@ == spec_trim(l));
        }
        if contains_upper_str(trimmed.as_str(), "CREATE TRIGGER") {
            in_trigger = true;
        }
        proof {
            assert(in_trigger == (st0.2 || contains_upper(spec_trim(l), "CREATE TRIGGER"@)));
        }
        current.append(line.as_str());
        current.append("\n");
        proof {
            assert(current@ =~= st0.1 + l + "\n"@);
        }
        let mut flush = false;
        if in_trigger {
            if up_match_at(trimmed.as_str(), 0, "END;") {
                flush = true;
            }
            proof {
                assert(flush == starts_upper(spec_trim(l), "END;"@));
            }
        } else {
            let tn = trimmed.as_str().unicode_len();
            if tn > 0 && trimmed.as_str().get_char(tn - 1) == ';' {
                flush = true;
            }
            proof {
                assert(flush == (spec_trim(l).len() > 0 && spec_trim(l).last() == ';'));
            }
        }
        let ghost stepped = spec_sql_step(st0.0, st0.1, st0.2, l);
        if flush {
            statements.push(current);
            current = String::new();
            in_trigger = false;
            proof {
                assert(statements@.map_values(|s2: String| s2@) =~= statements@.drop_last()
                    .map_values(|s2: String| s2@).push(statements@.last()@));
                assert(statements@.map_values(|s2: String| s2@) == stepped.0);
                assert(current@ =~= stepped.1);
            }
        } else {
            proof {
                assert(statements@.map_values(|s2: String| s2@) == stepped.0);
                assert(current@ == stepped.1);
            }
        }
        proof {
            assert(in_trigger == stepped.2);
            assert(line_views.take(i + 1).drop_last() =~= line_views.take(i as int));
            assert(line_views.take(i + 1).last() == l);
            assert(spec_sql_state(line_views.take(i + 1)) == stepped);
        }
        i = i + 1;
    }
    proof {
        assert(line_views.take(n as int) =~= line_views);
    }
    if !is_blank_str(current.as_str()) {
        statements.push(current);
        proof {
            assert(statements@.map_values(|l: String| l@) =~= statements@.drop_last().map_values(
                |l: String| l@,
            ).push(statements@.last()@));
        }
    }
    proof {
        assert(statements@.map_values(|l: String| l@) =~= spec_split_sql(sql@));
    }
    statements
}

} // verus!
