use vstd::prelude::*;

use crate::error::Error;
use vstd::string::StrSliceExecFns;

verus! {

/// Numeric code carried by every parse error; never zero.
pub const PARSE_ERROR_CODE: u64 = 1;

/// Error domain of the description grammar.
pub const PARSE_ERROR_DOMAIN: u64 = 1;

/// Index of the first `'!'` at or after `i`, or the length when none remains.
pub open spec fn next_sep(s: Seq<char>, i: int) -> int
    decreases s.len() - i,
{
    if i < 0 || i >= s.len() {
        s.len() as int
    } else if s[i] == '!' {
        i
    } else {
        next_sep(s, i + 1)
    }
}

/// Index of the first character at or after `i` that is not a space, staying
/// at or below `end`.
pub open spec fn skip_spaces(s: Seq<char>, i: int, end: int) -> int
    decreases end - i,
{
    if i < 0 || i >= end {
        end
    } else if s[i] == ' ' {
        skip_spaces(s, i + 1, end)
    } else {
        i
    }
}

/// One past the last character below `end` that is not a space, staying at or
/// above `i`.
pub open spec fn trim_end(s: Seq<char>, i: int, end: int) -> int
    decreases end - i,
{
    if end <= i {
        i
    } else if s[end - 1] == ' ' {
        trim_end(s, i, end - 1)
    } else {
        end
    }
}

/// The element name of the segment `[i, end)`: the segment without its
/// leading and trailing spaces.
pub open spec fn segment_name(s: Seq<char>, i: int, end: int) -> Seq<char> {
    let l = skip_spaces(s, i, end);
    let r = trim_end(s, l, end);
    s.subrange(l, r)
}

/// The first separator never lies before `i`, and everything before it is no
/// separator.
pub proof fn lemma_next_sep_bounds(s: Seq<char>, i: int)
    requires
        0 <= i <= s.len(),
    ensures
        i <= next_sep(s, i) <= s.len(),
        next_sep(s, i) < s.len() ==> s[next_sep(s, i)] == '!',
    decreases s.len() - i,
{
    if i >= s.len() {
    } else if s[i] == '!' {
    } else {
        lemma_next_sep_bounds(s, i + 1);
    }
}

/// The trimming bounds of a segment stay within it, in order.
pub proof fn lemma_trim_bounds(s: Seq<char>, i: int, end: int)
    requires
        0 <= i <= end <= s.len(),
    ensures
        i <= skip_spaces(s, i, end) <= end,
        ({
            let l = skip_spaces(s, i, end);
            l <= trim_end(s, l, end) <= end
        }),
{
    lemma_skip_spaces_bounds(s, i, end);
    lemma_trim_end_bounds(s, skip_spaces(s, i, end), end);
}

proof fn lemma_skip_spaces_bounds(s: Seq<char>, i: int, end: int)
    requires
        0 <= i <= end <= s.len(),
    ensures
        i <= skip_spaces(s, i, end) <= end,
    decreases end - i,
{
    if i >= end {
    } else if s[i] == ' ' {
        lemma_skip_spaces_bounds(s, i + 1, end);
    }
}

proof fn lemma_trim_end_bounds(s: Seq<char>, i: int, end: int)
    requires
        0 <= i <= end <= s.len(),
    ensures
        i <= trim_end(s, i, end) <= end,
    decreases end - i,
{
    if end <= i {
    } else if s[end - 1] == ' ' {
        lemma_trim_end_bounds(s, i, end - 1);
    }
}

/// The element names of the description from `i` on: segments split at `'!'`,
/// each stripped of surrounding spaces; `None` exactly when some segment is
/// empty, which is what makes a description malformed.
pub open spec fn parse_from(s: Seq<char>, i: int) -> Option<Seq<Seq<char>>>
    decreases s.len() - i
        when 0 <= i <= s.len()
        via parse_from_decreases
{
    let j = next_sep(s, i);
    let t = segment_name(s, i, j);
    if t.len() == 0 {
        None
    } else if j >= s.len() {
        Some(seq![t])
    } else {
        match parse_from(s, j + 1) {
            None => None,
            Some(rest) => Some(seq![t] + rest),
        }
    }
}

#[via_fn]
proof fn parse_from_decreases(s: Seq<char>, i: int) {
    lemma_next_sep_bounds(s, i);
}

/// What a whole description means: its element names, upstream first, or
/// nothing when it is malformed.
pub open spec fn parse_desc(s: Seq<char>) -> Option<Seq<Seq<char>>> {
    parse_from(s, 0)
}

/// The character sequences of a list of names.
pub open spec fn views_of(v: Seq<String>) -> Seq<Seq<char>> {
    Seq::new(v.len(), |k: int| v[k]@)
}

fn find_sep(s: &str, i: usize, n: usize) -> (r: usize)
    requires
        n == s@.len(),
        i <= n,
    ensures
        r as int == next_sep(s@, i as int),
        i <= r <= n,
{
    proof {
        lemma_next_sep_bounds(s@, i as int);
    }
    let mut j: usize = i;
    while j < n
        invariant
            n == s@.len(),
            i <= j <= n,
            next_sep(s@, i as int) == next_sep(s@, j as int),
        decreases n - j,
    {
        if s.get_char(j) == '!' {
            return j;
        }
        j += 1;
    }
    j
}

fn find_nonspace(s: &str, i: usize, end: usize) -> (r: usize)
    requires
        end <= s@.len(),
        i <= end,
    ensures
        r as int == skip_spaces(s@, i as int, end as int),
        i <= r <= end,
{
    proof {
        lemma_skip_spaces_bounds(s@, i as int, end as int);
    }
    let mut j: usize = i;
    while j < end
        invariant
            end <= s@.len(),
            i <= j <= end,
            skip_spaces(s@, i as int, end as int) == skip_spaces(s@, j as int, end as int),
        decreases end - j,
    {
        if s.get_char(j) != ' ' {
            return j;
        }
        j += 1;
    }
    j
}

fn find_trim_end(s: &str, i: usize, end: usize) -> (r: usize)
    requires
        end <= s@.len(),
        i <= end,
    ensures
        r as int == trim_end(s@, i as int, end as int),
        i <= r <= end,
{
    proof {
        lemma_trim_end_bounds(s@, i as int, end as int);
    }
    let mut j: usize = end;
    while j > i
        invariant
            end <= s@.len(),
            i <= j <= end,
            trim_end(s@, i as int, end as int) == trim_end(s@, i as int, j as int),
        decreases j,
    {
        if s.get_char(j - 1) != ' ' {
            return j;
        }
        j -= 1;
    }
    j
}

fn parse_segments(s: &str, i: usize, n: usize) -> (r: Result<Vec<String>, Error>)
    requires
        n == s@.len(),
        i <= n,
    ensures
        match r {
            Ok(names) => parse_from(s@, i as int) == Some(views_of(names@)),
            Err(e) => parse_from(s@, i as int) is None && (e matches Error::Parse { code, .. }
                && code != 0),
        },
    decreases n - i,
{
    let j = find_sep(s, i, n);
    let l = find_nonspace(s, i, j);
    let t = find_trim_end(s, l, j);
    if l == t {
        Err(
            Error::Parse {
                domain: PARSE_ERROR_DOMAIN,
                code: PARSE_ERROR_CODE,
                message: "empty element name in description".to_owned(),
            },
        )
    } else {
        let name = s.substring_char(l, t).to_owned();
        if j == n {
            let mut names: Vec<String> = Vec::new();
            names.push(name);
            proof {
                assert(views_of(names@) =~= seq![s@.subrange(l as int, t as int)]);
            }
            Ok(names)
        } else {
            match parse_segments(s, j + 1, n) {
                Ok(mut rest) => {
                    let ghost rest0 = rest@;
                    rest.insert(0, name);
                    proof {
                        assert(views_of(rest@) =~= seq![s@.subrange(l as int, t as int)]
                            + views_of(rest0));
                    }
                    Ok(rest)
                },
                Err(e) => Err(e),
            }
        }
    }
}

/// Parse a textual graph description: element names separated by `'!'`, each
/// stripped of surrounding spaces.  Returns the names, upstream first, or a
/// parse error with a non-zero code when some name is empty; nothing is left
/// half-built on error.
pub fn parse_description(s: &str) -> (r: Result<Vec<String>, Error>)
    ensures
        match r {
            Ok(names) => parse_desc(s@) == Some(views_of(names@)),
            Err(e) => parse_desc(s@) is None && (e matches Error::Parse { code, .. } && code != 0),
        },
{
    let n = s.unicode_len();
    parse_segments(s, 0, n)
}

} // verus!
