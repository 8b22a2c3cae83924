//! Parsing of raw listing output into name sequences: surrounding quote
//! characters are trimmed, and names are the maximal whitespace-free runs
//! (or, for line-oriented output, the lines).

use vstd::prelude::*;
use crate::text::{push_char, pop_char};

verus! {

/// The whitespace characters that separate names in listing output.
pub open spec fn is_space(c: char) -> bool {
    c == ' ' || c == '\n' || c == '\t' || c == '\r'
}

/// One scan step of whitespace splitting: a whitespace character closes
/// the word in progress (if any); any other character extends it.
pub open spec fn words_step(acc: (Seq<Seq<char>>, Seq<char>), c: char) -> (Seq<Seq<char>>, Seq<
    char,
>) {
    if is_space(c) {
        if acc.1.len() > 0 {
            (acc.0.push(acc.1), Seq::<char>::empty())
        } else {
            acc
        }
    } else {
        (acc.0, acc.1.push(c))
    }
}

/// The words already closed, and the word in progress, after scanning the
/// first `i` characters of `s`.
pub open spec fn words_scan(s: Seq<char>, i: int) -> (Seq<Seq<char>>, Seq<char>)
    decreases i,
{
    if i <= 0 {
        (Seq::<Seq<char>>::empty(), Seq::<char>::empty())
    } else {
        words_step(words_scan(s, i - 1), s[i - 1])
    }
}

/// The maximal whitespace-free runs of `s`, in order.
pub open spec fn words_of(s: Seq<char>) -> Seq<Seq<char>> {
    let scanned = words_scan(s, s.len() as int);
    if scanned.1.len() > 0 {
        scanned.0.push(scanned.1)
    } else {
        scanned.0
    }
}

/// `s` with every leading and trailing quote character removed.
pub open spec fn trimmed_quotes(s: Seq<char>) -> Seq<char>
    decreases s.len(),
{
    if s.len() > 0 && s[0] == '\'' {
        trimmed_quotes(s.subrange(1, s.len() as int))
    } else if s.len() > 0 && s[s.len() - 1] == '\'' {
        trimmed_quotes(s.subrange(0, s.len() - 1))
    } else {
        s
    }
}

/// One scan step of line splitting: a newline closes the line in progress
/// (dropping one carriage return directly before it); any other character
/// extends it.
pub open spec fn lines_step(acc: (Seq<Seq<char>>, Seq<char>), c: char) -> (Seq<Seq<char>>, Seq<
    char,
>) {
    if c == '\n' {
        if acc.1.len() > 0 && acc.1.last() == '\r' {
            (acc.0.push(acc.1.drop_last()), Seq::<char>::empty())
        } else {
            (acc.0.push(acc.1), Seq::<char>::empty())
        }
    } else {
        (acc.0, acc.1.push(c))
    }
}

/// The lines already closed, and the line in progress, after scanning the
/// first `i` characters of `s`.
pub open spec fn lines_scan(s: Seq<char>, i: int) -> (Seq<Seq<char>>, Seq<char>)
    decreases i,
{
    if i <= 0 {
        (Seq::<Seq<char>>::empty(), Seq::<char>::empty())
    } else {
        lines_step(lines_scan(s, i - 1), s[i - 1])
    }
}

/// The lines of `s`: pieces separated by newlines (a carriage return
/// directly before a newline belongs to the separator), without a final
/// empty piece after a trailing newline.
pub open spec fn lines_of(s: Seq<char>) -> Seq<Seq<char>> {
    let scanned = lines_scan(s, s.len() as int);
    if scanned.1.len() > 0 {
        scanned.0.push(scanned.1)
    } else {
        scanned.0
    }
}

/// Whether `c` separates names in listing output (see `is_space`).
fn is_space_char(c: char) -> (r: bool)
    ensures
        r == is_space(c),
{
    c == ' ' || c == '\n' || c == '\t' || c == '\r'
}

/// Split `s` into its maximal whitespace-free runs, in order.
pub fn split_whitespace_words(s: &str) -> (r: Vec<String>)
    ensures
        r.deep_view() == words_of(s@),
{
    let n = s.unicode_len();
    let mut words: Vec<String> = Vec::new();
    let mut cur = String::new();
    let mut i: usize = 0;
    while i < n
        invariant
            n == s@.len(),
            i <= n,
            words.deep_view() == words_scan(s@, i as int).0,
            cur@ == words_scan(s@, i as int).1,
        decreases n - i,
    {
        let c = s.get_char(i);
        if is_space_char(c) {
            if !cur.as_str().is_empty() {
                let ghost pre = words.deep_view();
                words.push(cur);
                proof {
                    assert(words.deep_view() =~= pre.push(words_scan(s@, i as int).1));
                }
                cur = String::new();
            }
        } else {
            push_char(&mut cur, c);
        }
        i += 1;
    }
    if !cur.as_str().is_empty() {
        let ghost pre = words.deep_view();
        words.push(cur);
        proof {
            assert(words.deep_view() =~= pre.push(words_scan(s@, n as int).1));
        }
    }
    words
}

/// Trim every leading and trailing quote character from `s`.
pub fn trim_quotes(s: &str) -> (r: String)
    ensures
        r@ == trimmed_quotes(s@),
{
    let n = s.unicode_len();
    let mut lo: usize = 0;
    let mut hi: usize = n;
    proof {
        assert(s@.subrange(0, s@.len() as int) =~= s@);
    }
    while lo < hi && s.get_char(lo) == '\''
        invariant
            n == s@.len(),
            lo <= hi <= n,
            trimmed_quotes(s@) == trimmed_quotes(s@.subrange(lo as int, hi as int)),
        decreases hi - lo,
    {
        proof {
            let sub = s@.subrange(lo as int, hi as int);
            assert(sub.subrange(1, sub.len() as int) =~= s@.subrange(lo as int + 1, hi as int));
        }
        lo = lo + 1;
    }
    while lo < hi && s.get_char(hi - 1) == '\''
        invariant
            n == s@.len(),
            lo <= hi <= n,
            lo < hi ==> s@[lo as int] != '\'',
            trimmed_quotes(s@) == trimmed_quotes(s@.subrange(lo as int, hi as int)),
        decreases hi - lo,
    {
        proof {
            let sub = s@.subrange(lo as int, hi as int);
            assert(sub.subrange(0, sub.len() - 1) =~= s@.subrange(lo as int, hi as int - 1));
        }
        hi = hi - 1;
    }
    let trimmed = s.substring_char(lo, hi);
    String::from_str(trimmed)
}

/// Split `s` into its lines, as `lines_of` describes them.
pub fn split_lines(s: &str) -> (r: Vec<String>)
    ensures
        r.deep_view() == lines_of(s@),
{
    let n = s.unicode_len();
    let mut lines: Vec<String> = Vec::new();
    let mut cur = String::new();
    let mut i: usize = 0;
    while i < n
        invariant
            n == s@.len(),
            i <= n,
            lines.deep_view() == lines_scan(s@, i as int).0,
            cur@ == lines_scan(s@, i as int).1,
        decreases n - i,
    {
        let c = s.get_char(i);
        if c == '\n' {
            let cur_len = cur.as_str().unicode_len();
            if cur_len > 0 && cur.as_str().get_char(cur_len - 1) == '\r' {
                pop_char(&mut cur);
            }
            let ghost pre = lines.deep_view();
            let ghost closed = cur@;
            lines.push(cur);
            proof {
                assert(lines.deep_view() =~= pre.push(closed));
            }
            cur = String::new();
        } else {
            push_char(&mut cur, c);
        }
        i += 1;
    }
    if !cur.as_str().is_empty() {
        let ghost pre = lines.deep_view();
        lines.push(cur);
        proof {
            assert(lines.deep_view() =~= pre.push(lines_scan(s@, n as int).1));
        }
    }
    lines
}

/// Names from quoted listing output: surrounding quotes trimmed, then
/// whitespace-separated.
pub fn parse_name_list(raw: &str) -> (r: Vec<String>)
    ensures
        r.deep_view() == words_of(trimmed_quotes(raw@)),
{
    let trimmed = trim_quotes(raw);
    split_whitespace_words(trimmed.as_str())
}

} // verus!
