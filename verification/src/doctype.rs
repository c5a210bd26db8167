//! Line-oriented removal of a document-type-declaration preamble.
//!
//! Real-world daemons emit non-standard or malformed preambles that a strict
//! structural parser would reject, so before parsing, every line belonging to
//! a `<!DOCTYPE` declaration is dropped, tolerating a declaration that spans
//! several lines.  All other lines are kept verbatim, each terminated by a
//! single newline (a carriage return before the newline is dropped).

use vstd::prelude::*;

use crate::bytestr::{contains_byte, copy_range, first_non_ws, has_byte, is_ws, starts_with,
    starts_with_bytes, trim_start_ws};
use crate::constants::{doctype_prefix, spec_doctype_prefix};

verus! {

/// The number of bytes of `s` before its first newline (or all of `s`).
pub open spec fn line_len(s: Seq<u8>) -> nat
    decreases s.len(),
{
    if s.len() == 0 {
        0
    } else if s[0] == 10 {
        0
    } else {
        1 + line_len(s.skip(1))
    }
}

/// The first line of `s`, without its newline.
pub open spec fn first_line(s: Seq<u8>) -> Seq<u8> {
    s.take(line_len(s) as int)
}

/// What follows the first line of `s` (and its newline, if any).
pub open spec fn after_line(s: Seq<u8>) -> Seq<u8> {
    if line_len(s) < s.len() {
        s.skip(line_len(s) as int + 1)
    } else {
        Seq::empty()
    }
}

/// A line with a trailing carriage return removed.
pub open spec fn strip_cr(line: Seq<u8>) -> Seq<u8> {
    if line.len() > 0 && line.last() == 13 {
        line.drop_last()
    } else {
        line
    }
}

pub proof fn lemma_line_len_le(s: Seq<u8>)
    ensures
        line_len(s) <= s.len(),
    decreases s.len(),
{
    if s.len() > 0 && s[0] != 10 {
        lemma_line_len_le(s.skip(1));
    }
}

/// `line_len` is determined by the position of the first newline.
pub proof fn lemma_line_len_at(s: Seq<u8>, m: int)
    requires
        0 <= m <= s.len(),
        forall|k: int| 0 <= k < m ==> s[k] != 10,
        m == s.len() || s[m] == 10,
    ensures
        line_len(s) == m,
    decreases s.len(),
{
    if s.len() == 0 {
    } else if s[0] == 10 {
        assert(m == 0);
    } else {
        assert(m >= 1);
        assert(forall|k: int| 0 <= k < m - 1 ==> s.skip(1)[k] == s[k + 1]);
        lemma_line_len_at(s.skip(1), m - 1);
    }
}

/// The defensive line filter: in or out of a declaration, line by line.
pub open spec fn spec_strip_doctype(s: Seq<u8>, in_doctype: bool) -> Seq<u8>
    decreases s.len(),
{
    if s.len() == 0 {
        Seq::empty()
    } else {
        let line = strip_cr(first_line(s));
        let trimmed = trim_start_ws(line);
        let rest = after_line(s);
        if in_doctype {
            spec_strip_doctype(rest, !contains_byte(trimmed, 62))
        } else if starts_with(trimmed, spec_doctype_prefix()) {
            spec_strip_doctype(rest, !contains_byte(trimmed, 62))
        } else {
            line + seq![10u8] + spec_strip_doctype(rest, false)
        }
    }
}

/// The first line runs up to the first newline.
pub proof fn lemma_line_len_newline(s: Seq<u8>)
    ensures
        line_len(s) <= s.len(),
        line_len(s) < s.len() ==> s[line_len(s) as int] == 10,
        forall|k: int| 0 <= k < line_len(s) ==> s[k] != 10,
    decreases s.len(),
{
    if s.len() > 0 && s[0] != 10 {
        lemma_line_len_newline(s.skip(1));
        assert(forall|k: int| 1 <= k < line_len(s) ==> s[k] == s.skip(1)[k - 1]);
    }
}

/// A newline somewhere in `s` bounds the first line.
pub proof fn lemma_line_len_lt(s: Seq<u8>)
    requires
        contains_byte(s, 10),
    ensures
        line_len(s) < s.len(),
    decreases s.len(),
{
    if s[0] != 10 {
        let i = choose|i: int| 0 <= i < s.len() && s[i] == 10;
        assert(s.skip(1)[i - 1] == 10);
        lemma_line_len_lt(s.skip(1));
    }
}

/// Prepending text whose first line is complete does not disturb the line
/// decomposition of what follows.
pub proof fn lemma_line_concat(pre: Seq<u8>, rest: Seq<u8>)
    requires
        contains_byte(pre, 10),
    ensures
        line_len(pre + rest) == line_len(pre),
        first_line(pre + rest) == first_line(pre),
        after_line(pre + rest) == after_line(pre) + rest,
    decreases pre.len(),
{
    let s = pre + rest;
    lemma_line_len_lt(pre);
    if pre[0] == 10 {
        assert(s[0] == 10);
        assert(line_len(s) == 0 && line_len(pre) == 0);
        assert(first_line(s) =~= first_line(pre));
        assert(s.skip(1) =~= pre.skip(1) + rest);
        assert(after_line(s) =~= after_line(pre) + rest);
    } else {
        let i = choose|i: int| 0 <= i < pre.len() && pre[i] == 10;
        assert(pre.skip(1)[i - 1] == 10);
        assert(contains_byte(pre.skip(1), 10));
        lemma_line_concat(pre.skip(1), rest);
        assert(s.skip(1) =~= pre.skip(1) + rest);
        assert(s[0] == pre[0]);
        assert(line_len(s) == 1 + line_len(pre.skip(1)));
        assert(line_len(s) == line_len(pre));
        assert(first_line(s) =~= first_line(pre));
        let ll = line_len(pre) as int;
        assert(after_line(s) =~= s.skip(ll + 1));
        assert(s.skip(ll + 1) =~= pre.skip(ll + 1) + rest);
        assert(after_line(pre) =~= pre.skip(ll + 1));
    }
}

/// The continuation lines of a declaration already opened: full lines that
/// hold no `>` until the last of them, which does.
pub open spec fn is_doctype_tail(s: Seq<u8>) -> bool
    decreases s.len(),
{
    if s.len() == 0 {
        false
    } else if !contains_byte(s, 10) {
        false
    } else {
        let t = trim_start_ws(strip_cr(first_line(s)));
        if contains_byte(t, 62) {
            after_line(s).len() == 0
        } else {
            is_doctype_tail(after_line(s))
        }
    }
}

/// A complete declaration preamble: its first line opens with `<!DOCTYPE`
/// after optional indentation, every line is newline-terminated, and the
/// declaration closes with the first line that holds a `>`.
pub open spec fn is_doctype_preamble(pre: Seq<u8>) -> bool {
    pre.len() > 0 && contains_byte(pre, 10) && {
        let t = trim_start_ws(strip_cr(first_line(pre)));
        &&& starts_with(t, spec_doctype_prefix())
        &&& if contains_byte(t, 62) {
            after_line(pre).len() == 0
        } else {
            is_doctype_tail(after_line(pre))
        }
    }
}

proof fn lemma_strip_tail(pre: Seq<u8>, rest: Seq<u8>)
    requires
        is_doctype_tail(pre),
    ensures
        spec_strip_doctype(pre + rest, true) == spec_strip_doctype(rest, false),
    decreases pre.len(),
{
    let s = pre + rest;
    lemma_line_concat(pre, rest);
    let t = trim_start_ws(strip_cr(first_line(pre)));
    if contains_byte(t, 62) {
        assert(after_line(s) =~= rest);
    } else {
        assert(after_line(s) == after_line(pre) + rest);
        lemma_strip_tail(after_line(pre), rest);
    }
}

/// Dropping a declaration preamble, even one spanning several lines, leaves
/// exactly the stripped remainder: the text after the preamble is filtered as
/// if the preamble had never been there.  In particular, if the remainder is
/// structurally parseable, so is the stripped whole.
pub proof fn lemma_strip_doctype_preamble(pre: Seq<u8>, rest: Seq<u8>)
    requires
        is_doctype_preamble(pre),
    ensures
        spec_strip_doctype(pre + rest, false) == spec_strip_doctype(rest, false),
{
    let s = pre + rest;
    lemma_line_concat(pre, rest);
    let t = trim_start_ws(strip_cr(first_line(pre)));
    if contains_byte(t, 62) {
        assert(after_line(s) =~= rest);
    } else {
        assert(after_line(s) == after_line(pre) + rest);
        lemma_strip_tail(after_line(pre), rest);
    }
}

/// Text made of complete, carriage-return-free lines, none of which opens a
/// declaration.
pub open spec fn is_plain_lines(s: Seq<u8>) -> bool
    decreases s.len(),
{
    if s.len() == 0 {
        true
    } else {
        &&& contains_byte(s, 10)
        &&& strip_cr(first_line(s)) == first_line(s)
        &&& !starts_with(trim_start_ws(first_line(s)), spec_doctype_prefix())
        &&& is_plain_lines(after_line(s))
    }
}

/// The filter keeps declaration-free text unchanged.
pub proof fn lemma_strip_doctype_plain(s: Seq<u8>)
    requires
        is_plain_lines(s),
    ensures
        spec_strip_doctype(s, false) == s,
    decreases s.len(),
{
    if s.len() > 0 {
        lemma_line_len_lt(s);
        lemma_line_len_newline(s);
        lemma_strip_doctype_plain(after_line(s));
        assert(s =~= first_line(s) + seq![10u8] + after_line(s));
    }
}

/// Removes every line of a `<!DOCTYPE` declaration from `xml`, keeping all
/// other lines verbatim, each terminated by a newline.
pub fn strip_doctype(xml: &[u8]) -> (r: Vec<u8>)
    ensures
        r@ == spec_strip_doctype(xml@, false),
{
    let mut out: Vec<u8> = Vec::new();
    let mut i: usize = 0;
    let mut in_doctype: bool = false;
    proof {
        assert(xml@.skip(0) =~= xml@);
    }
    while i < xml.len()
        invariant
            i <= xml@.len(),
            spec_strip_doctype(xml@, false) == out@ + spec_strip_doctype(
                xml@.skip(i as int),
                in_doctype,
            ),
        decreases xml@.len() - i,
    {
        let ghost s = xml@.skip(i as int);
        // Find the end of the current line.
        let mut j: usize = i;
        while j < xml.len() && xml[j] != 10
            invariant
                i <= j <= xml@.len(),
                forall|k: int| i <= k < j ==> xml@[k] != 10,
            decreases xml@.len() - j,
        {
            j = j + 1;
        }
        proof {
            assert(forall|k: int| 0 <= k < j - i ==> s[k] == xml@[i + k] && s[k] != 10);
            assert(j - i == s.len() || s[j - i] == 10);
            lemma_line_len_at(s, j - i);
            assert(first_line(s) =~= xml@.subrange(i as int, j as int));
        }
        // The line, with a trailing carriage return dropped.
        let mut line = copy_range(xml, i, j);
        if line.len() > 0 && line[line.len() - 1] == 13 {
            let _ = line.pop();
        }
        proof {
            assert(line@ == strip_cr(first_line(s)));
        }
        let t = first_non_ws(line.as_slice());
        let trimmed = copy_range(line.as_slice(), t, line.len());
        proof {
            assert(trimmed@ == trim_start_ws(line@));
        }
        let opens_doctype = starts_with_bytes(trimmed.as_slice(), doctype_prefix().as_slice());
        let closes = has_byte(trimmed.as_slice(), 62);
        let ghost old_out = out@;
        let ghost old_in = in_doctype;
        if in_doctype {
            in_doctype = !closes;
        } else if opens_doctype {
            in_doctype = !closes;
        } else {
            let mut k: usize = 0;
            while k < line.len()
                invariant
                    k <= line@.len(),
                    out@ == old_out + line@.take(k as int),
                decreases line@.len() - k,
            {
                out.push(line[k]);
                assert(out@ =~= old_out + line@.take(k + 1 as int));
                k = k + 1;
            }
            out.push(10);
            assert(out@ =~= old_out + (line@ + seq![10u8]));
        }
        let next = if j < xml.len() {
            j + 1
        } else {
            j
        };
        proof {
            if line_len(s) < s.len() {
                assert(after_line(s) =~= xml@.skip(next as int));
            } else {
                assert(next == xml@.len());
                assert(after_line(s) =~= xml@.skip(next as int));
            }
            assert(spec_strip_doctype(s, old_in) == if old_in {
                spec_strip_doctype(after_line(s), !contains_byte(trimmed@, 62))
            } else if starts_with(trimmed@, spec_doctype_prefix()) {
                spec_strip_doctype(after_line(s), !contains_byte(trimmed@, 62))
            } else {
                line@ + seq![10u8] + spec_strip_doctype(after_line(s), false)
            });
            if !old_in && !starts_with(trimmed@, spec_doctype_prefix()) {
                assert(out@ + spec_strip_doctype(xml@.skip(next as int), in_doctype) =~= old_out
                    + spec_strip_doctype(s, old_in));
            }
        }
        i = next;
    }
    proof {
        assert(xml@.skip(i as int).len() == 0);
    }
    out
}

} // verus!
