use vstd::prelude::*;
use vstd::string::StringSliceAdditionalSpecFns;
use vstd::utf8::*;

verus! {

broadcast use vstd::utf8::encode_utf8_valid_utf8;

/// Unicode's White_Space property.
pub open spec fn is_white_space(c: char) -> bool {
    ('\u{9}' <= c && c <= '\u{D}') || c == ' ' || c == '\u{85}' || c == '\u{A0}' || c == '\u{1680}'
        || ('\u{2000}' <= c && c <= '\u{200A}') || c == '\u{2028}' || c == '\u{2029}' || c
        == '\u{202F}' || c == '\u{205F}' || c == '\u{3000}'
}

/// `t` is `s` without its leading and trailing white space.
pub open spec fn is_trim_of(t: Seq<char>, s: Seq<char>) -> bool {
    exists|i: int, j: int|
        #![trigger s.subrange(i, j)]
        0 <= i <= j <= s.len() && t == s.subrange(i, j) && (forall|k: int|
            0 <= k < i ==> is_white_space(#[trigger] s[k])) && (forall|k: int|
            j <= k < s.len() ==> is_white_space(#[trigger] s[k])) && (i < j ==> !is_white_space(s[i])
            && !is_white_space(s[j - 1]))
}

/// Relies on str::trim: the slice without leading and trailing characters
/// that have the White_Space property.
#[verifier::external_body]
fn trim_white_space(s: &str) -> (r: &str)
    ensures
        is_trim_of(r@, s@),
{
    s.trim()
}

pub const HYPHEN: u8 = 45;
pub const DOLLAR: u8 = 36;
pub const SEMICOLON: u8 = 59;
pub const NEWLINE: u8 = 10;

/// Where the splitter stands between two bytes.
pub struct ScanState {
    /// Inside a `$$ ... $$` block, where `;` does not end a statement.
    pub in_dollar: bool,
    /// Hyphens seen in a row (0 or 1).
    pub hyphens: u8,
    /// Dollar signs seen in a row (0 or 1).
    pub dollars: u8,
    /// Inside a `--` comment, which runs to the end of the line.
    pub in_comment: bool,
}

pub open spec fn scan_start() -> ScanState {
    ScanState { in_dollar: false, hyphens: 0, dollars: 0, in_comment: false }
}

/// The state after reading byte `c` in state `st`.
pub open spec fn scan_step(st: ScanState, c: u8) -> ScanState {
    if st.in_comment {
        if c == NEWLINE {
            ScanState { in_comment: false, ..st }
        } else {
            st
        }
    } else if c == HYPHEN {
        if st.hyphens == 1 {
            ScanState { hyphens: 0, in_comment: true, ..st }
        } else {
            ScanState { hyphens: 1, ..st }
        }
    } else if c == DOLLAR {
        if st.dollars == 1 {
            ScanState { dollars: 0, in_dollar: !st.in_dollar, ..st }
        } else {
            ScanState { dollars: 1, ..st }
        }
    } else {
        ScanState { hyphens: 0, dollars: 0, ..st }
    }
}

/// Whether byte `c` read in state `st` ends a statement.
pub open spec fn ends_statement(st: ScanState, c: u8) -> bool {
    !st.in_comment && c == SEMICOLON && !st.in_dollar
}

/// The index of the first `;` at or after `i` that ends a statement, when
/// the bytes before `i` left the splitter in state `st`.
pub open spec fn statement_end_from(b: Seq<u8>, i: int, st: ScanState) -> Option<int>
    decreases b.len() - i,
{
    if i < 0 || i >= b.len() {
        None
    } else if ends_statement(st, b[i]) {
        Some(i)
    } else {
        statement_end_from(b, i + 1, scan_step(st, b[i]))
    }
}

/// The index of the `;` that ends the first statement of `b`, if any:
/// one outside `$$` blocks and outside `--` line comments.
pub open spec fn statement_end(b: Seq<u8>) -> Option<int> {
    statement_end_from(b, 0, scan_start())
}

proof fn lemma_statement_end_bound(b: Seq<u8>, i: int, st: ScanState)
    ensures
        statement_end_from(b, i, st) matches Some(k) ==> i <= k < b.len() && b[k] == SEMICOLON,
    decreases b.len() - i,
{
    if 0 <= i < b.len() && !ends_statement(st, b[i]) {
        lemma_statement_end_bound(b, i + 1, scan_step(st, b[i]));
    }
}

/// Splits a script into its statements, each without its closing `;`.
/// Text after the last `;` that ends a statement is not returned.
pub struct SqlIterator<'a> {
    sql: &'a str,
}

impl<'a> SqlIterator<'a> {
    /// The text not yet split.
    pub closed spec fn rest(&self) -> &'a str {
        self.sql
    }

    pub fn new(sql: &'a str) -> (r: Self)
        ensures
            is_trim_of(r.rest()@, sql@),
    {
        SqlIterator { sql: trim_white_space(sql) }
    }

    /// The next statement: the text up to the first `;` that ends one.
    pub fn next(&mut self) -> (r: Option<&'a str>)
        ensures
            match statement_end(old(self).rest().spec_bytes()) {
                Some(k) => r matches Some(s) && s.spec_bytes() == old(self).rest().spec_bytes().subrange(0, k)
                    && final(self).rest().spec_bytes() == old(self).rest().spec_bytes().subrange(
                    k + 1,
                    old(self).rest().spec_bytes().len() as int,
                ),
                None => r is None && final(self).rest() == old(self).rest(),
            },
    {
        let bytes = self.sql.as_bytes();
        let ghost b = self.sql.spec_bytes();
        let mut st = ScanState { in_dollar: false, hyphens: 0, dollars: 0, in_comment: false };
        let mut i: usize = 0;
        while i < bytes.len()
            invariant
                bytes@ == b,
                b == self.sql.spec_bytes(),
                *self == *old(self),
                0 <= i <= b.len(),
                st.hyphens <= 1,
                st.dollars <= 1,
                statement_end(b) == statement_end_from(b, i as int, st),
            decreases b.len() - i,
        {
            let c = bytes[i];
            if !st.in_comment && c == SEMICOLON && !st.in_dollar {
                proof {
                    lemma_statement_end_bound(b, i as int, st);
                }
                return Some(self.split_after(i));
            }
            st = if st.in_comment {
                if c == NEWLINE {
                    ScanState { in_comment: false, ..st }
                } else {
                    st
                }
            } else if c == HYPHEN {
                if st.hyphens == 1 {
                    ScanState { hyphens: 0, in_comment: true, ..st }
                } else {
                    ScanState { hyphens: 1, ..st }
                }
            } else if c == DOLLAR {
                if st.dollars == 1 {
                    ScanState { dollars: 0, in_dollar: !st.in_dollar, ..st }
                } else {
                    ScanState { dollars: 1, ..st }
                }
            } else {
                ScanState { hyphens: 0, dollars: 0, ..st }
            };
            i = i + 1;
        }
        None
    }

    /// Hands out the text before the `;` at `k` and keeps the text after it.
    fn split_after(&mut self, k: usize) -> (r: &'a str)
        requires
            k < old(self).rest().spec_bytes().len(),
            old(self).rest().spec_bytes()[k as int] == SEMICOLON,
        ensures
            r.spec_bytes() == old(self).rest().spec_bytes().subrange(0, k as int),
            final(self).rest().spec_bytes() == old(self).rest().spec_bytes().subrange(
                k as int + 1,
                old(self).rest().spec_bytes().len() as int,
            ),
    {
        let ghost b = self.sql.spec_bytes();
        proof {
            is_char_boundary_iff_not_is_continuation_byte(b, k as int);
        }
        let (head, tail) = self.sql.split_at(k);
        let ghost t = tail.spec_bytes();
        proof {
            assert(t =~= b.subrange(k as int, b.len() as int));
            assert(t[0] == SEMICOLON);
            lemma_boundary_after_ascii(t);
        }
        let (_, rest) = tail.split_at(1);
        proof {
            assert(rest.spec_bytes() =~= b.subrange(k as int + 1, b.len() as int));
        }
        self.sql = rest;
        head
    }
}

/// After a leading one-byte character comes a character boundary.
proof fn lemma_boundary_after_ascii(t: Seq<u8>)
    requires
        valid_utf8(t),
        t.len() >= 1,
        t[0] < 128,
    ensures
        is_char_boundary(t, 1),
{
    reveal_with_fuel(is_char_boundary, 2);
    assert(length_of_first_scalar(t) == 1);
    is_char_boundary_start_end_of_seq(pop_first_scalar(t));
}

} // verus!
