//! Control commands sent by the browser terminal alongside its keystrokes.
//!
//! A resize command reads `__portalbox_term_cmd_resize:<cols>x<rows>`.
use vstd::prelude::*;

use crate::text::{
    chars_of, digits_value, find_from, index_of, is_digit, occurs_at, skip_repeated_prefix,
    starts_with, strip_prefix_all,
};

verus! {

/// Marks a text message of the terminal socket as a control command.
pub const PORTALBOX_TERM_CMD_PREFIX: &'static str = "__portalbox_term_cmd";

/// Opens a resize command.
pub const RESIZE_CMD_PREFIX: &'static str = "__portalbox_term_cmd_resize:";

/// A control command of the browser terminal.
#[derive(Debug, Clone, Copy, PartialEq, Eq, Structural)]
pub enum PortalBoxCmd {
    Resize { cols: u16, rows: u16 },
}

/// Why a control command could not be read.
#[derive(Debug, Clone, Copy, PartialEq, Eq, Structural)]
pub enum CmdError {
    /// No `x` separates the columns from the rows.
    MissingRows,
    /// The columns or the rows are not a `u16` in decimal.
    InvalidSize,
}

/// The `u16` written by the decimal digits `body`: one or more digits whose
/// value fits.
pub open spec fn spec_parse_digits(body: Seq<char>) -> Option<u16> {
    if body.len() > 0 && (forall|i: int| 0 <= i < body.len() ==> is_digit(#[trigger] body[i]))
        && digits_value(body) <= 65535 {
        Some(digits_value(body) as u16)
    } else {
        None
    }
}

/// The `u16` written in decimal by `s`: an optional `+`, then one or more
/// digits whose value fits.
pub open spec fn spec_parse_u16(s: Seq<char>) -> Option<u16> {
    if s.len() > 0 && s[0] == '+' {
        spec_parse_digits(s.skip(1))
    } else {
        spec_parse_digits(s)
    }
}

/// What reading a resize command gives: the text after the resize prefix
/// (each repetition of it removed) is split at `x`; the first field is the
/// columns, the second the rows, and any further field is ignored.
pub open spec fn spec_parse_cmd(cmd: Seq<char>) -> Result<PortalBoxCmd, CmdError> {
    let rest = strip_prefix_all(cmd, RESIZE_CMD_PREFIX@);
    let a = index_of(rest, 'x');
    if a < 0 {
        Err(CmdError::MissingRows)
    } else {
        let tail = rest.skip(a + 1);
        let b = index_of(tail, 'x');
        let rows = if b < 0 {
            tail
        } else {
            tail.take(b)
        };
        match (spec_parse_u16(rest.take(a)), spec_parse_u16(rows)) {
            (Some(c), Some(r)) => Ok(PortalBoxCmd::Resize { cols: c, rows: r }),
            _ => Err(CmdError::InvalidSize),
        }
    }
}

proof fn lemma_digits_value_grows(s: Seq<char>, m: int)
    requires
        0 <= m <= s.len(),
        forall|i: int| 0 <= i < s.len() ==> is_digit(#[trigger] s[i]),
    ensures
        digits_value(s) >= digits_value(s.take(m)),
    decreases s.len(),
{
    if m < s.len() {
        assert(s.drop_last().take(m) =~= s.take(m));
        lemma_digits_value_grows(s.drop_last(), m);
    } else {
        assert(s.take(m) =~= s);
    }
}

/// The `u16` written in decimal by `s[lo..hi]`.
fn parse_u16_in(s: &Vec<char>, lo: usize, hi: usize) -> (r: Option<u16>)
    requires
        lo <= hi <= s@.len(),
    ensures
        r == spec_parse_u16(s@.subrange(lo as int, hi as int)),
{
    let ghost text = s@.subrange(lo as int, hi as int);
    let start = if lo < hi && s[lo] == '+' {
        lo + 1
    } else {
        lo
    };
    let ghost body = s@.subrange(start as int, hi as int);
    assert(spec_parse_u16(text) == spec_parse_digits(body)) by {
        if lo < hi && s@[lo as int] == '+' {
            assert(text.skip(1) =~= body);
        } else {
            assert(text =~= body);
        }
    }
    if start == hi {
        assert(body.len() == 0);
        return None;
    }
    let mut v: u32 = 0;
    let mut k = start;
    while k < hi
        invariant
            lo <= start <= k <= hi <= s@.len(),
            body == s@.subrange(start as int, hi as int),
            spec_parse_u16(s@.subrange(lo as int, hi as int)) == spec_parse_digits(body),
            v <= 65535,
            v == digits_value(body.take(k - start)),
            forall|i: int| 0 <= i < k - start ==> is_digit(#[trigger] body[i]),
        decreases hi - k,
    {
        let c = s[k];
        if !('0' <= c && c <= '9') {
            assert(!is_digit(body[k - start]));
            return None;
        }
        assert(body.take(k - start + 1).drop_last() =~= body.take(k - start));
        assert(body.take(k - start + 1).last() == c);
        v = v * 10 + (c as u32 - 48);
        assert(v == digits_value(body.take(k - start + 1)));
        k = k + 1;
        if v > 65535 {
            proof {
                if forall|i: int| 0 <= i < body.len() ==> is_digit(#[trigger] body[i]) {
                    lemma_digits_value_grows(body, k - start);
                }
            }
            return None;
        }
    }
    assert(body.take(hi - start) =~= body);
    Some(v as u16)
}

/// Whether a text message of the terminal socket is a control command rather
/// than keystrokes for the shell.
pub fn is_portalbox_cmd(text: &str) -> (r: bool)
    ensures
        r == starts_with(text@, PORTALBOX_TERM_CMD_PREFIX@),
{
    let s = chars_of(text);
    let p = chars_of(PORTALBOX_TERM_CMD_PREFIX);
    let r = occurs_at(&s, 0, &p);
    assert(s@.subrange(0, p@.len() as int) =~= s@.take(p@.len() as int));
    r
}

/// Reads a resize command of the browser terminal.
pub fn parse_portalbox_cmd(cmd: &str) -> (r: Result<PortalBoxCmd, CmdError>)
    ensures
        r == spec_parse_cmd(cmd@),
{
    let s = chars_of(cmd);
    let p = chars_of(RESIZE_CMD_PREFIX);
    let start = skip_repeated_prefix(&s, &p);
    let ghost rest = s@.skip(start as int);
    assert(strip_prefix_all(s@, RESIZE_CMD_PREFIX@) == rest);
    let a = find_from(&s, start, 'x');
    if a == s.len() {
        return Err(CmdError::MissingRows);
    }
    let b = find_from(&s, a + 1, 'x');
    let ghost tail = rest.skip(a - start + 1);
    assert(tail =~= s@.skip(a + 1));
    assert(rest.take(a - start) =~= s@.subrange(start as int, a as int));
    assert(b < s@.len() ==> tail.take(b - a - 1) =~= s@.subrange(a + 1, b as int));
    assert(b == s@.len() ==> tail =~= s@.subrange(a + 1, b as int));
    let cols = parse_u16_in(&s, start, a);
    let rows = parse_u16_in(&s, a + 1, b);
    match (cols, rows) {
        (Some(c), Some(r)) => Ok(PortalBoxCmd::Resize { cols: c, rows: r }),
        _ => Err(CmdError::InvalidSize),
    }
}

} // verus!
