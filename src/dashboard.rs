//! Links shown by the local dashboard.
use vstd::prelude::*;

use crate::text::{chars_of, decimal, occurs_at, push_char, push_decimal, string_of};

verus! {

/// Ends the public host name of a user's dashboard.
pub const HOME_HOST_SUFFIX: &'static str = "-home.portalbox.app";

/// Ends the public host name of a user's editor.
pub const VSCODE_HOST_SUFFIX: &'static str = "-vscode.portalbox.app";

/// Whether `s` ends with `p`.
pub open spec fn ends_with(s: Seq<char>, p: Seq<char>) -> bool {
    s.len() >= p.len() && s.skip(s.len() - p.len()) == p
}

/// `s` with every trailing repetition of the non-empty pattern `p` removed.
pub open spec fn strip_suffix_all(s: Seq<char>, p: Seq<char>) -> Seq<char>
    decreases s.len(),
{
    if p.len() > 0 && ends_with(s, p) {
        strip_suffix_all(s.take(s.len() - p.len()), p)
    } else {
        s
    }
}

/// The index of the last `c` in `s`, or -1.
pub open spec fn last_index_of(s: Seq<char>, c: char) -> int
    decreases s.len(),
{
    if s.len() == 0 {
        -1
    } else if s.last() == c {
        s.len() - 1
    } else {
        last_index_of(s.drop_last(), c)
    }
}

/// The editor's address as the dashboard links it: on the public dashboard
/// host, the matching public editor host; elsewhere, the same host (without
/// its port) at the editor's port.
pub open spec fn spec_editor_url(host: Seq<char>, vscode_port: u16) -> Seq<char> {
    if ends_with(host, HOME_HOST_SUFFIX@) {
        seq!['/', '/'] + strip_suffix_all(host, HOME_HOST_SUFFIX@) + VSCODE_HOST_SUFFIX@
    } else {
        let i = last_index_of(host, ':');
        let name = if i < 0 {
            host
        } else {
            host.take(i)
        };
        seq!['/', '/'] + name + seq![':'] + decimal(vscode_port as nat)
    }
}

/// Whether `p` ends `s[..end]`.
fn ends_at(s: &Vec<char>, end: usize, p: &Vec<char>) -> (r: bool)
    requires
        end <= s@.len(),
    ensures
        r == ends_with(s@.take(end as int), p@),
{
    if p.len() > end {
        return false;
    }
    let r = occurs_at(s, end - p.len(), p);
    assert(s@.take(end as int).skip(end - p@.len()) =~= s@.subrange(end - p@.len(), end as int));
    r
}

/// The length of `s` without every trailing repetition of `p`.
fn strip_repeated_suffix(s: &Vec<char>, p: &Vec<char>) -> (r: usize)
    ensures
        r <= s@.len(),
        strip_suffix_all(s@, p@) == s@.take(r as int),
{
    let mut end = s.len();
    assert(s@.take(end as int) =~= s@);
    if p.len() == 0 {
        return end;
    }
    let mut more = ends_at(s, end, p);
    while more
        invariant
            end <= s@.len(),
            p@.len() > 0,
            more == ends_with(s@.take(end as int), p@),
            strip_suffix_all(s@, p@) == strip_suffix_all(s@.take(end as int), p@),
        decreases end,
    {
        assert(s@.take(end as int).take(end - p@.len()) =~= s@.take(end - p@.len()));
        end = end - p.len();
        more = ends_at(s, end, p);
    }
    end
}

/// The index of the last `c` in `s`, or the length of `s`.
fn rfind(s: &Vec<char>, c: char) -> (r: usize)
    ensures
        r <= s@.len(),
        last_index_of(s@, c) == if r == s@.len() {
            -1
        } else {
            r as int
        },
{
    let mut end = s.len();
    assert(s@.take(end as int) =~= s@);
    while end > 0 && s[end - 1] != c
        invariant
            end <= s@.len(),
            last_index_of(s@, c) == last_index_of(s@.take(end as int), c),
        decreases end,
    {
        assert(s@.take(end as int).drop_last() =~= s@.take(end - 1));
        end = end - 1;
    }
    if end == 0 {
        assert(s@.take(0) =~= Seq::<char>::empty());
        s.len()
    } else {
        end - 1
    }
}

/// The editor's address as the dashboard links it, for a request to `host`.
pub fn editor_url(host: &str, vscode_port: u16) -> (r: String)
    ensures
        r@ == spec_editor_url(host@, vscode_port),
{
    let s = chars_of(host);
    let home = chars_of(HOME_HOST_SUFFIX);
    assert(s@.take(s@.len() as int) =~= s@);
    let mut out = String::new();
    push_char(&mut out, '/');
    push_char(&mut out, '/');
    if ends_at(&s, s.len(), &home) {
        let end = strip_repeated_suffix(&s, &home);
        let name = string_of(&s, 0, end);
        out.append(name.as_str());
        out.append(VSCODE_HOST_SUFFIX);
        assert(s@.subrange(0, end as int) =~= s@.take(end as int));
        assert(out@ =~= spec_editor_url(host@, vscode_port));
    } else {
        let i = rfind(&s, ':');
        let name = string_of(&s, 0, i);
        out.append(name.as_str());
        push_char(&mut out, ':');
        push_decimal(&mut out, vscode_port as u64);
        assert(s@.subrange(0, i as int) =~= s@.take(i as int));
        assert(out@ =~= spec_editor_url(host@, vscode_port));
    }
    out
}

} // verus!
