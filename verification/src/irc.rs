//! Extraction of semantic fields (verb, CAP subcommand, trailing parameter)
//! from a single pre-framed IRC line.
//!
//! The functions scan the raw bytes of one line in a single left-to-right
//! pass, allocate nothing, and return borrowed sub-slices of the input. A
//! malformed line degrades to an empty or negative result; it never faults.

use vstd::prelude::*;
use vstd::slice::slice_subrange;

verus! {

/// ASCII space, the only whitespace byte the protocol uses between tokens.
pub const SPACE: u8 = 32;

/// ASCII `@`, which introduces the message-tags token.
pub const AT: u8 = 64;

/// ASCII `:`, which introduces the source prefix and the trailing parameter.
pub const COLON: u8 = 58;

/// ASCII `C`.
pub const UPPER_C: u8 = 67;

/// ASCII `A`.
pub const UPPER_A: u8 = 65;

/// ASCII `P`.
pub const UPPER_P: u8 = 80;

/// Position of the first byte at or after `i` that is not a space
/// (`s.len()` if every byte from `i` on is a space).
pub open spec fn skip_spaces(s: Seq<u8>, i: int) -> int
    decreases s.len() - i,
{
    if 0 <= i && i < s.len() && s[i] == SPACE {
        skip_spaces(s, i + 1)
    } else {
        i
    }
}

/// Position of the first byte at or after `i` that is a space
/// (`s.len()` if every byte from `i` on is a non-space).
pub open spec fn skip_nonspaces(s: Seq<u8>, i: int) -> int
    decreases s.len() - i,
{
    if 0 <= i && i < s.len() && s[i] != SPACE {
        skip_nonspaces(s, i + 1)
    } else {
        i
    }
}

/// Position of the first byte after the ignorable head of a line: leading
/// spaces, then an optional `@`-introduced tags token with its following
/// spaces, then an optional `:`-introduced prefix token with its following
/// spaces.
pub open spec fn head_end(s: Seq<u8>) -> int {
    let a = skip_spaces(s, 0);
    let b = if a < s.len() && s[a] == AT {
        skip_spaces(s, skip_nonspaces(s, a))
    } else {
        a
    };
    if b < s.len() && s[b] == COLON {
        skip_spaces(s, skip_nonspaces(s, b))
    } else {
        b
    }
}

/// The verb of a line: the run of non-space bytes that follows the
/// ignorable head (empty if the line ends there).
pub open spec fn spec_verb(s: Seq<u8>) -> Seq<u8> {
    let i = head_end(s);
    s.subrange(i, skip_nonspaces(s, i))
}

proof fn lemma_skip_spaces_bounds(s: Seq<u8>, i: int)
    requires
        0 <= i <= s.len(),
    ensures
        i <= skip_spaces(s, i) <= s.len(),
    decreases s.len() - i,
{
    if i < s.len() && s[i] == SPACE {
        lemma_skip_spaces_bounds(s, i + 1);
    }
}

proof fn lemma_skip_nonspaces_bounds(s: Seq<u8>, i: int)
    requires
        0 <= i <= s.len(),
    ensures
        i <= skip_nonspaces(s, i) <= s.len(),
    decreases s.len() - i,
{
    if i < s.len() && s[i] != SPACE {
        lemma_skip_nonspaces_bounds(s, i + 1);
    }
}

/// Advances over spaces, starting at `start`.
fn scan_spaces(line: &[u8], start: usize) -> (i: usize)
    requires
        start <= line@.len(),
    ensures
        i as int == skip_spaces(line@, start as int),
        start <= i <= line@.len(),
{
    let mut i: usize = start;
    while i < line.len() && line[i] == SPACE
        invariant
            start <= i <= line@.len(),
            skip_spaces(line@, start as int) == skip_spaces(line@, i as int),
        decreases line@.len() - i,
    {
        i = i + 1;
    }
    i
}

/// Advances over non-space bytes, starting at `start`.
fn scan_nonspaces(line: &[u8], start: usize) -> (i: usize)
    requires
        start <= line@.len(),
    ensures
        i as int == skip_nonspaces(line@, start as int),
        start <= i <= line@.len(),
{
    let mut i: usize = start;
    while i < line.len() && line[i] != SPACE
        invariant
            start <= i <= line@.len(),
            skip_nonspaces(line@, start as int) == skip_nonspaces(line@, i as int),
        decreases line@.len() - i,
    {
        i = i + 1;
    }
    i
}

/// Advances over the ignorable head of a line: leading spaces, an optional
/// tags token, an optional prefix token, each with its following spaces.
fn skip_head(line: &[u8]) -> (i: usize)
    ensures
        i as int == head_end(line@),
        i <= line@.len(),
{
    let mut i: usize = scan_spaces(line, 0);

    // skip tags
    if i < line.len() && line[i] == AT {
        i = scan_spaces(line, scan_nonspaces(line, i));
    }

    // skip prefix
    if i < line.len() && line[i] == COLON {
        i = scan_spaces(line, scan_nonspaces(line, i));
    }

    i
}

/// Whether the line carries the `CAP ` marker (case-sensitive, followed by
/// one space) right after its ignorable head.
pub open spec fn has_cap_tag(s: Seq<u8>) -> bool {
    let i = head_end(s);
    &&& i + 4 <= s.len()
    &&& s[i] == UPPER_C
    &&& s[i + 1] == UPPER_A
    &&& s[i + 2] == UPPER_P
    &&& s[i + 3] == SPACE
}

/// Position of the first byte of the CAP subcommand. A server line carries a
/// mandatory client-identifier token before the subcommand, which is skipped
/// exactly when `is_server` holds.
pub open spec fn subcmd_start(s: Seq<u8>, is_server: bool) -> int {
    let i = skip_spaces(s, head_end(s) + 4);
    if is_server {
        skip_spaces(s, skip_nonspaces(s, i))
    } else {
        i
    }
}

/// The CAP subcommand: the run of non-space bytes at `subcmd_start`.
pub open spec fn spec_subcommand(s: Seq<u8>, is_server: bool) -> Seq<u8> {
    let i = subcmd_start(s, is_server);
    s.subrange(i, skip_nonspaces(s, i))
}

/// Position of the first `:` at or after `j` that directly follows a space
/// (`s.len()` if there is none).
pub open spec fn colon_pos(s: Seq<u8>, j: int) -> int
    decreases s.len() - j,
{
    if 0 <= j && j < s.len() {
        if s[j - 1] == SPACE && s[j] == COLON {
            j
        } else {
            colon_pos(s, j + 1)
        }
    } else {
        s.len() as int
    }
}

/// Position of the last non-space byte at or after `j` (`acc` if there is
/// none; callers pass 0, which cannot be a real hit since `j` is always
/// positive here).
pub open spec fn last_nonspace(s: Seq<u8>, j: int, acc: int) -> int
    decreases s.len() - j,
{
    if 0 <= j && j < s.len() {
        last_nonspace(s, j + 1, if s[j] != SPACE { j } else { acc })
    } else {
        acc
    }
}

/// Walks left from `j` to the nearest space (or the start of the line): the
/// position just before the whitespace-delimited token that contains `j`.
pub open spec fn token_start(s: Seq<u8>, j: int) -> int
    decreases j,
{
    if 0 < j && j < s.len() && s[j] != SPACE {
        token_start(s, j - 1)
    } else {
        j
    }
}

/// The trailing parameter of a CAP line. If a space directly followed by `:`
/// occurs after the subcommand, the trailing parameter is everything after
/// that `:` to the end of the line. Otherwise it is only the last
/// whitespace-delimited token of the remainder, or empty if the remainder is
/// all spaces.
pub open spec fn spec_trailing(s: Seq<u8>, is_server: bool) -> Seq<u8> {
    let j0 = skip_nonspaces(s, subcmd_start(s, is_server));
    let p = colon_pos(s, j0);
    if p < s.len() {
        s.subrange(p + 1, s.len() as int)
    } else {
        let e = last_nonspace(s, j0, 0);
        if e != 0 {
            s.subrange(token_start(s, e) + 1, e + 1)
        } else {
            s.subrange(0, 0)
        }
    }
}

/// The fields of a CAP line: `None` when the line is not a CAP message, the
/// subcommand and trailing parameter otherwise.
pub open spec fn spec_cap(s: Seq<u8>, is_server: bool) -> Option<(Seq<u8>, Seq<u8>)> {
    if has_cap_tag(s) {
        Some((spec_subcommand(s, is_server), spec_trailing(s, is_server)))
    } else {
        None
    }
}

proof fn lemma_skip_nonspaces_region(s: Seq<u8>, i: int)
    requires
        0 <= i <= s.len(),
    ensures
        forall|t: int| i <= t < skip_nonspaces(s, i) ==> s[t] != SPACE,
        skip_nonspaces(s, i) == s.len() || s[skip_nonspaces(s, i)] == SPACE,
    decreases s.len() - i,
{
    lemma_skip_nonspaces_bounds(s, i);
    if i < s.len() && s[i] != SPACE {
        lemma_skip_nonspaces_region(s, i + 1);
    }
}

proof fn lemma_head_end_bounds(s: Seq<u8>)
    ensures
        0 <= head_end(s) <= s.len(),
{
    lemma_skip_spaces_bounds(s, 0);
    let a = skip_spaces(s, 0);
    if a < s.len() && s[a] == AT {
        lemma_skip_nonspaces_bounds(s, a);
        lemma_skip_spaces_bounds(s, skip_nonspaces(s, a));
    }
    let b = if a < s.len() && s[a] == AT {
        skip_spaces(s, skip_nonspaces(s, a))
    } else {
        a
    };
    if b < s.len() && s[b] == COLON {
        lemma_skip_nonspaces_bounds(s, b);
        lemma_skip_spaces_bounds(s, skip_nonspaces(s, b));
    }
}

/// A non-empty extracted verb is a whole token of the line: a run of
/// non-space bytes that the line delimits by a space or its end — never a
/// fragment cut out of a longer word.
pub proof fn lemma_verb_is_a_token(s: Seq<u8>)
    ensures
        forall|k: int| 0 <= k < spec_verb(s).len() ==> spec_verb(s)[k] != SPACE,
        head_end(s) + spec_verb(s).len() == s.len() || s[head_end(s) + spec_verb(s).len()]
            == SPACE,
{
    lemma_head_end_bounds(s);
    lemma_skip_nonspaces_bounds(s, head_end(s));
    lemma_skip_nonspaces_region(s, head_end(s));
}

/// On a CAP line, the subcommand is likewise a whole, space-free token.
pub proof fn lemma_subcommand_is_a_token(s: Seq<u8>, is_server: bool)
    requires
        has_cap_tag(s),
    ensures
        forall|k: int|
            0 <= k < spec_subcommand(s, is_server).len() ==> spec_subcommand(s, is_server)[k]
                != SPACE,
{
    lemma_head_end_bounds(s);
    lemma_skip_spaces_bounds(s, head_end(s) + 4);
    if is_server {
        lemma_skip_nonspaces_bounds(s, skip_spaces(s, head_end(s) + 4));
        lemma_skip_spaces_bounds(s, skip_nonspaces(s, skip_spaces(s, head_end(s) + 4)));
    }
    let i = subcmd_start(s, is_server);
    lemma_skip_nonspaces_bounds(s, i);
    lemma_skip_nonspaces_region(s, i);
    assert forall|k: int|
        0 <= k < spec_subcommand(s, is_server).len() implies spec_subcommand(s, is_server)[k]
        != SPACE by {
        assert(spec_subcommand(s, is_server)[k] == s[i + k]);
    }
}

/// Extractor purity: the extracted fields are a function of the line bytes
/// (and, for CAP lines, the origin flag) alone — two calls on equal inputs
/// return identical results, for the verb and for the CAP fields alike.
pub proof fn lemma_extractor_deterministic(s: Seq<u8>, t: Seq<u8>, is_server: bool)
    requires
        s == t,
    ensures
        spec_verb(s) == spec_verb(t),
        spec_cap(s, is_server) == spec_cap(t, is_server),
{
}

/// Extracts the verb part of an IRC message.
///
/// If the returned slice is meaningful as an IRC verb, then it definitely
/// appears as the verb part of the input line; a line without a verb (only
/// tags, prefix, and spaces) yields an empty slice.
pub fn extract_verb(line: &[u8]) -> (verb: &[u8])
    ensures
        verb@ == spec_verb(line@),
{
    let i = skip_head(line);
    let j = scan_nonspaces(line, i);
    slice_subrange(line, i, j)
}

/// The parsed form of an IRC `CAP` message: borrowed sub-slices of the line
/// it was extracted from.
pub struct CapMessage<'m> {
    pub subcommand: &'m [u8],
    pub trailing: &'m [u8],
}

/// Extracts the subcommand and trailing parts of an IRCv3 CAP message.
///
/// `is_server` says whether the line came from a server, which inserts a
/// client-identifier token (structurally indistinguishable from a
/// subcommand) between the verb and the subcommand; that token is skipped
/// exactly when `is_server` holds. Returns `None` when the line is not a CAP
/// message.
pub fn extract_cap<'m>(line: &'m [u8], is_server: bool) -> (r: Option<CapMessage<'m>>)
    ensures
        r is Some <==> has_cap_tag(line@),
        r matches Some(cap) ==> cap.subcommand@ == spec_subcommand(line@, is_server),
        r matches Some(cap) ==> cap.trailing@ == spec_trailing(line@, is_server),
{
    let ghost s = line@;
    let i0 = skip_head(line);

    // confirm we are pointing at "CAP "
    if line.len() - i0 < 4 {
        return None;
    }
    if !(line[i0] == UPPER_C && line[i0 + 1] == UPPER_A && line[i0 + 2] == UPPER_P && line[i0
        + 3] == SPACE) {
        return None;
    }

    // skip any spaces following CAP; on a server line, also skip the client
    // identifier and the spaces after it
    let mut i: usize = scan_spaces(line, i0 + 4);
    if is_server {
        i = scan_spaces(line, scan_nonspaces(line, i));
    }

    // the subcommand is the next run of non-space bytes
    let j0 = scan_nonspaces(line, i);
    let subcommand = slice_subrange(line, i, j0);

    // look for the first ":" that directly follows a space
    let mut p: usize = j0;
    while p < line.len() && !(line[p - 1] == SPACE && line[p] == COLON)
        invariant
            1 <= j0 <= p <= line@.len(),
            s == line@,
            colon_pos(s, j0 as int) == colon_pos(s, p as int),
        decreases line@.len() - p,
    {
        p = p + 1;
    }

    let trailing: &[u8];
    if p < line.len() {
        // everything after the colon, embedded spaces included
        trailing = slice_subrange(line, p + 1, line.len());
    } else {
        // no colon: find the last non-space byte of the remainder
        let mut j: usize = j0;
        let mut e: usize = 0;
        while j < line.len()
            invariant
                1 <= j0 <= j <= line@.len(),
                e == 0 || j0 <= e < j,
                s == line@,
                last_nonspace(s, j0 as int, 0) == last_nonspace(s, j as int, e as int),
            decreases line@.len() - j,
        {
            if line[j] != SPACE {
                e = j;
            }
            j = j + 1;
        }
        if e != 0 {
            // walk back to the start of the token that ends at e
            let mut b: usize = e;
            while b > 0 && line[b] != SPACE
                invariant
                    0 <= b <= e < line@.len(),
                    s == line@,
                    token_start(s, e as int) == token_start(s, b as int),
                decreases b,
            {
                b = b - 1;
            }
            trailing = slice_subrange(line, b + 1, e + 1);
        } else {
            trailing = slice_subrange(line, 0, 0);
        }
    }

    Some(CapMessage { subcommand, trailing })
}

} // verus!
