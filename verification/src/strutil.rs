//! Character-level string utilities used by the loader and the render
//! pipeline: decimal rendering, padding, trimming, and line splitting, each
//! specified over the string's sequence of characters.

use vstd::prelude::*;
use vstd::string::*;

verus! {

/// Relies on String::push: appends exactly the given character.
#[verifier::external_body]
pub fn push_char(s: &mut String, c: char)
    ensures
        final(s)@ == old(s)@.push(c),
{
    s.push(c);
}

/// Character-for-character string equality.
pub fn str_eq(a: &str, b: &str) -> (r: bool)
    ensures
        r == (a@ == b@),
{
    let a_len = a.unicode_len();
    let b_len = b.unicode_len();
    if a_len != b_len {
        return false;
    }
    let mut i: usize = 0;
    while i < a_len
        invariant
            i <= a_len,
            a_len == a@.len(),
            b_len == b@.len(),
            a_len == b_len,
            forall|j: int| 0 <= j < i ==> a@[j] == b@[j],
        decreases a_len - i,
    {
        if a.get_char(i) != b.get_char(i) {
            return false;
        }
        i = i + 1;
    }
    proof {
        assert(a@ =~= b@);
    }
    true
}

/// The character that writes the decimal digit `d`.
pub open spec fn dec_digit_char(d: nat) -> char {
    if d == 0 {
        '0'
    } else if d == 1 {
        '1'
    } else if d == 2 {
        '2'
    } else if d == 3 {
        '3'
    } else if d == 4 {
        '4'
    } else if d == 5 {
        '5'
    } else if d == 6 {
        '6'
    } else if d == 7 {
        '7'
    } else if d == 8 {
        '8'
    } else {
        '9'
    }
}

/// The decimal rendering of `n`, most significant digit first.
pub open spec fn spec_u32_string(n: nat) -> Seq<char>
    decreases n,
{
    if n < 10 {
        seq![dec_digit_char(n)]
    } else {
        spec_u32_string(n / 10).push(dec_digit_char(n % 10))
    }
}

fn digit_char(d: u32) -> (c: char)
    requires
        d < 10,
    ensures
        c == dec_digit_char(d as nat),
{
    if d == 0 {
        '0'
    } else if d == 1 {
        '1'
    } else if d == 2 {
        '2'
    } else if d == 3 {
        '3'
    } else if d == 4 {
        '4'
    } else if d == 5 {
        '5'
    } else if d == 6 {
        '6'
    } else if d == 7 {
        '7'
    } else if d == 8 {
        '8'
    } else {
        '9'
    }
}

/// Write `n` in decimal.
pub fn u32_string(n: u32) -> (r: String)
    ensures
        r@ == spec_u32_string(n as nat),
    decreases n,
{
    if n < 10 {
        let mut s = String::new();
        push_char(&mut s, digit_char(n));
        proof {
            assert(s@ =~= spec_u32_string(n as nat));
        }
        s
    } else {
        let mut s = u32_string(n / 10);
        push_char(&mut s, digit_char(n % 10));
        s
    }
}

/// Number of characters in the decimal rendering of `n`.
pub fn decimal_width(n: u32) -> (r: usize)
    ensures
        r == spec_u32_string(n as nat).len(),
{
    let s = u32_string(n);
    s.as_str().unicode_len()
}

/// `n` spaces.
pub open spec fn spec_spaces(n: nat) -> Seq<char> {
    Seq::new(n, |i: int| ' ')
}

/// Build a string of `n` spaces.
pub fn spaces(n: usize) -> (r: String)
    ensures
        r@ == spec_spaces(n as nat),
{
    let mut s = String::new();
    let mut i: usize = 0;
    proof {
        assert(s@ =~= spec_spaces(0));
    }
    while i < n
        invariant
            i <= n,
            s@ == spec_spaces(i as nat),
        decreases n - i,
    {
        push_char(&mut s, ' ');
        proof {
            assert(spec_spaces(i as nat).push(' ') =~= spec_spaces((i + 1) as nat));
        }
        i = i + 1;
    }
    s
}

/// `s` padded on the right with spaces up to width `w` (kept whole if longer).
pub open spec fn spec_left_aligned(s: Seq<char>, w: nat) -> Seq<char> {
    if s.len() >= w {
        s
    } else {
        s + spec_spaces((w - s.len()) as nat)
    }
}

/// Pad `s` on the right with spaces up to `width`.
pub fn left_aligned(s: String, width: usize) -> (r: String)
    ensures
        r@ == spec_left_aligned(s@, width as nat),
{
    let len = s.as_str().unicode_len();
    if len >= width {
        s
    } else {
        let pad = spaces(width - len);
        let mut r = s;
        r.append(pad.as_str());
        r
    }
}

/// `s` with every newline character removed.
pub open spec fn spec_strip_newlines(s: Seq<char>) -> Seq<char>
    decreases s.len(),
{
    if s.len() == 0 {
        s
    } else if s.last() == '\n' {
        spec_strip_newlines(s.drop_last())
    } else {
        spec_strip_newlines(s.drop_last()).push(s.last())
    }
}

/// Remove every newline character from `s`.
pub fn strip_newlines(s: &str) -> (r: String)
    ensures
        r@ == spec_strip_newlines(s@),
{
    let len = s.unicode_len();
    let mut out = String::new();
    let mut i: usize = 0;
    proof {
        assert(s@.take(0) =~= Seq::<char>::empty());
    }
    while i < len
        invariant
            i <= len,
            len == s@.len(),
            out@ == spec_strip_newlines(s@.take(i as int)),
        decreases len - i,
    {
        let c = s.get_char(i);
        proof {
            assert(s@.take(i + 1).drop_last() =~= s@.take(i as int));
            assert(s@.take(i + 1).last() == s@[i as int]);
        }
        if c != '\n' {
            push_char(&mut out, c);
        }
        i = i + 1;
    }
    proof {
        assert(s@.take(len as int) =~= s@);
    }
    out
}

/// Whether `c` is a whitespace character (the Unicode White_Space set).
pub open spec fn is_space_char(c: char) -> bool {
    let u = c as u32;
    u == 0x20 || u == 0x9 || u == 0xa || u == 0xb || u == 0xc || u == 0xd || u == 0x85
        || u == 0xa0 || u == 0x1680 || (0x2000 <= u && u <= 0x200a) || u == 0x2028 || u == 0x2029
        || u == 0x202f || u == 0x205f || u == 0x3000
}

/// Whitespace test, matching `is_space_char`.
pub fn is_space(c: char) -> (r: bool)
    ensures
        r == is_space_char(c),
{
    let u = c as u32;
    u == 0x20 || u == 0x9 || u == 0xa || u == 0xb || u == 0xc || u == 0xd || u == 0x85
        || u == 0xa0 || u == 0x1680 || (0x2000 <= u && u <= 0x200a) || u == 0x2028 || u == 0x2029
        || u == 0x202f || u == 0x205f || u == 0x3000
}

/// `s` without leading whitespace.
pub open spec fn spec_trim_start(s: Seq<char>) -> Seq<char>
    decreases s.len(),
{
    if s.len() > 0 && is_space_char(s.first()) {
        spec_trim_start(s.drop_first())
    } else {
        s
    }
}

/// `s` without trailing whitespace.
pub open spec fn spec_trim_end(s: Seq<char>) -> Seq<char>
    decreases s.len(),
{
    if s.len() > 0 && is_space_char(s.last()) {
        spec_trim_end(s.drop_last())
    } else {
        s
    }
}

/// `s` without leading or trailing whitespace.
pub open spec fn spec_trim(s: Seq<char>) -> Seq<char> {
    spec_trim_end(spec_trim_start(s))
}

/// Trim leading and trailing whitespace from `s`.
pub fn trim_str(s: &str) -> (r: String)
    ensures
        r@ == spec_trim(s@),
{
    let len = s.unicode_len();
    let mut start: usize = 0;
    proof {
        assert(s@.skip(0) =~= s@);
    }
    while start < len && is_space(s.get_char(start))
        invariant
            start <= len,
            len == s@.len(),
            spec_trim_start(s@) == spec_trim_start(s@.skip(start as int)),
        decreases len - start,
    {
        proof {
            assert(s@.skip(start as int).first() == s@[start as int]);
            assert(s@.skip(start as int).drop_first() =~= s@.skip(start + 1));
        }
        start = start + 1;
    }
    proof {
        if start < len {
            assert(s@.skip(start as int).first() == s@[start as int]);
        } else {
            assert(s@.skip(start as int) =~= Seq::<char>::empty());
        }
        assert(spec_trim_start(s@) == s@.skip(start as int));
    }
    let mut end: usize = len;
    proof {
        assert(s@.subrange(start as int, end as int) =~= s@.skip(start as int));
    }
    while end > start && is_space(s.get_char(end - 1))
        invariant
            start <= end <= len,
            len == s@.len(),
            spec_trim_start(s@) == s@.skip(start as int),
            spec_trim_end(s@.skip(start as int)) == spec_trim_end(
                s@.subrange(start as int, end as int),
            ),
        decreases end,
    {
        proof {
            assert(s@.subrange(start as int, end as int).last() == s@[end - 1]);
            assert(s@.subrange(start as int, end as int).drop_last() =~= s@.subrange(
                start as int,
                end - 1,
            ));
        }
        end = end - 1;
    }
    proof {
        if end > start {
            assert(s@.subrange(start as int, end as int).last() == s@[end - 1]);
        } else {
            assert(s@.subrange(start as int, end as int) =~= Seq::<char>::empty());
        }
        assert(spec_trim_end(s@.subrange(start as int, end as int)) == s@.subrange(
            start as int,
            end as int,
        ));
    }
    let sub = s.substring_char(start, end);
    String::from_str(sub)
}

/// The suffix of `s` after its last `@` (all of `s` when it has none).
pub open spec fn spec_after_last_at(s: Seq<char>) -> Seq<char>
    decreases s.len(),
{
    if s.len() == 0 {
        s
    } else if s.last() == '@' {
        Seq::empty()
    } else {
        spec_after_last_at(s.drop_last()).push(s.last())
    }
}

/// Take the part of `s` after its last `@` marker.
pub fn after_last_at(s: &str) -> (r: String)
    ensures
        r@ == spec_after_last_at(s@),
{
    let len = s.unicode_len();
    let mut j: usize = len;
    proof {
        assert(s@.take(len as int) =~= s@);
        assert(s@.subrange(len as int, len as int) =~= Seq::<char>::empty());
    }
    while j > 0 && s.get_char(j - 1) != '@'
        invariant
            j <= len,
            len == s@.len(),
            spec_after_last_at(s@) == spec_after_last_at(s@.take(j as int)) + s@.subrange(
                j as int,
                len as int,
            ),
        decreases j,
    {
        proof {
            assert(s@.take(j as int).last() == s@[j - 1]);
            assert(s@.take(j as int).drop_last() =~= s@.take(j - 1));
            assert(spec_after_last_at(s@.take(j - 1)).push(s@[j - 1]) + s@.subrange(
                j as int,
                len as int,
            ) =~= spec_after_last_at(s@.take(j - 1)) + s@.subrange(j - 1, len as int));
        }
        j = j - 1;
    }
    proof {
        if j > 0 {
            assert(s@.take(j as int).last() == s@[j - 1]);
        } else {
            assert(s@.take(j as int) =~= Seq::<char>::empty());
        }
        assert(spec_after_last_at(s@.take(j as int)) =~= Seq::<char>::empty());
        assert(spec_after_last_at(s@) == s@.subrange(j as int, len as int));
    }
    let sub = s.substring_char(j, len);
    String::from_str(sub)
}

/// Index of the first newline in `s` (its length when it has none).
pub open spec fn spec_find_nl(s: Seq<char>) -> nat
    decreases s.len(),
{
    if s.len() == 0 {
        0
    } else if s.first() == '\n' {
        0
    } else {
        1 + spec_find_nl(s.drop_first())
    }
}

/// `s` without one trailing carriage return.
pub open spec fn spec_strip_cr(s: Seq<char>) -> Seq<char> {
    if s.len() > 0 && s.last() == '\r' {
        s.drop_last()
    } else {
        s
    }
}

/// The lines of `s`: split at newlines, each line stripped of one trailing
/// carriage return, with no extra empty line for a trailing newline.
pub open spec fn spec_lines(s: Seq<char>) -> Seq<Seq<char>>
    decreases s.len(),
{
    if s.len() == 0 {
        Seq::empty()
    } else {
        let i = spec_find_nl(s) as int;
        if i >= s.len() {
            seq![s]
        } else {
            seq![spec_strip_cr(s.take(i))] + spec_lines(s.skip(i + 1))
        }
    }
}

proof fn lemma_find_nl_at(s: Seq<char>, j: nat)
    requires
        j <= s.len(),
        forall|k: int| 0 <= k < j ==> s[k] != '\n',
        j == s.len() || s[j as int] == '\n',
    ensures
        spec_find_nl(s) == j,
    decreases j,
{
    if s.len() == 0 {
    } else if j == 0 {
    } else {
        assert(s.first() != '\n');
        lemma_find_nl_at(s.drop_first(), (j - 1) as nat);
    }
}

/// Split `s` into its lines.
pub fn split_lines(s: &str) -> (r: Vec<String>)
    ensures
        r.deep_view() == spec_lines(s@),
{
    let len = s.unicode_len();
    let mut out: Vec<String> = Vec::new();
    let mut pos: usize = 0;
    proof {
        assert(s@.skip(0) =~= s@);
        assert(out.deep_view() + spec_lines(s@) =~= spec_lines(s@));
    }
    while pos < len
        invariant
            pos <= len,
            len == s@.len(),
            out.deep_view() + spec_lines(s@.skip(pos as int)) == spec_lines(s@),
        decreases len - pos,
    {
        let ghost rest = s@.skip(pos as int);
        let mut j: usize = pos;
        while j < len && s.get_char(j) != '\n'
            invariant
                pos <= j <= len,
                len == s@.len(),
                forall|k: int| pos <= k < j ==> s@[k] != '\n',
            decreases len - j,
        {
            j = j + 1;
        }
        proof {
            assert(forall|k: int| 0 <= k < j - pos ==> rest[k] == s@[pos + k] && s@[pos + k]
                != '\n');
            if j < len {
                assert(rest[j - pos] == s@[j as int]);
            }
            lemma_find_nl_at(rest, (j - pos) as nat);
        }
        if j == len {
            // final line without a terminator
            let piece = s.substring_char(pos, len);
            let line = String::from_str(piece);
            proof {
                assert(rest =~= s@.subrange(pos as int, len as int));
                assert(spec_lines(rest) =~= seq![rest]);
            }
            out.push(line);
            pos = len;
            proof {
                assert(s@.skip(len as int) =~= Seq::<char>::empty());
                assert(out.deep_view() + spec_lines(s@.skip(pos as int)) =~= spec_lines(s@));
            }
        } else {
            let cut = if j > pos && s.get_char(j - 1) == '\r' {
                j - 1
            } else {
                j
            };
            let piece = s.substring_char(pos, cut);
            let line = String::from_str(piece);
            proof {
                assert(rest.take(j - pos) =~= s@.subrange(pos as int, j as int));
                if j > pos && s@[j - 1] == '\r' {
                    assert(rest.take(j - pos).last() == s@[j - 1]);
                    assert(rest.take(j - pos).drop_last() =~= s@.subrange(pos as int, j - 1));
                    assert(spec_strip_cr(rest.take(j - pos)) == s@.subrange(
                        pos as int,
                        cut as int,
                    ));
                } else {
                    assert(spec_strip_cr(rest.take(j - pos)) == s@.subrange(
                        pos as int,
                        cut as int,
                    ));
                }
                assert(rest.skip(j - pos + 1) =~= s@.skip(j + 1));
                assert(spec_lines(rest) == seq![s@.subrange(pos as int, cut as int)] + spec_lines(
                    s@.skip(j + 1),
                ));
            }
            out.push(line);
            pos = j + 1;
            proof {
                assert(out.deep_view() + spec_lines(s@.skip(pos as int)) =~= spec_lines(s@));
            }
        }
    }
    proof {
        assert(s@.skip(pos as int) =~= Seq::<char>::empty());
        assert(out.deep_view() + spec_lines(s@.skip(pos as int)) =~= out.deep_view());
    }
    out
}

} // verus!
