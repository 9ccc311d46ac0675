//! Trimming, splitting and joining.

use vstd::prelude::*;
use vstd::string::StringExecFns;
use crate::text;

verus! {

/// Unicode's `White_Space` property: what `char::is_whitespace` tests.
pub open spec fn is_space(c: char) -> bool {
    ||| '\u{9}' <= c <= '\u{d}'
    ||| c == '\u{20}'
    ||| c == '\u{85}'
    ||| c == '\u{a0}'
    ||| c == '\u{1680}'
    ||| '\u{2000}' <= c <= '\u{200a}'
    ||| c == '\u{2028}'
    ||| c == '\u{2029}'
    ||| c == '\u{202f}'
    ||| c == '\u{205f}'
    ||| c == '\u{3000}'
}

pub fn space(c: char) -> (r: bool)
    ensures
        r == is_space(c),
{
    ('\u{9}' <= c && c <= '\u{d}') || c == '\u{20}' || c == '\u{85}' || c == '\u{a0}' || c
        == '\u{1680}' || ('\u{2000}' <= c && c <= '\u{200a}') || c == '\u{2028}' || c
        == '\u{2029}' || c == '\u{202f}' || c == '\u{205f}' || c == '\u{3000}'
}

/// `s` without its leading white space.
pub open spec fn trim_start(s: Seq<char>) -> Seq<char>
    decreases s.len(),
{
    if s.len() > 0 && is_space(s[0]) {
        trim_start(s.drop_first())
    } else {
        s
    }
}

/// `s` without its trailing white space.
pub open spec fn trim_end(s: Seq<char>) -> Seq<char>
    decreases s.len(),
{
    if s.len() > 0 && is_space(s.last()) {
        trim_end(s.drop_last())
    } else {
        s
    }
}

/// `s` without white space at either end: `str::trim`.
pub open spec fn trimmed(s: Seq<char>) -> Seq<char> {
    trim_end(trim_start(s))
}

/// `s` without the `c`s at its end: `str::trim_end_matches`.
pub open spec fn without_trailing(s: Seq<char>, c: char) -> Seq<char>
    decreases s.len(),
{
    if s.len() > 0 && s.last() == c {
        without_trailing(s.drop_last(), c)
    } else {
        s
    }
}

pub proof fn trim_start_is(s: Seq<char>, i: int)
    requires
        0 <= i <= s.len(),
        forall|j: int| 0 <= j < i ==> is_space(s[j]),
        i < s.len() ==> !is_space(s[i]),
    ensures
        trim_start(s) == s.skip(i),
    decreases s.len(),
{
    if i > 0 {
        let t = s.drop_first();
        assert forall|j: int| 0 <= j < i - 1 implies is_space(t[j]) by {
            assert(t[j] == s[j + 1]);
        }
        trim_start_is(t, i - 1);
        assert(t.skip(i - 1) =~= s.skip(i));
    } else {
        assert(s.skip(0) =~= s);
    }
}

pub proof fn trim_end_is(s: Seq<char>, i: int)
    requires
        0 <= i <= s.len(),
        forall|j: int| i <= j < s.len() ==> is_space(s[j]),
        i > 0 ==> !is_space(s[i - 1]),
    ensures
        trim_end(s) == s.take(i),
    decreases s.len(),
{
    if i < s.len() {
        let t = s.drop_last();
        assert forall|j: int| i <= j < t.len() implies is_space(t[j]) by {
            assert(t[j] == s[j]);
        }
        trim_end_is(t, i);
        assert(t.take(i) =~= s.take(i));
    } else {
        assert(s.take(i) =~= s);
    }
}

/// Trimming leaves no white space at either end, and a second trim changes nothing.
pub proof fn trimmed_is_trimmed(s: Seq<char>)
    ensures
        trimmed(s).len() > 0 ==> !is_space(trimmed(s)[0]) && !is_space(trimmed(s).last()),
        trimmed(trimmed(s)) == trimmed(s),
        trimmed(s).len() <= s.len(),
{
    let a = trim_start(s);
    trim_start_props(s);
    trim_end_props(a);
    let b = trim_end(a);
    if b.len() > 0 {
        assert(b[0] == a[0]);
    }
}

pub proof fn trim_start_props(s: Seq<char>)
    ensures
        trim_start(s).len() <= s.len(),
        trim_start(s) == s.skip(s.len() - trim_start(s).len()),
        trim_start(s).len() > 0 ==> !is_space(trim_start(s)[0]),
        forall|j: int| 0 <= j < s.len() - trim_start(s).len() ==> is_space(s[j]),
    decreases s.len(),
{
    if s.len() > 0 && is_space(s[0]) {
        let t = s.drop_first();
        trim_start_props(t);
        assert(t.skip(t.len() - trim_start(t).len()) =~= s.skip(s.len() - trim_start(s).len()));
        assert forall|j: int| 0 <= j < s.len() - trim_start(s).len() implies is_space(s[j]) by {
            if j > 0 {
                assert(s[j] == t[j - 1]);
            }
        }
    } else {
        assert(s.skip(0) =~= s);
    }
}

pub proof fn trim_end_props(s: Seq<char>)
    ensures
        trim_end(s).len() <= s.len(),
        trim_end(s) == s.take(trim_end(s).len() as int),
        trim_end(s).len() > 0 ==> !is_space(trim_end(s).last()),
    decreases s.len(),
{
    if s.len() > 0 && is_space(s.last()) {
        let t = s.drop_last();
        trim_end_props(t);
        assert(t.take(trim_end(t).len() as int) =~= s.take(trim_end(s).len() as int));
    } else {
        assert(s.take(s.len() as int) =~= s);
    }
}

/// `v[lo..hi]` with the white space at its ends cut off, as bounds.
fn trim_bounds(v: &Vec<char>) -> (r: (usize, usize))
    ensures
        r.0 <= r.1 <= v@.len(),
        trimmed(v@) == v@.subrange(r.0 as int, r.1 as int),
        trim_start(v@) == v@.skip(r.0 as int),
{
    let n: usize = v.len();
    let mut lo: usize = 0;
    while lo < n && space(v[lo])
        invariant
            lo <= n == v@.len(),
            forall|j: int| 0 <= j < lo ==> is_space(v@[j]),
        decreases n - lo,
    {
        lo = lo + 1;
    }
    proof {
        trim_start_is(v@, lo as int);
    }
    let mut hi: usize = n;
    while hi > lo && space(v[hi - 1])
        invariant
            lo <= hi <= n == v@.len(),
            forall|j: int| hi <= j < n ==> is_space(v@[j]),
        decreases hi,
    {
        hi = hi - 1;
    }
    proof {
        trim_end_is(v@.skip(lo as int), hi - lo);
        assert(v@.skip(lo as int).take(hi - lo) =~= v@.subrange(lo as int, hi as int));
    }
    (lo, hi)
}

pub fn trim(s: &str) -> (r: String)
    ensures
        r@ == trimmed(s@),
{
    let v: Vec<char> = text::to_chars(s);
    let (lo, hi): (usize, usize) = trim_bounds(&v);
    text::string_of(&v, lo, hi)
}

/// Whether `s` is white space throughout: `s.trim().is_empty()`.
pub open spec fn is_blank(s: Seq<char>) -> bool {
    trimmed(s).len() == 0
}

pub fn blank(s: &str) -> (r: bool)
    ensures
        r == is_blank(s@),
{
    let v: Vec<char> = text::to_chars(s);
    let (lo, hi): (usize, usize) = trim_bounds(&v);
    lo == hi
}

pub fn trim_end_char(s: &str, c: char) -> (r: String)
    ensures
        r@ == without_trailing(s@, c),
{
    let v: Vec<char> = text::to_chars(s);
    let mut hi: usize = v.len();
    proof {
        assert(v@.take(hi as int) =~= v@);
    }
    while hi > 0 && v[hi - 1] == c
        invariant
            hi <= v@.len(),
            without_trailing(v@.take(hi as int), c) == without_trailing(v@, c),
        decreases hi,
    {
        proof {
            assert(v@.take(hi as int).drop_last() =~= v@.take(hi - 1));
        }
        hi = hi - 1;
    }
    let r: String = text::string_of(&v, 0, hi);
    proof {
        assert(r@ =~= v@.take(hi as int));
    }
    r
}

pub fn trim_right(s: &str) -> (r: String)
    ensures
        r@ == trim_end(s@),
{
    let v: Vec<char> = text::to_chars(s);
    let mut hi: usize = v.len();
    proof {
        assert(v@.take(hi as int) =~= v@);
    }
    while hi > 0 && space(v[hi - 1])
        invariant
            hi <= v@.len(),
            trim_end(v@.take(hi as int)) == trim_end(v@),
        decreases hi,
    {
        proof {
            assert(v@.take(hi as int).drop_last() =~= v@.take(hi - 1));
        }
        hi = hi - 1;
    }
    let r: String = text::string_of(&v, 0, hi);
    proof {
        assert(r@ =~= v@.take(hi as int));
    }
    r
}

/// `s` without the `c`s at its beginning: `str::trim_start_matches`.
pub open spec fn without_leading(s: Seq<char>, c: char) -> Seq<char>
    decreases s.len(),
{
    if s.len() > 0 && s[0] == c {
        without_leading(s.drop_first(), c)
    } else {
        s
    }
}

/// `s` without the `c`s at either end: `str::trim_matches`.
pub open spec fn stripped(s: Seq<char>, c: char) -> Seq<char> {
    without_trailing(without_leading(s, c), c)
}

pub fn strip_char(s: &str, c: char) -> (r: String)
    ensures
        r@ == stripped(s@, c),
{
    let v: Vec<char> = text::to_chars(s);
    let n: usize = v.len();
    let mut lo: usize = 0;
    proof {
        assert(v@.skip(0) =~= v@);
    }
    while lo < n && v[lo] == c
        invariant
            lo <= n == v@.len(),
            without_leading(v@.skip(lo as int), c) == without_leading(v@, c),
        decreases n - lo,
    {
        proof {
            assert(v@.skip(lo as int).drop_first() =~= v@.skip(lo + 1));
        }
        lo = lo + 1;
    }
    let t: String = text::string_of(&v, lo, n);
    proof {
        assert(t@ =~= v@.skip(lo as int));
    }
    trim_end_char(t.as_str(), c)
}

// ---------------------------------------------------------------------------
// Splitting
// ---------------------------------------------------------------------------

/// The pieces of `s` between the `c`s: `str::split`.
pub open spec fn pieces(s: Seq<char>, c: char) -> Seq<Seq<char>>
    decreases s.len(),
    via pieces_decreases
{
    let i = text::find_char(s, c);
    if i < s.len() {
        seq![s.take(i)] + pieces(s.skip(i + 1), c)
    } else {
        seq![s]
    }
}

#[via_fn]
proof fn pieces_decreases(s: Seq<char>, c: char) {
    text::find_char_props(s, c);
}

pub fn split(s: &str, c: char) -> (r: Vec<String>)
    ensures
        text::views(r@) == pieces(s@, c),
{
    broadcast use text::views_push;
    let v: Vec<char> = text::to_chars(s);
    let n: usize = v.len();
    let mut out: Vec<String> = Vec::new();
    let mut from: usize = 0;
    proof {
        assert(v@.skip(0) =~= v@);
        assert(text::views(out@) + pieces(v@, c) =~= pieces(v@, c));
    }
    loop
        invariant
            from <= n == v@.len(),
            v@ == s@,
            text::views(out@) + pieces(v@.skip(from as int), c) == pieces(v@, c),
        decreases n - from,
    {
        let i: usize = text::find_from(&v, c, from);
        let piece: String = text::string_of(&v, from, i);
        let ghost rest = v@.skip(from as int);
        proof {
            assert(v@.subrange(from as int, n as int) =~= rest);
        }
        if i == n {
            proof {
                assert(piece@ =~= rest);
                assert(text::views(out@).push(piece@) =~= text::views(out@) + seq![rest]);
            }
            out.push(piece);
            return out;
        }
        proof {
            assert(piece@ =~= rest.take(i - from));
            assert(rest.skip(i - from + 1) =~= v@.skip(i + 1));
            assert(text::views(out@).push(piece@) + pieces(v@.skip(i + 1), c) =~= text::views(out@) + (seq![piece@]
                + pieces(v@.skip(i + 1), c)));
        }
        out.push(piece);
        from = i + 1;
    }
}

/// A line without the carriage return that ends it.
pub open spec fn without_cr(s: Seq<char>) -> Seq<char> {
    if s.len() > 0 && s.last() == '\r' {
        s.drop_last()
    } else {
        s
    }
}

/// The lines of `s`, each without its line ending: `str::lines`.
pub open spec fn lines_of(s: Seq<char>) -> Seq<Seq<char>>
    decreases s.len(),
    via lines_of_decreases
{
    let i = text::find_char(s, '\n');
    if s.len() == 0 {
        Seq::empty()
    } else if i < s.len() {
        seq![without_cr(s.take(i))] + lines_of(s.skip(i + 1))
    } else {
        seq![s]
    }
}

#[via_fn]
proof fn lines_of_decreases(s: Seq<char>) {
    text::find_char_props(s, '\n');
}

pub fn lines(s: &str) -> (r: Vec<String>)
    ensures
        text::views(r@) == lines_of(s@),
{
    broadcast use text::views_push;
    let v: Vec<char> = text::to_chars(s);
    let n: usize = v.len();
    let mut out: Vec<String> = Vec::new();
    let mut from: usize = 0;
    proof {
        assert(v@.skip(0) =~= v@);
        assert(text::views(out@) + lines_of(v@) =~= lines_of(v@));
    }
    while from < n
        invariant
            from <= n == v@.len(),
            v@ == s@,
            text::views(out@) + lines_of(v@.skip(from as int)) == lines_of(v@),
        decreases n - from,
    {
        let i: usize = text::find_from(&v, '\n', from);
        let ghost rest = v@.skip(from as int);
        proof {
            assert(v@.subrange(from as int, n as int) =~= rest);
        }
        if i == n {
            let piece: String = text::string_of(&v, from, i);
            proof {
                assert(piece@ =~= rest);
                assert(text::views(out@).push(piece@) =~= text::views(out@) + seq![rest]);
            }
            out.push(piece);
            return out;
        }
        let end: usize = if i > from && v[i - 1] == '\r' {
            i - 1
        } else {
            i
        };
        let piece: String = text::string_of(&v, from, end);
        proof {
            assert(piece@ =~= without_cr(rest.take(i - from)));
            assert(rest.skip(i - from + 1) =~= v@.skip(i + 1));
            assert(text::views(out@).push(piece@) + lines_of(v@.skip(i + 1)) =~= text::views(out@) + (seq![
                piece@,
            ] + lines_of(v@.skip(i + 1))));
        }
        out.push(piece);
        from = i + 1;
    }
    proof {
        assert(v@.skip(from as int) =~= Seq::<char>::empty());
        assert(text::views(out@) + Seq::<Seq<char>>::empty() =~= text::views(out@));
    }
    out
}

/// The index of the first white space in `s`, or `s.len()`.
pub open spec fn find_space(s: Seq<char>) -> int
    decreases s.len(),
{
    if s.len() == 0 || is_space(s[0]) {
        0
    } else {
        1 + find_space(s.drop_first())
    }
}

pub proof fn find_space_is(s: Seq<char>, i: int)
    requires
        0 <= i <= s.len(),
        forall|j: int| 0 <= j < i ==> !is_space(s[j]),
        i < s.len() ==> is_space(s[i]),
    ensures
        find_space(s) == i,
    decreases s.len(),
{
    if i > 0 {
        let t = s.drop_first();
        assert forall|j: int| 0 <= j < i - 1 implies !is_space(t[j]) by {
            assert(t[j] == s[j + 1]);
        }
        find_space_is(t, i - 1);
    }
}

pub proof fn find_space_props(s: Seq<char>)
    ensures
        0 <= find_space(s) <= s.len(),
        s.len() > 0 && !is_space(s[0]) ==> find_space(s) > 0,
    decreases s.len(),
{
    if s.len() > 0 && !is_space(s[0]) {
        find_space_props(s.drop_first());
    }
}

/// The words of `s`: `str::split_whitespace`.
pub open spec fn words_of(s: Seq<char>) -> Seq<Seq<char>>
    decreases s.len(),
    via words_of_decreases
{
    let t = trim_start(s);
    if t.len() == 0 {
        Seq::empty()
    } else {
        seq![t.take(find_space(t))] + words_of(t.skip(find_space(t)))
    }
}

#[via_fn]
proof fn words_of_decreases(s: Seq<char>) {
    trim_start_props(s);
    find_space_props(trim_start(s));
}

pub fn words(s: &str) -> (r: Vec<String>)
    ensures
        text::views(r@) == words_of(s@),
{
    broadcast use text::views_push;
    let v: Vec<char> = text::to_chars(s);
    let n: usize = v.len();
    let mut out: Vec<String> = Vec::new();
    let mut from: usize = 0;
    proof {
        assert(v@.skip(0) =~= v@);
        assert(text::views(out@) + words_of(v@) =~= words_of(v@));
    }
    loop
        invariant
            from <= n == v@.len(),
            v@ == s@,
            text::views(out@) + words_of(v@.skip(from as int)) == words_of(v@),
        decreases n - from,
    {
        let ghost rest = v@.skip(from as int);
        let mut i: usize = from;
        while i < n && space(v[i])
            invariant
                from <= i <= n == v@.len(),
                forall|j: int| from <= j < i ==> is_space(v@[j]),
            decreases n - i,
        {
            i = i + 1;
        }
        proof {
            trim_start_is(rest, i - from);
            assert(rest.skip(i - from) =~= v@.skip(i as int));
        }
        if i == n {
            proof {
                assert(text::views(out@) + Seq::<Seq<char>>::empty() =~= text::views(out@));
            }
            return out;
        }
        let mut k: usize = i;
        while k < n && !space(v[k])
            invariant
                i <= k <= n == v@.len(),
                forall|j: int| i <= j < k ==> !is_space(v@[j]),
            decreases n - k,
        {
            k = k + 1;
        }
        let word: String = text::string_of(&v, i, k);
        proof {
            let t = v@.skip(i as int);
            find_space_is(t, k - i);
            assert(word@ =~= t.take(k - i));
            assert(t.skip(k - i) =~= v@.skip(k as int));
            assert(text::views(out@).push(word@) + words_of(v@.skip(k as int)) =~= text::views(out@) + (seq![word@]
                + words_of(v@.skip(k as int))));
        }
        out.push(word);
        from = k;
    }
}

// ---------------------------------------------------------------------------
// Joining
// ---------------------------------------------------------------------------

/// The parts with `sep` between them: `join`.
pub open spec fn joined(parts: Seq<Seq<char>>, sep: Seq<char>) -> Seq<char>
    decreases parts.len(),
{
    if parts.len() == 0 {
        Seq::empty()
    } else if parts.len() == 1 {
        parts[0]
    } else {
        joined(parts.drop_last(), sep) + sep + parts.last()
    }
}

pub fn join(parts: &Vec<String>, sep: &str) -> (r: String)
    ensures
        r@ == joined(text::views(parts@), sep@),
{
    if parts.len() == 0 {
        return String::new();
    }
    let mut out: String = parts[0].clone();
    let mut i: usize = 1;
    proof {
        assert(text::views(parts@).take(1) =~= seq![parts@[0]@]);
    }
    while i < parts.len()
        invariant
            1 <= i <= parts@.len(),
            out@ == joined(text::views(parts@).take(i as int), sep@),
        decreases parts@.len() - i,
    {
        out.append(sep);
        out.append(parts[i].as_str());
        proof {
            let next = text::views(parts@).take(i + 1);
            assert(next.drop_last() =~= text::views(parts@).take(i as int));
            assert(next.last() == parts@[i as int]@);
        }
        i = i + 1;
    }
    proof {
        assert(text::views(parts@).take(i as int) =~= text::views(parts@));
    }
    out
}

// ---------------------------------------------------------------------------
// Case
// ---------------------------------------------------------------------------

/// `char::to_ascii_lowercase`.
pub open spec fn lower_char(c: char) -> char {
    if 'A' <= c <= 'Z' {
        ((c as u32) + 32) as char
    } else {
        c
    }
}

/// `str::to_ascii_lowercase`.
pub open spec fn lowered(s: Seq<char>) -> Seq<char> {
    Seq::new(s.len(), |i: int| lower_char(s[i]))
}

fn lower_char_exec(c: char) -> (r: char)
    ensures
        r == lower_char(c),
{
    if 'A' <= c && c <= 'Z' {
        ((c as u8) + 32) as char
    } else {
        c
    }
}

pub fn to_lower(s: &str) -> (r: String)
    ensures
        r@ == lowered(s@),
{
    let v: Vec<char> = text::to_chars(s);
    let mut out: String = String::new();
    let mut i: usize = 0;
    while i < v.len()
        invariant
            i <= v@.len(),
            v@ == s@,
            out@ == lowered(v@.take(i as int)),
        decreases v@.len() - i,
    {
        out.push(lower_char_exec(v[i]));
        proof {
            assert(lowered(v@.take(i + 1)) =~= lowered(v@.take(i as int)).push(lower_char(v@[i as int])));
        }
        i = i + 1;
    }
    proof {
        assert(v@.take(i as int) =~= v@);
    }
    out
}

/// What `str::to_lowercase` makes of a text that is not ASCII.
pub uninterp spec fn lowercased(s: Seq<char>) -> Seq<char>;

/// `str::to_lowercase`: on ASCII text it lowers the letters; on other text it goes by the
/// Unicode tables.
#[verifier::external_body]
pub(crate) fn to_lowercase(s: &str) -> (r: String)
    ensures
        r@ == (if vstd::utf8::is_ascii_chars(s@) {
            lowered(s@)
        } else {
            lowercased(s@)
        }),
{
    s.to_lowercase()
}

} // verus!
