//! Character-level text: what `&str` and `String` hold is a `Seq<char>`.

use vstd::prelude::*;
use vstd::string::StringExecFns;

verus! {

/// `String::push`: the character goes to the end.
pub assume_specification[ String::push ](s: &mut String, ch: char)
    ensures
        final(s)@ == old(s)@.push(ch),
;

/// `==` on `str`: equal exactly when the characters are.
pub assume_specification[ <str as PartialEq>::eq ](a: &str, b: &str) -> (r: bool)
    ensures
        r == (a@ == b@),
;

/// What `{:?}` writes for a `str`.
pub uninterp spec fn quoted(s: Seq<char>) -> Seq<char>;

/// `str`'s `Debug`: the string in double quotes, with special characters escaped.
#[verifier::external_body]
pub(crate) fn quote(s: &str) -> (r: String)
    ensures
        r@ == quoted(s@),
{
    format!("{:?}", s)
}

/// What `{:?}` writes for a list of strings.
pub open spec fn quoted_list(v: Seq<Seq<char>>) -> Seq<char> {
    "["@ + crate::split::joined(Seq::new(v.len(), |i: int| quoted(v[i])), ", "@) + "]"@
}

/// A list of strings in square brackets, each quoted.
pub fn quote_list(v: &Vec<String>) -> (r: String)
    ensures
        r@ == quoted_list(views(v@)),
{
    let ghost vs = views(v@);
    let mut parts: Vec<String> = Vec::new();
    let mut i: usize = 0;
    while i < v.len()
        invariant
            i <= v@.len(),
            vs == views(v@),
            parts@.len() == i,
            forall|j: int| 0 <= j < i ==> (#[trigger] parts@[j])@ == quoted(vs[j]),
        decreases v@.len() - i,
    {
        proof {
            assert(vs[i as int] == v@[i as int]@);
        }
        parts.push(quote(v[i].as_str()));
        i = i + 1;
    }
    proof {
        assert(views(parts@) =~= Seq::new(vs.len(), |i: int| quoted(vs[i])));
    }
    let mut out: String = "[".to_owned();
    out.append(crate::split::join(&parts, ", ").as_str());
    out.append("]");
    out
}

/// `String::from_utf8`: the text that the bytes encode, where they are valid UTF-8.
#[verifier::external_body]
pub(crate) fn utf8_string(bytes: Vec<u8>) -> (r: Option<String>)
    ensures
        r is Some <==> vstd::utf8::valid_utf8(bytes@),
        r matches Some(s) ==> vstd::utf8::encode_utf8(s@) == bytes@,
{
    String::from_utf8(bytes).ok()
}

/// The characters of each string.
pub open spec fn views(s: Seq<String>) -> Seq<Seq<char>> {
    Seq::new(s.len(), |i: int| s[i]@)
}

pub broadcast proof fn views_push(s: Seq<String>, x: String)
    ensures
        #[trigger] views(s.push(x)) == views(s).push(x@),
{
    assert(views(s.push(x)) =~= views(s).push(x@));
}

/// The characters of `s` as a vector.
pub fn to_chars(s: &str) -> (r: Vec<char>)
    ensures
        r@ == s@,
{
    let mut out: Vec<char> = Vec::new();
    for c in it: s.chars()
        invariant
            out@ == it.seq().take(it.index() as int),
            it.seq() == s@,
    {
        proof {
            assert(it.seq().take(it.index() as int + 1) =~= it.seq().take(it.index() as int).push(c));
        }
        out.push(c);
    }
    proof {
        assert(s@.take(s@.len() as int) =~= s@);
    }
    out
}

/// The characters `lo..hi` of `v` as a string.
pub fn string_of(v: &Vec<char>, lo: usize, hi: usize) -> (r: String)
    requires
        lo <= hi <= v@.len(),
    ensures
        r@ == v@.subrange(lo as int, hi as int),
{
    let mut out: String = String::new();
    let mut i: usize = lo;
    while i < hi
        invariant
            lo <= i <= hi <= v@.len(),
            out@ == v@.subrange(lo as int, i as int),
        decreases hi - i,
    {
        out.push(v[i]);
        proof {
            assert(v@.subrange(lo as int, i as int + 1) =~= v@.subrange(lo as int, i as int).push(v@[i as int]));
        }
        i = i + 1;
    }
    out
}

/// Whether two strings hold the same characters.
pub fn same(a: &str, b: &str) -> (r: bool)
    ensures
        r == (a@ == b@),
{
    *a == *b
}


/// What an optional string behind a reference holds.
pub open spec fn ref_view(r: Option<&String>) -> Option<Seq<char>> {
    match r {
        Some(a) => Some(a@),
        None => None,
    }
}

/// A copy of an optional string.
pub fn copy_opt(s: &Option<String>) -> (r: Option<String>)
    ensures
        opt_view(r) == opt_view(*s),
{
    match s {
        Some(x) => Some(x.clone()),
        None => None,
    }
}

/// Whether one of the strings is `s`.
pub fn has_string(v: &Vec<String>, s: &str) -> (r: bool)
    ensures
        r == views(v@).contains(s@),
{
    let mut i: usize = 0;
    while i < v.len()
        invariant
            i <= v@.len(),
            forall|j: int| 0 <= j < i ==> #[trigger] v@[j]@ != s@,
        decreases v@.len() - i,
    {
        if same(v[i].as_str(), s) {
            proof {
                assert(views(v@)[i as int] == s@);
            }
            return true;
        }
        i = i + 1;
    }
    proof {
        assert forall|j: int| 0 <= j < views(v@).len() implies views(v@)[j] != s@ by {
            assert(v@[j]@ != s@);
        }
    }
    false
}

/// A copy of each string.
pub fn copy_strings(v: &Vec<String>) -> (r: Vec<String>)
    ensures
        views(r@) == views(v@),
        r@.len() == v@.len(),
{
    let mut out: Vec<String> = Vec::new();
    let mut i: usize = 0;
    while i < v.len()
        invariant
            i <= v@.len(),
            out@.len() == i,
            forall|j: int| 0 <= j < i ==> out@[j]@ == #[trigger] v@[j]@,
        decreases v@.len() - i,
    {
        out.push(v[i].clone());
        i = i + 1;
    }
    proof {
        assert(views(out@) =~= views(v@));
    }
    out
}

// ---------------------------------------------------------------------------
// Searching
// ---------------------------------------------------------------------------

/// The index of the first `c` in `s`, or `s.len()` when there is none.
pub open spec fn find_char(s: Seq<char>, c: char) -> int
    decreases s.len(),
{
    if s.len() == 0 {
        0
    } else if s[0] == c {
        0
    } else {
        1 + find_char(s.drop_first(), c)
    }
}

/// The index of the last `c` in `s`, or `-1` when there is none.
pub open spec fn rfind_char(s: Seq<char>, c: char) -> int
    decreases s.len(),
{
    if s.len() == 0 {
        -1
    } else if s.last() == c {
        s.len() - 1
    } else {
        rfind_char(s.drop_last(), c)
    }
}

pub proof fn find_char_is(s: Seq<char>, c: char, i: int)
    requires
        0 <= i <= s.len(),
        forall|j: int| 0 <= j < i ==> s[j] != c,
        i < s.len() ==> s[i] == c,
    ensures
        find_char(s, c) == i,
    decreases s.len(),
{
    if s.len() > 0 && i > 0 {
        let t = s.drop_first();
        assert forall|j: int| 0 <= j < i - 1 implies t[j] != c by {
            assert(t[j] == s[j + 1]);
        }
        find_char_is(t, c, i - 1);
    }
}

pub proof fn find_char_props(s: Seq<char>, c: char)
    ensures
        0 <= find_char(s, c) <= s.len(),
        forall|j: int| 0 <= j < find_char(s, c) ==> s[j] != c,
        find_char(s, c) < s.len() ==> s[find_char(s, c)] == c,
    decreases s.len(),
{
    if s.len() > 0 && s[0] != c {
        let t = s.drop_first();
        find_char_props(t, c);
        assert forall|j: int| 0 <= j < find_char(s, c) implies s[j] != c by {
            if j > 0 {
                assert(s[j] == t[j - 1]);
            }
        }
    }
}

pub proof fn rfind_char_is(s: Seq<char>, c: char, i: int)
    requires
        -1 <= i < s.len(),
        forall|j: int| i < j < s.len() ==> s[j] != c,
        i >= 0 ==> s[i] == c,
    ensures
        rfind_char(s, c) == i,
    decreases s.len(),
{
    if s.len() > 0 && i < s.len() - 1 {
        let t = s.drop_last();
        assert forall|j: int| i < j < t.len() implies t[j] != c by {
            assert(t[j] == s[j]);
        }
        rfind_char_is(t, c, i);
    }
}

/// Index of the first `c` at or after `from`, or the length.
pub fn find_from(v: &Vec<char>, c: char, from: usize) -> (r: usize)
    requires
        from <= v@.len(),
    ensures
        from <= r <= v@.len(),
        r - from == find_char(v@.subrange(from as int, v@.len() as int), c),
        forall|j: int| from <= j < r ==> v@[j] != c,
        r < v@.len() ==> v@[r as int] == c,
{
    let mut i: usize = from;
    while i < v.len() && v[i] != c
        invariant
            from <= i <= v@.len(),
            forall|j: int| from <= j < i ==> v@[j] != c,
        decreases v@.len() - i,
    {
        i = i + 1;
    }
    proof {
        find_char_is(v@.subrange(from as int, v@.len() as int), c, i - from);
    }
    i
}

/// The two sides of the first `c`: `str::split_once`.
pub open spec fn split_once_spec(s: Seq<char>, c: char) -> Option<(Seq<char>, Seq<char>)> {
    let i = find_char(s, c);
    if i < s.len() {
        Some((s.take(i), s.skip(i + 1)))
    } else {
        None
    }
}

/// The two sides of the last `c`: `str::rsplit_once`.
pub open spec fn rsplit_once_spec(s: Seq<char>, c: char) -> Option<(Seq<char>, Seq<char>)> {
    let i = rfind_char(s, c);
    if i >= 0 {
        Some((s.take(i), s.skip(i + 1)))
    } else {
        None
    }
}

/// An optional pair of strings as an optional pair of character sequences.
pub open spec fn pair_view(r: Option<(String, String)>) -> Option<(Seq<char>, Seq<char>)> {
    match r {
        Some((a, b)) => Some((a@, b@)),
        None => None,
    }
}

/// An optional string as an optional character sequence.
pub open spec fn opt_view(r: Option<String>) -> Option<Seq<char>> {
    match r {
        Some(a) => Some(a@),
        None => None,
    }
}

pub fn split_once(s: &str, c: char) -> (r: Option<(String, String)>)
    ensures
        pair_view(r) == split_once_spec(s@, c),
{
    let v: Vec<char> = to_chars(s);
    let i: usize = find_from(&v, c, 0);
    proof {
        assert(v@.subrange(0, v@.len() as int) =~= v@);
    }
    if i < v.len() {
        let a: String = string_of(&v, 0, i);
        let b: String = string_of(&v, i + 1, v.len());
        proof {
            assert(a@ =~= s@.take(i as int));
            assert(b@ =~= s@.skip(i + 1));
        }
        Some((a, b))
    } else {
        None
    }
}

pub fn rsplit_once(s: &str, c: char) -> (r: Option<(String, String)>)
    ensures
        pair_view(r) == rsplit_once_spec(s@, c),
{
    let v: Vec<char> = to_chars(s);
    let n: usize = v.len();
    let mut i: usize = n;
    while i > 0 && v[i - 1] != c
        invariant
            i <= n == v@.len(),
            forall|j: int| i <= j < n ==> v@[j] != c,
        decreases i,
    {
        i = i - 1;
    }
    proof {
        rfind_char_is(v@, c, i - 1);
    }
    if i > 0 {
        let a: String = string_of(&v, 0, i - 1);
        let b: String = string_of(&v, i, n);
        proof {
            assert(a@ =~= s@.take(i - 1));
            assert(b@ =~= s@.skip(i as int));
        }
        Some((a, b))
    } else {
        None
    }
}

/// Whether `c` occurs in `s`.
pub fn has_char(s: &str, c: char) -> (r: bool)
    ensures
        r == s@.contains(c),
{
    let v: Vec<char> = to_chars(s);
    let i: usize = find_from(&v, c, 0);
    if i < v.len() {
        proof {
            assert(s@[i as int] == c);
        }
        true
    } else {
        false
    }
}

/// Whether `p` stands in `s` at index `i`.
pub open spec fn stands_at(s: Seq<char>, p: Seq<char>, i: int) -> bool {
    0 <= i && i + p.len() <= s.len() && s.subrange(i, i + p.len()) == p
}

/// Whether `p` stands somewhere in `s`: `str::contains`.
pub open spec fn has_text(s: Seq<char>, p: Seq<char>) -> bool {
    exists|i: int| stands_at(s, p, i)
}

fn stands_at_exec(v: &Vec<char>, p: &Vec<char>, i: usize) -> (r: bool)
    requires
        i <= v@.len(),
    ensures
        r == stands_at(v@, p@, i as int),
{
    if p.len() > v.len() - i {
        return false;
    }
    let n: usize = v.len();
    let mut k: usize = 0;
    while k < p.len()
        invariant
            k <= p@.len(),
            n == v@.len(),
            i + p@.len() <= v@.len(),
            forall|j: int| 0 <= j < k ==> v@[i + j] == p@[j],
        decreases p@.len() - k,
    {
        if v[i + k] != p[k] {
            proof {
                assert(v@.subrange(i as int, i + p@.len())[k as int] != p@[k as int]);
            }
            return false;
        }
        k = k + 1;
    }
    proof {
        assert(v@.subrange(i as int, i + p@.len()) =~= p@);
    }
    true
}

/// The first index at which `p` stands in `s`, or `s.len() + 1` when nowhere.
pub open spec fn find_text(s: Seq<char>, p: Seq<char>) -> int
    decreases s.len(),
{
    if stands_at(s, p, 0) {
        0
    } else if s.len() == 0 {
        1
    } else {
        1 + find_text(s.drop_first(), p)
    }
}

pub proof fn find_text_is(s: Seq<char>, p: Seq<char>, i: int)
    requires
        0 <= i <= s.len() + 1,
        forall|j: int| 0 <= j < i ==> !stands_at(s, p, j),
        i <= s.len() ==> stands_at(s, p, i),
    ensures
        find_text(s, p) == i,
    decreases s.len(),
{
    if i > 0 && s.len() > 0 {
        assert(!stands_at(s, p, 0));
        let t = s.drop_first();
        assert forall|j: int| 0 <= j < i - 1 implies !stands_at(t, p, j) by {
            if stands_at(t, p, j) {
                assert(t.subrange(j, j + p.len()) =~= s.subrange(j + 1, j + 1 + p.len()));
                assert(stands_at(s, p, j + 1));
            }
        }
        if i <= s.len() {
            assert(t.subrange(i - 1, i - 1 + p.len()) =~= s.subrange(i, i + p.len()));
        }
        find_text_is(t, p, i - 1);
    } else if i > 0 {
        assert(!stands_at(s, p, 0));
    }
}

fn find_text_exec(v: &Vec<char>, p: &Vec<char>) -> (r: Option<usize>)
    ensures
        match r {
            Some(i) => i == find_text(v@, p@) && stands_at(v@, p@, i as int),
            None => find_text(v@, p@) == v@.len() + 1 && !has_text(v@, p@),
        },
{
    let mut i: usize = 0;
    loop
        invariant
            i <= v@.len(),
            forall|j: int| 0 <= j < i ==> !stands_at(v@, p@, j),
        decreases v@.len() - i,
    {
        if stands_at_exec(v, p, i) {
            proof {
                find_text_is(v@, p@, i as int);
            }
            return Some(i);
        }
        if i == v.len() {
            proof {
                find_text_is(v@, p@, i + 1);
                assert forall|j: int| !stands_at(v@, p@, j) by {}
            }
            return None;
        }
        i = i + 1;
    }
}

/// Whether `p` occurs in `s`.
pub fn contains(s: &str, p: &str) -> (r: bool)
    ensures
        r == has_text(s@, p@),
{
    let v: Vec<char> = to_chars(s);
    let q: Vec<char> = to_chars(p);
    match find_text_exec(&v, &q) {
        Some(_) => true,
        None => false,
    }
}

/// The last index up to `i` at which `p` stands in `s`, or -1 when nowhere.
pub open spec fn rfind_text(s: Seq<char>, p: Seq<char>, i: int) -> int
    decreases i + 1,
{
    if i < 0 {
        -1
    } else if stands_at(s, p, i) {
        i
    } else {
        rfind_text(s, p, i - 1)
    }
}

/// The two sides of the last `p`: `str::rsplit_once` with a string pattern.
pub open spec fn rsplit_at_text(s: Seq<char>, p: Seq<char>) -> Option<(Seq<char>, Seq<char>)> {
    let i = rfind_text(s, p, s.len() - p.len());
    if i >= 0 {
        Some((s.take(i), s.skip(i + p.len())))
    } else {
        None
    }
}

pub fn rsplit_once_text(s: &str, p: &str) -> (r: Option<(String, String)>)
    ensures
        pair_view(r) == rsplit_at_text(s@, p@),
{
    let v: Vec<char> = to_chars(s);
    let q: Vec<char> = to_chars(p);
    let n: usize = v.len();
    if q.len() > n {
        return None;
    }
    let mut i: usize = n - q.len();
    loop
        invariant
            v@ == s@,
            q@ == p@,
            n == v@.len(),
            i + q@.len() <= n,
            rfind_text(s@, p@, i as int) == rfind_text(s@, p@, s@.len() - p@.len()),
        decreases i,
    {
        if stands_at_exec(&v, &q, i) {
            let a: String = string_of(&v, 0, i);
            let b: String = string_of(&v, i + q.len(), n);
            proof {
                assert(a@ =~= s@.take(i as int));
                assert(b@ =~= s@.skip(i + p@.len()));
            }
            return Some((a, b));
        }
        if i == 0 {
            proof {
                assert(rfind_text(s@, p@, -1) == -1);
            }
            return None;
        }
        i = i - 1;
    }
}

/// Whether `s` begins with `p`.
pub open spec fn has_prefix(s: Seq<char>, p: Seq<char>) -> bool {
    stands_at(s, p, 0)
}

/// Whether `s` ends with `p`.
pub open spec fn has_suffix(s: Seq<char>, p: Seq<char>) -> bool {
    stands_at(s, p, s.len() - p.len())
}

pub fn ends_with(s: &str, p: &str) -> (r: bool)
    ensures
        r == has_suffix(s@, p@),
{
    let v: Vec<char> = to_chars(s);
    let q: Vec<char> = to_chars(p);
    if q.len() > v.len() {
        false
    } else {
        stands_at_exec(&v, &q, v.len() - q.len())
    }
}

/// What follows the prefix `p`: `str::strip_prefix`.
pub open spec fn strip_prefix_spec(s: Seq<char>, p: Seq<char>) -> Option<Seq<char>> {
    if has_prefix(s, p) {
        Some(s.skip(p.len() as int))
    } else {
        None
    }
}

pub fn strip_prefix(s: &str, p: &str) -> (r: Option<String>)
    ensures
        opt_view(r) == strip_prefix_spec(s@, p@),
{
    let v: Vec<char> = to_chars(s);
    let q: Vec<char> = to_chars(p);
    if stands_at_exec(&v, &q, 0) {
        let b: String = string_of(&v, q.len(), v.len());
        proof {
            assert(b@ =~= s@.skip(p@.len() as int));
        }
        Some(b)
    } else {
        None
    }
}

/// What stands before the suffix `p`: `str::strip_suffix`.
pub open spec fn strip_suffix_spec(s: Seq<char>, p: Seq<char>) -> Option<Seq<char>> {
    if has_suffix(s, p) {
        Some(s.take(s.len() - p.len()))
    } else {
        None
    }
}

pub fn strip_suffix(s: &str, p: &str) -> (r: Option<String>)
    ensures
        opt_view(r) == strip_suffix_spec(s@, p@),
{
    let v: Vec<char> = to_chars(s);
    let q: Vec<char> = to_chars(p);
    if q.len() <= v.len() && stands_at_exec(&v, &q, v.len() - q.len()) {
        let b: String = string_of(&v, 0, v.len() - q.len());
        proof {
            assert(b@ =~= s@.take(s@.len() - p@.len()));
        }
        Some(b)
    } else {
        None
    }
}

/// `s[i..]` with `to` in place of every `from`, read from the front.
pub open spec fn replaced_from(s: Seq<char>, from: Seq<char>, to: Seq<char>, i: int) -> Seq<char>
    decreases s.len() - i,
{
    if i < 0 || i >= s.len() {
        Seq::empty()
    } else if from.len() > 0 && stands_at(s, from, i) {
        to + replaced_from(s, from, to, i + from.len())
    } else {
        seq![s[i]] + replaced_from(s, from, to, i + 1)
    }
}

/// `s` with `to` in place of every `from`.
pub open spec fn replaced_text(s: Seq<char>, from: Seq<char>, to: Seq<char>) -> Seq<char> {
    replaced_from(s, from, to, 0)
}

pub fn replace_text(s: &str, from: &str, to: &str) -> (r: String)
    ensures
        r@ == replaced_text(s@, from@, to@),
{
    let v: Vec<char> = to_chars(s);
    let q: Vec<char> = to_chars(from);
    let mut out: String = String::new();
    let mut i: usize = 0;
    proof {
        assert(out@ + replaced_from(s@, from@, to@, 0) =~= replaced_text(s@, from@, to@));
    }
    while i < v.len()
        invariant
            i <= v@.len(),
            v@ == s@,
            q@ == from@,
            out@ + replaced_from(s@, from@, to@, i as int) == replaced_text(s@, from@, to@),
        decreases v@.len() - i,
    {
        let ghost before = out@;
        if q.len() > 0 && stands_at_exec(&v, &q, i) {
            out.append(to);
            proof {
                let rest = replaced_from(s@, from@, to@, i + from@.len());
                assert(before + (to@ + rest) =~= (before + to@) + rest);
            }
            i = i + q.len();
        } else {
            out.push(v[i]);
            proof {
                let rest = replaced_from(s@, from@, to@, i + 1);
                assert(before + (seq![s@[i as int]] + rest) =~= before.push(s@[i as int]) + rest);
            }
            i = i + 1;
        }
    }
    proof {
        assert(out@ + replaced_from(s@, from@, to@, i as int) =~= out@);
    }
    out
}

/// `s` with `by` in place of every `c`.
pub open spec fn replaced(s: Seq<char>, c: char, by: Seq<char>) -> Seq<char>
    decreases s.len(),
{
    if s.len() == 0 {
        Seq::empty()
    } else if s.last() == c {
        replaced(s.drop_last(), c, by) + by
    } else {
        replaced(s.drop_last(), c, by).push(s.last())
    }
}

pub fn replace(s: &str, c: char, by: &str) -> (r: String)
    ensures
        r@ == replaced(s@, c, by@),
{
    let v: Vec<char> = to_chars(s);
    let mut out: String = String::new();
    let mut i: usize = 0;
    proof {
        assert(v@.take(0) =~= Seq::empty());
        assert(out@ =~= Seq::empty());
    }
    while i < v.len()
        invariant
            i <= v@.len(),
            v@ == s@,
            out@ == replaced(v@.take(i as int), c, by@),
        decreases v@.len() - i,
    {
        proof {
            assert(v@.take(i + 1).drop_last() =~= v@.take(i as int));
        }
        if v[i] == c {
            out.append(by);
        } else {
            out.push(v[i]);
        }
        i = i + 1;
    }
    proof {
        assert(v@.take(i as int) =~= v@);
    }
    out
}

} // verus!
