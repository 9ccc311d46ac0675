//! What cutting, trimming and replacing text does.

use vstd::prelude::*;
use crate::digest;
use crate::split;
use crate::text;

verus! {

/// The pieces of a text hold no separator, and put together with the separator between them they
/// are the text again.
pub proof fn pieces_make_up_the_text(s: Seq<char>, c: char)
    ensures
        split::pieces(s, c).len() > 0,
        forall|i: int|
            0 <= i < split::pieces(s, c).len() ==> !(#[trigger] split::pieces(s, c)[i]).contains(c),
        glued(split::pieces(s, c), c) == s,
    decreases s.len(),
{
    text::find_char_props(s, c);
    let i = text::find_char(s, c);
    if i < s.len() {
        let rest = s.skip(i + 1);
        pieces_make_up_the_text(rest, c);
        let p = split::pieces(rest, c);
        let all = split::pieces(s, c);
        assert(all =~= seq![s.take(i)] + p);
        assert forall|k: int| 0 <= k < all.len() implies !(#[trigger] all[k]).contains(c) by {
            if k == 0 {
                assert forall|j: int| 0 <= j < i implies s.take(i)[j] != c by {
                    assert(s[j] != c);
                }
            } else {
                assert(all[k] == p[k - 1]);
            }
        }
        assert(all.drop_first() =~= p);
        assert(s =~= s.take(i) + seq![c] + rest);
    } else {
        assert(split::pieces(s, c) =~= seq![s]);
    }
}

/// The parts put together with a separator between them.
pub open spec fn glued(parts: Seq<Seq<char>>, c: char) -> Seq<char>
    decreases parts.len(),
{
    if parts.len() == 0 {
        Seq::empty()
    } else if parts.len() == 1 {
        parts[0]
    } else {
        parts[0] + seq![c] + glued(parts.drop_first(), c)
    }
}

proof fn no_space_before(s: Seq<char>)
    ensures
        0 <= split::find_space(s) <= s.len(),
        forall|j: int| 0 <= j < split::find_space(s) ==> !split::is_space(#[trigger] s[j]),
        split::find_space(s) < s.len() ==> split::is_space(s[split::find_space(s)]),
    decreases s.len(),
{
    if s.len() > 0 && !split::is_space(s[0]) {
        let t = s.drop_first();
        no_space_before(t);
        assert forall|j: int| 0 <= j < split::find_space(s) implies !split::is_space(
            #[trigger] s[j],
        ) by {
            if j > 0 {
                assert(s[j] == t[j - 1]);
            }
        }
        if split::find_space(t) < t.len() {
            assert(s[split::find_space(s)] == t[split::find_space(t)]);
        }
    }
}

/// The words of a text are not empty and hold no white space; a text without white space that is not
/// empty is one word.
pub proof fn words_hold_no_space(s: Seq<char>)
    ensures
        forall|i: int|
            0 <= i < split::words_of(s).len() ==> (#[trigger] split::words_of(s)[i]).len() > 0
                && forall|j: int|
                0 <= j < split::words_of(s)[i].len() ==> !split::is_space(
                    #[trigger] split::words_of(s)[i][j],
                ),
        s.len() > 0 && (forall|j: int| 0 <= j < s.len() ==> !split::is_space(#[trigger] s[j]))
            ==> split::words_of(s) == seq![s],
    decreases s.len(),
{
    split::trim_start_props(s);
    let t = split::trim_start(s);
    if t.len() > 0 {
        no_space_before(t);
        split::find_space_props(t);
        let n = split::find_space(t);
        let rest = t.skip(n);
        words_hold_no_space(rest);
        let all = split::words_of(s);
        assert(all =~= seq![t.take(n)] + split::words_of(rest));
        assert forall|i: int| 0 <= i < all.len() implies (#[trigger] all[i]).len() > 0 && forall|
            j: int,
        |
            0 <= j < all[i].len() ==> !split::is_space(#[trigger] all[i][j]) by {
            if i > 0 {
                assert(all[i] == split::words_of(rest)[i - 1]);
            }
        }
        if s.len() > 0 && (forall|j: int| 0 <= j < s.len() ==> !split::is_space(#[trigger] s[j])) {
            assert(!split::is_space(s[0]));
            assert(t == s);
            assert(n == s.len());
            assert(t.take(n) =~= s);
            assert(rest =~= Seq::empty());
            assert(split::trim_start(rest) == rest);
            assert(all =~= seq![s]);
        }
    } else if s.len() > 0 {
        assert(split::is_space(s[0]));
    }
}

proof fn only_space_after(s: Seq<char>)
    ensures
        split::trim_end(s).len() <= s.len(),
        split::trim_end(s) == s.take(split::trim_end(s).len() as int),
        forall|j: int| split::trim_end(s).len() <= j < s.len() ==> split::is_space(#[trigger] s[j]),
    decreases s.len(),
{
    if s.len() > 0 && split::is_space(s.last()) {
        let t = s.drop_last();
        only_space_after(t);
        assert forall|j: int| split::trim_end(s).len() <= j < s.len() implies split::is_space(
            #[trigger] s[j],
        ) by {
            if j < t.len() {
                assert(t[j] == s[j]);
            }
        }
        assert(s.take(split::trim_end(s).len() as int) =~= t.take(split::trim_end(t).len() as int));
    } else {
        assert(s.take(s.len() as int) =~= s);
    }
}

/// Trimming takes the white space off both ends and nothing else.
pub proof fn trimming_takes_off_space_alone(s: Seq<char>)
    ensures
        exists|a: int, b: int|
            #![trigger s.subrange(a, b)]
            0 <= a <= b <= s.len() && split::trimmed(s) == s.subrange(a, b) && (forall|j: int|
                0 <= j < a ==> split::is_space(#[trigger] s[j])) && (forall|j: int|
                b <= j < s.len() ==> split::is_space(#[trigger] s[j])),
        split::trimmed(s).len() > 0 ==> !split::is_space(split::trimmed(s)[0]) && !split::is_space(
            split::trimmed(s).last(),
        ),
{
    split::trimmed_is_trimmed(s);
    split::trim_start_props(s);
    let t = split::trim_start(s);
    only_space_after(t);
    let a = (s.len() - t.len()) as int;
    let b = a + split::trimmed(s).len();
    assert(s.subrange(a, b) =~= split::trimmed(s));
    assert forall|j: int| b <= j < s.len() implies split::is_space(#[trigger] s[j]) by {
        assert(t[j - a] == s[j]);
    }
}

/// Lowering changes the capital letters of the Latin alphabet, and nothing else.
pub proof fn lowering_changes_capitals_alone(s: Seq<char>, i: int)
    requires
        0 <= i < s.len(),
    ensures
        split::lowered(s).len() == s.len(),
        'A' <= s[i] && s[i] <= 'Z' ==> split::lowered(s)[i] as int == s[i] as int + ('a' as int
            - 'A' as int),
        !('A' <= s[i] && s[i] <= 'Z') ==> split::lowered(s)[i] == s[i],
{
}

/// Each character that is to be replaced is replaced, and the others stay.
pub proof fn replacing_spares_the_others(a: Seq<char>, c: char, by: Seq<char>, b: Seq<char>)
    ensures
        !a.contains(c) ==> text::replaced(a, c, by) == a,
        text::replaced(a + seq![c] + b, c, by) == text::replaced(a, c, by) + by + text::replaced(
            b,
            c,
            by,
        ),
    decreases a.len() + b.len(),
{
    if b.len() > 0 {
        let q = b.drop_last();
        replacing_spares_the_others(a, c, by, q);
        assert((a + seq![c] + b).drop_last() =~= a + seq![c] + q);
        assert((a + seq![c] + b).last() == b.last());
        assert(text::replaced(a + seq![c] + b, c, by) =~= text::replaced(a, c, by) + by
            + text::replaced(b, c, by));
    } else {
        assert((a + seq![c] + b).drop_last() =~= a);
        assert(text::replaced(b, c, by) =~= Seq::empty());
        assert(text::replaced(a + seq![c] + b, c, by) =~= text::replaced(a, c, by) + by
            + text::replaced(b, c, by));
        if a.len() > 0 && !a.contains(c) {
            let p = a.drop_last();
            assert forall|j: int| 0 <= j < p.len() implies p[j] != c by {
                assert(a[j] != c);
            }
            replacing_spares_the_others(p, c, by, b);
            assert(a.last() == a[a.len() - 1]);
            assert(p.push(a.last()) =~= a);
        }
    }
}

/// A digest is written with two digits for each byte, the higher one first.
pub proof fn digests_are_written_in_sixteens(bytes: Seq<u8>, i: int)
    requires
        0 <= i < bytes.len(),
    ensures
        digest::hex_text(bytes).len() == 2 * bytes.len(),
        digest::hex_text(bytes)[2 * i] == "0123456789abcdef"@[bytes[i] as int / 16],
        digest::hex_text(bytes)[2 * i + 1] == "0123456789abcdef"@[bytes[i] as int % 16],
{
    sixteen_digits(bytes[i] / 16);
    sixteen_digits(bytes[i] % 16);
    assert((2 * i) % 2 == 0 && (2 * i) / 2 == i && (2 * i + 1) % 2 == 1 && (2 * i + 1) / 2 == i);
}

proof fn sixteen_digits(n: u8)
    requires
        n < 16,
    ensures
        digest::hex_digit(n) == "0123456789abcdef"@[n as int],
{
    reveal_strlit("0123456789abcdef");
}

} // verus!
