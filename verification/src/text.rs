//! Text helpers shared by the rules: comparing texts, recognising blank
//! input and trimming surrounding white space the way `str::trim` does.
use vstd::prelude::*;

verus! {

/// The Unicode `White_Space` property, the set that `char::is_whitespace`
/// tests: U+0009..U+000D, U+0020, U+0085, U+00A0, U+1680, U+2000..U+200A,
/// U+2028, U+2029, U+202F, U+205F and U+3000.
pub open spec fn white_space(c: char) -> bool {
    let v = c as u32;
    ||| 9 <= v <= 13
    ||| v == 32
    ||| v == 0x85
    ||| v == 0xa0
    ||| v == 0x1680
    ||| 0x2000 <= v <= 0x200a
    ||| v == 0x2028
    ||| v == 0x2029
    ||| v == 0x202f
    ||| v == 0x205f
    ||| v == 0x3000
}

/// `s[a..b]` is what remains of `s` once leading and trailing white space
/// is removed; a text made only of white space trims at its end.
pub open spec fn trim_bounds(s: Seq<char>, a: int, b: int) -> bool {
    &&& 0 <= a <= b <= s.len()
    &&& forall|k: int| 0 <= k < a ==> white_space(#[trigger] s[k])
    &&& forall|k: int| b <= k < s.len() ==> white_space(#[trigger] s[k])
    &&& a < b ==> !white_space(s[a]) && !white_space(s[b - 1])
    &&& a == b ==> a == s.len()
}

/// The text `s` with leading and trailing white space removed.
pub open spec fn trim_view(s: Seq<char>) -> Seq<char> {
    let ab = choose|ab: (int, int)| trim_bounds(s, ab.0, ab.1);
    s.subrange(ab.0, ab.1)
}

/// The bounds of a trim are determined by the text.
pub proof fn lemma_trim_bounds_unique(s: Seq<char>, a: int, b: int, c: int, d: int)
    requires
        trim_bounds(s, a, b),
        trim_bounds(s, c, d),
    ensures
        a == c,
        b == d,
{
    if a < c {
        assert(white_space(s[a]));
    }
    if c < a {
        assert(white_space(s[c]));
    }
    if b < d {
        assert(white_space(s[d - 1]));
    }
    if d < b {
        assert(white_space(s[b - 1]));
    }
}

/// Trimming gives `s[a..b]` for the bounds `a`, `b` of `s`.
pub proof fn lemma_trim_view(s: Seq<char>, a: int, b: int)
    requires
        trim_bounds(s, a, b),
    ensures
        trim_view(s) == s.subrange(a, b),
{
    let w = (a, b);
    assert(trim_bounds(s, w.0, w.1));
    let ab = choose|ab: (int, int)| trim_bounds(s, ab.0, ab.1);
    assert(trim_bounds(s, ab.0, ab.1));
    lemma_trim_bounds_unique(s, a, b, ab.0, ab.1);
}

/// Whether `c` is white space; the same answer as `char::is_whitespace`.
pub fn is_white_space(c: char) -> (r: bool)
    ensures
        r == white_space(c),
{
    let v = c as u32;
    (9 <= v && v <= 13) || v == 32 || v == 0x85 || v == 0xa0 || v == 0x1680 || (0x2000 <= v && v
        <= 0x200a) || v == 0x2028 || v == 0x2029 || v == 0x202f || v == 0x205f || v == 0x3000
}

/// `s` with leading and trailing white space removed, as `str::trim`
/// returns it.
pub fn trimmed(s: &str) -> (r: String)
    ensures
        r@ == trim_view(s@),
{
    let n = s.unicode_len();
    let mut a: usize = 0;
    while a < n && is_white_space(s.get_char(a))
        invariant
            n == s@.len(),
            a <= n,
            forall|k: int| 0 <= k < a ==> white_space(#[trigger] s@[k]),
        decreases n - a,
    {
        a = a + 1;
    }
    let mut b: usize = n;
    while b > a && is_white_space(s.get_char(b - 1))
        invariant
            n == s@.len(),
            a <= b <= n,
            forall|k: int| 0 <= k < a ==> white_space(#[trigger] s@[k]),
            forall|k: int| b <= k < n ==> white_space(#[trigger] s@[k]),
            a < n ==> !white_space(s@[a as int]),
        decreases b,
    {
        b = b - 1;
    }
    proof {
        if a == b && a < n {
            assert(!white_space(s@[a as int]));
            assert(false);
        }
        lemma_trim_view(s@, a as int, b as int);
    }
    let t = s.substring_char(a, b);
    t.to_owned()
}

/// Whether two texts are equal.
pub fn same_text(a: &str, b: &str) -> (r: bool)
    ensures
        r == (a@ == b@),
{
    let x = a.to_owned();
    let y = b.to_owned();
    x == y
}

/// `a` comes before `b` in the order of texts: at the first position where
/// they differ `a` has the smaller character, or `a` is a proper prefix of
/// `b`.  This is the order `str` comparisons give (UTF-8 preserves the order
/// of characters).
pub open spec fn text_before(a: Seq<char>, b: Seq<char>) -> bool
    decreases a.len(),
{
    if a.len() == 0 {
        b.len() > 0
    } else if b.len() == 0 {
        false
    } else if a[0] != b[0] {
        (a[0] as int) < (b[0] as int)
    } else {
        text_before(a.drop_first(), b.drop_first())
    }
}

/// Where one text stands relative to another.
#[derive(Debug, PartialEq, Eq, Structural)]
pub enum TextOrder {
    Before,
    Same,
    After,
}

proof fn lemma_text_before_step(a: Seq<char>, b: Seq<char>, i: int)
    requires
        0 <= i < a.len(),
        i < b.len(),
        a[i] == b[i],
    ensures
        text_before(a.skip(i), b.skip(i)) == text_before(a.skip(i + 1), b.skip(i + 1)),
{
    assert(a.skip(i).drop_first() =~= a.skip(i + 1));
    assert(b.skip(i).drop_first() =~= b.skip(i + 1));
}

/// Exactly one of: `a` before `b`, the two equal, `b` before `a`.
pub proof fn law_text_order_is_total(a: Seq<char>, b: Seq<char>)
    ensures
        text_before(a, b) || a == b || text_before(b, a),
        !(text_before(a, b) && text_before(b, a)),
        a == b ==> !text_before(a, b),
    decreases a.len(),
{
    if a.len() > 0 && b.len() > 0 && a[0] == b[0] {
        law_text_order_is_total(a.drop_first(), b.drop_first());
        if a.drop_first() == b.drop_first() {
            assert forall|k: int| 0 <= k < a.len() implies a[k] == b[k] by {
                if k > 0 {
                    assert(a[k] == a.drop_first()[k - 1]);
                    assert(b[k] == b.drop_first()[k - 1]);
                }
            }
            assert(a =~= b);
        }
        if a == b {
            assert(a.drop_first() == b.drop_first());
        }
    } else if a.len() == 0 && b.len() == 0 {
        assert(a =~= b);
    } else if a.len() > 0 && b.len() > 0 {
        assert(a[0] != b[0]);
        assert((a[0] as int) != (b[0] as int));
    }
}

/// Where `a` stands relative to `b` in the order of texts.
pub fn text_order(a: &str, b: &str) -> (r: TextOrder)
    ensures
        (r == TextOrder::Before) == text_before(a@, b@),
        (r == TextOrder::Same) == (a@ == b@),
        (r == TextOrder::After) == text_before(b@, a@),
{
    let na = a.unicode_len();
    let nb = b.unicode_len();
    let mut i: usize = 0;
    proof {
        assert(a@.skip(0) =~= a@);
        assert(b@.skip(0) =~= b@);
        law_text_order_is_total(a@, b@);
    }
    while i < na && i < nb
        invariant
            na == a@.len(),
            nb == b@.len(),
            i <= na,
            i <= nb,
            a@.take(i as int) == b@.take(i as int),
            text_before(a@, b@) == text_before(a@.skip(i as int), b@.skip(i as int)),
            text_before(b@, a@) == text_before(b@.skip(i as int), a@.skip(i as int)),
            text_before(a@, b@) || a@ == b@ || text_before(b@, a@),
            !(text_before(a@, b@) && text_before(b@, a@)),
            a@ == b@ ==> !text_before(a@, b@),
        decreases na - i,
    {
        let ca = a.get_char(i);
        let cb = b.get_char(i);
        if ca != cb {
            proof {
                assert(a@.skip(i as int)[0] == ca);
                assert(b@.skip(i as int)[0] == cb);
                assert(a@[i as int] != b@[i as int]);
            }
            if (ca as u32) < (cb as u32) {
                return TextOrder::Before;
            } else {
                return TextOrder::After;
            }
        }
        proof {
            lemma_text_before_step(a@, b@, i as int);
            lemma_text_before_step(b@, a@, i as int);
            assert(a@.take(i + 1) =~= a@.take(i as int).push(a@[i as int]));
            assert(b@.take(i + 1) =~= b@.take(i as int).push(b@[i as int]));
        }
        i = i + 1;
    }
    proof {
        assert(a@.skip(i as int).len() == na - i);
        assert(b@.skip(i as int).len() == nb - i);
    }
    if na == nb {
        proof {
            assert(a@ =~= a@.take(i as int));
            assert(b@ =~= b@.take(i as int));
        }
        TextOrder::Same
    } else if i == na {
        TextOrder::Before
    } else {
        TextOrder::After
    }
}

/// `s` trimmed, unless nothing is left of it.
pub open spec fn filled(s: Seq<char>) -> Option<Seq<char>> {
    if trim_view(s).len() == 0 {
        None
    } else {
        Some(trim_view(s))
    }
}

/// `s` without surrounding white space, or `None` when it is blank.
pub fn nonblank_trimmed(s: &str) -> (r: Option<String>)
    ensures
        match r {
            Some(t) => filled(s@) == Some(t@),
            None => filled(s@) is None,
        },
{
    let t = trimmed(s);
    if t.as_str().is_empty() {
        None
    } else {
        Some(t)
    }
}

/// `needle` occurs in `haystack` starting at position `i`.
pub open spec fn occurs_at(haystack: Seq<char>, needle: Seq<char>, i: int) -> bool {
    0 <= i && i + needle.len() <= haystack.len() && haystack.subrange(i, i + needle.len()) == needle
}

/// Whether `needle` occurs somewhere in `haystack`.
pub fn text_contains(haystack: &str, needle: &str) -> (r: bool)
    ensures
        r == exists|i: int| occurs_at(haystack@, needle@, i),
{
    let n = haystack.unicode_len();
    let m = needle.unicode_len();
    if m > n {
        proof {
            assert forall|i: int| !occurs_at(haystack@, needle@, i) by {}
        }
        return false;
    }
    if m == 0 {
        proof {
            assert(haystack@.subrange(0, 0) =~= needle@);
            assert(occurs_at(haystack@, needle@, 0));
        }
        return true;
    }
    let mut i: usize = 0;
    while i <= n - m
        invariant
            n == haystack@.len(),
            m == needle@.len(),
            1 <= m <= n,
            i <= n - m + 1,
            forall|j: int| 0 <= j < i ==> !occurs_at(haystack@, needle@, j),
        decreases n - m + 1 - i,
    {
        let part = haystack.substring_char(i, i + m);
        if same_text(part, needle) {
            proof {
                assert(occurs_at(haystack@, needle@, i as int));
            }
            return true;
        }
        i = i + 1;
    }
    proof {
        assert forall|j: int| !occurs_at(haystack@, needle@, j) by {
            if 0 <= j < i {
            }
        }
    }
    false
}

} // verus!
