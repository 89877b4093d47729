//! Housekeeping rules: how many backups are kept, whether today's automatic
//! backup exists, and which column a schema change adds.
use vstd::prelude::*;
use crate::text::{is_white_space, white_space, text_contains, occurs_at};

verus! {

/// The number of newest backups that are kept.
pub open spec fn kept_backups() -> int {
    30
}

/// How many of `count` backups (sorted oldest first) are removed so that
/// the newest thirty remain.
pub fn backups_to_remove(count: usize) -> (r: usize)
    ensures
        r == (if count > kept_backups() {
            count - kept_backups()
        } else {
            0
        }),
{
    if count > 30 {
        count - 30
    } else {
        0
    }
}

/// Whether a backup file name marks today's automatic backup, i.e. holds
/// `marker` (the text "auto-" followed by today's date).
pub fn is_backup_from(file_name: &str, marker: &str) -> (r: bool)
    ensures
        r == exists|i: int| occurs_at(file_name@, marker@, i),
{
    text_contains(file_name, marker)
}

/// `s[a..b]` is the first word of `s`: white space before it, none in it,
/// and white space or the end after it; a text of only white space has an
/// empty first word at its end.
pub open spec fn first_word_bounds(s: Seq<char>, a: int, b: int) -> bool {
    &&& 0 <= a <= b <= s.len()
    &&& forall|k: int| 0 <= k < a ==> white_space(#[trigger] s[k])
    &&& forall|k: int| a <= k < b ==> !white_space(#[trigger] s[k])
    &&& b < s.len() ==> white_space(s[b])
    &&& a < s.len() ==> !white_space(s[a])
}

/// The first white-space separated word of `s`, or the empty text.
pub open spec fn first_word_view(s: Seq<char>) -> Seq<char> {
    let ab = choose|ab: (int, int)| first_word_bounds(s, ab.0, ab.1);
    s.subrange(ab.0, ab.1)
}

proof fn lemma_first_word_unique(s: Seq<char>, a: int, b: int, c: int, d: int)
    requires
        first_word_bounds(s, a, b),
        first_word_bounds(s, c, d),
    ensures
        a == c,
        b == d,
{
    if a < c {
        assert(white_space(s[a]));
    }
    if c < a {
        assert(white_space(s[c]));
    }
    if b < d {
        assert(!white_space(s[b]));
    }
    if d < b {
        assert(!white_space(s[d]));
    }
}

/// The first word of a column definition: the name of the column it adds,
/// as `split_whitespace().next()` gives it (empty when there is none).
pub fn column_name(definition: &str) -> (r: String)
    ensures
        r@ == first_word_view(definition@),
{
    let n = definition.unicode_len();
    let mut a: usize = 0;
    while a < n && is_white_space(definition.get_char(a))
        invariant
            n == definition@.len(),
            a <= n,
            forall|k: int| 0 <= k < a ==> white_space(#[trigger] definition@[k]),
        decreases n - a,
    {
        a = a + 1;
    }
    let mut b: usize = a;
    while b < n && !is_white_space(definition.get_char(b))
        invariant
            n == definition@.len(),
            a <= b <= n,
            forall|k: int| a <= k < b ==> !white_space(#[trigger] definition@[k]),
        decreases n - b,
    {
        b = b + 1;
    }
    proof {
        let s = definition@;
        assert(first_word_bounds(s, a as int, b as int));
        let w = (a as int, b as int);
        assert(first_word_bounds(s, w.0, w.1));
        let ab = choose|ab: (int, int)| first_word_bounds(s, ab.0, ab.1);
        lemma_first_word_unique(s, a as int, b as int, ab.0, ab.1);
    }
    definition.substring_char(a, b).to_owned()
}

} // verus!
