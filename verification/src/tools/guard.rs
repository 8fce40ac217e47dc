//! The read-only guard: a word-level scan for write and DDL keywords.
//!
//! The guard is a deterrent, not a parser. It knows nothing of string literals,
//! comments or quoted identifiers: a statement that merely mentions a blocked
//! word is refused, and a blocked word glued to another word passes.

use vstd::prelude::*;
use crate::text::{
    char_is_alphanumeric, char_is_space, is_alphanumeric, is_space, str_chars, to_uppercase,
    uppercase_of,
};

verus! {

/// `lo..hi` is a token of `s`: a run of characters without white space that
/// is not empty and cannot be extended on either side.
pub open spec fn token(s: Seq<char>, lo: int, hi: int) -> bool {
    &&& 0 <= lo < hi <= s.len()
    &&& (lo == 0 || is_space(s[lo - 1]))
    &&& (hi == s.len() || is_space(s[hi]))
    &&& forall|k: int| lo <= k < hi ==> !is_space(#[trigger] s[k])
}

/// `a..b` is what is left of `lo..hi` when the characters that are neither
/// letters nor digits are taken off both ends.
pub open spec fn stripped(s: Seq<char>, lo: int, hi: int, a: int, b: int) -> bool {
    &&& lo <= a <= b <= hi
    &&& forall|k: int| lo <= k < a ==> !is_alphanumeric(#[trigger] s[k])
    &&& forall|k: int| b <= k < hi ==> !is_alphanumeric(#[trigger] s[k])
    &&& a < b ==> is_alphanumeric(s[a]) && is_alphanumeric(s[b - 1])
}

/// The words that mark a statement as writing.
pub open spec fn blocked_words() -> Seq<Seq<char>> {
    seq![
        "INSERT"@,
        "UPDATE"@,
        "DELETE"@,
        "DROP"@,
        "ALTER"@,
        "CREATE"@,
        "TRUNCATE"@,
        "EXEC"@,
        "EXECUTE"@,
    ]
}

pub open spec fn blocked(word: Seq<char>) -> bool {
    blocked_words().contains(word)
}

/// `lo..hi` is a token of `s` that, stripped to `a..b`, is a blocked word.
pub open spec fn blocked_at(s: Seq<char>, lo: int, hi: int, a: int, b: int) -> bool {
    token(s, lo, hi) && stripped(s, lo, hi, a, b) && blocked(s.subrange(a, b))
}

/// Some token of `s` is, once stripped, a blocked word.
pub open spec fn has_blocked_word(s: Seq<char>) -> bool {
    exists|lo: int, hi: int, a: int, b: int| #[trigger] blocked_at(s, lo, hi, a, b)
}

/// What the guard accepts: a statement none of whose tokens, in upper case and
/// stripped, is a blocked word.
pub open spec fn read_only(sql: Seq<char>) -> bool {
    !has_blocked_word(uppercase_of(sql))
}

fn keywords() -> (r: Vec<Vec<char>>)
    ensures
        r@.map_values(|w: Vec<char>| w@) == blocked_words(),
{
    let r = vec![
        str_chars("INSERT"),
        str_chars("UPDATE"),
        str_chars("DELETE"),
        str_chars("DROP"),
        str_chars("ALTER"),
        str_chars("CREATE"),
        str_chars("TRUNCATE"),
        str_chars("EXEC"),
        str_chars("EXECUTE"),
    ];
    assert(r@.map_values(|w: Vec<char>| w@) =~= blocked_words());
    r
}

fn range_is(s: &Vec<char>, a: usize, b: usize, word: &Vec<char>) -> (r: bool)
    requires
        a <= b <= s@.len(),
    ensures
        r == (s@.subrange(a as int, b as int) == word@),
{
    if b - a != word.len() {
        return false;
    }
    let n = word.len();
    let mut i: usize = 0;
    while i < n
        invariant
            a <= b <= s@.len(),
            n == word@.len(),
            b - a == n,
            i <= n,
            forall|k: int| 0 <= k < i ==> s@[a + k] == word@[k],
        decreases n - i,
    {
        if s[a + i] != word[i] {
            assert(s@.subrange(a as int, b as int)[i as int] != word@[i as int]);
            return false;
        }
        i += 1;
    }
    assert(s@.subrange(a as int, b as int) =~= word@);
    true
}

fn range_is_blocked(s: &Vec<char>, a: usize, b: usize, words: &Vec<Vec<char>>) -> (r: bool)
    requires
        a <= b <= s@.len(),
        words@.map_values(|w: Vec<char>| w@) == blocked_words(),
    ensures
        r == blocked(s@.subrange(a as int, b as int)),
{
    let ghost all = words@.map_values(|w: Vec<char>| w@);
    let mut i: usize = 0;
    while i < words.len()
        invariant
            a <= b <= s@.len(),
            i <= words@.len(),
            all == words@.map_values(|w: Vec<char>| w@),
            all == blocked_words(),
            forall|k: int| 0 <= k < i ==> all[k] != s@.subrange(a as int, b as int),
        decreases words@.len() - i,
    {
        if range_is(s, a, b, &words[i]) {
            assert(all[i as int] == s@.subrange(a as int, b as int));
            return true;
        }
        i += 1;
    }
    false
}

/// Whether no token of `upper`, stripped, is a blocked word. The text is
/// scanned as it stands: the caller has put it in upper case.
pub fn scan(upper: &str) -> (r: bool)
    ensures
        r == !has_blocked_word(upper@),
{
    let s = str_chars(upper);
    let words = keywords();
    let n = s.len();
    let mut i: usize = 0;
    while i < n
        invariant
            s@ == upper@,
            n == s@.len(),
            i <= n,
            i == 0 || i == n || is_space(s@[i - 1]),
            words@.map_values(|w: Vec<char>| w@) == blocked_words(),
            forall|lo: int, hi: int, a: int, b: int|
                lo < i ==> !#[trigger] blocked_at(s@, lo, hi, a, b),
        decreases n - i,
    {
        if char_is_space(s[i]) {
            i += 1;
            continue ;
        }
        let mut j: usize = i + 1;
        while j < n && !char_is_space(s[j])
            invariant
                n == s@.len(),
                i < j <= n,
                forall|k: int| i <= k < j ==> !is_space(#[trigger] s@[k]),
            decreases n - j,
        {
            j += 1;
        }
        let mut a: usize = i;
        while a < j && !char_is_alphanumeric(s[a])
            invariant
                n == s@.len(),
                i <= a <= j <= n,
                forall|k: int| i <= k < a ==> !is_alphanumeric(#[trigger] s@[k]),
            decreases j - a,
        {
            a += 1;
        }
        let mut b: usize = j;
        while b > a && !char_is_alphanumeric(s[b - 1])
            invariant
                n == s@.len(),
                a <= b <= j <= n,
                forall|k: int| b <= k < j ==> !is_alphanumeric(#[trigger] s@[k]),
            decreases b - a,
        {
            b -= 1;
        }
        assert(token(s@, i as int, j as int));
        assert(stripped(s@, i as int, j as int, a as int, b as int));
        if range_is_blocked(&s, a, b, &words) {
            assert(blocked_at(s@, i as int, j as int, a as int, b as int));
            return false;
        }
        proof {
            assert forall|lo: int, hi: int, x: int, y: int| lo <= j implies !#[trigger] blocked_at(
                s@,
                lo,
                hi,
                x,
                y,
            ) by {
                if lo >= i && blocked_at(s@, lo, hi, x, y) {
                    lemma_one_token(s@, i as int, j as int, lo, hi);
                    lemma_one_stripping(s@, i as int, j as int, a as int, b as int, x, y);
                }
            }
        }
        i = if j < n {
            j + 1
        } else {
            j
        };
    }
    proof {
        assert forall|lo: int, hi: int, a: int, b: int| !#[trigger] blocked_at(
            s@,
            lo,
            hi,
            a,
            b,
        ) by {
            if blocked_at(s@, lo, hi, a, b) {
                assert(lo < n);
            }
        }
    }
    true
}

/// A token that starts between the start of another token and the character
/// after its end is that token.
proof fn lemma_one_token(s: Seq<char>, i: int, j: int, lo: int, hi: int)
    requires
        token(s, i, j),
        token(s, lo, hi),
        i <= lo <= j,
    ensures
        lo == i,
        hi == j,
{
    if lo > i {
        if lo < j {
            assert(!is_space(s[lo - 1]));
        } else {
            assert(!is_space(s[lo]));
        }
    }
    if hi < j {
        assert(!is_space(s[hi]));
    }
    if hi > j {
        assert(!is_space(s[j]));
    }
}

/// Stripping a token leaves one text, whichever bounds describe it.
proof fn lemma_one_stripping(s: Seq<char>, lo: int, hi: int, a: int, b: int, x: int, y: int)
    requires
        0 <= lo <= hi <= s.len(),
        stripped(s, lo, hi, a, b),
        stripped(s, lo, hi, x, y),
    ensures
        s.subrange(a, b) == s.subrange(x, y),
{
    if a < b {
        assert(is_alphanumeric(s[a]));
        assert(is_alphanumeric(s[b - 1]));
        if x < y {
            assert(is_alphanumeric(s[x]));
            assert(is_alphanumeric(s[y - 1]));
        }
        assert(x == a && y == b);
    } else {
        if x < y {
            assert(is_alphanumeric(s[x]));
        }
        assert(s.subrange(a, b) =~= s.subrange(x, y));
    }
}

/// A statement with a token that, in upper case and stripped, is a blocked
/// word does not pass.
pub proof fn lemma_blocked_word_refused(sql: Seq<char>, lo: int, hi: int, a: int, b: int)
    requires
        token(uppercase_of(sql), lo, hi),
        stripped(uppercase_of(sql), lo, hi, a, b),
        blocked(uppercase_of(sql).subrange(a, b)),
    ensures
        !read_only(sql),
{
    assert(blocked_at(uppercase_of(sql), lo, hi, a, b));
}

/// A statement none of whose tokens, in upper case and stripped, is a blocked
/// word passes.
pub proof fn lemma_clean_statement_passes(sql: Seq<char>)
    requires
        forall|lo: int, hi: int, a: int, b: int|
            #![trigger stripped(uppercase_of(sql), lo, hi, a, b)]
            token(uppercase_of(sql), lo, hi) && stripped(uppercase_of(sql), lo, hi, a, b)
                ==> !blocked(uppercase_of(sql).subrange(a, b)),
    ensures
        read_only(sql),
{
}

/// A blocked word inside a longer run of letters and digits is not seen: a
/// token whose stripped form is longer than every blocked word passes.
pub proof fn lemma_longer_word_passes(s: Seq<char>, lo: int, hi: int, a: int, b: int)
    requires
        token(s, lo, hi),
        stripped(s, lo, hi, a, b),
        b - a > 8,
    ensures
        forall|x: int, y: int| !#[trigger] blocked_at(s, lo, hi, x, y),
{
    reveal_strlit("INSERT");
    reveal_strlit("UPDATE");
    reveal_strlit("DELETE");
    reveal_strlit("DROP");
    reveal_strlit("ALTER");
    reveal_strlit("CREATE");
    reveal_strlit("TRUNCATE");
    reveal_strlit("EXEC");
    reveal_strlit("EXECUTE");
    assert forall|x: int, y: int| !#[trigger] blocked_at(s, lo, hi, x, y) by {
        if blocked_at(s, lo, hi, x, y) {
            lemma_one_stripping(s, lo, hi, a, b, x, y);
            let w = s.subrange(a, b);
            assert(w.len() == b - a);
            let i = choose|i: int| 0 <= i < blocked_words().len() && blocked_words()[i] == w;
            assert(blocked_words()[i].len() <= 8);
        }
    }
}

/// Whether the statement passes the read-only guard.
pub fn is_read_only(sql: &str) -> (r: bool)
    ensures
        r == read_only(sql@),
{
    let upper = to_uppercase(sql);
    scan(upper.as_str())
}

} // verus!
