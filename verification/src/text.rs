//! Character folding and substring search on text, as used by the rules that
//! recognise sensitive and final targets.

use vstd::prelude::*;

verus! {

/// Unicode code of `c`.
pub open spec fn code(c: char) -> u32 {
    c as u32
}

/// `c` with an ASCII upper-case letter turned into its lower-case letter,
/// every other character unchanged (what `char::to_ascii_lowercase` does).
pub open spec fn ascii_lower(c: char) -> char {
    if 65 <= code(c) && code(c) <= 90 {
        ((code(c) + 32) as u32) as char
    } else {
        c
    }
}

/// The folding of one character: lower-cased, and, when `separators` is set,
/// `-` and space read as `_`.
pub open spec fn fold_char(c: char, separators: bool) -> char {
    if separators && (c == '-' || c == ' ') {
        '_'
    } else {
        ascii_lower(c)
    }
}

/// The folding of a whole text, character by character.
pub open spec fn fold(s: Seq<char>, separators: bool) -> Seq<char> {
    s.map_values(|c: char| fold_char(c, separators))
}

/// `needle` occurs in `hay` at position `i`.
pub open spec fn occurs_at(hay: Seq<char>, needle: Seq<char>, i: int) -> bool {
    &&& 0 <= i
    &&& i + needle.len() <= hay.len()
    &&& forall|j: int| 0 <= j < needle.len() ==> #[trigger] hay[i + j] == needle[j]
}

/// `needle` is a contiguous part of `hay` (the empty text is part of every text).
pub open spec fn contains(hay: Seq<char>, needle: Seq<char>) -> bool {
    exists|i: int| occurs_at(hay, needle, i)
}

/// The characters of `s`, in order.
pub fn chars_of(s: &str) -> (res: Vec<char>)
    ensures
        res@ == s@,
{
    let n = s.unicode_len();
    let mut res: Vec<char> = Vec::new();
    let mut i: usize = 0;
    while i < n
        invariant
            n == s@.len(),
            i <= n,
            res@ == s@.subrange(0, i as int),
        decreases n - i,
    {
        let c = s.get_char(i);
        res.push(c);
        i = i + 1;
    }
    res
}

/// Whether the folding of `c` is `n`.
pub fn folds_to(c: char, n: char, separators: bool) -> (res: bool)
    ensures
        res == (fold_char(c, separators) == n),
{
    if separators && (c == '-' || c == ' ') {
        n == '_'
    } else {
        let x: u32 = c as u32;
        if 65 <= x && x <= 90 {
            let y: u32 = n as u32;
            x + 32 == y
        } else {
            c == n
        }
    }
}

/// Whether `needle` occurs in the folding of `hay` at position `i`.
fn folded_occurs_at(hay: &Vec<char>, needle: &Vec<char>, i: usize, separators: bool) -> (res: bool)
    requires
        i + needle@.len() <= hay@.len(),
    ensures
        res == occurs_at(fold(hay@, separators), needle@, i as int),
{
    let m = needle.len();
    let mut j: usize = 0;
    while j < m
        invariant
            m == needle@.len(),
            i + m <= hay.len(),
            j <= m,
            forall|k: int| 0 <= k < j ==> #[trigger] fold(hay@, separators)[i + k] == needle@[k],
        decreases m - j,
    {
        if !folds_to(hay[i + j], needle[j], separators) {
            assert(fold(hay@, separators)[i + j as int] != needle@[j as int]);
            return false;
        }
        j = j + 1;
    }
    true
}

/// Whether `needle` is a contiguous part of the folding of `hay`.
pub fn folded_contains(hay: &Vec<char>, needle: &str, separators: bool) -> (res: bool)
    ensures
        res == contains(fold(hay@, separators), needle@),
{
    let pattern = chars_of(needle);
    let n = hay.len();
    let m = pattern.len();
    if m > n {
        proof {
            assert forall|i: int| !occurs_at(fold(hay@, separators), needle@, i) by {}
        }
        return false;
    }
    let mut i: usize = 0;
    while i <= n - m
        invariant
            n == hay@.len(),
            m == pattern@.len(),
            pattern@ == needle@,
            m <= n,
            i <= n - m + 1,
            forall|k: int| 0 <= k < i ==> !occurs_at(fold(hay@, separators), needle@, k),
        decreases n - m + 1 - i,
    {
        if folded_occurs_at(hay, &pattern, i, separators) {
            return true;
        }
        i = i + 1;
    }
    proof {
        assert forall|k: int| !occurs_at(fold(hay@, separators), needle@, k) by {
            if 0 <= k < i {
            }
        }
    }
    false
}

/// Folding works character by character, so the folding of a joined text is
/// the join of the foldings.
pub proof fn lemma_fold_join(a: Seq<char>, b: Seq<char>, separators: bool)
    ensures
        fold(a + b, separators) == fold(a, separators) + fold(b, separators),
{
    assert(fold(a + b, separators) =~= fold(a, separators) + fold(b, separators));
}

/// A text with no ASCII upper-case letter, no `-` and no space is its own
/// folding.
pub proof fn lemma_fold_of_folded_word(w: Seq<char>, separators: bool)
    requires
        forall|i: int|
            0 <= i < w.len() ==> !(65 <= code(#[trigger] w[i]) && code(w[i]) <= 90) && w[i]
                != '-' && w[i] != ' ',
    ensures
        fold(w, separators) == w,
{
    assert(fold(w, separators) =~= w);
}

/// What a text contains, any text around it contains too.
pub proof fn lemma_contains_in_context(hay: Seq<char>, needle: Seq<char>, a: Seq<char>, b: Seq<char>)
    requires
        contains(hay, needle),
    ensures
        contains(a + hay + b, needle),
{
    let i = choose|i: int| occurs_at(hay, needle, i);
    let whole = a + hay + b;
    assert forall|j: int| 0 <= j < needle.len() implies #[trigger] whole[i + a.len() + j]
        == needle[j] by {
        assert(hay[i + j] == needle[j]);
        assert(whole[a.len() + (i + j)] == hay[i + j]);
    }
    assert(occurs_at(whole, needle, i + a.len()));
}

/// Every text contains itself.
pub proof fn lemma_contains_itself(s: Seq<char>)
    ensures
        contains(s, s),
{
    assert(occurs_at(s, s, 0));
}

} // verus!
