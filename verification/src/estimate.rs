//! A cheap, deliberately generous estimate of how many tokens a text will cost.

use vstd::prelude::*;

verus! {

/// The characters that separate words: space, tab, line feed, form feed and
/// carriage return.
pub open spec fn is_ascii_space(c: char) -> bool {
    c == ' ' || c == '\t' || c == '\n' || c == '\x0C' || c == '\r'
}

/// A word starts at `i` when `s[i]` is no separator and the character before
/// it, if there is one, is a separator.
pub open spec fn starts_word(s: Seq<char>, i: int) -> bool {
    &&& 0 <= i < s.len()
    &&& !is_ascii_space(s[i])
    &&& (i == 0 || is_ascii_space(s[i - 1]))
}

/// The number of words that start among the first `n` characters of `s`.
pub open spec fn words_before(s: Seq<char>, n: int) -> nat
    decreases n,
{
    if n <= 0 {
        0
    } else {
        words_before(s, n - 1) + if starts_word(s, n - 1) { 1nat } else { 0nat }
    }
}

/// The number of maximal runs of non-separator characters in `s`.
pub open spec fn word_count(s: Seq<char>) -> nat {
    words_before(s, s.len() as int)
}

/// Whether `c` separates words.
pub fn separates_words(c: char) -> (b: bool)
    ensures
        b == is_ascii_space(c),
{
    c == ' ' || c == '\t' || c == '\n' || c == '\x0C' || c == '\r'
}

/// Among the first `n` characters there are at most `(n + 1) / 2` word starts,
/// and at most `n / 2` when the last of them is a separator.
pub proof fn lemma_words_before_bound(s: Seq<char>, n: int)
    requires
        0 <= n <= s.len(),
    ensures
        2 * words_before(s, n) <= n + 1,
        n == 0 || is_ascii_space(s[n - 1]) ==> 2 * words_before(s, n) <= n,
    decreases n,
{
    if n > 0 {
        lemma_words_before_bound(s, n - 1);
    }
}

/// A prefix without a word start has no character but separators, and the
/// other way round.
pub proof fn lemma_words_before_zero(s: Seq<char>, n: int)
    requires
        0 <= n <= s.len(),
    ensures
        words_before(s, n) == 0 <==> forall|i: int| 0 <= i < n ==> is_ascii_space(#[trigger] s[i]),
    decreases n,
{
    if n > 0 {
        lemma_words_before_zero(s, n - 1);
        if words_before(s, n) == 0 {
            assert(!starts_word(s, n - 1));
            assert(forall|i: int| 0 <= i < n - 1 ==> is_ascii_space(#[trigger] s[i]));
            assert(is_ascii_space(s[n - 1]));
        }
    }
}

/// A text has no word exactly when it is empty or holds separators only.
pub proof fn lemma_no_words_iff_blank(s: Seq<char>)
    ensures
        word_count(s) == 0 <==> forall|i: int| 0 <= i < s.len() ==> is_ascii_space(#[trigger] s[i]),
{
    lemma_words_before_zero(s, s.len() as int);
}

/// The count over a prefix depends on that prefix alone.
pub proof fn lemma_words_before_of_prefix(s: Seq<char>, t: Seq<char>, n: int)
    requires
        0 <= n <= s.len(),
        n <= t.len(),
        forall|i: int| 0 <= i < n ==> s[i] == t[i],
    ensures
        words_before(s, n) == words_before(t, n),
    decreases n,
{
    if n > 0 {
        lemma_words_before_of_prefix(s, t, n - 1);
    }
}

/// A separator between two texts keeps their words apart: the whole has the
/// words of both.
pub proof fn lemma_word_count_splits(a: Seq<char>, separator: char, b: Seq<char>)
    requires
        is_ascii_space(separator),
    ensures
        word_count(a + seq![separator] + b) == word_count(a) + word_count(b),
{
    let s = a + seq![separator] + b;
    let m: int = a.len() as int;
    lemma_words_before_of_prefix(s, a, m);
    assert(words_before(s, m + 1) == words_before(s, m));
    lemma_words_before_after_separator(s, b, m + 1, b.len() as int);
}

/// Where `t` follows a separator in `s`, the words of `s` that start in `t`
/// are the words of `t`.
proof fn lemma_words_before_after_separator(s: Seq<char>, t: Seq<char>, at: int, n: int)
    requires
        0 < at,
        0 <= n <= t.len(),
        at + t.len() <= s.len(),
        is_ascii_space(s[at - 1]),
        forall|i: int| 0 <= i < t.len() ==> s[at + i] == t[i],
    ensures
        words_before(s, at + n) == words_before(s, at) + words_before(t, n),
    decreases n,
{
    if n > 0 {
        lemma_words_before_after_separator(s, t, at, n - 1);
        assert(s[at + (n - 1)] == t[n - 1]);
        if n > 1 {
            assert(s[at + (n - 2)] == t[n - 2]);
        }
        assert(starts_word(s, at + n - 1) == starts_word(t, n - 1));
    }
}

/// A text without a separator that is not empty is one word.
pub proof fn lemma_word_count_of_one_word(s: Seq<char>)
    requires
        s.len() > 0,
        forall|i: int| 0 <= i < s.len() ==> !is_ascii_space(#[trigger] s[i]),
    ensures
        word_count(s) == 1,
{
    lemma_words_before_of_one_word(s, s.len() as int);
}

proof fn lemma_words_before_of_one_word(s: Seq<char>, n: int)
    requires
        0 < n <= s.len(),
        forall|i: int| 0 <= i < s.len() ==> !is_ascii_space(#[trigger] s[i]),
    ensures
        words_before(s, n) == 1,
    decreases n,
{
    if n > 1 {
        lemma_words_before_of_one_word(s, n - 1);
        assert(!is_ascii_space(s[n - 2]));
    } else {
        assert(words_before(s, 0) == 0);
        assert(starts_word(s, 0));
    }
}

/// Twice the number of words in `input`.
pub fn token_estimate(input: &str) -> (estimate: usize)
    requires
        input@.len() < usize::MAX,
    ensures
        estimate == 2 * word_count(input@),
        estimate % 2 == 0,
{
    let mut words: usize = 0;
    let mut in_word = false;
    for c in it: input.chars()
        invariant
            input@.len() < usize::MAX,
            it.seq() == input@,
            words == words_before(input@, it.index() as int),
            in_word == (it.index() > 0 && !is_ascii_space(input@[it.index() - 1])),
    {
        proof {
            lemma_words_before_bound(input@, it.index() as int);
        }
        let space = separates_words(c);
        if !space && !in_word {
            words = words + 1;
        }
        in_word = !space;
    }
    proof {
        lemma_words_before_bound(input@, input@.len() as int);
    }
    words * 2
}

} // verus!
