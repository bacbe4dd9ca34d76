//! Splitting a line into words: maximal runs of characters that are not blank.

use vstd::prelude::*;

verus! {

/// Whether `c` separates words: a space, a tab, a line feed, a form feed or a
/// carriage return.
pub open spec fn is_blank(c: char) -> bool {
    c == ' ' || c == '\t' || c == '\n' || c == '\x0c' || c == '\r'
}

/// Whether no character of `s` is blank.
pub open spec fn no_blank(s: Seq<char>) -> bool {
    forall|i: int| 0 <= i < s.len() ==> !is_blank(#[trigger] s[i])
}

/// The number of blank characters that `s` begins with.
pub open spec fn blank_run(s: Seq<char>) -> nat
    decreases s.len(),
{
    if s.len() > 0 && is_blank(s[0]) {
        1 + blank_run(s.drop_first())
    } else {
        0
    }
}

/// The number of characters other than blanks that `s` begins with.
pub open spec fn word_run(s: Seq<char>) -> nat
    decreases s.len(),
{
    if s.len() > 0 && !is_blank(s[0]) {
        1 + word_run(s.drop_first())
    } else {
        0
    }
}

/// The first word of `s`: what stands between the blanks that `s` begins with
/// and the next blank or the end. It is empty exactly where `s` holds nothing
/// but blanks.
pub open spec fn first_word(s: Seq<char>) -> Seq<char> {
    let t = s.skip(blank_run(s) as int);
    t.take(word_run(t) as int)
}

/// What follows the first word of `s`.
pub open spec fn after_first_word(s: Seq<char>) -> Seq<char> {
    let t = s.skip(blank_run(s) as int);
    t.skip(word_run(t) as int)
}

/// `blank_run(s)` is the one `k` for which the first `k` characters of `s` are
/// blank and the next one, if there is a next one, is not.
pub proof fn lemma_blank_run(s: Seq<char>, k: int)
    requires
        0 <= k <= s.len(),
        forall|i: int| 0 <= i < k ==> is_blank(#[trigger] s[i]),
        k < s.len() ==> !is_blank(s[k]),
    ensures
        blank_run(s) == k,
    decreases k,
{
    if k > 0 {
        let t = s.drop_first();
        assert forall|i: int| 0 <= i < k - 1 implies is_blank(#[trigger] t[i]) by {
            assert(t[i] == s[i + 1]);
        }
        lemma_blank_run(t, k - 1);
    }
}

/// `word_run(s)` is the one `k` for which none of the first `k` characters of
/// `s` is blank and the next one, if there is a next one, is.
pub proof fn lemma_word_run(s: Seq<char>, k: int)
    requires
        0 <= k <= s.len(),
        forall|i: int| 0 <= i < k ==> !is_blank(#[trigger] s[i]),
        k < s.len() ==> is_blank(s[k]),
    ensures
        word_run(s) == k,
    decreases k,
{
    if k > 0 {
        let t = s.drop_first();
        assert forall|i: int| 0 <= i < k - 1 implies !is_blank(#[trigger] t[i]) by {
            assert(t[i] == s[i + 1]);
        }
        lemma_word_run(t, k - 1);
    }
}

/// A run lies within the string, is made of what it counts, and ends where
/// the string ends or the next character is of the other sort.
pub proof fn lemma_runs(s: Seq<char>)
    ensures
        blank_run(s) <= s.len(),
        forall|i: int| 0 <= i < blank_run(s) ==> is_blank(#[trigger] s[i]),
        blank_run(s) < s.len() ==> !is_blank(s[blank_run(s) as int]),
        word_run(s) <= s.len(),
        forall|i: int| 0 <= i < word_run(s) ==> !is_blank(#[trigger] s[i]),
        word_run(s) < s.len() ==> is_blank(s[word_run(s) as int]),
    decreases s.len(),
{
    if s.len() > 0 {
        let t = s.drop_first();
        lemma_runs(t);
        assert forall|i: int| 0 <= i < blank_run(s) implies is_blank(#[trigger] s[i]) by {
            if i > 0 {
                assert(s[i] == t[i - 1]);
            }
        }
        assert forall|i: int| 0 <= i < word_run(s) implies !is_blank(#[trigger] s[i]) by {
            if i > 0 {
                assert(s[i] == t[i - 1]);
            }
        }
        if is_blank(s[0]) {
            assert(blank_run(s) < s.len() ==> s[blank_run(s) as int] == t[blank_run(t) as int]);
        } else {
            assert(word_run(s) < s.len() ==> s[word_run(s) as int] == t[word_run(t) as int]);
        }
    }
}

/// Where a string has no first word it has no second word either.
pub proof fn lemma_no_word_no_more(s: Seq<char>)
    requires
        first_word(s).len() == 0,
    ensures
        first_word(after_first_word(s)).len() == 0,
{
    lemma_runs(s);
    let t = s.skip(blank_run(s) as int);
    lemma_runs(t);
    if t.len() > 0 {
        assert(t[0] == s[blank_run(s) as int]);
    }
    let rest = after_first_word(s);
    assert(rest.len() == 0);
    lemma_runs(rest);
    lemma_runs(rest.skip(blank_run(rest) as int));
}

/// A word followed by a blank, or by nothing, is the first word of the string
/// that begins with it, and the rest is what follows it.
pub proof fn lemma_first_word_of_concat(word: Seq<char>, rest: Seq<char>)
    requires
        word.len() > 0,
        no_blank(word),
        rest.len() > 0 ==> is_blank(rest[0]),
    ensures
        first_word(word + rest) == word,
        after_first_word(word + rest) == rest,
{
    let s = word + rest;
    lemma_blank_run(s, 0);
    assert(s.skip(0) =~= s);
    lemma_word_run(s, word.len() as int);
    assert(s.take(word.len() as int) =~= word);
    assert(s.skip(word.len() as int) =~= rest);
}

/// One blank and then a word, with nothing after it: the word is the first
/// word, and nothing follows it.
pub proof fn lemma_first_word_after_blank(blank: char, word: Seq<char>)
    requires
        is_blank(blank),
        word.len() > 0,
        no_blank(word),
    ensures
        first_word(seq![blank] + word) == word,
        first_word(after_first_word(seq![blank] + word)).len() == 0,
{
    let s = seq![blank] + word;
    lemma_blank_run(s, 1);
    let t = s.skip(1);
    assert(t =~= word);
    lemma_word_run(t, word.len() as int);
    assert(t.take(word.len() as int) =~= word);
    let rest = t.skip(word.len() as int);
    assert(rest.len() == 0);
    assert(first_word(rest).len() == 0) by {
        lemma_runs(rest);
        lemma_runs(rest.skip(blank_run(rest) as int));
    }
}

/// Copies the characters of `text` into a vector.
pub fn chars_of(text: &str) -> (chars: Vec<char>)
    ensures
        chars@ == text@,
{
    let mut chars: Vec<char> = Vec::new();
    for c in it: text.chars()
        invariant
            it.seq() == text@,
            chars@ == it.seq().take(it.index()),
    {
        chars.push(c);
    }
    chars
}

/// Tells whether `c` is a blank.
pub fn is_blank_char(c: char) -> (b: bool)
    ensures
        b == is_blank(c),
{
    c == ' ' || c == '\t' || c == '\n' || c == '\x0c' || c == '\r'
}

/// Finds the first word of `chars` at or after index `from`: returns the index
/// where the word starts and the index just past its end.
pub(crate) fn next_word(chars: &Vec<char>, from: usize) -> (bounds: (usize, usize))
    requires
        from <= chars.len(),
    ensures
        from <= bounds.0 <= bounds.1 <= chars.len(),
        chars@.subrange(bounds.0 as int, bounds.1 as int) == first_word(chars@.skip(from as int)),
        chars@.skip(bounds.1 as int) == after_first_word(chars@.skip(from as int)),
{
    let ghost s = chars@.skip(from as int);
    let n = chars.len();
    let mut start: usize = from;
    while start < n && is_blank_char(chars[start])
        invariant
            from <= start <= n == chars.len(),
            forall|i: int| from <= i < start ==> is_blank(#[trigger] chars@[i]),
        decreases n - start,
    {
        start += 1;
    }
    let mut end: usize = start;
    while end < n && !is_blank_char(chars[end])
        invariant
            start <= end <= n == chars.len(),
            forall|i: int| start <= i < end ==> !is_blank(#[trigger] chars@[i]),
        decreases n - end,
    {
        end += 1;
    }
    proof {
        assert forall|i: int| 0 <= i < start - from implies is_blank(#[trigger] s[i]) by {
            assert(s[i] == chars@[from + i]);
        }
        lemma_blank_run(s, start - from);
        let t = s.skip(start - from);
        assert(t =~= chars@.skip(start as int));
        assert forall|i: int| 0 <= i < end - start implies !is_blank(#[trigger] t[i]) by {
            assert(t[i] == chars@[start + i]);
        }
        lemma_word_run(t, end - start);
        assert(t.take(end - start) =~= chars@.subrange(start as int, end as int));
        assert(t.skip(end - start) =~= chars@.skip(end as int));
    }
    (start, end)
}

} // verus!
