//! Reading the text that commands print and that users pass in: splitting
//! into words, and taking an application's name out of a repository URL.

use vstd::prelude::*;
use vstd::string::*;

verus! {

/// The characters that separate words: space, tab, line feed, vertical tab,
/// form feed and carriage return.
pub open spec fn is_space(c: char) -> bool {
    c == ' ' || c == '\t' || c == '\n' || c == '\x0b' || c == '\x0c' || c == '\r'
}

/// Length of the longest prefix of `s` that holds no separator.
pub open spec fn word_len(s: Seq<char>) -> nat
    decreases s.len(),
{
    if s.len() == 0 || is_space(s[0]) {
        0
    } else {
        1 + word_len(s.drop_first())
    }
}

/// The words of `s`: its maximal runs of characters other than separators,
/// in order.
pub open spec fn spec_words(s: Seq<char>) -> Seq<Seq<char>>
    decreases s.len(),
    via spec_words_decreases
{
    if s.len() == 0 {
        Seq::empty()
    } else if is_space(s[0]) {
        spec_words(s.drop_first())
    } else {
        seq![s.take(word_len(s) as int)] + spec_words(s.skip(word_len(s) as int))
    }
}

#[via_fn]
proof fn spec_words_decreases(s: Seq<char>) {
    lemma_word_len_bound(s);
}

/// What follows the last `/` of `s`; all of `s` where it holds none.
pub open spec fn last_segment(s: Seq<char>) -> Seq<char>
    decreases s.len(),
{
    if s.len() == 0 || s.last() == '/' {
        Seq::empty()
    } else {
        last_segment(s.drop_last()).push(s.last())
    }
}

/// Whether `s` ends in `.git`.
pub open spec fn ends_with_git(s: Seq<char>) -> bool {
    &&& s.len() >= 4
    &&& s[s.len() - 4] == '.'
    &&& s[s.len() - 3] == 'g'
    &&& s[s.len() - 2] == 'i'
    &&& s[s.len() - 1] == 't'
}

/// `s` without any `.git` at its end, however often it is repeated there.
pub open spec fn without_git_suffix(s: Seq<char>) -> Seq<char>
    decreases s.len(),
{
    if ends_with_git(s) {
        without_git_suffix(s.take(s.len() - 4))
    } else {
        s
    }
}

/// The name of the repository that `url` points to: its last path segment,
/// without `.git`.
pub open spec fn spec_repo_name(url: Seq<char>) -> Seq<char> {
    without_git_suffix(last_segment(url))
}

/// The views of a list of strings.
pub open spec fn texts(list: Seq<String>) -> Seq<Seq<char>> {
    Seq::new(list.len(), |i: int| list[i]@)
}

/// The first word ends within the text, holds no separator, and is followed
/// by one unless the text ends there.
pub proof fn lemma_word_len_bound(s: Seq<char>)
    ensures
        word_len(s) <= s.len(),
        forall|k: int| 0 <= k < word_len(s) ==> !is_space(#[trigger] s[k]),
        word_len(s) < s.len() ==> is_space(s[word_len(s) as int]),
    decreases s.len(),
{
    if s.len() > 0 && !is_space(s[0]) {
        let rest = s.drop_first();
        lemma_word_len_bound(rest);
        assert forall|k: int| 0 <= k < word_len(s) implies !is_space(#[trigger] s[k]) by {
            if k > 0 {
                assert(s[k] == rest[k - 1]);
            }
        }
    }
}

/// A run of `n` characters without a separator, ended by a separator or by
/// the end of the text, is the first word's extent.
pub proof fn lemma_word_len_is(s: Seq<char>, n: int)
    requires
        0 <= n <= s.len(),
        forall|k: int| 0 <= k < n ==> !is_space(#[trigger] s[k]),
        n < s.len() ==> is_space(s[n]),
    ensures
        word_len(s) == n,
    decreases s.len(),
{
    if n > 0 {
        lemma_word_len_is(s.drop_first(), n - 1);
    }
}

/// Where the part of `s` from `from` on holds no `/` and is preceded by one
/// (or by nothing), it is the last segment.
pub proof fn lemma_last_segment_is(s: Seq<char>, from: int)
    requires
        0 <= from <= s.len(),
        forall|k: int| from <= k < s.len() ==> #[trigger] s[k] != '/',
        from > 0 ==> s[from - 1] == '/',
    ensures
        last_segment(s) == s.skip(from),
    decreases s.len(),
{
    if from < s.len() {
        lemma_last_segment_is(s.drop_last(), from);
    }
}

/// Whether `c` separates words.
pub fn separates(c: char) -> (r: bool)
    ensures
        r == is_space(c),
{
    c == ' ' || c == '\t' || c == '\n' || c == '\x0b' || c == '\x0c' || c == '\r'
}

/// The characters of `s`, in order.
pub fn chars_of(s: &str) -> (r: Vec<char>)
    ensures
        r@ == s@,
{
    broadcast use group_string_axioms;

    let mut r: Vec<char> = Vec::new();
    let it = s.chars();
    for c in iter: it
        invariant
            r@ == iter.history(),
            iter.seq() == s@,
    {
        r.push(c);
    }
    r
}

/// The words of `s`, in order.
pub fn words(s: &str) -> (list: Vec<String>)
    ensures
        texts(list@) == spec_words(s@),
{
    let chars = chars_of(s);
    let n = chars.len();
    let mut list: Vec<String> = Vec::new();
    let mut i: usize = 0;
    assert(s@.skip(0) =~= s@);
    while i < n
        invariant
            chars@ == s@,
            n == chars@.len(),
            i <= n,
            texts(list@) + spec_words(s@.skip(i as int)) == spec_words(s@),
        decreases n - i,
    {
        let ghost rest = s@.skip(i as int);
        if separates(chars[i]) {
            assert(rest.drop_first() =~= s@.skip(i + 1));
            i += 1;
        } else {
            let start = i;
            let mut end = i + 1;
            while end < n && !separates(chars[end])
                invariant
                    chars@ == s@,
                    n == chars@.len(),
                    start < end <= n,
                    forall|k: int| start <= k < end ==> !is_space(#[trigger] s@[k]),
                decreases n - end,
            {
                end += 1;
            }
            proof {
                lemma_word_len_is(rest, end - start);
                assert(rest.skip(end - start) =~= s@.skip(end as int));
                assert(rest.take(end - start) =~= s@.subrange(start as int, end as int));
            }
            let word = String::from_str(s.substring_char(start, end));
            list.push(word);
            i = end;
        }
    }
    list
}

/// The name of the repository that `url` points to.
pub fn repo_name(url: &str) -> (name: String)
    ensures
        name@ == spec_repo_name(url@),
{
    let chars = chars_of(url);
    let n = chars.len();
    let mut from = n;
    while from > 0 && chars[from - 1] != '/'
        invariant
            chars@ == url@,
            n == chars@.len(),
            from <= n,
            forall|k: int| from <= k < n ==> #[trigger] url@[k] != '/',
        decreases from,
    {
        from -= 1;
    }
    proof {
        lemma_last_segment_is(url@, from as int);
    }
    let ghost segment = url@.skip(from as int);
    let mut to = n;
    assert(segment.take(to - from) =~= segment);
    while to - from >= 4 && chars[to - 4] == '.' && chars[to - 3] == 'g' && chars[to - 2] == 'i'
        && chars[to - 1] == 't'
        invariant
            chars@ == url@,
            n == chars@.len(),
            from <= to <= n,
            segment == url@.skip(from as int),
            without_git_suffix(segment) == without_git_suffix(segment.take(to - from)),
        decreases to,
    {
        let ghost kept = segment.take(to - from);
        assert(kept.take(kept.len() - 4) =~= segment.take(to - 4 - from));
        to -= 4;
    }
    String::from_str(url.substring_char(from, to))
}

/// Adds a copy of `s` at the end of `list`.
pub fn push_text(list: &mut Vec<String>, s: &str)
    ensures
        texts(final(list)@) == texts(old(list)@).push(s@),
{
    list.push(String::from_str(s));
}

/// Adds `s` at the end of `list`.
pub fn push_owned(list: &mut Vec<String>, s: String)
    ensures
        texts(final(list)@) == texts(old(list)@).push(s@),
{
    list.push(s);
}

/// Whether `a` and `b` hold the same text.
pub fn same_text(a: &str, b: &str) -> (r: bool)
    ensures
        r == (a@ == b@),
{
    String::from_str(a) == String::from_str(b)
}

} // verus!
