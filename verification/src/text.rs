//! Text helpers shared by the router and the handlers: whitespace
//! tokenisation, decimal rendering, concatenation and the placeholder for
//! absent values.

use vstd::prelude::*;

verus! {

/// The five characters that count as ASCII whitespace: space, tab, line
/// feed, form feed and carriage return.
pub open spec fn is_space(c: char) -> bool {
    c == ' ' || c == '\t' || c == '\n' || c == '\x0C' || c == '\r'
}

/// The first position at or after `i` that holds a whitespace character,
/// or the end of `s` when there is none.
pub open spec fn word_end(s: Seq<char>, i: int) -> int
    decreases s.len() - i,
{
    if i < 0 || i >= s.len() || is_space(s[i]) {
        i
    } else {
        word_end(s, i + 1)
    }
}

/// The whitespace-delimited tokens of `s` that begin at or after `i`, in
/// order of appearance.
pub open spec fn tokens_from(s: Seq<char>, i: int) -> Seq<Seq<char>>
    decreases s.len() - i,
    via tokens_from_decreases
{
    if i < 0 || i >= s.len() {
        Seq::empty()
    } else if is_space(s[i]) {
        tokens_from(s, i + 1)
    } else {
        seq![s.subrange(i, word_end(s, i))] + tokens_from(s, word_end(s, i))
    }
}

#[via_fn]
proof fn tokens_from_decreases(s: Seq<char>, i: int) {
    if 0 <= i < s.len() && !is_space(s[i]) {
        lemma_word_end_bounds(s, i);
    }
}

/// The whitespace-delimited tokens of `s`, in order of appearance.
pub open spec fn tokens(s: Seq<char>) -> Seq<Seq<char>> {
    tokens_from(s, 0)
}

/// A word that starts on a non-whitespace character ends strictly after
/// its start and not beyond the end of the text.
pub proof fn lemma_word_end_bounds(s: Seq<char>, i: int)
    requires
        0 <= i < s.len(),
        !is_space(s[i]),
    ensures
        i < word_end(s, i) <= s.len(),
        forall|k: int| i <= k < word_end(s, i) ==> !is_space(#[trigger] s[k]),
        word_end(s, i) < s.len() ==> is_space(s[word_end(s, i)]),
    decreases s.len() - i,
{
    assert(word_end(s, i) == word_end(s, i + 1));
    if i + 1 < s.len() && !is_space(s[i + 1]) {
        lemma_word_end_bounds(s, i + 1);
    } else {
        assert(word_end(s, i + 1) == i + 1);
    }
}

/// A word: at least one character, none of them whitespace.
pub open spec fn is_word(w: Seq<char>) -> bool {
    w.len() > 0 && forall|j: int| 0 <= j < w.len() ==> !is_space(#[trigger] w[j])
}

/// Every token is a word: tokenisation yields no empty token and no token
/// that holds whitespace.
pub proof fn lemma_tokens_are_words(s: Seq<char>, i: int)
    requires
        0 <= i,
    ensures
        forall|k: int| 0 <= k < tokens_from(s, i).len() ==> is_word(#[trigger] tokens_from(s, i)[k]),
    decreases s.len() - i,
{
    if i >= s.len() {
        assert(tokens_from(s, i).len() == 0);
    } else if is_space(s[i]) {
        lemma_tokens_are_words(s, i + 1);
        assert(tokens_from(s, i) == tokens_from(s, i + 1));
    } else {
        lemma_word_end_bounds(s, i);
        let e = word_end(s, i);
        let w = s.subrange(i, e);
        lemma_tokens_are_words(s, e);
        assert(tokens_from(s, i) == seq![w] + tokens_from(s, e));
        assert(is_word(w)) by {
            assert forall|j: int| 0 <= j < w.len() implies !is_space(#[trigger] w[j]) by {
                assert(w[j] == s[i + j]);
            }
        }
        assert forall|k: int| 0 <= k < tokens_from(s, i).len() implies is_word(
            #[trigger] tokens_from(s, i)[k],
        ) by {
            if k > 0 {
                assert(tokens_from(s, i)[k] == tokens_from(s, e)[k - 1]);
            } else {
                assert(tokens_from(s, i)[k] == w);
            }
        }
    }
}

/// The views of the strings in `v`, position by position.
pub open spec fn string_views(v: Seq<String>) -> Seq<Seq<char>> {
    Seq::new(v.len(), |i: int| v[i]@)
}

/// Tells whether `c` is ASCII whitespace.
pub fn is_space_char(c: char) -> (r: bool)
    ensures
        r == is_space(c),
{
    c == ' ' || c == '\t' || c == '\n' || c == '\x0C' || c == '\r'
}

/// Splits `s` on ASCII whitespace. Runs of whitespace separate tokens and
/// never produce an empty one; leading and trailing whitespace is dropped.
pub fn split_whitespace(s: &str) -> (out: Vec<String>)
    ensures
        string_views(out@) == tokens(s@),
{
    let n: usize = s.unicode_len();
    let mut out: Vec<String> = Vec::new();
    let mut i: usize = 0;
    assert(string_views(out@) =~= Seq::<Seq<char>>::empty());
    while i < n
        invariant
            n == s@.len(),
            i <= n,
            tokens(s@) == string_views(out@) + tokens_from(s@, i as int),
        decreases n - i,
    {
        let c: char = s.get_char(i);
        if is_space_char(c) {
            i = i + 1;
        } else {
            let start: usize = i;
            let mut j: usize = i + 1;
            while j < n && !is_space_char(s.get_char(j))
                invariant
                    n == s@.len(),
                    start < j <= n,
                    !is_space(s@[start as int]),
                    word_end(s@, start as int) == word_end(s@, j as int),
                decreases n - j,
            {
                j = j + 1;
            }
            let word: String = String::from_str(s.substring_char(start, j));
            proof {
                assert(word_end(s@, j as int) == j);
                assert(string_views(out@.push(word)) =~= string_views(out@).push(word@));
                assert(string_views(out@).push(word@) + tokens_from(s@, j as int)
                    =~= string_views(out@) + (seq![word@] + tokens_from(s@, j as int)));
            }
            out.push(word);
            i = j;
        }
    }
    assert(string_views(out@) + Seq::<Seq<char>>::empty() =~= string_views(out@));
    out
}

/// Tells whether `s` begins with the character `c`.
pub fn starts_with_char(s: &str, c: char) -> (r: bool)
    ensures
        r == (s@.len() > 0 && s@[0] == c),
{
    s.unicode_len() > 0 && s.get_char(0) == c
}

/// The character that stands for the digit `d`.
pub open spec fn digit_char(d: nat) -> char {
    if d == 0 {
        '0'
    } else if d == 1 {
        '1'
    } else if d == 2 {
        '2'
    } else if d == 3 {
        '3'
    } else if d == 4 {
        '4'
    } else if d == 5 {
        '5'
    } else if d == 6 {
        '6'
    } else if d == 7 {
        '7'
    } else if d == 8 {
        '8'
    } else {
        '9'
    }
}

/// The decimal digits of `n`, most significant first, without leading
/// zeros; zero is the single digit `0`.
pub open spec fn decimal(n: nat) -> Seq<char>
    decreases n,
{
    if n < 10 {
        seq![digit_char(n)]
    } else {
        decimal(n / 10).push(digit_char(n % 10))
    }
}

fn digit_str(d: u64) -> (r: &'static str)
    requires
        d < 10,
    ensures
        r@ == seq![digit_char(d as nat)],
{
    proof {
        reveal_strlit("0");
        reveal_strlit("1");
        reveal_strlit("2");
        reveal_strlit("3");
        reveal_strlit("4");
        reveal_strlit("5");
        reveal_strlit("6");
        reveal_strlit("7");
        reveal_strlit("8");
        reveal_strlit("9");
    }
    let r: &'static str = if d == 0 {
        "0"
    } else if d == 1 {
        "1"
    } else if d == 2 {
        "2"
    } else if d == 3 {
        "3"
    } else if d == 4 {
        "4"
    } else if d == 5 {
        "5"
    } else if d == 6 {
        "6"
    } else if d == 7 {
        "7"
    } else if d == 8 {
        "8"
    } else {
        "9"
    };
    assert(r@ =~= seq![digit_char(d as nat)]);
    r
}

/// Renders `n` in decimal.
pub fn decimal_string(n: u64) -> (r: String)
    ensures
        r@ == decimal(n as nat),
    decreases n,
{
    if n < 10 {
        String::from_str(digit_str(n))
    } else {
        let mut r: String = decimal_string(n / 10);
        r.append(digit_str(n % 10));
        assert(r@ =~= decimal(n as nat));
        r
    }
}

/// The placeholder shown in place of an optional value that is absent.
pub open spec fn placeholder() -> Seq<char> {
    seq!['-']
}

/// What an optional value renders as: the value itself, or the placeholder
/// when it is absent.
pub open spec fn shown(value: Option<Seq<char>>) -> Seq<char> {
    match value {
        Some(v) => v,
        None => placeholder(),
    }
}

/// The view of an optional string.
pub open spec fn option_view(value: Option<String>) -> Option<Seq<char>> {
    match value {
        Some(v) => Some(v@),
        None => None,
    }
}

/// Renders an optional value, substituting the placeholder on absence, so
/// that every field is present whatever the record lacks.
pub fn or_placeholder(value: &Option<String>) -> (r: String)
    ensures
        r@ == shown(option_view(*value)),
{
    match value {
        Some(v) => v.clone(),
        None => {
            proof {
                reveal_strlit("-");
            }
            let r: String = String::from_str("-");
            assert(r@ =~= placeholder());
            r
        },
    }
}

/// Joins two pieces of text.
pub fn concat2(a: &str, b: &str) -> (r: String)
    ensures
        r@ == a@ + b@,
{
    let mut r: String = String::from_str(a);
    r.append(b);
    r
}

/// Joins three pieces of text.
pub fn concat3(a: &str, b: &str, c: &str) -> (r: String)
    ensures
        r@ == a@ + b@ + c@,
{
    let mut r: String = String::from_str(a);
    r.append(b);
    r.append(c);
    r
}

} // verus!
