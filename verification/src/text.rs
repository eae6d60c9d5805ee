//! Character classes and whitespace tokenization over Unicode scalar values.

use vstd::prelude::*;

verus! {

/// The Unicode `White_Space` property, the class that `char::is_whitespace`
/// and `str::split_whitespace` use.
pub open spec fn is_white_space(c: char) -> bool {
    ||| ('\u{9}' <= c && c <= '\u{d}')
    ||| c == ' '
    ||| c == '\u{85}'
    ||| c == '\u{a0}'
    ||| c == '\u{1680}'
    ||| ('\u{2000}' <= c && c <= '\u{200a}')
    ||| c == '\u{2028}'
    ||| c == '\u{2029}'
    ||| c == '\u{202f}'
    ||| c == '\u{205f}'
    ||| c == '\u{3000}'
}

/// Executable test for [`is_white_space`].
pub fn white_space(c: char) -> (res: bool)
    ensures
        res == is_white_space(c),
{
    ('\u{9}' <= c && c <= '\u{d}') || c == ' ' || c == '\u{85}' || c == '\u{a0}' || c
        == '\u{1680}' || ('\u{2000}' <= c && c <= '\u{200a}') || c == '\u{2028}' || c
        == '\u{2029}' || c == '\u{202f}' || c == '\u{205f}' || c == '\u{3000}'
}

/// ASCII letters and digits (`char::is_ascii_alphanumeric`).
pub open spec fn is_ascii_alnum(c: char) -> bool {
    ||| ('a' <= c && c <= 'z')
    ||| ('A' <= c && c <= 'Z')
    ||| ('0' <= c && c <= '9')
}

/// Number of leading characters of `s` before its first whitespace.
pub open spec fn leading_word_len(s: Seq<char>) -> nat
    decreases s.len(),
{
    if s.len() == 0 || is_white_space(s[0]) {
        0
    } else {
        1 + leading_word_len(s.drop_first())
    }
}

pub proof fn lemma_leading_word_len_bounded(s: Seq<char>)
    ensures
        leading_word_len(s) <= s.len(),
        s.len() > 0 && !is_white_space(s[0]) ==> leading_word_len(s) >= 1,
    decreases s.len(),
{
    if s.len() > 0 && !is_white_space(s[0]) {
        lemma_leading_word_len_bounded(s.drop_first());
    }
}

/// The maximal runs of non-whitespace characters of `s`, in order: what
/// `str::split_whitespace` yields.
pub open spec fn whitespace_tokens(s: Seq<char>) -> Seq<Seq<char>>
    decreases s.len(),
{
    if s.len() == 0 {
        seq![]
    } else if is_white_space(s[0]) {
        whitespace_tokens(s.drop_first())
    } else {
        let n = leading_word_len(s);
        proof {
            lemma_leading_word_len_bounded(s);
        }
        seq![s.take(n as int)] + whitespace_tokens(s.skip(n as int))
    }
}

/// A run of `m` non-whitespace characters that ends at the end of `s` or at a
/// whitespace character is the leading word of `s`.
proof fn lemma_leading_word_len_exact(s: Seq<char>, m: int)
    requires
        0 <= m <= s.len(),
        forall|k: int| 0 <= k < m ==> !is_white_space(#[trigger] s[k]),
        m == s.len() || is_white_space(s[m]),
    ensures
        leading_word_len(s) == m,
    decreases m,
{
    if m > 0 {
        let t = s.drop_first();
        assert forall|k: int| 0 <= k < m - 1 implies !is_white_space(#[trigger] t[k]) by {
            assert(t[k] == s[k + 1]);
        }
        lemma_leading_word_len_exact(t, m - 1);
    }
}

/// A leading word that stops inside `a`, or at its end when `t` starts with
/// whitespace, is unchanged by appending `t`.
proof fn lemma_leading_word_len_append(a: Seq<char>, t: Seq<char>)
    requires
        leading_word_len(a) < a.len() || t.len() == 0 || is_white_space(t[0]),
    ensures
        leading_word_len(a + t) == leading_word_len(a),
    decreases a.len(),
{
    if a.len() > 0 {
        assert((a + t)[0] == a[0]);
        if !is_white_space(a[0]) {
            assert((a + t).drop_first() =~= a.drop_first() + t);
            lemma_leading_word_len_append(a.drop_first(), t);
        }
    } else {
        assert(a + t =~= t);
    }
}

/// Text without whitespace is one token.
pub proof fn whitespace_tokens_of_a_word(s: Seq<char>)
    requires
        s.len() > 0,
        forall|i: int| 0 <= i < s.len() ==> !is_white_space(#[trigger] s[i]),
    ensures
        whitespace_tokens(s) == seq![s],
{
    lemma_leading_word_len_exact(s, s.len() as int);
    assert(s.take(s.len() as int) =~= s);
    assert(s.skip(s.len() as int) =~= Seq::<char>::empty());
    assert(!is_white_space(s[0]));
    assert(whitespace_tokens(Seq::<char>::empty()) =~= Seq::<Seq<char>>::empty());
    assert(seq![s] + Seq::<Seq<char>>::empty() =~= seq![s]);
}

/// Text made only of whitespace has no tokens.
pub proof fn whitespace_tokens_of_blank(s: Seq<char>)
    requires
        forall|i: int| 0 <= i < s.len() ==> is_white_space(#[trigger] s[i]),
    ensures
        whitespace_tokens(s) == Seq::<Seq<char>>::empty(),
    decreases s.len(),
{
    if s.len() > 0 {
        let d = s.drop_first();
        assert forall|i: int| 0 <= i < d.len() implies is_white_space(#[trigger] d[i]) by {
            assert(d[i] == s[i + 1]);
        }
        whitespace_tokens_of_blank(d);
    }
}

/// A whitespace character splits text into independent parts: the tokens
/// of `a`, a whitespace character, then `b` are the tokens of `a` followed
/// by the tokens of `b`. With the two laws above this fixes the tokens of
/// every text.
pub proof fn whitespace_tokens_split(a: Seq<char>, c: char, b: Seq<char>)
    requires
        is_white_space(c),
    ensures
        whitespace_tokens(a + seq![c] + b) == whitespace_tokens(a) + whitespace_tokens(b),
    decreases a.len(),
{
    let s = a + seq![c] + b;
    if a.len() == 0 {
        assert(s[0] == c);
        assert(s.drop_first() =~= b);
        assert(whitespace_tokens(a) =~= Seq::<Seq<char>>::empty());
        assert(whitespace_tokens(a) + whitespace_tokens(b) =~= whitespace_tokens(b));
    } else if is_white_space(a[0]) {
        assert(s[0] == a[0]);
        assert(s.drop_first() =~= a.drop_first() + seq![c] + b);
        whitespace_tokens_split(a.drop_first(), c, b);
    } else {
        assert(s[0] == a[0]);
        let n = leading_word_len(a);
        lemma_leading_word_len_bounded(a);
        let t = seq![c] + b;
        assert(s =~= a + t);
        assert(t[0] == c);
        lemma_leading_word_len_append(a, t);
        assert(s.take(n as int) =~= a.take(n as int));
        assert(s.skip(n as int) =~= a.skip(n as int) + seq![c] + b);
        whitespace_tokens_split(a.skip(n as int), c, b);
        assert(whitespace_tokens(s) == seq![a.take(n as int)] + whitespace_tokens(s.skip(n as int)));
        assert(whitespace_tokens(a) == seq![a.take(n as int)] + whitespace_tokens(a.skip(n as int)));
        assert(seq![a.take(n as int)] + (whitespace_tokens(a.skip(n as int)) + whitespace_tokens(b))
            =~= seq![a.take(n as int)] + whitespace_tokens(a.skip(n as int)) + whitespace_tokens(b));
    }
}

/// The characters of `s`, one per element.
pub fn chars_of(s: &str) -> (res: Vec<char>)
    ensures
        res@ == s@,
{
    let n = s.unicode_len();
    let mut res: Vec<char> = Vec::new();
    let mut i: usize = 0;
    while i < n
        invariant
            n == s@.len(),
            i <= n,
            res@ == s@.take(i as int),
        decreases n - i,
    {
        let c = s.get_char(i);
        res.push(c);
        i = i + 1;
        assert(res@ =~= s@.take(i as int));
    }
    assert(res@ =~= s@);
    res
}

/// Splits `s` at whitespace, as `s.split_whitespace().map(str::to_string)`.
pub fn split_whitespace(s: &str) -> (res: Vec<String>)
    ensures
        res@.map_values(|t: String| t@) == whitespace_tokens(s@),
{
    let chars = chars_of(s);
    let n = chars.len();
    let mut res: Vec<String> = Vec::new();
    let mut i: usize = 0;
    assert(s@.skip(0) =~= s@);
    while i < n
        invariant
            n == s@.len(),
            chars@ == s@,
            i <= n,
            res@.map_values(|t: String| t@) + whitespace_tokens(s@.skip(i as int))
                == whitespace_tokens(s@),
        decreases n - i,
    {
        let ghost rest = s@.skip(i as int);
        assert(rest.drop_first() =~= s@.skip(i + 1));
        if white_space(chars[i]) {
            i = i + 1;
        } else {
            let start = i;
            let mut j: usize = i + 1;
            while j < n && !white_space(chars[j])
                invariant
                    n == s@.len(),
                    chars@ == s@,
                    start < j <= n,
                    forall|k: int| start <= k < j ==> !is_white_space(#[trigger] s@[k]),
                decreases n - j,
            {
                j = j + 1;
            }
            proof {
                assert forall|k: int| 0 <= k < j - start implies !is_white_space(
                    #[trigger] rest[k],
                ) by {
                    assert(rest[k] == s@[start + k]);
                }
                if j < n {
                    assert(rest[j - start] == s@[j as int]);
                }
                lemma_leading_word_len_exact(rest, j - start);
                assert(rest.take(j - start) =~= s@.subrange(start as int, j as int));
                assert(rest.skip(j - start) =~= s@.skip(j as int));
            }
            let word = s.substring_char(start, j).to_owned();
            let ghost before = res@;
            res.push(word);
            assert(res@.map_values(|t: String| t@) =~= before.map_values(|t: String| t@).push(
                word@,
            ));
            assert(seq![rest.take(j - start)] + whitespace_tokens(rest.skip(j - start))
                == whitespace_tokens(rest));
            i = j;
            assert(res@.map_values(|t: String| t@) + whitespace_tokens(s@.skip(i as int))
                =~= before.map_values(|t: String| t@) + whitespace_tokens(rest));
        }
    }
    assert(s@.skip(n as int) =~= Seq::<char>::empty());
    assert(res@.map_values(|t: String| t@) =~= res@.map_values(|t: String| t@) + Seq::<Seq<char>>::empty());
    res
}

} // verus!
