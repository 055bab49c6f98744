use vstd::prelude::*;
use vstd::string::*;

use crate::text::decimal::push_char;

verus! {

/// The Unicode `White_Space` characters, the set that `char::is_whitespace` and
/// `str::split_whitespace` use.
pub open spec fn is_space(c: char) -> bool {
    ||| c == ' '
    ||| ('\t' <= c && c <= '\r')
    ||| c == '\u{85}'
    ||| c == '\u{A0}'
    ||| c == '\u{1680}'
    ||| ('\u{2000}' <= c && c <= '\u{200A}')
    ||| c == '\u{2028}'
    ||| c == '\u{2029}'
    ||| c == '\u{202F}'
    ||| c == '\u{205F}'
    ||| c == '\u{3000}'
}

/// `char::is_whitespace`.
pub fn is_whitespace(c: char) -> (r: bool)
    ensures
        r == is_space(c),
{
    c == ' ' || ('\t' <= c && c <= '\r') || c == '\u{85}' || c == '\u{A0}' || c == '\u{1680}'
        || ('\u{2000}' <= c && c <= '\u{200A}') || c == '\u{2028}' || c == '\u{2029}'
        || c == '\u{202F}' || c == '\u{205F}' || c == '\u{3000}'
}

/// `s` with its leading white space removed.
pub open spec fn skip_space(s: Seq<char>) -> Seq<char>
    decreases s.len(),
{
    if s.len() > 0 && is_space(s[0]) {
        skip_space(s.drop_first())
    } else {
        s
    }
}

/// The longest prefix of `s` without white space.
pub open spec fn word_prefix(s: Seq<char>) -> Seq<char>
    decreases s.len(),
{
    if s.len() > 0 && !is_space(s[0]) {
        seq![s[0]] + word_prefix(s.drop_first())
    } else {
        Seq::<char>::empty()
    }
}

/// The first word of `s`, as `s.split_whitespace().next()` gives it.
pub open spec fn first_word(s: Seq<char>) -> Option<Seq<char>> {
    let t = skip_space(s);
    if t.len() == 0 {
        None
    } else {
        Some(word_prefix(t))
    }
}

proof fn lemma_skip_space(s: Seq<char>)
    ensures
        skip_space(s).len() > 0 ==> !is_space(skip_space(s)[0]),
        skip_space(s).len() <= s.len(),
        (forall|i: int| 0 <= i < s.len() ==> is_space(#[trigger] s[i])) ==> skip_space(s).len() == 0,
    decreases s.len(),
{
    if s.len() > 0 && is_space(s[0]) {
        lemma_skip_space(s.drop_first());
        if forall|i: int| 0 <= i < s.len() ==> is_space(#[trigger] s[i]) {
            assert forall|i: int| 0 <= i < s.drop_first().len() implies is_space(
                #[trigger] s.drop_first()[i],
            ) by {
                assert(s.drop_first()[i] == s[i + 1]);
            }
        }
    }
}

proof fn lemma_word_prefix(s: Seq<char>)
    ensures
        forall|i: int| 0 <= i < word_prefix(s).len() ==> !is_space(#[trigger] word_prefix(s)[i]),
        s.len() > 0 && !is_space(s[0]) ==> word_prefix(s).len() > 0 && word_prefix(s)[0] == s[0],
        word_prefix(s).len() <= s.len(),
    decreases s.len(),
{
    if s.len() > 0 && !is_space(s[0]) {
        lemma_word_prefix(s.drop_first());
        let w = seq![s[0]] + word_prefix(s.drop_first());
        assert forall|i: int| 0 <= i < w.len() implies !is_space(#[trigger] w[i]) by {
            if i > 0 {
                assert(w[i] == word_prefix(s.drop_first())[i - 1]);
            }
        }
    }
}

/// The first word is never empty and holds no white space; it starts with the first
/// character of the text that is not white space; a text of white space only has no word.
pub proof fn law_first_word_is_a_word(s: Seq<char>)
    ensures
        first_word(s) matches Some(w) ==> (w.len() > 0 && w[0] == skip_space(s)[0]
            && forall|i: int| 0 <= i < w.len() ==> !is_space(#[trigger] w[i])),
        (forall|i: int| 0 <= i < s.len() ==> is_space(#[trigger] s[i])) ==> first_word(s) is None,
        s.len() > 0 && !is_space(s[0]) ==> (first_word(s) matches Some(w) && w[0] == s[0]),
{
    lemma_skip_space(s);
    lemma_word_prefix(skip_space(s));
}

/// The first whitespace-separated word of `s`: `s.split_whitespace().next()`.
pub fn first_word_of(s: &str) -> (r: Option<String>)
    ensures
        r matches Some(w) ==> first_word(s@) == Some(w@),
        r is None ==> first_word(s@) is None,
{
    let len = s.unicode_len();
    let mut i: usize = 0;
    assert(s@.subrange(0, len as int) =~= s@);
    while i < len && is_whitespace(s.get_char(i))
        invariant
            i <= len,
            len == s@.len(),
            skip_space(s@.subrange(i as int, len as int)) == skip_space(s@),
        decreases len - i,
    {
        let ghost t = s@.subrange(i as int, len as int);
        assert(t.drop_first() =~= s@.subrange(i + 1, len as int));
        i = i + 1;
    }
    let ghost t = s@.subrange(i as int, len as int);
    if i == len {
        assert(t =~= Seq::<char>::empty());
        return None;
    }
    assert(skip_space(t) == t);
    let start = i;
    let mut w = String::new();
    while i < len && !is_whitespace(s.get_char(i))
        invariant
            start <= i <= len,
            len == s@.len(),
            t == s@.subrange(start as int, len as int),
            w@ == s@.subrange(start as int, i as int),
            word_prefix(t) == w@ + word_prefix(s@.subrange(i as int, len as int)),
        decreases len - i,
    {
        let c = s.get_char(i);
        let ghost u = s@.subrange(i as int, len as int);
        assert(u.drop_first() =~= s@.subrange(i + 1, len as int));
        assert(u[0] == c);
        push_char(&mut w, c);
        i = i + 1;
        assert(w@ =~= s@.subrange(start as int, i as int));
        assert(word_prefix(u) == seq![c] + word_prefix(u.drop_first()));
        assert(word_prefix(t) =~= w@ + word_prefix(s@.subrange(i as int, len as int)));
    }
    assert(word_prefix(s@.subrange(i as int, len as int)) =~= Seq::<char>::empty());
    assert(word_prefix(t) =~= w@);
    Some(w)
}

} // verus!
