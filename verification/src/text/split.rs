use vstd::prelude::*;
use vstd::string::*;

use crate::text::decimal::push_char;

verus! {

/// The pieces of `s` between occurrences of `sep`, as `str::split` gives them: one piece
/// more than there are separators, empty pieces included.
pub open spec fn split_on(s: Seq<char>, sep: char) -> Seq<Seq<char>>
    decreases s.len(),
{
    if s.len() == 0 {
        seq![Seq::<char>::empty()]
    } else {
        let rest = split_on(s.drop_last(), sep);
        if s.last() == sep {
            rest.push(Seq::<char>::empty())
        } else {
            rest.update(rest.len() - 1, rest.last().push(s.last()))
        }
    }
}

/// The pieces joined back together with `sep` between neighbours.
pub open spec fn join_with(parts: Seq<Seq<char>>, sep: char) -> Seq<char>
    decreases parts.len(),
{
    if parts.len() == 0 {
        Seq::<char>::empty()
    } else if parts.len() == 1 {
        parts[0]
    } else {
        join_with(parts.drop_last(), sep).push(sep) + parts.last()
    }
}

/// The views of a sequence of strings.
pub open spec fn string_views(v: Seq<String>) -> Seq<Seq<char>> {
    v.map_values(|p: String| p@)
}

/// There is always at least one piece.
pub proof fn lemma_split_on_nonempty(s: Seq<char>, sep: char)
    ensures
        split_on(s, sep).len() >= 1,
    decreases s.len(),
{
    if s.len() > 0 {
        lemma_split_on_nonempty(s.drop_last(), sep);
    }
}

/// Splitting on a character and joining the pieces with it gives back the text, and no
/// piece holds the separator.
pub proof fn law_split_then_join(s: Seq<char>, sep: char)
    ensures
        join_with(split_on(s, sep), sep) == s,
        forall|i: int, j: int|
            0 <= i < split_on(s, sep).len() && 0 <= j < split_on(s, sep)[i].len()
                ==> split_on(s, sep)[i][j] != sep,
    decreases s.len(),
{
    if s.len() > 0 {
        let prev = s.drop_last();
        let c = s.last();
        law_split_then_join(prev, sep);
        lemma_split_on_nonempty(prev, sep);
        let rest = split_on(prev, sep);
        if c == sep {
            let parts = rest.push(Seq::<char>::empty());
            assert(parts.drop_last() =~= rest);
            assert(join_with(parts, sep) =~= prev.push(sep));
            assert(prev.push(sep) =~= s);
        } else {
            let parts = rest.update(rest.len() - 1, rest.last().push(c));
            if rest.len() == 1 {
                assert(join_with(parts, sep) =~= s);
            } else {
                assert(parts.drop_last() =~= rest.drop_last());
                assert(join_with(parts, sep) =~= join_with(rest, sep).push(c));
                assert(join_with(rest, sep).push(c) =~= s);
            }
            assert forall|i: int, j: int|
                0 <= i < parts.len() && 0 <= j < parts[i].len() implies parts[i][j] != sep by {
                if i == rest.len() - 1 && j == rest.last().len() {
                } else if i == rest.len() - 1 {
                    assert(parts[i][j] == rest[i][j]);
                }
            }
        }
    }
}

/// Splits `s` at every `,`, as `s.split(',').map(String::from).collect()` does.
pub fn split_commas(s: &str) -> (parts: Vec<String>)
    ensures
        string_views(parts@) == split_on(s@, ','),
{
    let len = s.unicode_len();
    let mut parts: Vec<String> = Vec::new();
    let mut cur = String::new();
    let mut i: usize = 0;
    while i < len
        invariant
            i <= len,
            len == s@.len(),
            string_views(parts@).push(cur@) == split_on(s@.take(i as int), ','),
        decreases len - i,
    {
        let c = s.get_char(i);
        let ghost before = string_views(parts@).push(cur@);
        proof {
            assert(s@.take(i + 1).drop_last() =~= s@.take(i as int));
            assert(s@.take(i + 1).last() == c);
        }
        if c == ',' {
            parts.push(cur);
            cur = String::new();
            assert(string_views(parts@).push(cur@) =~= before.push(Seq::<char>::empty()));
        } else {
            push_char(&mut cur, c);
            assert(string_views(parts@).push(cur@) =~= before.update(
                before.len() - 1,
                before.last().push(c),
            ));
        }
        i = i + 1;
    }
    parts.push(cur);
    assert(s@.take(len as int) =~= s@);
    assert(string_views(parts@) =~= split_on(s@, ','));
    parts
}

} // verus!
