use vstd::prelude::*;
use vstd::string::*;

verus! {

/// The pieces of `s` between occurrences of `sep`, in order; a text without
/// `sep` is one piece, and the empty text is one empty piece.
pub open spec fn split_on(s: Seq<char>, sep: char) -> Seq<Seq<char>>
    decreases s.len(),
{
    if s.len() == 0 {
        seq![Seq::<char>::empty()]
    } else {
        let init = split_on(s.drop_last(), sep);
        if s.last() == sep {
            init.push(Seq::<char>::empty())
        } else {
            init.update(init.len() - 1, init.last().push(s.last()))
        }
    }
}

/// The pieces joined back together with `sep` between neighbours.
pub open spec fn join_with(parts: Seq<Seq<char>>, sep: char) -> Seq<char>
    decreases parts.len(),
{
    if parts.len() == 0 {
        Seq::<char>::empty()
    } else if parts.len() == 1 {
        parts[0]
    } else {
        join_with(parts.drop_last(), sep).push(sep) + parts.last()
    }
}

/// The texts of a list of strings.
pub open spec fn texts(v: Seq<String>) -> Seq<Seq<char>> {
    v.map_values(|a: String| a@)
}

/// Splitting always gives at least one piece.
pub proof fn lemma_split_nonempty(s: Seq<char>, sep: char)
    ensures
        split_on(s, sep).len() >= 1,
    decreases s.len(),
{
    if s.len() > 0 {
        lemma_split_nonempty(s.drop_last(), sep);
    }
}

/// Joining the pieces of a split with the same separator gives back the text.
pub proof fn lemma_split_then_join(s: Seq<char>, sep: char)
    ensures
        join_with(split_on(s, sep), sep) == s,
    decreases s.len(),
{
    if s.len() > 0 {
        let init = split_on(s.drop_last(), sep);
        lemma_split_nonempty(s.drop_last(), sep);
        lemma_split_then_join(s.drop_last(), sep);
        let parts = split_on(s, sep);
        if s.last() == sep {
            assert(parts.drop_last() =~= init);
            assert(join_with(parts, sep) =~= s);
        } else if init.len() == 1 {
            assert(join_with(parts, sep) =~= s);
        } else {
            assert(parts.drop_last() =~= init.drop_last());
            let head = join_with(init.drop_last(), sep).push(sep);
            assert(join_with(init, sep) == head + init.last());
            assert(join_with(parts, sep) == head + init.last().push(s.last()));
            assert(head + init.last().push(s.last()) =~= (head + init.last()).push(s.last()));
            assert(s =~= s.drop_last().push(s.last()));
        }
    }
}

/// No piece of a split holds the separator.
pub proof fn lemma_split_pieces_lack_separator(s: Seq<char>, sep: char)
    ensures
        forall|i: int, j: int|
            0 <= i < split_on(s, sep).len() && 0 <= j < split_on(s, sep)[i].len()
                ==> split_on(s, sep)[i][j] != sep,
    decreases s.len(),
{
    if s.len() > 0 {
        lemma_split_nonempty(s.drop_last(), sep);
        lemma_split_pieces_lack_separator(s.drop_last(), sep);
        let init = split_on(s.drop_last(), sep);
        let parts = split_on(s, sep);
        assert forall|i: int, j: int| 0 <= i < parts.len() && 0 <= j < parts[i].len()
            implies parts[i][j] != sep by {
            if i < init.len() - 1 {
                assert(parts[i] == init[i]);
            } else if s.last() != sep && i == init.len() - 1 {
                if j < init.last().len() {
                    assert(parts[i][j] == init[i][j]);
                }
            }
        }
    }
}

/// Whether two texts are the same.
pub fn same_text(a: &str, b: &str) -> (r: bool)
    ensures
        r == (a@ == b@),
{
    a.to_owned() == b.to_owned()
}

/// The pieces of `s` between commas, in order, as in a list of authors.
pub fn split_commas(s: &str) -> (r: Vec<String>)
    ensures
        texts(r@) == split_on(s@, ','),
{
    let n = s.unicode_len();
    let mut parts: Vec<String> = Vec::new();
    let mut start: usize = 0;
    let mut i: usize = 0;
    assert(s@.subrange(0, 0) =~= Seq::<char>::empty());
    assert(texts(parts@).push(s@.subrange(0, 0)) =~= seq![Seq::<char>::empty()]);
    while i < n
        invariant
            n == s@.len(),
            start <= i <= n,
            texts(parts@).push(s@.subrange(start as int, i as int)) == split_on(
                s@.subrange(0, i as int),
                ',',
            ),
        decreases n - i,
    {
        let c = s.get_char(i);
        let ghost prefix = s@.subrange(0, i as int + 1);
        assert(prefix.drop_last() =~= s@.subrange(0, i as int));
        assert(prefix.last() == c);
        let ghost old_parts = texts(parts@);
        if c == ',' {
            let piece = String::from_str(s.substring_char(start, i));
            parts.push(piece);
            assert(texts(parts@) =~= old_parts.push(s@.subrange(start as int, i as int)));
            start = i + 1;
            assert(s@.subrange(start as int, i as int + 1) =~= Seq::<char>::empty());
        } else {
            let ghost init = old_parts.push(s@.subrange(start as int, i as int));
            assert(s@.subrange(start as int, i as int + 1) =~= s@.subrange(start as int, i as int).push(c));
            assert(old_parts.push(s@.subrange(start as int, i as int + 1)) =~= init.update(
                init.len() - 1,
                init.last().push(c),
            ));
        }
        i = i + 1;
    }
    let last = String::from_str(s.substring_char(start, n));
    parts.push(last);
    assert(s@.subrange(0, n as int) =~= s@);
    assert(texts(parts@) =~= texts(parts@.drop_last()).push(s@.subrange(start as int, n as int)));
    parts
}

} // verus!
